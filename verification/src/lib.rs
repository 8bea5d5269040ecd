//! Verified core of the Rockchip Universal Imager: device tables, storage
//! target rules, parsers for `rkdeveloptool` output and GPT sectors, and the
//! decisions taken by the host application around each operation.

pub mod storage;

pub mod text;
pub mod numfmt;
pub mod output;
pub mod progress;
pub mod gpt;

pub mod rkdev;
pub mod loader_map;
pub mod paths;
pub mod platform;
pub mod device;
pub mod ops;
pub mod logging;
