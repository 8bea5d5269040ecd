//! Storage targets: their codes, names, availability bits and the order in
//! which the application prefers them.
use vstd::prelude::*;

verus! {

/// Storage target code for eMMC, as understood by `rkdeveloptool cs`.
pub const STORAGE_EMMC: u32 = 1;
/// Storage target code for an SD card.
pub const STORAGE_SD: u32 = 2;
/// Storage target code for SPI NOR flash.
pub const STORAGE_SPI_NOR: u32 = 9;

/// The bit that a storage target occupies in the availability mask.
pub open spec fn spec_storage_bit(storage: u32) -> u32 {
    if storage == STORAGE_EMMC {
        1
    } else if storage == STORAGE_SD {
        2
    } else if storage == STORAGE_SPI_NOR {
        4
    } else {
        0
    }
}

/// Bit of `storage` in the availability mask; 0 for an unknown target.
pub fn storage_bit(storage: u32) -> (bit: u32)
    ensures
        bit == spec_storage_bit(storage),
{
    match storage {
        STORAGE_EMMC => 1,
        STORAGE_SD => 2,
        STORAGE_SPI_NOR => 4,
        _ => 0,
    }
}


/// The name of a storage target as the interface shows it.
pub open spec fn storage_name_spec(storage: u32) -> Seq<char> {
    if storage == STORAGE_EMMC {
        "eMMC"@
    } else if storage == STORAGE_SD {
        "SD card"@
    } else if storage == STORAGE_SPI_NOR {
        "SPI NOR"@
    } else {
        "storage"@
    }
}

/// The name of a storage target; `storage` for an unknown one.
pub fn storage_name(storage: u32) -> (res: &'static str)
    ensures
        res@ == storage_name_spec(storage),
{
    match storage {
        STORAGE_EMMC => "eMMC",
        STORAGE_SD => "SD card",
        STORAGE_SPI_NOR => "SPI NOR",
        _ => "storage",
    }
}

/// One of the three storage targets the application knows.
pub open spec fn known_storage(storage: u32) -> bool {
    storage == STORAGE_EMMC || storage == STORAGE_SD || storage == STORAGE_SPI_NOR
}

/// Whether `storage` is a known storage target.
pub fn is_known_storage(storage: u32) -> (res: bool)
    ensures
        res == known_storage(storage),
{
    storage == STORAGE_EMMC || storage == STORAGE_SD || storage == STORAGE_SPI_NOR
}

/// The availability mask for the targets found: eMMC, SD card, SPI NOR.
pub open spec fn mask_spec(emmc: bool, sd: bool, spi_nor: bool) -> u32 {
    ((if emmc { 1int } else { 0int }) + (if sd { 2int } else { 0int }) + (if spi_nor { 4int } else { 0int })) as u32
}

/// The availability mask for the targets found.
pub fn storage_mask(emmc: bool, sd: bool, spi_nor: bool) -> (res: u32)
    ensures
        res == mask_spec(emmc, sd, spi_nor),
{
    let mut mask: u32 = 0;
    if emmc {
        mask = mask + 1;
    }
    if sd {
        mask = mask + 2;
    }
    if spi_nor {
        mask = mask + 4;
    }
    mask
}

/// Whether the target's bit is set in `mask`.
pub open spec fn in_mask(mask: u32, storage: u32) -> bool {
    spec_storage_bit(storage) != 0 && (mask / spec_storage_bit(storage)) % 2 == 1
}

/// Whether `storage` is available according to `mask`
/// (`mask & storage_bit(storage) != 0`).
pub fn mask_has(mask: u32, storage: u32) -> (res: bool)
    ensures
        res == in_mask(mask, storage),
{
    let bit = storage_bit(storage);
    if bit == 0 {
        return false;
    }
    let r = (mask & bit) != 0;
    assert(r == ((mask / bit) % 2 == 1)) by (bit_vector)
        requires
            bit == 1 || bit == 2 || bit == 4,
            r == ((mask & bit) != 0);
    r
}

/// The target chosen after a probe: eMMC first, then the SD card, then SPI
/// NOR; 0 when none was found.
pub open spec fn preferred_spec(mask: u32) -> u32 {
    if in_mask(mask, STORAGE_EMMC) {
        STORAGE_EMMC
    } else if in_mask(mask, STORAGE_SD) {
        STORAGE_SD
    } else if in_mask(mask, STORAGE_SPI_NOR) {
        STORAGE_SPI_NOR
    } else {
        0
    }
}

/// The target to select after a probe that found the targets in `mask`.
pub fn preferred_storage(mask: u32) -> (res: u32)
    ensures
        res == preferred_spec(mask),
{
    if mask_has(mask, STORAGE_EMMC) {
        STORAGE_EMMC
    } else if mask_has(mask, STORAGE_SD) {
        STORAGE_SD
    } else if mask_has(mask, STORAGE_SPI_NOR) {
        STORAGE_SPI_NOR
    } else {
        0
    }
}

/// Law: a target found by the probe is available in the mask built from the
/// probe, and the target chosen after it is one that was found (or none when
/// none was).
pub proof fn law_probe_choice_was_found(emmc: bool, sd: bool, spi_nor: bool)
    ensures
        in_mask(mask_spec(emmc, sd, spi_nor), STORAGE_EMMC) == emmc,
        in_mask(mask_spec(emmc, sd, spi_nor), STORAGE_SD) == sd,
        in_mask(mask_spec(emmc, sd, spi_nor), STORAGE_SPI_NOR) == spi_nor,
        preferred_spec(mask_spec(emmc, sd, spi_nor)) == (if emmc {
            STORAGE_EMMC
        } else if sd {
            STORAGE_SD
        } else if spi_nor {
            STORAGE_SPI_NOR
        } else {
            0
        }),
{
}

/// Law: every known target has a bit of its own in the mask, and an unknown
/// one has none.
pub proof fn law_storage_bits_distinct(a: u32, b: u32)
    ensures
        known_storage(a) <==> spec_storage_bit(a) != 0,
        known_storage(a) && known_storage(b) && a != b ==> spec_storage_bit(a) != spec_storage_bit(b),
{
}

} // verus!
