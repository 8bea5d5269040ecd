use rockchip_universal_imager::gpt::{
    find_used_sector_boundary, gpt_offsets_in_range, is_all_zero, looks_blank, read_gpt_info, read_le_u32,
    read_le_u64, BoundarySearch, BOUNDARY_PRECISION,
};
use rockchip_universal_imager::loader_map::{entry_for, loader_map, soc_name};
use rockchip_universal_imager::logging::{log_directory, log_file_name, next_log_number, LogState};
use rockchip_universal_imager::numfmt::{i32_to_decimal, parse_i32, parse_i64, parse_u64, u16_to_hex4, u64_to_decimal};
use rockchip_universal_imager::output::{emit_line, emit_lines, is_progress_line, strip_ansi};
use rockchip_universal_imager::paths::{HostOs, PathModel};
use rockchip_universal_imager::progress::{
    flash_size_from_captures, parse_flash_size_sectors, parse_progress_percent, progress_from_captures,
};
use rockchip_universal_imager::rkdev::{
    chip_info_lines, combine_output, format_command_line, log_command, spawn_failure, sync_log_lines, sync_result,
    task_exit_result, tool_available, ProgressTracker, RkCommand,
};
use rockchip_universal_imager::storage::{
    is_known_storage, mask_has, preferred_storage, storage_bit, storage_mask, storage_name, STORAGE_EMMC,
    STORAGE_SD, STORAGE_SPI_NOR,
};
use rockchip_universal_imager::text::{contains_chars, join_with_spaces, lines_of, trim};

fn strings(v: &[&str]) -> Vec<String> {
    v.iter().map(|s| s.to_string()).collect()
}

fn path(root: &str, names: &[&str]) -> PathModel {
    PathModel { root: root.to_string(), names: strings(names) }
}

fn names_of(p: &PathModel) -> Vec<&str> {
    p.names.iter().map(|s| s.as_str()).collect()
}

// ----- storage targets -----

#[test]
fn storage_bits_and_names() {
    assert_eq!(storage_bit(STORAGE_EMMC), 1);
    assert_eq!(storage_bit(STORAGE_SD), 2);
    assert_eq!(storage_bit(STORAGE_SPI_NOR), 4);
    assert_eq!(storage_bit(3), 0);
    assert_eq!(storage_name(1), "eMMC");
    assert_eq!(storage_name(2), "SD card");
    assert_eq!(storage_name(9), "SPI NOR");
    assert_eq!(storage_name(7), "storage");
    assert!(is_known_storage(9));
    assert!(!is_known_storage(4));
    assert!(!is_known_storage(0));
}

#[test]
fn storage_mask_and_preference() {
    let m = storage_mask(true, false, true);
    assert_eq!(m, 5);
    assert!(mask_has(m, STORAGE_EMMC));
    assert!(!mask_has(m, STORAGE_SD));
    assert!(mask_has(m, STORAGE_SPI_NOR));
    assert!(!mask_has(7, 3));
    assert_eq!(preferred_storage(storage_mask(false, true, true)), STORAGE_SD);
    assert_eq!(preferred_storage(storage_mask(false, false, true)), STORAGE_SPI_NOR);
    assert_eq!(preferred_storage(storage_mask(true, true, true)), STORAGE_EMMC);
    assert_eq!(preferred_storage(0), 0);
}

// ----- numbers -----

#[test]
fn decimal_rendering() {
    assert_eq!(u64_to_decimal(0), "0");
    assert_eq!(u64_to_decimal(1234567890), "1234567890");
    assert_eq!(u64_to_decimal(u64::MAX), u64::MAX.to_string());
    assert_eq!(i32_to_decimal(-42), "-42");
    assert_eq!(i32_to_decimal(i32::MIN), "-2147483648");
    assert_eq!(i32_to_decimal(7), "7");
}

#[test]
fn hex_rendering() {
    assert_eq!(u16_to_hex4(0x350b), "350B");
    assert_eq!(u16_to_hex4(0x2207), "2207");
    assert_eq!(u16_to_hex4(0xab), "00AB");
    assert_eq!(u16_to_hex4(0xffff), "FFFF");
}

#[test]
fn integer_parsing_follows_str_parse() {
    assert_eq!(parse_u64("+17"), Some(17));
    assert_eq!(parse_u64("0"), Some(0));
    assert_eq!(parse_u64(""), None);
    assert_eq!(parse_u64("-1"), None);
    assert_eq!(parse_u64("12a"), None);
    assert_eq!(parse_u64("18446744073709551615"), Some(u64::MAX));
    assert_eq!(parse_u64("18446744073709551616"), None);
    assert_eq!(parse_i32("-2147483648"), Some(i32::MIN));
    assert_eq!(parse_i32("2147483647"), Some(i32::MAX));
    assert_eq!(parse_i32("2147483648"), None);
    assert_eq!(parse_i32("+5"), Some(5));
    assert_eq!(parse_i32("-"), None);
    assert_eq!(parse_i64("-9223372036854775808"), Some(i64::MIN));
    assert_eq!(parse_i64("9223372036854775808"), None);
    for s in ["", "+", "-0", "007", "+-1", " 1", "99999999999"] {
        assert_eq!(parse_i32(s), s.parse::<i32>().ok(), "{s:?}");
    }
}

#[test]
fn decimal_round_trip() {
    for n in [0u64, 9, 10, 65535, 1 << 40, u64::MAX] {
        assert_eq!(parse_u64(&u64_to_decimal(n)), Some(n));
    }
    for v in [i32::MIN, -1, 0, 1, i32::MAX] {
        assert_eq!(parse_i32(&i32_to_decimal(v)), Some(v));
    }
}

// ----- text -----

#[test]
fn lines_follow_str_lines() {
    assert_eq!(lines_of("a\r\nb\n\nc"), strings(&["a", "b", "", "c"]));
    assert_eq!(lines_of("a\n"), strings(&["a"]));
    assert_eq!(lines_of(""), Vec::<String>::new());
    assert_eq!(lines_of("x\ry\n"), strings(&["x\ry"]));
}

#[test]
fn trim_and_join() {
    assert_eq!(trim("  x y \t\n"), "x y");
    assert_eq!(trim("\u{3000}z\u{a0}"), "z");
    assert_eq!(trim(""), "");
    assert_eq!(join_with_spaces(&strings(&["wl", "0", "a.img"])), "wl 0 a.img");
    assert_eq!(join_with_spaces(&[]), "");
    let hay: Vec<char> = "total 5".chars().collect();
    let pat: Vec<char> = "tal".chars().collect();
    assert!(contains_chars(&hay, &pat));
    let pat2: Vec<char> = "xyz".chars().collect();
    assert!(!contains_chars(&hay, &pat2));
}

// ----- rkdeveloptool output -----

#[test]
fn strip_ansi_removes_escape_sequences() {
    assert_eq!(strip_ansi("\u{1b}[32mOK\u{1b}[0m"), "OK");
    assert_eq!(strip_ansi("plain text"), "plain text");
    assert_eq!(strip_ansi("a\u{1b}["), "a");
    assert_eq!(strip_ansi("x\u{1b}y"), "x\u{1b}y");
    assert_eq!(strip_ansi("\u{1b}[1;31mErr\u{1b}[0m: 5"), "Err: 5");
}

#[test]
fn progress_lines() {
    assert!(is_progress_line("Download image... 42%"));
    assert!(is_progress_line("total 100K, current 50K"));
    assert!(!is_progress_line("total only"));
    assert!(!is_progress_line("Test Device OK."));
}

#[test]
fn emit_lines_keeps_the_unfinished_line() {
    let mut buf = String::from("one\r\n\u{1b}[1mtwo\u{1b}[0m\rthree 50%\npart");
    let lines = emit_lines(&mut buf);
    let got: Vec<(&str, bool)> = lines.iter().map(|l| (l.text.as_str(), l.progress)).collect();
    assert_eq!(got, vec![("one", false), ("two", false), ("three 50%", true)]);
    assert_eq!(buf, "part");

    let mut buf2 = String::from("a\r");
    let l2 = emit_lines(&mut buf2);
    assert_eq!(l2.len(), 1);
    assert_eq!(buf2, "");
    let mut buf3 = String::from("\nb");
    let l3 = emit_lines(&mut buf3);
    assert_eq!(l3.len(), 1);
    assert_eq!(l3[0].text, "");
    assert_eq!(buf3, "b");

    let logs: Vec<Option<&str>> = lines.iter().map(|l| l.log_line.as_deref()).collect();
    assert_eq!(logs, vec![Some("[rkdev] one"), Some("[rkdev] two"), None]);

    let mut buf4 = String::from("a\r\nb\r\u{1b}[0mc\n\nrest");
    let l4 = emit_lines(&mut buf4);
    let texts: Vec<&str> = l4.iter().map(|l| l.text.as_str()).collect();
    assert_eq!(texts, vec!["a", "b", "c", ""]);
    let logs: Vec<Option<&str>> = l4.iter().map(|l| l.log_line.as_deref()).collect();
    assert_eq!(logs, vec![Some("[rkdev] a"), Some("[rkdev] b"), Some("[rkdev] c"), None]);
    assert_eq!(buf4, "rest");

    let e = emit_line("\u{1b}[2K 7%");
    assert!(e.log_line.is_none());
    assert_eq!(e.text, " 7%");
    assert!(e.progress);
}

#[test]
fn progress_percent_from_lines() {
    assert_eq!(parse_progress_percent("Download image... 42%"), Some(42));
    assert_eq!(parse_progress_percent("150%"), Some(100));
    assert_eq!(parse_progress_percent("at 1234% now"), Some(100));
    assert_eq!(parse_progress_percent("total 200K, current 50K"), Some(25));
    assert_eq!(parse_progress_percent("TOTAL 10, CURRENT 5"), Some(50));
    assert_eq!(parse_progress_percent("total 0, current 5"), None);
    assert_eq!(parse_progress_percent("total 3, current 9"), Some(100));
    assert_eq!(parse_progress_percent("no progress here"), None);
}

#[test]
fn progress_from_given_captures() {
    let pct = Some(strings(&["7%", "7"]));
    assert_eq!(progress_from_captures(&pct, &None), Some(7));
    let bad = Some(strings(&["x%", "x"]));
    let counter = Some(strings(&["total 4, current 1", "4", "1"]));
    assert_eq!(progress_from_captures(&bad, &counter), Some(25));
    assert_eq!(progress_from_captures(&None, &None), None);
}

#[test]
fn flash_size_from_flash_info() {
    assert_eq!(parse_flash_size_sectors("Flash Info:\n\tFlash Size: 30528MB\n"), Some(62521344));
    assert_eq!(parse_flash_size_sectors("flash size : 1 mb"), Some(2048));
    assert_eq!(parse_flash_size_sectors("1000 sectors"), Some(1000));
    assert_eq!(parse_flash_size_sectors("Sector: 1 SECTOR"), Some(1));
    assert_eq!(parse_flash_size_sectors("nothing to see"), Some(0));
    assert_eq!(parse_flash_size_sectors("Flash Size: 99999999999999999MB"), None);
    let mb = Some(strings(&["Flash Size: 2MB", "2"]));
    assert_eq!(flash_size_from_captures(&mb, &None), Some(4096));
    let sectors = Some(strings(&["12 sectors", "12"]));
    assert_eq!(flash_size_from_captures(&None, &sectors), Some(12));
}

#[test]
fn progress_tracker_reports_changes_only() {
    let mut t = ProgressTracker::new();
    assert_eq!(t.observe("10%"), Some(10));
    assert_eq!(t.observe("still 10%"), None);
    assert_eq!(t.observe("plain"), None);
    assert_eq!(t.observe("11%"), Some(11));
    assert_eq!(t.last, 11);
}

#[test]
fn command_lines() {
    let args = RkCommand::ReadLba { begin: 0, count: 34, path: "/tmp/p.bin".to_string() }.args();
    assert_eq!(args, strings(&["rl", "0", "34", "/tmp/p.bin"]));
    assert_eq!(RkCommand::ChangeStorage { storage: 9 }.args(), strings(&["cs", "9"]));
    assert_eq!(RkCommand::TestDevice.args(), strings(&["td"]));
    assert_eq!(RkCommand::EraseFlash.args(), strings(&["ef"]));
    assert_eq!(RkCommand::ResetDevice.args(), strings(&["rd"]));
    assert_eq!(RkCommand::WriteLba { path: "a.img".to_string() }.args(), strings(&["wl", "0", "a.img"]));
    assert_eq!(RkCommand::DownloadBoot { loader: "l.bin".to_string() }.args(), strings(&["db", "l.bin"]));
    assert_eq!(format_command_line(&strings(&["cs", "2"])), "cs 2");
    assert_eq!(log_command(&strings(&["rfi"])), "[rkdev] $ rkdeveloptool rfi");
}

#[test]
fn run_reports() {
    assert_eq!(combine_output("out", "err"), "out\nerr");
    assert_eq!(combine_output("", "err"), "err");
    assert_eq!(combine_output("out", ""), "out");

    let r = sync_result(0, false, "ok");
    assert_eq!((r.exit_code, r.was_cancelled, r.error_message.as_str()), (0, false, ""));
    let r = sync_result(1, false, "first\nlast line\n");
    assert_eq!((r.exit_code, r.was_cancelled, r.error_message.as_str()), (1, false, "last line"));
    let r = sync_result(2, false, "");
    assert_eq!(r.error_message, "rkdeveloptool failed");
    let r = sync_result(0, true, "x");
    assert_eq!((r.exit_code, r.was_cancelled, r.error_message.as_str()), (-1, true, "rkdeveloptool timed out"));

    assert!(rockchip_universal_imager::rkdev::timeout_expired(Some(5_000_000_000), 5_000_000_001));
    assert!(!rockchip_universal_imager::rkdev::timeout_expired(Some(5_000_000_000), 5_000_000_000));
    assert!(!rockchip_universal_imager::rkdev::timeout_expired(None, u128::MAX));
    let g = rockchip_universal_imager::rkdev::run_failure("gone");
    assert_eq!((g.exit_code, g.was_cancelled, g.error_message.as_str()), (-1, false, "gone"));
    let f = spawn_failure("No such file");
    assert_eq!((f.exit_code, f.was_cancelled), (-1, false));
    assert_eq!(f.error_message, "failed to start rkdeveloptool: No such file");

    let t = task_exit_result(3, false);
    assert_eq!(t.error_message, "rkdeveloptool failed with exit code 3");
    assert_eq!(task_exit_result(3, true).error_message, "");
    assert_eq!(task_exit_result(0, false).error_message, "");

    assert_eq!(
        sync_log_lines("\u{1b}[1mhello\u{1b}[0m\n\n50%\nbye"),
        strings(&["[rkdev] hello", "[rkdev] bye"])
    );
    assert_eq!(
        chip_info_lines("Chip Info:  38 38 35 33\nother\nCHIP x"),
        strings(&["[app] Chip Info:  38 38 35 33", "[app] CHIP x"])
    );
    assert!(tool_available(&Ok(path("/", &["opt", "rkdeveloptool"]))));
    assert!(!tool_available(&Err("missing".to_string())));
}

// ----- partition table and sectors -----

fn gpt_image(entries: &[(bool, u64)]) -> Vec<u8> {
    let mut buf = vec![0u8; 34 * 512];
    buf[512..520].copy_from_slice(&0x5452_4150_2049_4645u64.to_le_bytes());
    buf[584..592].copy_from_slice(&2u64.to_le_bytes());
    buf[592..596].copy_from_slice(&(entries.len() as u32).to_le_bytes());
    buf[596..600].copy_from_slice(&128u32.to_le_bytes());
    for (i, (used, last)) in entries.iter().enumerate() {
        let off = 1024 + i * 128;
        if *used {
            buf[off] = 0xa2;
        }
        buf[off + 40..off + 48].copy_from_slice(&last.to_le_bytes());
    }
    buf
}

#[test]
fn little_endian_reads() {
    let b = [1u8, 2, 3, 4, 5, 6, 7, 8, 9];
    assert_eq!(read_le_u64(&b, 0), Some(0x0807060504030201));
    assert_eq!(read_le_u64(&b, 2), None);
    assert_eq!(read_le_u32(&b, 5), Some(0x09080706));
    assert_eq!(read_le_u32(&b, 6), None);
    assert!(is_all_zero(&[0, 0, 1], 0, 2));
    assert!(!is_all_zero(&[0, 0, 1], 1, 2));
    assert!(is_all_zero(&[0, 1], 1, 5));
}

#[test]
fn partition_table_last_used_lba() {
    let buf = gpt_image(&[(true, 2047), (false, 999_999), (true, 5_000_000), (true, 100)]);
    assert!(gpt_offsets_in_range(&buf));
    assert_eq!(read_gpt_info(&buf).map(|g| g.last_used_lba), Some(5_000_000));

    let empty = gpt_image(&[(false, 7)]);
    assert!(read_gpt_info(&empty).is_none());

    let mut no_sig = gpt_image(&[(true, 7)]);
    no_sig[512] = 0;
    assert!(read_gpt_info(&no_sig).is_none());
    assert!(read_gpt_info(&[0u8; 100]).is_none());
}

#[test]
fn blank_sectors() {
    assert!(looks_blank(&[0, 0, 0]));
    assert!(looks_blank(&[0xff, 0xff]));
    assert!(!looks_blank(&[0, 1]));
    assert!(!looks_blank(&[]));
}

#[test]
fn boundary_search_steps() {
    let mut s = BoundarySearch::new(1_000_000);
    assert_eq!((s.lo, s.hi), (0, 1_000_000));
    assert_eq!(s.next_probe(), Some(500_000));
    s.record(true);
    assert_eq!((s.lo, s.hi), (0, 500_000));
    assert_eq!(s.next_probe(), Some(250_000));
    s.record(false);
    assert_eq!((s.lo, s.hi), (250_000, 500_000));
    assert_eq!(s.next_probe(), Some(375_000));
    s.record(true);
    assert_eq!((s.lo, s.hi), (250_000, 375_000));
    assert_eq!(s.next_probe(), None);
    assert_eq!(s.result(), 312_500);
}

#[test]
fn boundary_of_written_data() {
    let end: u64 = 3_000_000;
    let found = find_used_sector_boundary(10_000_000, |begin, count| {
        let n = (count * 512) as usize;
        if begin < end {
            Some((0..n).map(|i| i as u8).collect())
        } else {
            Some(vec![0xff; n])
        }
    });
    assert!(found <= 10_000_000);
    assert!(found.abs_diff(end) <= BOUNDARY_PRECISION);

    assert_eq!(find_used_sector_boundary(BOUNDARY_PRECISION, |_, _| None), 0);
    assert_eq!(find_used_sector_boundary(10_000_000, |_, c| Some(vec![0; (c * 512) as usize])), 0);
    let full = find_used_sector_boundary(10_000_000, |_, _| None);
    assert!(full >= 10_000_000 - BOUNDARY_PRECISION);
}

// ----- loader map -----

#[test]
fn loader_map_lookups() {
    let e = entry_for(0x2207, 0x350b).unwrap();
    assert_eq!(e.soc, "RK3588");
    assert_eq!(e.filename, Some("rk3588_spl_loader_v1.15.113.bin"));
    assert_eq!(soc_name(0x2207, 0x350a), Some("RK3568"));
    assert_eq!(entry_for(0x2207, 0x350a).unwrap().filename, None);
    assert!(entry_for(0x2207, 0x1234).is_none());
    assert!(soc_name(0x1234, 0x350b).is_none());
    let map = loader_map();
    assert_eq!(map.len(), 24);
    for (i, a) in map.iter().enumerate() {
        for b in &map[i + 1..] {
            assert!((a.vid, a.pid) != (b.vid, b.pid));
        }
    }
}

// ----- session log -----

#[test]
fn log_progress_lines_replace_each_other() {
    let mut s = LogState::new();
    let w = s.write_line("[app] launched (portable=false)");
    assert_eq!((w.truncate_to, w.write_at, w.replace), (None, 0, false));
    s.written(false, 32);
    let p1 = s.write_progress("rkdev", "10%");
    assert_eq!(p1.line, "[rkdev] 10%");
    assert_eq!((p1.truncate_to, p1.write_at, p1.replace), (None, 32, false));
    s.written(true, 12);
    let p2 = s.write_progress("rkdev", "20%");
    assert_eq!((p2.truncate_to, p2.write_at, p2.replace), (Some(32), 32, true));
    s.written(true, 12);
    let l = s.write_line("done");
    assert_eq!((l.truncate_to, l.write_at, l.replace), (None, 44, false));
    s.written(false, 5);
    let p3 = s.write_progress("rkdev", "1%");
    assert_eq!((p3.truncate_to, p3.write_at, p3.replace), (None, 49, false));
}

#[test]
fn log_file_numbering() {
    let names = strings(&["log1.txt", "log7.txt", "log3.txt", "other.txt", "log-2.txt", "logx.txt", "log.txt"]);
    assert_eq!(next_log_number(&names), 8);
    assert_eq!(next_log_number(&[]), 1);
    assert_eq!(next_log_number(&strings(&["log-5.txt", "log+0.txt"])), 1);
    assert_eq!(log_file_name(8), "log8.txt");
    assert!(rockchip_universal_imager::logging::log_numbers_ok(&names));
    assert!(!rockchip_universal_imager::logging::log_numbers_ok(&strings(&["log1.txt", "log+2147483647.txt"])));
}

#[test]
fn log_directory_choice() {
    let exe = path("/", &["opt", "app", "bin"]);
    let home = || Some(path("/", &["home", "u"]));
    let d = log_directory(HostOs::Linux, home(), None, None, &exe);
    assert_eq!(names_of(&d), vec!["home", "u", ".local", "state", "rockchip-universal-imager", "logs"]);
    let d = log_directory(HostOs::Linux, home(), None, Some(path("/", &["x"])), &exe);
    assert_eq!(names_of(&d), vec!["x", "rockchip-universal-imager", "logs"]);
    let d = log_directory(HostOs::Linux, home(), None, Some(path("", &[])), &exe);
    assert_eq!(names_of(&d), vec!["home", "u", ".local", "state", "rockchip-universal-imager", "logs"]);
    let d = log_directory(HostOs::Linux, None, None, None, &exe);
    assert_eq!(names_of(&d), vec!["opt", "app", "bin", "log"]);
    let d = log_directory(HostOs::MacOs, home(), None, None, &exe);
    assert_eq!(names_of(&d), vec!["home", "u", "Library", "Logs", "RockchipUniversalImager"]);
    let d = log_directory(HostOs::Windows, None, Some(path("C:\\", &["L"])), None, &exe);
    assert_eq!(d.root, "C:\\");
    assert_eq!(names_of(&d), vec!["L", "RockchipUniversalImager", "logs"]);
    let d = log_directory(HostOs::Windows, home(), None, None, &exe);
    assert_eq!(names_of(&d), vec!["opt", "app", "bin", "log"]);
}
