use adb_studio::device::{parse_devices, Device};
use adb_studio::packages::{filter_packages, parse_packages};
use adb_studio::text::{contains_text, split_lines, split_words, starts_with};

fn serials(devices: &[Device]) -> Vec<String> {
    devices.iter().map(|d| d.serial.clone()).collect()
}

#[test]
fn parse_devices_single_emulator() {
    let devices = parse_devices("List of devices attached\nEMU123 device\n");
    assert_eq!(devices.len(), 1);
    assert_eq!(devices[0].serial, "EMU123");
    assert_eq!(devices[0].status, "device");
    assert_eq!(devices[0].model, "");
}

#[test]
fn parse_devices_several_rows_in_order() {
    let out = "List of devices attached\nR58M123 device\nemulator-5554 offline\nZX1 unauthorized\n";
    let devices = parse_devices(out);
    assert_eq!(serials(&devices), vec!["R58M123", "emulator-5554", "ZX1"]);
    assert_eq!(devices[1].status, "offline");
    assert_eq!(devices[2].status, "unauthorized");
}

#[test]
fn parse_devices_skips_short_rows() {
    let out = "List of devices attached\n\nlonely\n   \nA1 device\n";
    let devices = parse_devices(out);
    assert_eq!(serials(&devices), vec!["A1"]);
}

#[test]
fn parse_devices_keeps_first_two_words_of_long_rows() {
    let out = "List of devices attached\nA1\tdevice usb:1-1 product:x model:Pixel\n";
    let devices = parse_devices(out);
    assert_eq!(devices.len(), 1);
    assert_eq!(devices[0].serial, "A1");
    assert_eq!(devices[0].status, "device");
    assert_eq!(devices[0].model, "");
}

#[test]
fn parse_devices_header_only_or_empty() {
    assert!(parse_devices("").is_empty());
    assert!(parse_devices("List of devices attached\n").is_empty());
    assert!(parse_devices("A1 device").is_empty());
}

#[test]
fn parse_devices_crlf_endings() {
    let devices = parse_devices("List of devices attached\r\nA1 device\r\nB2 offline");
    assert_eq!(serials(&devices), vec!["A1", "B2"]);
    assert_eq!(devices[0].status, "device");
    assert_eq!(devices[1].status, "offline");
}

#[test]
fn devices_equal_by_serial() {
    let a = Device { serial: "A1".to_string(), status: "device".to_string(), model: String::new() };
    let b = Device { serial: "A1".to_string(), status: "offline".to_string(), model: "x".to_string() };
    let c = Device { serial: "B2".to_string(), status: "device".to_string(), model: String::new() };
    assert!(a == b);
    assert!(a != c);
}

#[test]
fn parse_packages_two_names() {
    assert_eq!(parse_packages("package:com.a\npackage:com.b\n"), vec!["com.a", "com.b"]);
}

#[test]
fn parse_packages_drops_lines_without_marker() {
    let out = "package:com.a\nWARNING: linker\n  package:com.c\npackage:com.b";
    assert_eq!(parse_packages(out), vec!["com.a", "com.b"]);
}

#[test]
fn parse_packages_crlf_and_empty() {
    assert_eq!(parse_packages("package:com.a\r\npackage:\r\n"), vec!["com.a", ""]);
    assert!(parse_packages("").is_empty());
}

#[test]
fn filter_packages_ignores_case() {
    let names = vec!["com.Android.Chrome".to_string(), "org.example".to_string(), "COM.android.vending".to_string()];
    assert_eq!(filter_packages(&names, "ANDROID"), vec!["com.Android.Chrome", "COM.android.vending"]);
    assert_eq!(filter_packages(&names, "Example"), vec!["org.example"]);
    assert_eq!(filter_packages(&names, ""), names);
    assert!(filter_packages(&names, "zzz").is_empty());
}

#[test]
fn split_lines_like_std() {
    for s in ["", "a", "a\n", "a\r\nb", "a\n\nb\n", "x\r", "\n", "a\rb\n"] {
        let expected: Vec<String> = s.lines().map(|l| l.to_string()).collect();
        assert_eq!(split_lines(s), expected, "input {:?}", s);
    }
}

#[test]
fn split_words_like_std() {
    for s in ["", "  ", "a b", " a\t\tb \n c ", "x\u{a0}y\u{3000}z", "é ü"] {
        let expected: Vec<String> = s.split_whitespace().map(|w| w.to_string()).collect();
        assert_eq!(split_words(s), expected, "input {:?}", s);
    }
}

#[test]
fn text_searches() {
    assert!(contains_text("Performing Streamed Install\nSuccess\n", "Success"));
    assert!(!contains_text("Failure [INSTALL_FAILED]", "Success"));
    assert!(contains_text("abc", ""));
    assert!(!contains_text("ab", "abc"));
    assert!(starts_with("package:x", "package:"));
    assert!(!starts_with("pack", "package:"));
}
