use gsb_connect::alert::{Alert, AlertKind};
use gsb_connect::autostart::{run_command, wide, AUTOSTART_FLAG};
use gsb_connect::text::{decimal_string, replace_all, trimmed};

#[test]
fn alert_expiry() {
    let a = Alert::new("hi".to_string(), AlertKind::Warning, Some(4000), 1000);
    assert_eq!(a.message(), "hi");
    assert_eq!(a.kind(), AlertKind::Warning);
    assert!(!a.is_expired(1000));
    assert!(!a.is_expired(4999));
    assert!(a.is_expired(5000));
    assert!(!a.is_expired(10));
    assert_eq!(a.remaining_ms(2000), Some(3000));
    assert_eq!(a.remaining_ms(9000), Some(0));
    let sticky = Alert::new("x".to_string(), AlertKind::Info, None, 0);
    assert!(!sticky.is_expired(u64::MAX));
    assert_eq!(sticky.remaining_ms(5), None);
    assert_eq!(AlertKind::Error.accent(), (0xE5, 0x53, 0x53));
}

#[test]
fn autostart_command() {
    assert_eq!(run_command("C:\\Apps\\GSB Connect.exe"), "\"C:\\Apps\\GSB Connect.exe\" --autostart");
    assert_eq!(AUTOSTART_FLAG, "--autostart");
    assert_eq!(wide("Aş😀"), vec![0x41, 0x15F, 0xD83D, 0xDE00, 0]);
    assert_eq!(wide(""), vec![0]);
}

#[test]
fn text_helpers() {
    assert_eq!(trimmed("\u{a0}\t x y \u{3000}"), "x y");
    assert_eq!(decimal_string(0), "0");
    assert_eq!(decimal_string(4294967295), "4294967295");
    assert_eq!(replace_all("{n}-{n}{", "{n}", "7"), "7-7{");
}
