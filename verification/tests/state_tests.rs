use freemouse::clipboard::ClipboardMonitor;
use freemouse::file_transfer::TransferTable;
use freemouse::pin::{format_pin, generate_pin, pin_from_bytes, pin_number_from_bytes, PIN_RANGE};

#[test]
fn transfers_open_grow_and_close() {
    let mut t = TransferTable::new();
    t.begin(1, "a.txt".to_string(), 10, "/tmp/a.txt".to_string());
    assert!(t.contains(1));
    assert!(!t.contains(2));
    t.record_chunk(1, 4);
    t.record_chunk(1, 6);
    t.record_chunk(2, 100);
    assert_eq!(t.transfers[0].received, 10);
    t.record_chunk(1, u64::MAX);
    assert_eq!(t.transfers[0].received, u64::MAX);
    t.begin(1, "b.txt".to_string(), 3, "/tmp/b.txt".to_string());
    assert_eq!(t.transfers.len(), 1);
    assert_eq!(t.transfers[0].received, 0);
    assert_eq!(t.transfers[0].filename, "b.txt");
    let done = t.finish(1).unwrap();
    assert_eq!(done.path, "/tmp/b.txt");
    assert!(!t.contains(1));
    assert!(t.finish(1).is_none());
}

#[test]
fn clipboard_sends_new_text_only() {
    let mut m = ClipboardMonitor::new(Some("start".to_string()));
    assert_eq!(m.poll(false, Some("start".to_string())), None);
    assert_eq!(m.poll(false, Some("copied".to_string())), Some("copied".to_string()));
    assert_eq!(m.poll(false, Some("copied".to_string())), None);
    assert_eq!(m.poll(false, Some(String::new())), None);
    assert_eq!(m.poll(false, None), None);
    assert_eq!(m.last_text, "copied");
}

#[test]
fn clipboard_does_not_echo_own_text() {
    let mut m = ClipboardMonitor::new(None);
    assert_eq!(m.last_text, "");
    assert_eq!(m.poll(true, Some("from peer".to_string())), None);
    assert_eq!(m.poll(false, Some("from peer".to_string())), None);
    assert_eq!(m.poll(true, None), None);
    assert_eq!(m.last_text, "");
}

#[test]
fn pins_have_six_digits() {
    assert_eq!(format_pin(0), "000000");
    assert_eq!(format_pin(42), "000042");
    assert_eq!(format_pin(123456), "123456");
    assert_eq!(format_pin(999998), "999998");
    assert_eq!(PIN_RANGE, 999999);
    for _ in 0..20 {
        let p = generate_pin().unwrap();
        assert_eq!(p.len(), 6);
        assert!(p.chars().all(|c| c.is_ascii_digit()));
        assert!(p.parse::<u32>().unwrap() < PIN_RANGE);
    }
}

#[test]
fn pin_bytes_reduce_little_endian_modulo_range() {
    assert_eq!(pin_number_from_bytes(&[1, 0, 0, 0, 0, 0, 0, 0]), 1);
    assert_eq!(pin_number_from_bytes(&[0, 1, 0, 0, 0, 0, 0, 0]), 256);
    assert_eq!(pin_number_from_bytes(&[0x3f, 0x42, 0x0f, 0, 0, 0, 0, 0]), 0);
    assert_eq!(pin_number_from_bytes(&[0x40, 0x42, 0x0f, 0, 0, 0, 0, 0]), 1);
    assert_eq!(pin_number_from_bytes(&[8, 7, 6, 5, 4, 3, 2, 1]), 315270);
    assert_eq!(pin_number_from_bytes(&[0xff; 8]), 72087);
    assert_eq!(pin_from_bytes(&[0x3e, 0x42, 0x0f, 0, 0, 0, 0, 0]), "999998");
    assert_eq!(pin_from_bytes(&[0xff; 8]), "072087");
}
