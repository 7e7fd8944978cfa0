use aerogu34::panic_record::{take, Cursor, PanicRecord, MAGIC, PANIC_CODE, PANIC_MARKER};

fn written(parts: &[&str]) -> PanicRecord {
    let mut c = Cursor::new([0xEE; 240]);
    for p in parts {
        c.write_str(p);
    }
    c.seal()
}

#[test]
fn panic_marker_carries_the_panic_code() {
    assert_eq!(PANIC_CODE, 0x0F);
    assert_eq!(PANIC_MARKER, 0xAF);
}

#[test]
fn cursor_appends_and_stops_at_the_end() {
    let mut c = Cursor::new([0; 240]);
    c.write_str("panicked at ");
    c.write_str("src/main.rs:3:5");
    assert_eq!(c.len, 27);
    assert_eq!(&c.buf[..27], b"panicked at src/main.rs:3:5");
    assert_eq!(c.buf[27], 0);
    let long = "x".repeat(300);
    c.write_str(&long);
    assert_eq!(c.len, 240);
    assert_eq!(c.buf[239], b'x');
    c.write_str("more");
    assert_eq!(c.len, 240);
}

#[test]
fn sealed_record_is_marked() {
    let r = written(&["abc"]);
    assert_eq!(r.magic, MAGIC);
    assert_eq!(r.len, 3);
    assert_eq!(&r.text[..3], b"abc");
    assert_eq!(r.text[3], 0xEE);
}

#[test]
fn message_reads_back_and_is_cleared() {
    let mut r = written(&["panicked at ", "src/status_led.rs:10:1:\n", "boom"]);
    let text = take(&mut r).expect("a message");
    assert_eq!(text.as_str(), "panicked at src/status_led.rs:10:1:\nboom");
    assert_eq!(r.magic, 0);
    assert!(take(&mut r).is_none());
}

#[test]
fn non_ascii_message_reads_back() {
    let mut r = written(&["電池が切れた"]);
    assert_eq!(take(&mut r).unwrap().as_str(), "電池が切れた");
}

#[test]
fn long_message_is_cut_at_capacity() {
    let long = "y".repeat(500);
    let mut r = written(&[&long]);
    assert_eq!(r.len, 240);
    assert_eq!(take(&mut r).unwrap().as_str(), "y".repeat(240));
}

#[test]
fn cut_inside_a_character_reads_as_invalid() {
    let head = "a".repeat(239);
    let mut r = written(&[&head, "é"]);
    assert_eq!(r.len, 240);
    assert_eq!(take(&mut r).unwrap().as_str(), "<invalid utf-8>");
}

#[test]
fn corrupt_length_is_clamped() {
    let mut r = written(&["z"]);
    r.text = [b'z'; 240];
    r.len = 100_000;
    assert_eq!(take(&mut r).unwrap().as_str(), "z".repeat(240));
}

#[test]
fn record_without_the_magic_holds_nothing() {
    let mut r = PanicRecord { magic: 0x1234_5678, len: 3, text: [b'a'; 240] };
    let before = r;
    assert!(take(&mut r).is_none());
    assert_eq!(r, before);
}
