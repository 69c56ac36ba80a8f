use codex_monitor_web::utf8::{ReaderStep, Utf8Stream};

#[test]
fn split_multibyte_char_comes_out_once() {
    let mut s = Utf8Stream::new();
    // "é" is C3 A9; the read boundary falls inside it.
    let a = s.feed(&[b'a', 0xC3]);
    assert_eq!(a, "a");
    assert_eq!(s.pending(), &[0xC3]);
    let b = s.feed(&[0xA9, b'b']);
    assert_eq!(b, "éb");
    assert!(s.pending().is_empty());
    assert_eq!(format!("{a}{b}"), "aéb");
}

#[test]
fn four_byte_char_over_three_reads() {
    let bytes = "😀".as_bytes();
    let mut s = Utf8Stream::new();
    assert_eq!(s.feed(&bytes[..1]), "");
    assert_eq!(s.feed(&bytes[1..3]), "");
    assert_eq!(s.feed(&bytes[3..]), "😀");
    assert!(s.pending().is_empty());
}

#[test]
fn invalid_byte_before_ascii_is_dropped() {
    let mut s = Utf8Stream::new();
    assert_eq!(s.feed(&[0xFF, b'h', b'i']), "hi");
    assert!(s.pending().is_empty());
}

#[test]
fn lone_continuation_and_broken_lead_are_dropped() {
    let mut s = Utf8Stream::new();
    assert_eq!(s.feed(&[0x80, b'x', 0xE2, 0x82, b'y']), "xy");
}

#[test]
fn overlong_and_surrogate_forms_are_rejected() {
    let mut s = Utf8Stream::new();
    // C0 80 is an overlong NUL, ED A0 80 a surrogate: both are skipped.
    assert_eq!(s.feed(&[0xC0, 0x80, b'a', 0xED, 0xA0, 0x80, b'b']), "ab");
}

#[test]
fn euro_sign_decodes_exactly() {
    let mut s = Utf8Stream::new();
    assert_eq!(s.feed(&[0xE2, 0x82, 0xAC]), "€");
}

#[test]
fn split_reads_equal_one_read() {
    let text = "héllo wörld ✓ 😀 end".as_bytes();
    for cut in 0..=text.len() {
        let mut s = Utf8Stream::new();
        let mut out = s.feed(&text[..cut]);
        out.push_str(&s.feed(&text[cut..]));
        assert_eq!(out, "héllo wörld ✓ 😀 end", "cut at {cut}");
    }
}

#[test]
fn unfinished_char_waits_in_pending() {
    let mut s = Utf8Stream::new();
    assert_eq!(s.feed(&[b'o', b'k', 0xF0, 0x9F]), "ok");
    assert_eq!(s.pending(), &[0xF0, 0x9F]);
}

#[test]
fn empty_read_emits_nothing() {
    let mut s = Utf8Stream::new();
    assert_eq!(s.feed(&[]), "");
}

#[test]
fn reader_steps() {
    let mut s = Utf8Stream::new();
    assert!(matches!(s.step(Some(&[0xE2, 0x82])), ReaderStep::Wait));
    match s.step(Some(&[0xAC, b'!'])) {
        ReaderStep::Output(t) => assert_eq!(t, "€!"),
        _ => panic!("expected output"),
    }
    assert!(matches!(s.step(Some(&[])), ReaderStep::Exit));
    assert!(matches!(s.step(None), ReaderStep::Exit));
}

#[test]
fn any_cut_into_three_reads_equals_one_read() {
    let bytes: Vec<u8> = [&b"a\xff"[..], "é€😀".as_bytes(), &b"\xe2\x82z"[..], "ß".as_bytes()].concat();
    let mut whole = Utf8Stream::new();
    let expected = whole.feed(&bytes);
    assert_eq!(expected, "aé€😀zß");
    for i in 0..=bytes.len() {
        for j in i..=bytes.len() {
            let mut s = Utf8Stream::new();
            let mut out = s.feed(&bytes[..i]);
            out.push_str(&s.feed(&bytes[i..j]));
            out.push_str(&s.feed(&bytes[j..]));
            assert_eq!(out, expected, "cuts at {i} and {j}");
            assert!(s.pending().is_empty());
        }
    }
}
