use nfc::str_to_connarr;

#[test]
fn short_string_is_copied_and_zero_padded() {
    let buf = str_to_connarr("conn:string");
    assert_eq!(&buf[..11], b"conn:string");
    assert!(buf[11..].iter().all(|&b| b == 0));
    assert_eq!(buf.len(), 1024);
}

#[test]
fn empty_string_gives_zero_buffer() {
    let buf = str_to_connarr("");
    assert!(buf.iter().all(|&b| b == 0));
}

#[test]
fn string_of_exactly_buffer_size_is_kept_whole() {
    let s = "a".repeat(1024);
    let buf = str_to_connarr(&s);
    assert!(buf.iter().all(|&b| b == b'a'));
}

#[test]
fn long_string_is_truncated_to_buffer_size() {
    let s: String = (0..1500).map(|i| (b'a' + (i % 26) as u8) as char).collect();
    let buf = str_to_connarr(&s);
    assert_eq!(&buf[..], &s.as_bytes()[..1024]);
}
