use ts_appsrc::items::{stream_id, StartIds};

#[test]
fn stream_id_is_sixteen_hex_digits() {
    assert_eq!(stream_id(0xdeadbeef, 1), b"deadbeef00000001".to_vec());
    assert_eq!(stream_id(0, 0), b"0000000000000000".to_vec());
    assert_eq!(stream_id(u32::MAX, 0x0a0b0c0d), b"ffffffff0a0b0c0d".to_vec());
}

#[test]
fn drawn_ids_keep_group() {
    let ids = StartIds::draw(42);
    assert_eq!(ids.group_id, 42);
    let id = stream_id(ids.stream_hi, ids.stream_lo);
    assert_eq!(id.len(), 16);
    assert!(id.iter().all(|c| c.is_ascii_hexdigit() && !c.is_ascii_uppercase()));
}
