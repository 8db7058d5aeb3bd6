use event_listener::event_handler::to_hex;

#[test]
fn hex_of_empty_is_empty() {
    assert_eq!(to_hex(&[]), "");
}

#[test]
fn hex_of_two_bytes() {
    assert_eq!(to_hex(&[0xAB, 0xCD]), "abcd");
}

#[test]
fn hex_pads_low_nibbles() {
    assert_eq!(to_hex(&[0x00, 0x0F, 0x10]), "000f10");
}

#[test]
fn hex_full_range() {
    assert_eq!(to_hex(&[0x01, 0x23, 0x45, 0x67, 0x89, 0xFE]), "0123456789fe");
}

#[test]
fn auth_handler_hex_agrees() {
    assert_eq!(
        event_listener::authorization_handler::to_hex(&[0xDE, 0xAD]),
        to_hex(&[0xDE, 0xAD])
    );
}
