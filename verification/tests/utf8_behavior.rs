use greet_server::utf8::sanitize_bytes;

const R: [u8; 3] = [0xEF, 0xBF, 0xBD];

#[test]
fn ascii_passes_through() {
    assert_eq!(sanitize_bytes(b"ping"), b"ping".to_vec());
}

#[test]
fn empty_input_stays_empty() {
    assert_eq!(sanitize_bytes(&[]), Vec::<u8>::new());
}

#[test]
fn two_byte_sequence_passes_through() {
    assert_eq!(sanitize_bytes(&[0xC3, 0xA9]), vec![0xC3, 0xA9]);
}

#[test]
fn three_byte_sequence_passes_through() {
    assert_eq!(sanitize_bytes(&[0xE2, 0x82, 0xAC]), vec![0xE2, 0x82, 0xAC]);
}

#[test]
fn four_byte_sequence_passes_through() {
    assert_eq!(sanitize_bytes(&[0xF0, 0x9F, 0x98, 0x80]), vec![0xF0, 0x9F, 0x98, 0x80]);
}

#[test]
fn lone_continuation_is_replaced() {
    assert_eq!(sanitize_bytes(&[0x80]), R.to_vec());
}

#[test]
fn invalid_lead_is_replaced() {
    assert_eq!(sanitize_bytes(&[0xFF]), R.to_vec());
}

#[test]
fn overlong_two_byte_gives_two_replacements() {
    let mut expected = R.to_vec();
    expected.extend_from_slice(&R);
    assert_eq!(sanitize_bytes(&[0xC0, 0xAF]), expected);
}

#[test]
fn truncated_three_byte_gives_one_replacement() {
    assert_eq!(sanitize_bytes(&[0xE2, 0x82]), R.to_vec());
}

#[test]
fn surrogate_gives_three_replacements() {
    let mut expected = R.to_vec();
    expected.extend_from_slice(&R);
    expected.extend_from_slice(&R);
    assert_eq!(sanitize_bytes(&[0xED, 0xA0, 0x80]), expected);
}

#[test]
fn truncated_four_byte_gives_one_replacement() {
    assert_eq!(sanitize_bytes(&[0xF0, 0x9F, 0x92]), R.to_vec());
}

#[test]
fn bad_continuation_keeps_following_byte() {
    assert_eq!(sanitize_bytes(&[0xC3, 0x28]), vec![0xEF, 0xBF, 0xBD, 0x28]);
}

#[test]
fn invalid_byte_between_ascii_is_replaced() {
    assert_eq!(sanitize_bytes(&[0x61, 0x80, 0x62]), vec![0x61, 0xEF, 0xBF, 0xBD, 0x62]);
}

#[test]
fn matches_std_lossy_decoding() {
    let cases: [&[u8]; 8] = [
        b"ping",
        &[0xFF, 0x00, 0x80],
        &[0xC0, 0xAF],
        &[0xE2, 0x82],
        &[0xED, 0xA0, 0x80],
        &[0xF0, 0x9F, 0x92],
        &[0xF4, 0x90, 0x80, 0x80],
        &[0x61, 0xC3, 0xA9, 0xF0, 0x9F, 0x98, 0x80, 0xFE],
    ];
    for case in cases {
        let expected = String::from_utf8_lossy(case).into_owned().into_bytes();
        assert_eq!(sanitize_bytes(case), expected);
    }
}
