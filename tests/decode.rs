use wifi_pass::wide::{decode_wide, terminator_position, DecodeError, MAX_DOCUMENT_UNITS};

fn wide(s: &str) -> Vec<u16> {
    let mut v: Vec<u16> = s.encode_utf16().collect();
    v.push(0);
    v
}

#[test]
fn decodes_up_to_terminator() {
    let mut units = wide("HomeNet");
    units.extend([65u16, 66, 0]);
    assert_eq!(decode_wide(&units).unwrap(), "HomeNet");
}

#[test]
fn decodes_non_ascii() {
    assert_eq!(decode_wide(&wide("Caf\u{e9} \u{1F600}")).unwrap(), "Caf\u{e9} \u{1F600}");
}

#[test]
fn lone_surrogate_is_replaced() {
    assert_eq!(decode_wide(&[0x41, 0xD800, 0x42, 0]).unwrap(), "A\u{FFFD}B");
}

#[test]
fn empty_text_at_terminator() {
    assert_eq!(decode_wide(&[0]).unwrap(), "");
    assert_eq!(terminator_position(&[0, 1]), Some(0));
}

#[test]
fn unterminated_buffer_fails() {
    assert_eq!(decode_wide(&[0x41, 0x42]).unwrap_err(), DecodeError::Unterminated);
    assert_eq!(decode_wide(&[]).unwrap_err(), DecodeError::Unterminated);
}

#[test]
fn terminator_beyond_bound_is_not_found() {
    let mut units = vec![0x41u16; MAX_DOCUMENT_UNITS];
    units.push(0);
    assert_eq!(terminator_position(&units), None);
    units[MAX_DOCUMENT_UNITS - 1] = 0;
    assert_eq!(terminator_position(&units), Some(MAX_DOCUMENT_UNITS - 1));
}
