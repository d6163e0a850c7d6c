use ble_ll::ad_structure::{decode_ads, encode_ads, AdStructure, ConfigError, Flags};

fn name_ad(name: &[u8]) -> AdStructure {
    AdStructure::CompleteLocalName(name.to_vec())
}

#[test]
fn discoverable_flags_bits() {
    assert_eq!(Flags::discoverable().bits, 0x06);
    assert_eq!(Flags::from_bits(0x05).bits, 0x05);
}

#[test]
fn encode_flags_and_name() {
    let ads = vec![AdStructure::Flags(Flags::discoverable()), name_ad(b"X")];
    let bytes = encode_ads(&ads).unwrap();
    assert_eq!(bytes, vec![0x02, 0x01, 0x06, 0x02, 0x09, b'X']);
}

#[test]
fn encode_empty_sequence() {
    let ads: Vec<AdStructure> = vec![];
    assert_eq!(encode_ads(&ads).unwrap(), Vec::<u8>::new());
    assert_eq!(decode_ads(&vec![]), Some(vec![]));
}

#[test]
fn round_trip_two_elements() {
    let ads = vec![
        AdStructure::Flags(Flags::discoverable()),
        name_ad(b"CONCVRRENS CERTA CELERIS")
    ];
    let bytes = encode_ads(&ads).unwrap();
    let decoded = decode_ads(&bytes).unwrap();
    assert_eq!(decoded, ads);
}

#[test]
fn round_trip_name_only() {
    let ads = vec![name_ad(b"")];
    let bytes = encode_ads(&ads).unwrap();
    assert_eq!(bytes, vec![0x01, 0x09]);
    assert_eq!(decode_ads(&bytes).unwrap(), ads);
}

#[test]
fn size_boundary_exact_fits() {
    // 3 bytes of flags + 2 bytes of name header + 26 bytes of name = 31.
    let ads = vec![
        AdStructure::Flags(Flags::discoverable()),
        name_ad(&[b'a'; 26])
    ];
    let bytes = encode_ads(&ads).unwrap();
    assert_eq!(bytes.len(), 31);
    assert_eq!(decode_ads(&bytes).unwrap(), ads);
}

#[test]
fn size_boundary_one_byte_over_fails() {
    let ads = vec![
        AdStructure::Flags(Flags::discoverable()),
        name_ad(&[b'a'; 27])
    ];
    assert_eq!(encode_ads(&ads), Err(ConfigError::SizeExceeded));
}

#[test]
fn decode_rejects_zero_length() {
    assert_eq!(decode_ads(&vec![0x00, 0x01, 0x06]), None);
}

#[test]
fn decode_rejects_truncated_element() {
    assert_eq!(decode_ads(&vec![0x05, 0x09, b'a']), None);
}

#[test]
fn decode_rejects_unknown_type() {
    assert_eq!(decode_ads(&vec![0x02, 0xff, 0x00]), None);
}

#[test]
fn decode_rejects_flags_of_wrong_length() {
    assert_eq!(decode_ads(&vec![0x03, 0x01, 0x06, 0x00]), None);
}
