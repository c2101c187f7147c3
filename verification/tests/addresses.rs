use oc_wasm_safe::cbor::DecodeError;
use oc_wasm_safe::Address;

const BYTES: [u8; 16] = [
    0x12, 0x34, 0x56, 0x78, 0x9a, 0xbc, 0xde, 0xf0, 0x01, 0x23, 0x45, 0x67, 0x89, 0xab, 0xcd, 0xef,
];

const TEXT: &str = "12345678-9abc-def0-0123-456789abcdef";

fn encoded(address: &Address) -> Vec<u8> {
    let mut out = Vec::new();
    address.encode(&mut out);
    out
}

fn text_item(text: &str) -> Vec<u8> {
    let mut out = Vec::new();
    let mut encoder = minicbor::Encoder::new(&mut out);
    encoder.str(text).unwrap();
    out
}

#[test]
fn address_keeps_its_bytes() {
    let address = Address::from_bytes(BYTES);
    assert_eq!(address.as_bytes(), &BYTES);
    assert_eq!(Address::from_bytes([0; 16]).as_bytes(), &[0; 16]);
}

#[test]
fn address_is_read_from_text() {
    assert_eq!(Address::from_str(TEXT).unwrap().as_bytes(), &BYTES);
    assert_eq!(Address::from_str("123456789abcdef00123456789abcdef").unwrap().as_bytes(), &BYTES);
    assert_eq!(Address::from_str("12345678-9ABC-DEF0-0123-456789ABCDEF").unwrap().as_bytes(), &BYTES);
}

#[test]
fn what_is_no_uuid_is_no_address() {
    assert!(Address::from_str("").is_err());
    assert!(Address::from_str("hello").is_err());
    assert!(Address::from_str("12345678-9abc-def0-0123-456789abcde").is_err());
    assert!(Address::from_str("12345678-9abc-def0-0123-456789abcdeg").is_err());
}

#[test]
fn address_is_written_with_hyphens() {
    assert_eq!(Address::from_bytes(BYTES).hyphenated(), TEXT);
    assert_eq!(Address::from_bytes([0; 16]).hyphenated(), "00000000-0000-0000-0000-000000000000");
}

#[test]
fn address_encodes_to_a_tagged_byte_string() {
    let mut expected = vec![0xd8, 0x25, 0x50];
    expected.extend_from_slice(&BYTES);
    assert_eq!(encoded(&Address::from_bytes(BYTES)), expected);
    assert_eq!(expected.len(), 19);
}

#[test]
fn encoded_address_decodes_to_itself() {
    let address = Address::from_bytes(BYTES);
    let bytes = encoded(&address);
    assert_eq!(Address::decode(&bytes, 0), Ok((address, 19)));
}

#[test]
fn address_may_carry_the_identifier_tag() {
    let mut bytes = vec![0xd8, 0x27, 0x50];
    bytes.extend_from_slice(&BYTES);
    assert_eq!(Address::decode(&bytes, 0), Ok((Address::from_bytes(BYTES), 19)));
}

#[test]
fn address_may_come_without_a_tag() {
    let mut bytes = vec![0x50];
    bytes.extend_from_slice(&BYTES);
    assert_eq!(Address::decode(&bytes, 0), Ok((Address::from_bytes(BYTES), 17)));
}

#[test]
fn address_may_come_as_text() {
    let bytes = text_item(TEXT);
    assert_eq!(Address::decode(&bytes, 0), Ok((Address::from_bytes(BYTES), bytes.len())));
    let mut tagged = vec![0xd8, 0x25];
    tagged.extend_from_slice(&bytes);
    assert_eq!(Address::decode(&tagged, 0), Ok((Address::from_bytes(BYTES), tagged.len())));
}

#[test]
fn address_is_read_at_the_given_position() {
    let mut bytes = vec![0x83, 0x01];
    Address::from_bytes(BYTES).encode(&mut bytes);
    bytes.push(0x02);
    assert_eq!(Address::decode(&bytes, 2), Ok((Address::from_bytes(BYTES), 21)));
}

#[test]
fn address_under_another_tag_is_refused() {
    let mut bytes = vec![0xd8, 0x26, 0x50];
    bytes.extend_from_slice(&BYTES);
    assert_eq!(Address::decode(&bytes, 0), Err(DecodeError::ExpectedUuidTag));
}

#[test]
fn address_of_another_length_is_refused() {
    let mut bytes = vec![0xd8, 0x25, 0x4f];
    bytes.extend_from_slice(&BYTES[..15]);
    assert_eq!(Address::decode(&bytes, 0), Err(DecodeError::ExpectedSixteenBytes));
    let mut bytes = vec![0x51];
    bytes.extend_from_slice(&BYTES);
    bytes.push(0);
    assert_eq!(Address::decode(&bytes, 0), Err(DecodeError::ExpectedSixteenBytes));
    assert_eq!(Address::decode(&[0x40], 0), Err(DecodeError::ExpectedSixteenBytes));
}

#[test]
fn text_that_is_no_uuid_is_refused() {
    assert_eq!(Address::decode(&text_item("hello"), 0), Err(DecodeError::ExpectedUuidString));
    assert_eq!(Address::decode(&text_item(""), 0), Err(DecodeError::ExpectedUuidString));
}

#[test]
fn other_items_are_no_address() {
    assert_eq!(Address::decode(&[0x05], 0), Err(DecodeError::ExpectedBytesOrString));
    assert_eq!(Address::decode(&[0x80], 0), Err(DecodeError::ExpectedBytesOrString));
    assert_eq!(Address::decode(&[0xd8, 0x25, 0x05], 0), Err(DecodeError::ExpectedBytesOrString));
    assert_eq!(Address::decode(&[0xd8, 0x25, 0xd8, 0x25, 0x40], 0), Err(DecodeError::ExpectedBytesOrString));
}

#[test]
fn cut_off_address_is_malformed() {
    assert_eq!(Address::decode(&[], 0), Err(DecodeError::Malformed));
    assert_eq!(Address::decode(&[0xd8, 0x25], 0), Err(DecodeError::Malformed));
    assert_eq!(Address::decode(&[0xd8], 0), Err(DecodeError::Malformed));
    let mut bytes = vec![0x50];
    bytes.extend_from_slice(&BYTES[..10]);
    assert_eq!(Address::decode(&bytes, 0), Err(DecodeError::Malformed));
    assert_eq!(Address::decode(&[0x62, 0xff, 0xff], 0), Err(DecodeError::Malformed));
}

#[test]
fn tags_that_an_address_may_carry() {
    assert_eq!(Address::check_tag(37), Ok(()));
    assert_eq!(Address::check_tag(39), Ok(()));
    assert_eq!(Address::check_tag(38), Err(DecodeError::ExpectedUuidTag));
    assert_eq!(Address::check_tag(0), Err(DecodeError::ExpectedUuidTag));
}

#[test]
fn from_slice_wants_sixteen_bytes() {
    assert_eq!(Address::from_slice(&BYTES), Ok(Address::from_bytes(BYTES)));
    assert_eq!(Address::from_slice(&BYTES[..15]), Err(DecodeError::ExpectedSixteenBytes));
    assert_eq!(Address::from_slice(&[]), Err(DecodeError::ExpectedSixteenBytes));
    assert_eq!(Address::from_slice(&[0; 17]), Err(DecodeError::ExpectedSixteenBytes));
}
