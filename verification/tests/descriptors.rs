use oc_wasm_safe::cbor::DecodeError;
use oc_wasm_safe::descriptor::{
    cbor_encode, AsDescriptor, AsRaw, Borrowed, Decoded, IntoDescriptor, Notification, Owned,
    IDENTIFIER,
};
use oc_wasm_safe::error::Error;

fn raw_of(value: &impl AsRaw) -> u32 {
    value.as_raw()
}

fn borrowed_raw(value: &impl AsDescriptor) -> u32 {
    value.as_descriptor().as_raw()
}

fn encoded(raw: u32) -> Vec<u8> {
    let mut out = Vec::new();
    Owned::new(raw).encode(&mut out);
    out
}

#[test]
fn owned_keeps_its_raw_value() {
    let owned = Owned::new(5);
    assert_eq!(owned.as_raw(), 5);
    assert_eq!(raw_of(&owned), 5);
    assert_eq!(owned.into_inner(), 5);
    assert_eq!(Owned::new(0).as_raw(), 0);
    assert_eq!(Owned::new(u32::MAX).into_inner(), u32::MAX);
}

#[test]
fn borrowed_names_the_same_descriptor() {
    let owned = Owned::new(12);
    let first: Borrowed<'_> = owned.as_descriptor();
    let second = owned.as_descriptor();
    let copy = first;
    assert_eq!(first.as_raw(), 12);
    assert_eq!(second.as_raw(), 12);
    assert_eq!(copy.as_raw(), 12);
    assert_eq!(borrowed_raw(&first), 12);
    assert_eq!(borrowed_raw(&owned), 12);
    assert_eq!(raw_of(&second), 12);
    assert_eq!(owned.as_raw(), 12);
}

#[test]
fn into_descriptor_hands_the_owner_on() {
    let owned = Owned::new(3);
    let same = owned.into_descriptor();
    assert_eq!(same.as_raw(), 3);
}

#[test]
fn release_gives_the_one_close_notification() {
    assert_eq!(Owned::new(7).release(), Notification::Close(7));
    assert_eq!(Owned::new(0).release(), Notification::Close(0));
}

#[test]
fn dup_gives_a_fresh_owner() {
    let first = Owned::new(4);
    let duplicate = first.dup(9).unwrap();
    assert_eq!(duplicate.as_raw(), 9);
    assert_eq!(first.as_raw(), 4);
}

#[test]
fn dup_fails_when_the_table_is_full() {
    let first = Owned::new(4);
    assert_eq!(first.dup(-11).unwrap_err(), Error::TooManyDescriptors);
    assert_eq!(first.as_raw(), 4);
}

#[test]
fn duplicate_outlives_its_source() {
    let first = Owned::new(4);
    let duplicate = first.dup(6).unwrap();
    assert_eq!(first.release(), Notification::Close(4));
    assert_eq!(duplicate.as_raw(), 6);
    let again = duplicate.dup(4).unwrap();
    assert_eq!(again.as_raw(), 4);
    assert_eq!(duplicate.release(), Notification::Close(6));
    assert_eq!(again.release(), Notification::Close(4));
}

#[test]
fn descriptor_five_encodes_to_three_bytes() {
    assert_eq!(encoded(5), vec![0xd8, 0x27, 0x05]);
}

#[test]
fn descriptors_encode_in_the_shortest_form() {
    assert_eq!(encoded(0), vec![0xd8, 0x27, 0x00]);
    assert_eq!(encoded(23), vec![0xd8, 0x27, 0x17]);
    assert_eq!(encoded(24), vec![0xd8, 0x27, 0x18, 0x18]);
    assert_eq!(encoded(255), vec![0xd8, 0x27, 0x18, 0xff]);
    assert_eq!(encoded(256), vec![0xd8, 0x27, 0x19, 0x01, 0x00]);
    assert_eq!(encoded(0xffff), vec![0xd8, 0x27, 0x19, 0xff, 0xff]);
    assert_eq!(encoded(0x1_0000), vec![0xd8, 0x27, 0x1a, 0x00, 0x01, 0x00, 0x00]);
    assert_eq!(encoded(0x1234_5678), vec![0xd8, 0x27, 0x1a, 0x12, 0x34, 0x56, 0x78]);
    assert_eq!(encoded(u32::MAX), vec![0xd8, 0x27, 0x1a, 0xff, 0xff, 0xff, 0xff]);
}

#[test]
fn encoding_appends_to_what_is_there() {
    let mut out = vec![0x82];
    let owned = Owned::new(1);
    owned.encode(&mut out);
    owned.as_descriptor().encode(&mut out);
    cbor_encode(2, &mut out);
    assert_eq!(out, vec![0x82, 0xd8, 0x27, 0x01, 0xd8, 0x27, 0x01, 0xd8, 0x27, 0x02]);
}

#[test]
fn encoded_descriptor_decodes_to_the_same_value() {
    let bytes = encoded(5);
    let (decoded, after) = Decoded::decode(&bytes, 0).unwrap();
    assert_eq!(after, 3);
    assert_eq!(decoded.into_owned().as_raw(), 5);
}

#[test]
fn every_width_survives_the_round_trip() {
    for raw in [0, 1, 23, 24, 255, 256, 65535, 65536, 0x7fff_ffff, u32::MAX] {
        let bytes = encoded(raw);
        let (decoded, after) = Decoded::decode(&bytes, 0).unwrap();
        assert_eq!(after, bytes.len());
        assert_eq!(decoded.into_owned().into_inner(), raw);
    }
}

#[test]
fn decoding_starts_at_the_given_position() {
    let mut bytes = vec![0x01, 0x02];
    cbor_encode(300, &mut bytes);
    bytes.push(0xff);
    let (decoded, after) = Decoded::decode(&bytes, 2).unwrap();
    assert_eq!(after, 7);
    assert_eq!(decoded.into_owned().as_raw(), 300);
}

#[test]
fn wrong_tag_is_refused() {
    assert_eq!(Decoded::decode(&[0xd8, 0x26, 0x05], 0).unwrap_err(), DecodeError::ExpectedIdentifierTag);
    assert_eq!(Decoded::decode(&[0xd8, 0x25, 0x05], 0).unwrap_err(), DecodeError::ExpectedIdentifierTag);
    assert_eq!(Decoded::decode(&[0xc1, 0x05], 0).unwrap_err(), DecodeError::ExpectedIdentifierTag);
}

#[test]
fn untagged_or_cut_off_data_is_refused() {
    assert_eq!(Decoded::decode(&[0x05], 0).unwrap_err(), DecodeError::Malformed);
    assert_eq!(Decoded::decode(&[], 0).unwrap_err(), DecodeError::Malformed);
    assert_eq!(Decoded::decode(&[0xd8], 0).unwrap_err(), DecodeError::Malformed);
    assert_eq!(Decoded::decode(&[0xd8, 0x27], 0).unwrap_err(), DecodeError::Malformed);
    assert_eq!(Decoded::decode(&[0xd8, 0x27, 0x19, 0x01], 0).unwrap_err(), DecodeError::Malformed);
    assert_eq!(Decoded::decode(&[0xd8, 0x27, 0x05], 3).unwrap_err(), DecodeError::Malformed);
    assert_eq!(Decoded::decode(&[0xd8, 0x27, 0x05], 100).unwrap_err(), DecodeError::Malformed);
}

#[test]
fn what_is_no_small_integer_is_refused() {
    assert_eq!(Decoded::decode(&[0xd8, 0x27, 0x20], 0).unwrap_err(), DecodeError::Malformed);
    assert_eq!(Decoded::decode(&[0xd8, 0x27, 0x61, 0x35], 0).unwrap_err(), DecodeError::Malformed);
    assert_eq!(
        Decoded::decode(&[0xd8, 0x27, 0x1b, 0, 0, 0, 1, 0, 0, 0, 0], 0).unwrap_err(),
        DecodeError::Malformed
    );
}

#[test]
fn longer_forms_of_the_same_number_are_read() {
    let (decoded, after) = Decoded::decode(&[0xd8, 0x27, 0x19, 0x00, 0x05], 0).unwrap();
    assert_eq!((decoded.into_owned().as_raw(), after), (5, 5));
    let (decoded, after) = Decoded::decode(&[0xd9, 0x00, 0x27, 0x05], 0).unwrap();
    assert_eq!((decoded.into_owned().as_raw(), after), (5, 4));
    let (decoded, after) = Decoded::decode(&[0xd8, 0x27, 0x1b, 0, 0, 0, 0, 0, 0, 0, 9], 0).unwrap();
    assert_eq!((decoded.into_owned().as_raw(), after), (9, 11));
}

#[test]
fn only_the_identifier_tag_passes_the_check() {
    assert_eq!(IDENTIFIER, 39);
    assert_eq!(Decoded::check_tag(39), Ok(()));
    assert_eq!(Decoded::check_tag(37), Err(DecodeError::ExpectedIdentifierTag));
    assert_eq!(Decoded::check_tag(0), Err(DecodeError::ExpectedIdentifierTag));
    assert_eq!(Decoded::check_tag(u64::MAX), Err(DecodeError::ExpectedIdentifierTag));
}

#[test]
fn what_minicbor_writes_is_what_the_layer_writes() {
    for raw in [5u32, 24, 1000, 70000] {
        let mut theirs = Vec::new();
        let mut encoder = minicbor::Encoder::new(&mut theirs);
        encoder.tag(minicbor::data::Tag::new(39)).unwrap().u32(raw).unwrap();
        assert_eq!(encoded(raw), theirs);
    }
}

#[test]
fn decode_errors_have_their_descriptions() {
    assert_eq!(DecodeError::Malformed.as_str(), "malformed CBOR");
    assert_eq!(DecodeError::ExpectedIdentifierTag.as_str(), "expected Identifier tag");
    assert_eq!(DecodeError::ExpectedUuidTag.as_str(), "expected tag Binary UUID");
    assert_eq!(DecodeError::ExpectedSixteenBytes.as_str(), "expected 16 bytes");
    assert_eq!(DecodeError::ExpectedUuidString.as_str(), "expected UUID string");
    assert_eq!(DecodeError::ExpectedBytesOrString.as_str(), "expected byte or UTF-8 string");
}
