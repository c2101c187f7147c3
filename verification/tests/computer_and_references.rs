use oc_wasm_safe::computer::{
    acl_next, acl_next_len, add_user, pull_signal, pull_signal_length, push_signal, remove_user,
    BeepParameter,
};
use oc_wasm_safe::error::Error;
use oc_wasm_safe::execute::add;
use oc_wasm_safe::extref::{Bytes, String as StringReference};
use oc_wasm_safe::helpers::{call_buffer, call_buffer_len, call_string};

#[test]
fn beep_parameter_is_between_one_and_32767() {
    assert!(BeepParameter::new(0).is_none());
    assert_eq!(BeepParameter::new(1).unwrap().get(), 1);
    assert_eq!(BeepParameter::new(440).unwrap().get(), 440);
    assert_eq!(BeepParameter::new(32767).unwrap().get(), 32767);
    assert!(BeepParameter::new(32768).is_none());
    assert!(BeepParameter::new(u16::MAX).is_none());
}

#[test]
fn beep_parameter_turns_into_numbers() {
    let parameter = BeepParameter::new(1000).unwrap();
    assert_eq!(u16::from(parameter), 1000);
    assert_eq!(u32::from(parameter), 1000);
    assert_eq!(u32::from(BeepParameter::new(32767).unwrap()), 32767);
}

#[test]
fn pushed_signal_is_accepted_or_refused() {
    assert_eq!(push_signal(0), Ok(()));
    assert_eq!(push_signal(-2), Err(Error::CborDecode));
    assert_eq!(push_signal(-8), Err(Error::QueueFull));
}

#[test]
fn empty_queue_has_no_signal() {
    assert_eq!(pull_signal_length(0), None);
    assert_eq!(pull_signal_length(12), Some(12));
    let buffer = [1u8, 2, 3, 4];
    assert_eq!(pull_signal(0, &buffer), Ok(None));
    assert_eq!(pull_signal(3, &buffer), Ok(Some(&[1u8, 2, 3][..])));
    assert_eq!(pull_signal(4, &buffer), Ok(Some(&buffer[..])));
    assert_eq!(pull_signal(-4, &buffer), Err(Error::BufferTooShort));
}

#[test]
fn access_control_list_is_walked_by_name() {
    assert_eq!(acl_next_len(0), None);
    assert_eq!(acl_next_len(5), Some(5));
    let buffer = *b"steve___";
    assert_eq!(acl_next(5, &buffer), Ok(Some(&b"steve"[..])));
    assert_eq!(acl_next(0, &buffer), Ok(None));
    assert_eq!(acl_next(-4, &buffer[..2]), Err(Error::BufferTooShort));
}

#[test]
fn users_are_added_and_removed() {
    assert_eq!(add_user(0), Ok(()));
    assert_eq!(add_user(-12), Err(Error::Other));
    assert_eq!(remove_user(0), Ok(()));
    assert_eq!(remove_user(-12), Err(Error::Other));
}

#[test]
fn execution_buffer_takes_data_until_it_is_full() {
    assert_eq!(add(0), Ok(()));
    assert_eq!(add(-12), Err(Error::Other));
}

#[test]
fn answers_share_their_shapes() {
    assert_eq!(call_string(3), Ok(3));
    assert_eq!(call_string(-12), Err(Error::Other));
    assert_eq!(call_buffer_len(9), Ok(9));
    assert_eq!(call_buffer_len(-5), Err(Error::NoSuchComponent));
    let buffer = [5u8, 6, 7];
    assert_eq!(call_buffer(2, &buffer), Ok(&[5u8, 6][..]));
    assert_eq!(call_buffer(0, &buffer), Ok(&[][..]));
    assert_eq!(call_buffer(3, &buffer), Ok(&buffer[..]));
    assert_eq!(call_buffer(-4, &buffer), Err(Error::BufferTooShort));
}

#[test]
fn byte_reference_encodes_place_and_length() {
    let data = [0u8; 10];
    let mut out = Vec::new();
    Bytes::new(&data, 0x20).encode(&mut out);
    assert_eq!(out, vec![0xd9, 0x80, 0x01, 0x83, 0x02, 0x18, 0x20, 0x0a]);
}

#[test]
fn string_reference_encodes_place_and_length() {
    let mut out = Vec::new();
    StringReference::new("hello", 0x0001_0000).encode(&mut out);
    assert_eq!(out, vec![0xd9, 0x80, 0x01, 0x83, 0x03, 0x1a, 0x00, 0x01, 0x00, 0x00, 0x05]);
}

#[test]
fn string_reference_counts_bytes() {
    let mut out = Vec::new();
    StringReference::new("h\u{e9}llo", 1).encode(&mut out);
    assert_eq!(out, vec![0xd9, 0x80, 0x01, 0x83, 0x03, 0x01, 0x06]);
}

#[test]
fn reference_is_what_minicbor_writes() {
    let data = vec![1u8; 300];
    let mut ours = vec![0x81];
    Bytes::new(&data, 0xdead_beef).encode(&mut ours);
    let mut theirs = vec![0x81];
    let mut encoder = minicbor::Encoder::new(&mut theirs);
    encoder
        .tag(minicbor::data::Tag::new(32769))
        .unwrap()
        .array(3)
        .unwrap()
        .u8(2)
        .unwrap()
        .u32(0xdead_beef)
        .unwrap()
        .u32(300)
        .unwrap();
    assert_eq!(ours, theirs);
}
