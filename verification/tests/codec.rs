//! Byte-level behavior of the opaque payload type and the declared error's
//! encoding, cross-checked against the ledger's own codec where it applies.

use instantiation_proxy::codec::Encoded;
use instantiation_proxy::proxy::Error;
use parity_scale_codec::Encode;

#[test]
fn payload_is_written_verbatim() {
    let payload = Encoded(vec![0xde, 0xad, 0xbe, 0xef]);
    let mut dest = vec![0x01, 0x02];
    payload.encode_to(&mut dest);
    assert_eq!(dest, vec![0x01, 0x02, 0xde, 0xad, 0xbe, 0xef]);
}

#[test]
fn empty_payload_writes_nothing() {
    let payload = Encoded(Vec::new());
    let mut dest = vec![0x01];
    payload.encode_to(&mut dest);
    assert_eq!(dest, vec![0x01]);
}

#[test]
fn payload_wraps_all_remaining_bytes() {
    let input = vec![0x0a, 0x0b, 0x0c];
    let decoded = Encoded::decode(&input);
    assert_eq!(decoded, Encoded(input));
    assert_eq!(Encoded::decode(&Vec::new()), Encoded(Vec::new()));
}

#[test]
fn boolean_arguments_encode_to_one_byte() {
    // The deployment tests hand the target constructor a single boolean;
    // the ledger's codec lays a one-element tuple out as its element alone.
    assert_eq!((true,).encode(), vec![0x01]);
    assert_eq!((false,).encode(), vec![0x00]);
    assert_eq!(true.encode(), vec![0x01]);
}

#[test]
fn declared_error_encodes_to_its_index_byte() {
    assert_eq!(Error::Failed.encode(), vec![42u8]);
}

#[test]
fn declared_error_decodes_from_its_index_byte() {
    assert_eq!(Error::decode(&vec![42u8]), Some(Error::Failed));
    // the variant's body is empty, so trailing bytes are left to the framing
    assert_eq!(Error::decode(&vec![42u8, 0x07]), Some(Error::Failed));
    assert_eq!(Error::decode(&vec![0u8]), None);
    assert_eq!(Error::decode(&Vec::new()), None);
}

#[test]
fn declared_error_round_trips() {
    let encoded = Error::Failed.encode();
    assert_eq!(Error::decode(&encoded), Some(Error::Failed));
}
