//! The advertisement that makes the device discoverable: capability flags,
//! the identifiers of the two services and the complete local name, laid out
//! as a run of length-prefixed structures.

use trouble_host::advertise::{AdStructure, BR_EDR_NOT_SUPPORTED, LE_GENERAL_DISCOVERABLE};
use vstd::prelude::*;
use vstd::string::StringSliceAdditionalSpecFns;

verus! {

/// Size of the buffer that the advertisement is encoded into.
pub const ADV_BUFFER_SIZE: usize = 47;

/// Identifier of the tightening service, in the byte order of the air
/// interface: `1953e703-82d4-4142-9efe-30a87538c7de`.
pub const TIGHTEN_SERVICE: [u8; 16] = [
    0xde, 0xc7, 0x38, 0x75, 0xa8, 0x30, 0xfe, 0x9e, 0x42, 0x41, 0xd4, 0x82, 0x03, 0xe7, 0x53, 0x19,
];

/// Identifier of the tightening characteristic, in the byte order of the air
/// interface: `45803b5a-8847-465b-9d4a-0af234a0db11`.
pub const TIGHTEN_CHARACTERISTIC: [u8; 16] = [
    0x11, 0xdb, 0xa0, 0x34, 0xf2, 0x0a, 0x4a, 0x9d, 0x5b, 0x46, 0x47, 0x88, 0x5a, 0x3b, 0x80, 0x45,
];

/// Identifier of the standard battery service, `0x180f`, in the byte order
/// of the air interface.
pub const BATTERY_SERVICE: [u8; 2] = [0x0f, 0x18];

/// The flags octet: general discoverable, classic Bluetooth not supported.
pub const ADVERTISED_FLAGS: u8 = 0x06;

/// Octets that the fixed part of the advertisement takes: everything but the
/// name itself.
pub const ADV_OVERHEAD: usize = 27;

/// The longest name, in octets, that still fits the buffer.
pub const NAME_MAX: usize = 20;

/// Why an advertisement could not be built.
#[derive(Clone, Copy, Debug, PartialEq, Eq)]
pub enum EncodingError {
    /// The structures together need more room than the buffer has.
    InsufficientSpace,
}

/// Type octet of the flags structure.
pub const AD_FLAGS: u8 = 0x01;

/// Type octet that the encoder gives a list of 16-bit service identifiers.
pub const AD_SERVICES_16: u8 = 0x02;

/// Type octet of a complete list of 128-bit service identifiers.
pub const AD_SERVICES_128: u8 = 0x07;

/// Type octet of the complete local name.
pub const AD_COMPLETE_NAME: u8 = 0x09;

/// The length octet in front of a structure that carries `len` octets of
/// data after its type octet. The encoder keeps the low eight bits.
pub open spec fn spec_length_octet(len: nat) -> u8 {
    ((len + 1) % 256) as u8
}

/// One structure on the air: length octet, type octet, data.
pub open spec fn spec_structure(kind: u8, data: Seq<u8>) -> Seq<u8> {
    seq![spec_length_octet(data.len()), kind] + data
}

/// The octets of four structures in a row: flags, one 128-bit service
/// identifier, one 16-bit service identifier and the complete local name.
pub open spec fn spec_structures(
    flags: u8,
    service128: Seq<u8>,
    service16: Seq<u8>,
    name: Seq<u8>,
) -> Seq<u8> {
    spec_structure(AD_FLAGS, seq![flags])
        + spec_structure(AD_SERVICES_128, service128)
        + spec_structure(AD_SERVICES_16, service16)
        + spec_structure(AD_COMPLETE_NAME, name)
}

/// The advertisement of a device whose local name has the octets `name`.
pub open spec fn spec_advertisement(name: Seq<u8>) -> Seq<u8> {
    spec_structures(ADVERTISED_FLAGS, TIGHTEN_SERVICE@, BATTERY_SERVICE@, name)
}

/// An advertisement is as long as its name plus the fixed part.
pub proof fn lemma_advertisement_len(name: Seq<u8>)
    ensures
        spec_advertisement(name).len() == ADV_OVERHEAD + name.len(),
{
}

/// The host error of trouble-host, carried through without looking inside.
#[verifier::external_type_specification]
#[verifier::external_body]
pub struct ExHostError(trouble_host::Error);

/// `LE_GENERAL_DISCOVERABLE` of trouble-host: bit 1 of the flags octet.
#[verifier::external_body]
fn general_discoverable() -> (flag: u8)
    ensures
        flag == 0x02,
{
    LE_GENERAL_DISCOVERABLE
}

/// `BR_EDR_NOT_SUPPORTED` of trouble-host: bit 2 of the flags octet.
#[verifier::external_body]
fn classic_not_supported() -> (flag: u8)
    ensures
        flag == 0x04,
{
    BR_EDR_NOT_SUPPORTED
}

/// `BluetoothUuid16::to_le_bytes` of bt-hci on its constant
/// `uuid::service::BATTERY`: the two octets of `0x180f`, low octet first.
#[verifier::external_body]
fn battery_service_id() -> (id: [u8; 2])
    ensures
        id@ == BATTERY_SERVICE@,
{
    bt_hci::uuid::service::BATTERY.to_le_bytes()
}

/// `AdStructure::encode_slice` of trouble-host on the four structures flags,
/// 128-bit service list, 16-bit service list and complete local name.
///
/// The encoder writes each structure as a length octet, a type octet and the
/// data, from the start of `dest`, and fails as soon as one piece does not fit
/// in what is left. So it succeeds exactly when the whole run fits; it then
/// returns the run's length, and `dest` begins with the run. The length of
/// `dest` never changes. The type octet it writes for the 16-bit list is
/// [`AD_SERVICES_16`].
#[verifier::external_body]
fn encode_structures(
    flags: u8,
    service128: &[u8; 16],
    service16: &[u8; 2],
    name: &[u8],
    dest: &mut Vec<u8>,
) -> (written: Result<usize, trouble_host::Error>)
    ensures
        final(dest)@.len() == old(dest)@.len(),
        written is Ok <==> spec_structures(flags, service128@, service16@, name@).len()
            <= old(dest)@.len(),
        written matches Ok(n) ==> {
            let run = spec_structures(flags, service128@, service16@, name@);
            n == run.len() && final(dest)@.subrange(0, n as int) == run
        },
{
    AdStructure::encode_slice(
        &[
            AdStructure::Flags(flags),
            AdStructure::ServiceUuids128(&[*service128]),
            AdStructure::ServiceUuids16(&[*service16]),
            AdStructure::CompleteLocalName(name),
        ],
        dest.as_mut_slice(),
    ).map_err(trouble_host::Error::from)
}

/// Builds the advertisement for a device called `name`.
///
/// Fails, without touching anything else, exactly when the name is longer
/// than [`NAME_MAX`] octets, so that the structures would not fit a buffer
/// of [`ADV_BUFFER_SIZE`] octets.
pub fn advertisement(name: &str) -> (payload: Result<Vec<u8>, EncodingError>)
    ensures
        payload is Ok <==> name.spec_bytes().len() <= NAME_MAX,
        payload is Ok <==> spec_advertisement(name.spec_bytes()).len() <= ADV_BUFFER_SIZE,
        payload matches Ok(bytes) ==> bytes@ == spec_advertisement(name.spec_bytes()),
        payload matches Err(e) ==> e == EncodingError::InsufficientSpace,
{
    let discoverable = general_discoverable();
    let classic = classic_not_supported();
    let flags: u8 = discoverable | classic;
    assert(flags == ADVERTISED_FLAGS) by (bit_vector)
        requires
            flags == discoverable | classic,
            discoverable == 0x02,
            classic == 0x04,
    ;
    let service16 = battery_service_id();
    let mut buffer: Vec<u8> = vec![0u8; ADV_BUFFER_SIZE];
    proof {
        lemma_advertisement_len(name.spec_bytes());
    }
    match encode_structures(flags, &TIGHTEN_SERVICE, &service16, name.as_bytes(), &mut buffer) {
        Ok(written) => {
            buffer.truncate(written);
            Ok(buffer)
        },
        Err(_) => Err(EncodingError::InsufficientSpace),
    }
}

} // verus!
