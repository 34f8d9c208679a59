//! What the peripheral sends while it advertises: the advertisement, which
//! names the counter service, and the scan response, which carries the
//! device's name.

use crate::gatt::{spec_uuid128, uuid128, SERVICE_ID};
use trouble_host::advertise::AdStructure;
use vstd::prelude::*;
use vstd::slice::slice_to_vec;
use vstd::string::StringSliceAdditionalSpecFns;

verus! {

/// The name under which the peripheral advertises.
pub const ADVERTISE_NAME: &'static str = "BLE-SCI-TEST";

/// The flag of a device that can be discovered at any time.
pub const LE_GENERAL_DISCOVERABLE: u8 = 0x02;

/// The flag of a device without the classic radio.
pub const BR_EDR_NOT_SUPPORTED: u8 = 0x04;

/// The most bytes that an advertisement or a scan response holds.
pub const PAYLOAD_MAX: usize = 31;

/// One structure of advertising data.
#[derive(Debug, PartialEq, Eq)]
pub enum AdField {
    /// The flags of the device.
    Flags(u8),
    /// The complete list of the 128-bit identifiers of its services, each
    /// with its least significant byte first.
    ServiceUuids128(Vec<[u8; 16]>),
    /// The full name of the device.
    CompleteLocalName(Vec<u8>),
}

/// Why a payload could not be built.
#[derive(Clone, Copy, Debug, PartialEq, Eq)]
pub enum PayloadError {
    /// The structures take more bytes than a payload holds.
    InsufficientSpace,
}

/// The bytes of a list of identifiers, one after the other.
pub open spec fn uuid_bytes(uuids: Seq<[u8; 16]>) -> Seq<u8>
    decreases uuids.len(),
{
    if uuids.len() == 0 {
        Seq::empty()
    } else {
        uuid_bytes(uuids.drop_last()) + uuids.last()@
    }
}

/// The bytes of one structure: a length byte that counts what follows it,
/// the type of the structure, and its data. The length byte holds the count
/// modulo 256.
pub open spec fn field_bytes(field: AdField) -> Seq<u8> {
    match field {
        AdField::Flags(flags) => seq![0x02u8, 0x01u8, flags],
        AdField::ServiceUuids128(uuids) => seq![((uuids@.len() * 16 + 1) % 256) as u8, 0x07u8]
            + uuid_bytes(uuids@),
        AdField::CompleteLocalName(name) => seq![((name@.len() + 1) % 256) as u8, 0x09u8]
            + name@,
    }
}

/// The bytes of a list of structures, one after the other.
pub open spec fn payload_bytes(fields: Seq<AdField>) -> Seq<u8>
    decreases fields.len(),
{
    if fields.len() == 0 {
        Seq::empty()
    } else {
        payload_bytes(fields.drop_last()) + field_bytes(fields.last())
    }
}

/// `AdStructure::encode_slice` of trouble-host, on a buffer of
/// `PAYLOAD_MAX` bytes.
/// It writes the structures one after the other, each as its length byte,
/// its type and its data, and fails as soon as one does not fit. The
/// contract claims that the bytes written are those of `payload_bytes`, and
/// that the call succeeds exactly when they fit the buffer.
#[verifier::external_body]
fn encode_slice(fields: &Vec<AdField>) -> (out: Option<Vec<u8>>)
    ensures
        out is Some <==> payload_bytes(fields@).len() <= PAYLOAD_MAX,
        out matches Some(bytes) ==> bytes@ == payload_bytes(fields@),
{
    let structures: Vec<AdStructure<'_>> = fields.iter().map(
        |field| match field {
            AdField::Flags(flags) => AdStructure::Flags(*flags),
            AdField::ServiceUuids128(uuids) => AdStructure::CompleteServiceUuids128(uuids),
            AdField::CompleteLocalName(name) => AdStructure::CompleteLocalName(name),
        },
    ).collect();
    let mut buffer = [0u8; PAYLOAD_MAX];
    let written = AdStructure::encode_slice(&structures, &mut buffer).ok()?;
    Some(buffer[..written].to_vec())
}

/// Encodes a list of structures as one payload.
pub fn encode_fields(fields: &Vec<AdField>) -> (out: Result<Vec<u8>, PayloadError>)
    ensures
        out is Ok <==> payload_bytes(fields@).len() <= PAYLOAD_MAX,
        out matches Ok(bytes) ==> bytes@ == payload_bytes(fields@),
        out matches Err(e) ==> e == PayloadError::InsufficientSpace,
{
    match encode_slice(fields) {
        Some(bytes) => Ok(bytes),
        None => Err(PayloadError::InsufficientSpace),
    }
}

/// The bytes of an advertisement that shows the given flags and names one
/// service: the flags structure, and the list of the one identifier.
pub open spec fn spec_advertisement(flags: u8, service: Seq<u8>) -> Seq<u8> {
    seq![0x02u8, 0x01u8, flags, 17u8, 0x07u8] + service
}

/// The bytes of a scan response that carries the given name.
pub open spec fn spec_scan_response(name: Seq<u8>) -> Seq<u8> {
    seq![((name.len() + 1) % 256) as u8, 0x09u8] + name
}

/// Builds the advertisement for the given flags and service. It takes 21
/// bytes and always fits.
pub fn advertisement(flags: u8, service: [u8; 16]) -> (bytes: Vec<u8>)
    ensures
        bytes@ == spec_advertisement(flags, service@),
        bytes.len() == 21,
{
    let mut uuids: Vec<[u8; 16]> = Vec::new();
    uuids.push(service);
    let mut fields: Vec<AdField> = Vec::new();
    fields.push(AdField::Flags(flags));
    fields.push(AdField::ServiceUuids128(uuids));
    proof {
        let list = fields@;
        assert(list.drop_last().drop_last().len() == 0);
        assert(uuids@.drop_last().len() == 0);
        assert(uuid_bytes(uuids@) == service@) by {
            assert(uuid_bytes(uuids@.drop_last()) == Seq::<u8>::empty());
        }
        assert(payload_bytes(list.drop_last()) == field_bytes(list[0])) by {
            assert(payload_bytes(list.drop_last().drop_last()) == Seq::<u8>::empty());
            assert(list.drop_last().last() == list[0]);
        }
        assert(payload_bytes(list) =~= spec_advertisement(flags, service@));
    }
    match encode_fields(&fields) {
        Ok(bytes) => bytes,
        Err(_) => {
            assert(false);
            Vec::new()
        },
    }
}

/// Builds the scan response that carries `name`. A name of up to 29 bytes
/// fits.
pub fn scan_response(name: &str) -> (out: Result<Vec<u8>, PayloadError>)
    ensures
        out is Ok <==> name.spec_bytes().len() + 2 <= PAYLOAD_MAX,
        out matches Ok(bytes) ==> bytes@ == spec_scan_response(name.spec_bytes()),
        out matches Err(e) ==> e == PayloadError::InsufficientSpace,
{
    let mut fields: Vec<AdField> = Vec::new();
    fields.push(AdField::CompleteLocalName(slice_to_vec(name.as_bytes())));
    proof {
        let list = fields@;
        assert(payload_bytes(list.drop_last()) == Seq::<u8>::empty());
        assert(payload_bytes(list) =~= spec_scan_response(name.spec_bytes()));
    }
    encode_fields(&fields)
}

/// The advertisement of the peripheral: discoverable, without the classic
/// radio, with the counter service.
pub fn advertisement_data() -> (bytes: Vec<u8>)
    ensures
        bytes@ == spec_advertisement(
            LE_GENERAL_DISCOVERABLE | BR_EDR_NOT_SUPPORTED,
            spec_uuid128(SERVICE_ID),
        ),
        bytes.len() == 21,
        bytes.len() <= PAYLOAD_MAX,
{
    advertisement(LE_GENERAL_DISCOVERABLE | BR_EDR_NOT_SUPPORTED, uuid128(SERVICE_ID))
}

/// The scan response of the peripheral: its name.
pub fn scan_response_data() -> (bytes: Vec<u8>)
    ensures
        bytes@ == spec_scan_response(ADVERTISE_NAME.spec_bytes()),
        bytes.len() == 14,
        bytes.len() <= PAYLOAD_MAX,
{
    proof {
        reveal_strlit("BLE-SCI-TEST");
        vstd::string::is_ascii_spec_bytes(ADVERTISE_NAME);
        assert(ADVERTISE_NAME.spec_bytes().len() == 12);
    }
    match scan_response(ADVERTISE_NAME) {
        Ok(bytes) => bytes,
        Err(_) => {
            assert(false);
            Vec::new()
        },
    }
}

} // verus!
