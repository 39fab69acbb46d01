use vstd::prelude::*;
use crate::error::{QrngError, CO_E_CLASSSTRING};

verus! {

/// A 128-bit class identifier in the host's binary layout: one 32-bit and
/// two 16-bit big-endian groups followed by eight raw bytes.
pub struct Guid {
    /// First group, read big-endian from the first four identifier bytes.
    pub data1: u32,
    /// Second group, read big-endian from the next two bytes.
    pub data2: u16,
    /// Third group, read big-endian from the next two bytes.
    pub data3: u16,
    /// The last eight identifier bytes, in order.
    pub data4: [u8; 8],
}

/// The big-endian reading of four bytes.
pub open spec fn be_u32(b0: u8, b1: u8, b2: u8, b3: u8) -> u32 {
    (b0 * 0x1000000 + b1 * 0x10000 + b2 * 0x100 + b3) as u32
}

/// The big-endian reading of two bytes.
pub open spec fn be_u16(b0: u8, b1: u8) -> u16 {
    (b0 * 0x100 + b1) as u16
}

/// `g` is the identifier whose sixteen bytes are `b`.
pub open spec fn guid_matches_bytes(g: Guid, b: Seq<u8>) -> bool {
    &&& b.len() == 16
    &&& g.data1 == be_u32(b[0], b[1], b[2], b[3])
    &&& g.data2 == be_u16(b[4], b[5])
    &&& g.data3 == be_u16(b[6], b[7])
    &&& g.data4@ == b.subrange(8, 16)
}

/// What `uuid::Uuid::parse_str` yields on a given string: the sixteen bytes
/// of the identifier, or nothing where the string is not a well-formed UUID.
pub uninterp spec fn uuid_parse_of(s: Seq<char>) -> Option<Seq<u8>>;

/// Relies on `uuid::Uuid::parse_str` and `uuid::Uuid::as_bytes`: parsing is
/// a function of the characters alone, and a parsed identifier is exactly
/// sixteen bytes.
#[verifier::external_body]
fn parse_uuid_bytes(s: &str) -> (r: Option<Vec<u8>>)
    ensures
        match r {
            Some(b) => uuid_parse_of(s@) == Some(b@) && b@.len() == 16,
            None => uuid_parse_of(s@) is None,
        },
{
    match uuid::Uuid::parse_str(s) {
        Ok(u) => Some(u.as_bytes().to_vec()),
        Err(_) => None,
    }
}

/// Packs sixteen identifier bytes into the host's binary layout.
pub fn guid_from_bytes(b: &Vec<u8>) -> (g: Guid)
    requires
        b@.len() == 16,
    ensures
        guid_matches_bytes(g, b@),
{
    let data1 = (b[0] as u32) * 0x1000000 + (b[1] as u32) * 0x10000 + (b[2] as u32) * 0x100 + (
    b[3] as u32);
    let data2 = (b[4] as u16) * 0x100 + (b[5] as u16);
    let data3 = (b[6] as u16) * 0x100 + (b[7] as u16);
    let data4 = [b[8], b[9], b[10], b[11], b[12], b[13], b[14], b[15]];
    let g = Guid { data1, data2, data3, data4 };
    proof {
        assert(g.data4@ =~= b@.subrange(8, 16));
    }
    g
}

/// The textual class identifier of the vendor device.
pub open spec fn clsid_text() -> Seq<char> {
    "{D7A1BFCF-9A30-45AF-A5E4-2CAF0A344938}"@
}

/// Resolves the vendor device's class identifier from its textual form.
pub fn get_qwqng_clsid() -> (r: Result<Guid, QrngError>)
    ensures
        match uuid_parse_of(clsid_text()) {
            Some(b) => r matches Ok(g) && guid_matches_bytes(g, b),
            None => {
                &&& r matches Err(e)
                &&& e matches QrngError::DeviceCreateFailed { status }
                &&& status == CO_E_CLASSSTRING
            },
        },
{
    let s = "{D7A1BFCF-9A30-45AF-A5E4-2CAF0A344938}";
    match parse_uuid_bytes(s) {
        Some(b) => Ok(guid_from_bytes(&b)),
        None => Err(QrngError::DeviceCreateFailed { status: CO_E_CLASSSTRING }),
    }
}

} // verus!
