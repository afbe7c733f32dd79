//! Decoding of the status characteristic's payload into a height.
//!
//! Heights are measured in tenths of a millimetre (1/10000 m). The payload's
//! first two bytes hold, little-endian, the offset of the desk above its lowest
//! position in that unit.
use vstd::prelude::*;

verus! {

/// Lowest height of the desk, 0.62 m, in tenths of a millimetre.
pub const MIN_HEIGHT_TENTH_MM: u32 = 6200;

/// Highest height of the desk, 1.27 m, in tenths of a millimetre.
pub const MAX_HEIGHT_TENTH_MM: u32 = 12700;

/// Largest offset the desk reports, at its highest position.
pub const MAX_RAW_HEIGHT: u16 = 6500;

/// The payload was too short to hold a height.
#[derive(Debug, Clone, Copy, PartialEq, Eq, Structural)]
pub enum DecodeError {
    TooShort,
}

/// The 16-bit little-endian value held by bytes `b0` (low) and `b1` (high).
pub open spec fn le_u16(b0: u8, b1: u8) -> int {
    b1 as int * 256 + b0 as int
}

/// The raw offset that a payload encodes; meaningful when it has two bytes.
pub open spec fn raw_of(bytes: Seq<u8>) -> int {
    le_u16(bytes[0], bytes[1])
}

/// The height, in tenths of a millimetre, that a payload encodes.
pub open spec fn height_of(bytes: Seq<u8>) -> int {
    MIN_HEIGHT_TENTH_MM + raw_of(bytes)
}

/// A payload that holds a height.
pub open spec fn decodable(bytes: Seq<u8>) -> bool {
    bytes.len() >= 2
}

/// The raw offset held by the first two bytes of a status payload.
pub fn raw_height(bytes: &[u8]) -> (r: Result<u16, DecodeError>)
    ensures
        decodable(bytes@) <==> r is Ok,
        r is Ok ==> r->Ok_0 == raw_of(bytes@),
        !decodable(bytes@) ==> r == Err::<u16, DecodeError>(DecodeError::TooShort),
{
    if bytes.len() < 2 {
        return Err(DecodeError::TooShort);
    }
    let lo = bytes[0];
    let hi = bytes[1];
    Ok((hi as u16) * 256 + lo as u16)
}

/// The height, in tenths of a millimetre, that a status payload reports.
///
/// Bytes after the first two are ignored. No clamping is applied: an offset
/// beyond the desk's range yields a height beyond `MAX_HEIGHT_TENTH_MM`.
pub fn decode_height(bytes: &[u8]) -> (r: Result<u32, DecodeError>)
    ensures
        decodable(bytes@) <==> r is Ok,
        r is Ok ==> r->Ok_0 == height_of(bytes@),
        !decodable(bytes@) ==> r == Err::<u32, DecodeError>(DecodeError::TooShort),
{
    match raw_height(bytes) {
        Ok(raw) => Ok(MIN_HEIGHT_TENTH_MM + raw as u32),
        Err(e) => Err(e),
    }
}

/// A status payload: the raw height offset and the trailing bytes, whose
/// meaning is unknown and which are kept as they came.
#[derive(Debug)]
pub struct StatusPayload {
    pub raw: u16,
    pub trailing: Vec<u8>,
}

impl StatusPayload {
    /// Splits a status payload into its height offset and the bytes after it.
    pub fn parse(bytes: &[u8]) -> (r: Result<StatusPayload, DecodeError>)
        ensures
            decodable(bytes@) <==> r is Ok,
            r is Ok ==> r->Ok_0.raw == raw_of(bytes@) && r->Ok_0.trailing@ == bytes@.subrange(
                2,
                bytes@.len() as int,
            ),
            !decodable(bytes@) ==> r is Err && r->Err_0 == DecodeError::TooShort,
    {
        let raw = match raw_height(bytes) {
            Ok(raw) => raw,
            Err(e) => return Err(e),
        };
        let mut trailing: Vec<u8> = Vec::new();
        let mut i: usize = 2;
        while i < bytes.len()
            invariant
                2 <= i <= bytes@.len(),
                trailing@ == bytes@.subrange(2, i as int),
            decreases bytes@.len() - i,
        {
            trailing.push(bytes[i]);
            i = i + 1;
            assert(trailing@ == bytes@.subrange(2, i as int));
        }
        Ok(StatusPayload { raw, trailing })
    }

    /// The height this payload reports, in tenths of a millimetre.
    pub fn height(&self) -> (r: u32)
        ensures
            r == MIN_HEIGHT_TENTH_MM + self.raw,
    {
        MIN_HEIGHT_TENTH_MM + self.raw as u32
    }
}

/// The status payload that carries raw offset `r` followed by bytes `a` and `b`,
/// written as the desk writes it: low byte `r & 0xFF`, then high byte `r >> 8`.
pub open spec fn payload_of(r: u16, a: u8, b: u8) -> Seq<u8> {
    seq![(r & 0xff) as u8, (r >> 8) as u8, a, b]
}

proof fn lemma_payload_raw(r: u16, a: u8, b: u8)
    ensures
        raw_of(payload_of(r, a, b)) == r,
{
    assert((r & 0xff) < 256 && (r >> 8) < 256 && (r & 0xff) + (r >> 8) * 256 == r)
        by (bit_vector);
}

/// Every offset from zero up to the desk's largest decodes to a height between
/// the lowest and the highest, whatever the trailing bytes, and a larger offset
/// never decodes to a lower height.
pub proof fn lemma_decode_bounded_monotone(r1: u16, a1: u8, b1: u8, r2: u16, a2: u8, b2: u8)
    requires
        r1 <= MAX_RAW_HEIGHT,
        r2 <= MAX_RAW_HEIGHT,
    ensures
        MIN_HEIGHT_TENTH_MM <= height_of(payload_of(r1, a1, b1)) <= MAX_HEIGHT_TENTH_MM,
        MIN_HEIGHT_TENTH_MM <= height_of(payload_of(r2, a2, b2)) <= MAX_HEIGHT_TENTH_MM,
        r1 <= r2 ==> height_of(payload_of(r1, a1, b1)) <= height_of(payload_of(r2, a2, b2)),
{
    lemma_payload_raw(r1, a1, b1);
    lemma_payload_raw(r2, a2, b2);
}

/// The height decoded from the all-zero payload is the desk's lowest, and the
/// one decoded from the largest offset is its highest.
pub proof fn lemma_decode_extremes(a: u8, b: u8)
    ensures
        height_of(payload_of(0, a, b)) == MIN_HEIGHT_TENTH_MM,
        height_of(payload_of(MAX_RAW_HEIGHT, a, b)) == MAX_HEIGHT_TENTH_MM,
{
    lemma_payload_raw(0, a, b);
    lemma_payload_raw(MAX_RAW_HEIGHT, a, b);
}

} // verus!
