//! The wire form of a frame: five fields of eight bytes each, in the order
//! latitude, longitude, signal, battery, timestamp, every field
//! little-endian. The four readings travel as IEEE-754 doubles; this crate
//! carries each of them as its 64-bit pattern.

use vstd::prelude::*;

verus! {

/// Bytes that one field takes on the wire.
pub const FIELD_BYTES: usize = 8;

/// Bytes that a whole frame takes on the wire.
pub const FRAME_BYTES: usize = 40;

/// The number that the eight bytes of `bytes` from index `at` on spell in
/// little-endian order.
pub open spec fn le_word(bytes: Seq<u8>, at: int) -> int {
    bytes[at] as int
        + 0x100 * (bytes[at + 1] as int)
        + 0x1_0000 * (bytes[at + 2] as int)
        + 0x100_0000 * (bytes[at + 3] as int)
        + 0x1_0000_0000 * (bytes[at + 4] as int)
        + 0x100_0000_0000 * (bytes[at + 5] as int)
        + 0x1_0000_0000_0000 * (bytes[at + 6] as int)
        + 0x100_0000_0000_0000 * (bytes[at + 7] as int)
}

/// The `index`-th field of a frame, as the wire spells it.
pub open spec fn field(bytes: Seq<u8>, index: int) -> int {
    le_word(bytes, FIELD_BYTES * index)
}

/// A little-endian word of eight bytes fits in 64 bits.
pub proof fn lemma_le_word_fits(bytes: Seq<u8>, at: int)
    ensures
        0 <= le_word(bytes, at) <= u64::MAX,
{
}

#[verifier::external_type_specification]
#[verifier::external_body]
pub struct ExReadError(wincode::error::ReadError);

/// The five fields of a frame, in wire order.
pub struct Words {
    pub latitude: u64,
    pub longitude: u64,
    pub signal: u64,
    pub battery: u64,
    pub timestamp: u64,
}

/// Trusted: `wincode::deserialize` at a tuple of five `u64`.
///
/// With wincode's default configuration an integer is read with
/// `from_le_bytes` from the next eight bytes and a tuple is its members one
/// after the other; a double is read from eight bytes in the same way, so
/// each reading arrives as the bit pattern of the double that was sent. The
/// call fails when fewer than forty bytes are given and looks at no byte
/// beyond the fortieth. The contract claims exactly that.
#[verifier::external_body]
pub(crate) fn read_words(bytes: &[u8]) -> (read: Result<Words, wincode::error::ReadError>)
    ensures
        read is Ok <==> bytes@.len() >= FRAME_BYTES,
        read matches Ok(w) ==> {
            &&& w.latitude == field(bytes@, 0)
            &&& w.longitude == field(bytes@, 1)
            &&& w.signal == field(bytes@, 2)
            &&& w.battery == field(bytes@, 3)
            &&& w.timestamp == field(bytes@, 4)
        },
{
    match wincode::deserialize::<(u64, u64, u64, u64, u64)>(bytes) {
        Ok((latitude, longitude, signal, battery, timestamp)) => Ok(
            Words { latitude, longitude, signal, battery, timestamp },
        ),
        Err(e) => Err(e),
    }
}

} // verus!
