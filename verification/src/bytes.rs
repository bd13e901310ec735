//! Byte images of index data, as they are handed to the graphics device.

use vstd::prelude::*;

verus! {

/// The bytes of `indices` with the low byte of each index first.
pub open spec fn le_bytes(indices: Seq<u16>) -> Seq<u8> {
    Seq::new(
        2 * indices.len(),
        |k: int|
            if k % 2 == 0 {
                (indices[k / 2] % 256) as u8
            } else {
                (indices[k / 2] / 256) as u8
            },
    )
}

/// The bytes of `indices` with the high byte of each index first.
pub open spec fn be_bytes(indices: Seq<u16>) -> Seq<u8> {
    Seq::new(
        2 * indices.len(),
        |k: int|
            if k % 2 == 0 {
                (indices[k / 2] / 256) as u8
            } else {
                (indices[k / 2] % 256) as u8
            },
    )
}

/// The bytes of `indices` in the byte order of some machine.
pub open spec fn native_bytes(indices: Seq<u16>, bytes: Seq<u8>) -> bool {
    bytes == le_bytes(indices) || bytes == be_bytes(indices)
}

/// Calls `bytemuck::cast_slice` from `u16` to `u8` and copies the result.
///
/// Trusted, not proved: the cast views the memory of the indices as bytes,
/// so there are two bytes for each index, in order, and they hold the index
/// in the byte order of the machine, which is one of the two above. The cast
/// cannot fail in this direction: bytes need no alignment and every length
/// in bytes is a whole number of them.
#[verifier::external_body]
pub(crate) fn index_bytes(indices: &[u16]) -> (bytes: Vec<u8>)
    ensures
        native_bytes(indices@, bytes@),
{
    bytemuck::cast_slice::<u16, u8>(indices).to_vec()
}

} // verus!
