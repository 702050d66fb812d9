//! The executable-bit policy, the only permission attribute this subsystem
//! propagates: a file whose source declared any execute permission receives
//! the full execute mask, additively, and no other bit is ever touched.

use vstd::prelude::*;

verus! {

/// Whether a declared mode carries any execute bit (owner, group or other).
pub fn has_executable_bit(mode: u32) -> (r: bool)
    ensures
        r == (mode & 0o111 != 0),
{
    mode & 0o111 != 0
}

/// Compute the additive executable-bit patch for a written file: `None`
/// when the file's current permissions already include all three execute
/// bits, otherwise the mode to set, which ORs in the full execute mask.
pub fn patch_executable_mode(current: u32) -> (r: Option<u32>)
    ensures
        r is None <==> current & 0o111 == 0o111,
        r matches Some(m) ==> m == current | 0o111,
{
    if current & 0o111 == 0o111 {
        None
    } else {
        Some(current | 0o111)
    }
}

/// The patch is additive only: the patched mode keeps every bit of the
/// current mode, gains the full execute mask, and changes nothing outside
/// that mask.
pub proof fn lemma_patch_is_additive(current: u32)
    ensures
        (current | 0o111) & current == current,
        (current | 0o111) & 0o111 == 0o111,
        (current | 0o111) & !0o111u32 == current & !0o111u32,
{
    assert((current | 0o111) & current == current) by (bit_vector);
    assert((current | 0o111) & 0o111 == 0o111) by (bit_vector);
    assert((current | 0o111) & !0o111u32 == current & !0o111u32) by (bit_vector);
}

} // verus!
