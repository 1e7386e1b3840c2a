//! Identifier normalization between the platform's unsigned 64-bit
//! identifiers and the signed representation used by stored records.

use vstd::prelude::*;

verus! {

/// Narrows a platform identifier to the signed storage representation.
pub fn id_to_i64(id: u64) -> (r: i64)
    requires
        id <= i64::MAX as u64,
    ensures
        r as int == id as int,
{
    id as i64
}

/// Widens a stored identifier back to the platform representation.
pub fn i64_to_u64(id: i64) -> (r: u64)
    requires
        id >= 0,
    ensures
        r as int == id as int,
{
    id as u64
}

} // verus!
