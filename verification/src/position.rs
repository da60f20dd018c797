//! Seek positioning shared by the decompressed-domain and compressed-domain
//! cursors.

use vstd::prelude::*;

verus! {

/// Where a seek starts from: an absolute offset, the end of the data, or
/// the current cursor.
#[derive(Debug)]
pub enum SeekFrom {
    /// An absolute offset from the start of the data.
    Start(u64),
    /// A signed offset from the end of the data.
    End(i64),
    /// A signed offset from the current cursor.
    Current(i64),
}

/// Where a seek from `base` by `offset` lands: the mathematical sum when it
/// fits the unsigned width, nothing when it would be negative or overflow.
pub open spec fn seek_target(base: u64, offset: i64) -> Option<u64> {
    if 0 <= base + offset <= u64::MAX {
        Some((base + offset) as u64)
    } else {
        None
    }
}

/// Combine a base position and a signed offset with checked arithmetic.
pub fn resolve_seek(base: u64, offset: i64) -> (r: Option<u64>)
    ensures
        r == seek_target(base, offset),
{
    if offset >= 0 {
        base.checked_add(offset as u64)
    } else {
        let magnitude: u64 = (-(offset as i128)) as u64;
        proof {
            assert(magnitude == -(offset as int));
        }
        base.checked_sub(magnitude)
    }
}

} // verus!
