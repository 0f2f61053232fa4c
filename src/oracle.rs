//! Disk usage measured from the file system's allocated-block count.
use vstd::prelude::*;

verus! {

/// Size of the unit in which the file system counts allocated blocks.
pub const BLOCK_UNIT_BYTES: u64 = 512;

/// Bytes actually allocated to a file that has `blocks` allocated blocks.
pub open spec fn allocated_bytes_spec(blocks: int) -> int {
    blocks * BLOCK_UNIT_BYTES as int
}

/// Bytes actually allocated to a file from its allocated-block count, which
/// for a sparse file is less than its length; `None` where the product does
/// not fit in a `u64`.
pub fn actual_bytes_used(blocks: u64) -> (r: Option<u64>)
    ensures
        r.is_some() <==> allocated_bytes_spec(blocks as int) <= u64::MAX,
        r.is_some() ==> r.unwrap() == allocated_bytes_spec(blocks as int),
{
    blocks.checked_mul(BLOCK_UNIT_BYTES)
}

} // verus!
