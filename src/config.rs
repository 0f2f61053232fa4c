//! Fixed widths of the store's tuples and the arithmetic of the run's sizes.
use vstd::prelude::*;

verus! {

/// Width in bytes of every key handed to the store.
pub const MAX_KEY_SIZE: u8 = 40;

/// Width in bytes of every value handed to the store.
pub const MAX_VALUE_SIZE: u8 = 216;

/// One mebibyte.
pub const MEGA: u64 = 1048576;

/// One gibibyte.
pub const GIGA: u64 = 1073741824;

/// Headroom left on the disk when the run declares it nearly full.
pub const STOP_MARGIN_BYTES: u64 = 536870912;

/// Bytes one tuple takes on disk: a header byte, the key, the value and an
/// eight-byte trailer.
pub open spec fn tuple_size_spec() -> int {
    1 + MAX_KEY_SIZE as int + MAX_VALUE_SIZE as int + 8
}

/// Bytes of `gib` gibibytes.
pub open spec fn gib_bytes(gib: int) -> int {
    gib * GIGA as int
}

/// The estimate of live data: every live key holds one tuple on disk.
pub open spec fn live_bytes_spec(live_keys: int) -> int {
    live_keys * tuple_size_spec()
}

/// The disk counts as nearly full once what is used, plus the margin, reaches
/// its capacity.
pub open spec fn nearly_full_spec(actual_bytes: int, disk_gib: int) -> bool {
    actual_bytes + STOP_MARGIN_BYTES as int >= gib_bytes(disk_gib)
}

/// Bytes of a tuple on disk.
pub fn tuple_size_on_disk() -> (r: u64)
    ensures
        r == tuple_size_spec(),
{
    1 + MAX_KEY_SIZE as u64 + MAX_VALUE_SIZE as u64 + 8
}

/// Bytes of `gib` gibibytes.
pub fn gib_to_bytes(gib: u8) -> (r: u64)
    ensures
        r == gib_bytes(gib as int),
{
    GIGA * gib as u64
}

/// The store's configured sizes for a cache and a disk given in gibibytes:
/// `(cache_size_bytes, disk_size_bytes)`.
pub fn db_sizes(cache_gib: u8, disk_gib: u8) -> (r: (u64, u64))
    ensures
        r.0 == gib_bytes(cache_gib as int),
        r.1 == gib_bytes(disk_gib as int),
{
    (gib_to_bytes(cache_gib), gib_to_bytes(disk_gib))
}

/// Bytes that `live_keys` tuples should take on disk, or `None` where that
/// does not fit in a `u64`.
pub fn live_tuple_bytes(live_keys: u64) -> (r: Option<u64>)
    ensures
        r.is_some() <==> live_bytes_spec(live_keys as int) <= u64::MAX,
        r.is_some() ==> r.unwrap() == live_bytes_spec(live_keys as int),
{
    live_keys.checked_mul(tuple_size_on_disk())
}

/// Whether `actual_bytes` used on a disk of `disk_gib` gibibytes leaves no
/// more than the stop margin free.
pub fn disk_nearly_full(actual_bytes: u64, disk_gib: u8) -> (r: bool)
    ensures
        r == nearly_full_spec(actual_bytes as int, disk_gib as int),
{
    let cap = gib_to_bytes(disk_gib);
    if actual_bytes >= cap {
        true
    } else {
        actual_bytes + STOP_MARGIN_BYTES >= cap
    }
}

/// Whole mebibytes in `bytes`, as the progress lines report them.
pub fn whole_mebibytes(bytes: u64) -> (r: u64)
    ensures
        r == bytes / MEGA,
{
    bytes / MEGA
}

} // verus!
