use assert_repro::config::{
    db_sizes, disk_nearly_full, gib_to_bytes, live_tuple_bytes, tuple_size_on_disk,
    whole_mebibytes, GIGA, MEGA, STOP_MARGIN_BYTES,
};
use assert_repro::oracle::actual_bytes_used;

#[test]
fn tuple_size_is_header_key_value_trailer() {
    assert_eq!(tuple_size_on_disk(), 265);
}

#[test]
fn db_sizes_of_default_options() {
    assert_eq!(db_sizes(3, 128), (3 * GIGA, 128 * GIGA));
    assert_eq!(gib_to_bytes(0), 0);
    assert_eq!(gib_to_bytes(255), 255 * 1073741824);
}

#[test]
fn live_tuple_bytes_multiplies_by_tuple_size() {
    assert_eq!(live_tuple_bytes(0), Some(0));
    assert_eq!(live_tuple_bytes(4), Some(1060));
    assert_eq!(live_tuple_bytes(u64::MAX), None);
}

#[test]
fn disk_nearly_full_at_margin() {
    assert!(disk_nearly_full(512 * MEGA, 1));
    assert!(!disk_nearly_full(512 * MEGA - 1, 1));
    assert!(disk_nearly_full(0, 0));
    assert!(disk_nearly_full(u64::MAX, 255));
    assert!(!disk_nearly_full(0, 1));
    assert_eq!(STOP_MARGIN_BYTES, 512 * MEGA);
}

#[test]
fn whole_mebibytes_rounds_down() {
    assert_eq!(whole_mebibytes(3 * MEGA - 1), 2);
    assert_eq!(whole_mebibytes(0), 0);
}

#[test]
fn oracle_counts_512_byte_blocks() {
    assert_eq!(actual_bytes_used(0), Some(0));
    assert_eq!(actual_bytes_used(8), Some(4096));
    assert_eq!(actual_bytes_used(3), Some(1536));
    assert_eq!(actual_bytes_used(u64::MAX), None);
}
