use damon::memory::{available_memory_mb, bytes_to_mb, BYTES_PER_MB};

#[test]
fn whole_megabytes_round_down() {
    assert_eq!(bytes_to_mb(0), 0);
    assert_eq!(bytes_to_mb(1024 * 1024 - 1), 0);
    assert_eq!(bytes_to_mb(1024 * 1024), 1);
    assert_eq!(bytes_to_mb(5 * 1024 * 1024 + 7), 5);
    assert_eq!(bytes_to_mb(8 * 1024 * 1024 * 1024), 8192);
}

#[test]
fn largest_byte_count() {
    assert_eq!(bytes_to_mb(u64::MAX), 17_592_186_044_415);
    assert_eq!(BYTES_PER_MB, 1_048_576);
}

#[test]
fn successful_query_gives_megabytes() {
    assert_eq!(available_memory_mb(Some(3 * 1024 * 1024 * 1024 + 512)), Some(3072));
    assert_eq!(available_memory_mb(Some(1023)), Some(0));
}

#[test]
fn failed_query_gives_nothing() {
    assert_eq!(available_memory_mb(None), None);
}
