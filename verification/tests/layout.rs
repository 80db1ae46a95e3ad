use heaparray::alloc_utils::{aligned_size, cond, ensure_align, is_zero, max, min, not_zero,
    safe_div, size_align, size_align_array, size_align_multiple};
use heaparray::mem_block::{block_max_len, check_null_ref, MemBlock, NULL};

#[test]
fn zero_tests() {
    assert!(is_zero(0) == 1);
    assert!(is_zero(1) == 0);
    assert!(is_zero(2) == 0);
    assert!(is_zero(3) == 0);
    assert!(is_zero(4) == 0);
    assert!(is_zero(5) == 0);
    assert!(not_zero(0) == 0);
    assert!(not_zero(1) == 1);
}

#[test]
fn cond_tests() {
    assert!(cond(true, 33, 121) == 33);
    assert!(cond(false, 33, 121) == 121);
}

#[test]
fn min_max_div() {
    assert_eq!(max(3, 8), 8);
    assert_eq!(max(8, 3), 8);
    assert_eq!(min(3, 8), 3);
    assert_eq!(safe_div(12, 4), 3);
    assert_eq!(safe_div(12, 0), usize::MAX);
}

#[test]
fn align_rounding() {
    assert_eq!(ensure_align(12, 8), (16, 8));
    assert_eq!(ensure_align(16, 8), (16, 8));
    assert_eq!(aligned_size(1, 4), 4);
    assert_eq!(aligned_size(0, 4), 0);
}

#[test]
fn size_align_values() {
    assert_eq!(size_align::<u64>(), (8, 8));
    assert_eq!(size_align_array::<u64>(5), (40, 8));
    assert_eq!(size_align_multiple(&[(8, 8), (12, 4)]), (24, 8));
    assert_eq!(size_align_multiple(&[]), (0, 0));
}

#[test]
fn block_layout_values() {
    // One u16 label padded to the u64 elements' alignment, then the run.
    assert_eq!(MemBlock::<u64, u16>::memory_layout(3), (32, 8));
    // A block of no elements takes exactly the label's own layout.
    assert_eq!(MemBlock::<u64, u16>::memory_layout(0), (2, 2));
    let cap = block_max_len::<u64, u16>();
    assert_eq!(cap, (isize::MAX as usize - 8) / 8);
    // Zero-sized elements leave the count effectively unbounded.
    assert_eq!(block_max_len::<(), u16>(), isize::MAX as usize);
}

#[test]
fn null_check() {
    assert!(check_null_ref(0));
    assert!(check_null_ref(12));
    assert!(!check_null_ref(NULL));
    assert_eq!(NULL, usize::MAX);
}
