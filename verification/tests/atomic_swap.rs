use heaparray::atomic::AtomicPtrArray;
use heaparray::mem_block::Heap;
use heaparray::ptr_utils::{AtomicPtrCell, BaseArrayPtr, MemOrder};

#[test]
fn cas_correctness() {
    let mut heap: Heap<u32, ()> = Heap::new();
    let before = heap.info();

    let mut cell = AtomicPtrArray::<u32, ()>::new(&mut heap, 3, |i| i as u32);
    let a = cell.as_raw();
    let b_arr = AtomicPtrArray::<u32, ()>::new(&mut heap, 3, |i| i as u32 + 10);
    let b = b_arr.as_raw();
    let c_arr = AtomicPtrArray::<u32, ()>::new(&mut heap, 3, |i| i as u32 + 20);

    // The cell holds A: swapping A for B succeeds, and the caller now owns
    // the block at A.
    let owned_a = match cell.compare_and_swap(a, b_arr, MemOrder::SeqCst) {
        Ok(prev) => {
            assert_eq!(prev, a);
            AtomicPtrArray::<u32, ()>::from_raw(prev)
        }
        Err(_) => panic!("first compare-and-swap must succeed"),
    };
    assert_eq!(cell.as_raw(), b);
    assert_eq!(*cell.get(&heap, 0).unwrap(), 10);

    // The cell now holds B: a second swap against A fails, reports the
    // actual address, and hands the candidate back unconsumed.
    let c_arr = match cell.compare_and_swap(a, c_arr, MemOrder::SeqCst) {
        Ok(_) => panic!("second compare-and-swap must fail"),
        Err((candidate, actual)) => {
            assert_eq!(actual, b);
            candidate
        }
    };
    assert_eq!(cell.as_raw(), b);

    // Nothing leaked and nothing was freed twice: every block is destroyed
    // exactly once.
    owned_a.drop(&mut heap);
    c_arr.drop(&mut heap);
    cell.drop(&mut heap);
    let diff = heap.info().relative_to(&before);
    assert_eq!(diff.allocs, 3);
    assert_eq!(diff.deallocs, 3);
    assert_eq!(diff.bytes_alloc, diff.bytes_dealloc);
}

#[test]
fn atomic_cell_operations() {
    let mut cell = AtomicPtrCell::from_ptr(5);
    assert_eq!(cell.load(MemOrder::Acquire), 5);
    cell.store(8, MemOrder::Release);
    assert_eq!(cell.load(MemOrder::SeqCst), 8);
    assert_eq!(cell.swap(11, MemOrder::AcqRel), 8);
    assert_eq!(cell.compare_and_swap(11, 13, MemOrder::SeqCst), 11);
    assert_eq!(cell.compare_and_swap(11, 15, MemOrder::SeqCst), 13);
    assert_eq!(cell.compare_exchange(13, 17, MemOrder::SeqCst, MemOrder::Relaxed), Ok(13));
    assert_eq!(cell.compare_exchange(13, 19, MemOrder::SeqCst, MemOrder::Relaxed), Err(17));
    assert_eq!(cell.load(MemOrder::Relaxed), 17);
}

#[test]
fn atomic_array_swap() {
    let mut heap: Heap<u8, u8> = Heap::new();
    let before = heap.info();
    let mut cell = AtomicPtrArray::<u8, u8>::with_label(&mut heap, 1, 2, |_i| 0);
    let replacement = AtomicPtrArray::<u8, u8>::with_label(&mut heap, 2, 2, |_i| 9);
    let old = cell.swap(replacement, MemOrder::SeqCst);
    assert_eq!(*cell.get_label(&heap), 2);
    assert_eq!(*old.get_label(&heap), 1);
    old.drop(&mut heap);
    cell.drop(&mut heap);
    let diff = heap.info().relative_to(&before);
    assert_eq!(diff.bytes_alloc, diff.bytes_dealloc);
}
