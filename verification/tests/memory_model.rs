use heaparray::base::BaseArray;
use heaparray::mem_block::Heap;
use heaparray::ptr_utils::{NonNullPtr, RawPtr};

#[test]
fn new() {
    let mut heap: Heap<Vec<u8>, Vec<u8>> = Heap::new();
    let info = heap.info();
    let array = BaseArray::<Vec<u8>, Vec<u8>, NonNullPtr>::new(
        &mut heap,
        Vec::with_capacity(10),
        100,
        |_i| Vec::with_capacity(10),
    );
    array.drop(&mut heap, 100);
    let diff = heap.info().relative_to(&info);
    assert!(diff.bytes_alloc == diff.bytes_dealloc);
}

#[test]
fn label_element_access() {
    for _ in 0..1000 {
        let mut heap: Heap<Vec<u8>, Vec<u8>> = Heap::new();
        let array = BaseArray::<Vec<u8>, Vec<u8>, NonNullPtr>::new(
            &mut heap,
            Vec::with_capacity(10),
            100,
            |_i| Vec::with_capacity(10),
        );
        array.get_label_mut(&mut heap).push(10);
        for i in 0..100 {
            array.get_mut(&mut heap, i).push(10);
        }
    }
}

#[test]
pub fn ref_no_dealloc() {
    let mut heap: Heap<Vec<u8>, ()> = Heap::new();
    let blk = BaseArray::<Vec<u8>, (), RawPtr>::new(&mut heap, (), 200, |_i| Vec::new());
    let info = heap.info();
    // Letting the reference go out of scope releases nothing: destruction
    // is explicit.
    let _ = blk;
    let diff = heap.info().relative_to(&info);
    assert!(diff.bytes_alloc == 0);
    assert!(diff.bytes_dealloc == 0);
}

#[test]
pub fn ref_dealloc_lazy() {
    let mut heap: Heap<Vec<u8>, ()> = Heap::new();
    let info = heap.info();
    let blk = BaseArray::<Vec<u8>, (), RawPtr>::new(&mut heap, (), 200, |_i| Vec::new());
    let contents = blk.drop_lazy(&mut heap, 200);
    let _ = contents;
    let diff = heap.info().relative_to(&info);
    assert!(diff.bytes_alloc == diff.bytes_dealloc);
}

#[test]
pub fn ref_dealloc_lazy_leak() {
    let mut heap: Heap<Vec<u8>, Vec<u8>> = Heap::new();
    let vec: Vec<u8> = Vec::with_capacity(10);
    let info = heap.info();
    let blk = BaseArray::<Vec<u8>, Vec<u8>, RawPtr>::new(&mut heap, vec, 200, |_i| Vec::new());
    // A lazy drop releases the block's storage but hands the contents out
    // whole instead of destroying them.
    let contents = blk.drop_lazy(&mut heap, 200);
    let _ = contents;
    let diff = heap.info().relative_to(&info);
    assert!(diff.bytes_alloc == diff.bytes_dealloc);
}

#[test]
pub fn ref_alloc_efficient() {
    let alloc_size = 200 * core::mem::size_of::<Vec<()>>();
    let mut heap: Heap<Vec<()>, ()> = Heap::new();
    let info = heap.info();

    let blk = BaseArray::<Vec<()>, (), RawPtr>::new(&mut heap, (), 200, |_i| Vec::new());
    let info_2 = heap.info();
    let info_diff = info_2.relative_to(&info);

    assert!(
        info_diff.bytes_alloc == alloc_size,
        "Allocation had incorrect size;\n\
         Stats are {:#?}",
        info_diff
    );

    assert!(
        info_diff.bytes_dealloc == 0,
        "Deallocated during allocation!\n\
         Stats are {:#?}",
        info_diff
    );

    blk.drop(&mut heap, 200);
    let info_diff = heap.info().relative_to(&info_2);

    assert!(
        info_diff.bytes_dealloc == alloc_size,
        "Deallocation had incorrect size;\n\
         Stats are {:#?}",
        info_diff
    );

    assert!(
        info_diff.bytes_alloc == 0,
        "Allocated during deallocation!\n\
         Stats are {:#?}",
        info_diff
    );
}
