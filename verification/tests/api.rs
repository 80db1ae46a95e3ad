use heaparray::api::{ArcArray, HeapArray};
use heaparray::mem_block::Heap;
use heaparray::naive_rc::TpRcArray;
use heaparray::ref_counters::{ArcStruct, RcStruct};

#[test]
fn heap_array_basics() {
    let mut heap: Heap<usize, ()> = Heap::new();
    let array = HeapArray::<usize, ()>::new(&mut heap, 10, |idx| idx + 3);
    assert!(*array.get(&heap, 1).unwrap() == 4);
    if let Some(e) = array.get_mut(&mut heap, 3) {
        *e = 2;
    }
    assert!(*array.get(&heap, 3).unwrap() == 2);
    array.drop(&mut heap);
}

#[test]
fn arc_array_counting() {
    let mut heap: Heap<u32, ArcStruct<u8>> = Heap::new();
    let before = heap.info();
    let first = ArcArray::<u32, u8>::with_label(&mut heap, 1, 16, |i| i as u32);
    let second = first.clone(&mut heap);
    assert_eq!(first.ref_count(&heap), 2);
    assert_eq!(*second.get(&heap, 15).unwrap(), 15);
    assert_eq!(*second.get_label(&heap), 1);
    first.drop(&mut heap);
    assert_eq!(second.ref_count(&heap), 1);
    second.drop(&mut heap);
    let diff = heap.info().relative_to(&before);
    assert_eq!(diff.bytes_alloc, diff.bytes_dealloc);
}

#[test]
fn thin_rc_array() {
    let mut heap: Heap<u8, RcStruct<()>> = Heap::new();
    let first = TpRcArray::<u8, ()>::with_label(&mut heap, (), 4, |i| i as u8 * 2);
    let second = first.clone(&mut heap);
    assert_eq!(second.len(&heap), 4);
    assert_eq!(*second.get(&heap, 3).unwrap(), 6);
    let (a1, o1) = first.get_ptr(&heap, 2);
    let (a2, o2) = second.get_ptr(&heap, 2);
    assert_eq!((a1, o1), (a2, o2));
    second.drop(&mut heap);
    first.drop(&mut heap);
}
