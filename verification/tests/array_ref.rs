use heaparray::mem_block::Heap;
use heaparray::naive_rc::FpRcArray;
use heaparray::test_utils::{LabelLoad, Load, LENGTH};
use heaparray::traits::ArrayRef;

#[test]
fn clone_test() {
    let mut heap: Heap<Load, heaparray::ref_counters::RcStruct<LabelLoad>> = Heap::new();
    let first_ref = FpRcArray::with_len(&mut heap, LabelLoad::default(), 1000);
    let second_ref = ArrayRef::clone(&first_ref, &mut heap);
    assert!(first_ref.len(&heap) == second_ref.len(&heap));
    for i in 0..second_ref.len(&heap) {
        let r1 = first_ref.get_ptr(&heap, i);
        let r2 = second_ref.get_ptr(&heap, i);
        assert!(r1 == r2);
    }
    second_ref.drop(&mut heap);
    first_ref.drop(&mut heap);
}

#[test]
fn small_ref_counting() {
    let mut heap: Heap<Load, heaparray::ref_counters::RcStruct<LabelLoad>> = Heap::new();
    let bfr = heap.info();
    let first_ref = FpRcArray::with_len(&mut heap, LabelLoad::default(), LENGTH);
    first_ref.drop(&mut heap);
    let diff = heap.info().relative_to(&bfr);
    assert!(diff.bytes_alloc == diff.bytes_dealloc);
}

#[test]
fn ref_counting_test() {
    let mut heap: Heap<Load, heaparray::ref_counters::RcStruct<()>> = Heap::new();
    let t_0 = heap.info();
    let mut ref_vec = Vec::with_capacity(10000);
    let first_ref = FpRcArray::<Load, ()>::with_len(&mut heap, (), 1000);
    ref_vec.push(first_ref);
    let balloc = heap.info().bytes_alloc;
    for _ in 0..LENGTH {
        let new_ref = ArrayRef::clone(ref_vec.last().unwrap(), &mut heap);
        assert!(heap.info().bytes_alloc == balloc, "Clone caused allocation");
        ref_vec.push(new_ref);
    }
    let final_ref = ArrayRef::clone(&ref_vec[0], &mut heap);
    for handle in ref_vec {
        handle.drop(&mut heap);
    }
    assert!(heap.info().bytes_alloc == balloc);
    final_ref.drop(&mut heap);
    let diff = heap.info().relative_to(&t_0);
    assert!(diff.bytes_alloc == diff.bytes_dealloc);
}
