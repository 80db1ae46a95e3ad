use heaparray::mem_block::Heap;
use heaparray::naive_rc::FpRcArray;
use heaparray::p_types::ThinPtrArray;
use heaparray::ref_counters::RcStruct;

#[test]
fn one_word_round_trip() {
    let mut heap: Heap<usize, ()> = Heap::new();
    let before = heap.info();
    let arr = ThinPtrArray::new(&mut heap, 100, |idx| idx + 3);
    assert!(*arr.get(&heap, 1).unwrap() == 4);
    if let Some(slot) = arr.get_mut(&mut heap, 3) {
        *slot = 2;
    } else {
        panic!("index 3 is in bounds");
    }
    assert!(*arr.get(&heap, 3).unwrap() == 2);
    arr.drop(&mut heap);
    let diff = heap.info().relative_to(&before);
    assert!(diff.bytes_alloc > 0);
    assert!(diff.bytes_alloc == diff.bytes_dealloc);
}

#[test]
fn rc_clone_drop_round_trip() {
    let mut heap: Heap<usize, RcStruct<()>> = Heap::new();
    let t_0 = heap.info();
    let first = FpRcArray::<usize, ()>::with_len(&mut heap, (), 1000);
    let mut refs = Vec::new();
    refs.push(first);
    for _ in 0..10 {
        let fresh = refs.last().unwrap().clone(&mut heap);
        refs.push(fresh);
    }
    for _ in 0..10 {
        refs.pop().unwrap().drop(&mut heap);
    }
    let last = refs.pop().unwrap();
    assert!(last.ref_count(&heap) == 1);
    last.drop(&mut heap);
    let diff = heap.info().relative_to(&t_0);
    assert!(diff.bytes_alloc == diff.bytes_dealloc);
}

#[test]
fn insert_returns_previous() {
    let mut heap: Heap<u64, ()> = Heap::new();
    let arr = ThinPtrArray::new(&mut heap, 5, |i| i as u64 * 10);
    let prev = arr.insert(&mut heap, 2, 777);
    assert_eq!(prev, Some(20));
    assert_eq!(*arr.get(&heap, 2).unwrap(), 777);
    assert_eq!(*arr.get(&heap, 1).unwrap(), 10);
    assert_eq!(arr.insert(&mut heap, 5, 1), None);
    assert_eq!(*arr.get(&heap, 2).unwrap(), 777);
    arr.drop(&mut heap);
}

#[test]
fn bounds_property() {
    let mut heap: Heap<u32, ()> = Heap::new();
    let arr = ThinPtrArray::new(&mut heap, 4, |i| i as u32 + 1);
    for i in 0..4 {
        assert_eq!(*arr.get(&heap, i).unwrap(), i as u32 + 1);
        assert!(arr.get_mut(&mut heap, i).is_some());
    }
    assert!(arr.get(&heap, 4).is_none());
    assert!(arr.get(&heap, 1000).is_none());
    assert!(arr.get_mut(&mut heap, 4).is_none());
    arr.drop(&mut heap);
}

#[test]
fn rc_mutation_gated_on_unique_reference() {
    let mut heap: Heap<u8, RcStruct<()>> = Heap::new();
    let first = FpRcArray::<u8, ()>::with_len(&mut heap, (), 3);
    let second = first.clone(&mut heap);
    // Two references: mutation must fail rather than touch shared state.
    assert!(first.get_mut(&mut heap, 0).is_none());
    assert!(first.insert(&mut heap, 0, 9).is_none());
    assert_eq!(*first.get(&heap, 0).unwrap(), 0);
    second.drop(&mut heap);
    // Back to one reference: mutation goes through again.
    assert_eq!(first.insert(&mut heap, 0, 9), Some(0));
    assert_eq!(*first.get(&heap, 0).unwrap(), 9);
    first.drop(&mut heap);
}

#[test]
fn rc_make_owned_and_make_mut() {
    let mut heap: Heap<u16, RcStruct<u16>> = Heap::new();
    let first = FpRcArray::<u16, u16>::with_label(&mut heap, 7, 4, |i| i as u16);
    let mut second = first.clone(&mut heap);
    assert_eq!(second.ref_count(&heap), 2);

    // make_mut on a shared reference copies the block and leaves the other
    // reference alone.
    second.make_mut(&mut heap);
    assert_eq!(second.ref_count(&heap), 1);
    assert_eq!(first.ref_count(&heap), 1);
    assert_eq!(second.insert(&mut heap, 0, 100), Some(0));
    assert_eq!(*first.get(&heap, 0).unwrap(), 0);

    // make_owned on a unique reference hands the block over without a copy.
    let owned = first.make_owned(&mut heap);
    assert_eq!(*owned.get(&heap, 1).unwrap(), 1);
    owned.drop(&mut heap);
    second.drop(&mut heap);
}

#[test]
fn rc_to_owned_and_to_mut() {
    let mut heap: Heap<u8, RcStruct<()>> = Heap::new();
    let first = FpRcArray::<u8, ()>::with_len(&mut heap, (), 2);
    let mut second = first.clone(&mut heap);

    assert!(second.to_mut(&heap).is_none());
    let second = match second.to_owned(&heap) {
        Ok(_) => panic!("shared reference must not become owned"),
        Err(same) => same,
    };
    second.drop(&mut heap);

    let mut first = first;
    assert!(first.to_mut(&heap).is_some());
    match first.to_owned(&heap) {
        Ok(arr) => arr.drop(&mut heap),
        Err(_) => panic!("unique reference must become owned"),
    }
}

#[test]
fn zero_length_array() {
    let mut heap: Heap<u64, u8> = Heap::new();
    let before = heap.info();
    let arr = heaparray::p_types::FatPtrArray::<u64, u8>::with_label(&mut heap, 5, 0, |i| i as u64);
    assert_eq!(arr.len(&heap), 0);
    assert!(arr.get(&heap, 0).is_none());
    assert_eq!(*arr.get_label(&heap), 5);
    arr.drop(&mut heap);
    let diff = heap.info().relative_to(&before);
    // A block of no elements still occupies its label's storage.
    assert_eq!(diff.bytes_alloc, 1);
    assert_eq!(diff.bytes_alloc, diff.bytes_dealloc);
}

#[test]
fn slice_views() {
    let mut heap: Heap<u8, ()> = Heap::new();
    let arr = heaparray::p_types::FatPtrArray::<u8, ()>::new(&mut heap, 4, |i| i as u8);
    assert_eq!(arr.as_slice(&heap), &[0, 1, 2, 3]);
    let s = arr.as_slice_mut(&mut heap);
    s[2] = 9;
    assert_eq!(arr.as_slice(&heap), &[0, 1, 9, 3]);
    arr.drop(&mut heap);
}
