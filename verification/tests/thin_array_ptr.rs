use heaparray::mem_block::Heap;
use heaparray::p_types::ThinPtrArray;
use heaparray::test_utils::{LabelLoad, Load, Medium, LENGTH};

#[test]
fn thin_array_ptr_make_array() {
    let mut heap: Heap<Load, LabelLoad> = Heap::new();
    let array = ThinPtrArray::with_label(&mut heap, LabelLoad::default(), LENGTH, |_i| {
        Load::default()
    });
    array.drop(&mut heap);
}

#[test]
#[should_panic]
fn thin_array_ptr_bounds_check() {
    let mut heap: Heap<Load, LabelLoad> = Heap::new();
    let fat = ThinPtrArray::with_label(&mut heap, LabelLoad::default(), LENGTH, |_i| {
        Load::default()
    });
    println!("{:?}", fat.get(&heap, LENGTH).unwrap());
}

#[test]
fn thin_array_ptr_data_check() {
    let mut heap: Heap<Load, LabelLoad> = Heap::new();
    let arr = ThinPtrArray::with_label(&mut heap, LabelLoad::default(), LENGTH, |_i| {
        Load::default()
    });
    let default = LabelLoad::default();
    for i in 0..arr.len(&heap) {
        assert!(default == *arr.get(&heap, i).unwrap());
    }
    arr.drop(&mut heap);
}

#[test]
fn thin_array_ptr_swap_exchange() {
    let mut heap: Heap<Medium, LabelLoad> = Heap::new();
    let arr = ThinPtrArray::with_label(&mut heap, LabelLoad::default(), LENGTH, |i| Medium {
        a: i,
        b: i as u32,
        c: i as u32,
    });

    let mut default = Medium::default();
    let len = arr.len(&heap);
    for i in 0..len {
        default = match arr.insert(&mut heap, i, default) {
            Some(x) => x,
            None => panic!("should not return None"),
        }
    }
    assert!(Medium::default() == *arr.get(&heap, 0).unwrap());
    for i in 1..arr.len(&heap) {
        let e = arr.get(&heap, i).unwrap();
        assert!(e.a == i - 1);
        assert!(e.b == i as u32 - 1);
        assert!(e.c == i as u32 - 1);
    }
    arr.drop(&mut heap);
}

#[test]
fn thin_array_ptr_check_drop() {
    let mut heap: Heap<Vec<usize>, ()> = Heap::new();
    let bfr = heap.info();
    let arr = ThinPtrArray::new(&mut heap, LENGTH, |_i| Vec::<usize>::new());
    arr.drop(&mut heap);
    let diff = heap.info().relative_to(&bfr);
    assert!(diff.bytes_alloc == diff.bytes_dealloc);
}
