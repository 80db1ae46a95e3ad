use heaparray::mem_block::Heap;
use heaparray::p_types::{FatPtrArray, ThinPtrArray};

#[derive(Clone, Copy, Default, Eq, PartialEq)]
pub struct Test {
    pub a: usize,
    pub b: u8,
    pub c: u8,
}

#[test]
fn make_arrays() {
    let mut heap: Heap<usize, Test> = Heap::new();
    let thin = ThinPtrArray::with_label(&mut heap, Test::default(), 10, |i| i);
    thin.drop(&mut heap);
}

#[test]
#[should_panic]
fn bounds_check_fat() {
    let mut heap: Heap<usize, Test> = Heap::new();
    let fat = FatPtrArray::with_label(&mut heap, Test::default(), 10, |i| i);
    println!("{}", fat.get(&heap, 10).unwrap());
}

#[test]
#[should_panic]
fn bounds_check_thin() {
    let mut heap: Heap<usize, Test> = Heap::new();
    let thin = ThinPtrArray::with_label(&mut heap, Test::default(), 10, |i| i);
    println!("{}", thin.get(&heap, 10).unwrap());
}

#[test]
fn data_check_fat() {
    let mut heap: Heap<Test, Test> = Heap::new();
    let arr = FatPtrArray::with_label(&mut heap, Test::default(), 100, |_i| Test::default());
    let default = Test::default();
    for i in 0..arr.len(&heap) {
        assert!(default == *arr.get(&heap, i).unwrap());
    }
    arr.drop(&mut heap);
}

#[test]
fn data_check_thin() {
    let mut heap: Heap<Test, Test> = Heap::new();
    let arr = ThinPtrArray::with_label(&mut heap, Test::default(), 100, |_i| Test::default());
    let default = Test::default();
    for i in 0..arr.len(&heap) {
        assert!(default == *arr.get(&heap, i).unwrap());
    }
    arr.drop(&mut heap);
}

#[test]
fn swap_exchange_thin() {
    let mut heap: Heap<Test, Test> = Heap::new();
    let arr = ThinPtrArray::with_label(&mut heap, Test::default(), 100, |i| Test {
        a: i,
        b: i as u8,
        c: i as u8,
    });

    let mut default = Test::default();
    let len = arr.len(&heap);
    for i in 0..len {
        default = match arr.insert(&mut heap, i, default) {
            Some(x) => x,
            None => panic!("should not return None"),
        }
    }
    assert!(Test::default() == *arr.get(&heap, 0).unwrap());
    for i in 1..arr.len(&heap) {
        let e = arr.get(&heap, i).unwrap();
        assert!(e.a == i - 1);
        assert!(e.b == i as u8 - 1);
        assert!(e.c == i as u8 - 1);
    }
    arr.drop(&mut heap);
}

#[test]
fn swap_exchange_fat() {
    let mut heap: Heap<Test, Test> = Heap::new();
    let arr = FatPtrArray::with_label(&mut heap, Test::default(), 100, |i| Test {
        a: i,
        b: i as u8,
        c: i as u8,
    });

    let mut default = Test::default();
    let len = arr.len(&heap);
    for i in 0..len {
        default = match arr.insert(&mut heap, i, default) {
            Some(x) => x,
            None => panic!("should not return None"),
        }
    }
    assert!(Test::default() == *arr.get(&heap, 0).unwrap());
    for i in 1..arr.len(&heap) {
        let e = arr.get(&heap, i).unwrap();
        assert!(e.a == i - 1);
        assert!(e.b == i as u8 - 1);
        assert!(e.c == i as u8 - 1);
    }
    arr.drop(&mut heap);
}
