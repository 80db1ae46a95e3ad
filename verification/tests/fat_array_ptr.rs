use heaparray::mem_block::Heap;
use heaparray::p_types::FatPtrArray;

#[derive(Clone, Copy, Default, Eq, PartialEq)]
pub struct Test {
    pub a: usize,
    pub b: u8,
    pub c: u8,
}

#[test]
fn fat_array_ptr_make_array() {
    let mut heap: Heap<usize, Test> = Heap::new();
    let array = FatPtrArray::with_label(&mut heap, Test::default(), 10, |i| i);
    array.drop(&mut heap);
}

#[test]
#[should_panic]
fn fat_array_ptr_bounds_check() {
    let mut heap: Heap<usize, Test> = Heap::new();
    let fat = FatPtrArray::with_label(&mut heap, Test::default(), 10, |i| i);
    println!("{}", fat.get(&heap, 10).unwrap());
}

#[test]
fn fat_array_ptr_data_check() {
    let mut heap: Heap<Test, Test> = Heap::new();
    let arr = FatPtrArray::with_label(&mut heap, Test::default(), 100, |_i| Test::default());
    let default = Test::default();
    for i in 0..arr.len(&heap) {
        assert!(default == *arr.get(&heap, i).unwrap());
    }
    arr.drop(&mut heap);
}

#[test]
fn fat_array_ptr_swap_exchange() {
    let mut heap: Heap<Test, Test> = Heap::new();
    let arr = FatPtrArray::with_label(&mut heap, Test::default(), 100, |i| Test {
        a: i,
        b: i as u8,
        c: i as u8,
    });

    let mut default = Test::default();
    let len = arr.len(&heap);
    for i in 0..len {
        default = match arr.insert(&mut heap, i, default) {
            Some(x) => x,
            None => panic!("should not return None"),
        }
    }
    assert!(Test::default() == *arr.get(&heap, 0).unwrap());
    for i in 1..arr.len(&heap) {
        let e = arr.get(&heap, i).unwrap();
        assert!(e.a == i - 1);
        assert!(e.b == i as u8 - 1);
        assert!(e.c == i as u8 - 1);
    }
    arr.drop(&mut heap);
}

#[test]
fn fat_array_ptr_check_drop() {
    let mut heap: Heap<Vec<usize>, ()> = Heap::new();
    let origin = heap.info();
    let arr = FatPtrArray::new(&mut heap, 100, |_i| Vec::<usize>::new());
    arr.drop(&mut heap);
    let diff = heap.info().relative_to(&origin);
    assert!(
        diff.bytes_alloc == diff.bytes_dealloc,
        "Diff is {:#?}",
        diff
    );
}
