use lithium::heterogeneous_stack::align::is_aligned;
use lithium::heterogeneous_stack::array;
use lithium::heterogeneous_stack::heap::Heap;
use lithium::heterogeneous_stack::unbounded;

#[test]
fn pass() {
    assert!(is_aligned(0, 2));
    assert!(is_aligned(8, 2));
}

#[test]
#[should_panic]
fn fail() {
    assert!(is_aligned(3, 2));
}

#[test]
fn array_overaligned() {
    let mut stack = array::Stack::new(256, 256);
    let ptr = stack.try_push(256).expect("failed to allocate");
    assert_eq!(ptr % 256, 0);
}

#[test]
fn consecutive() {
    let mut stack = array::Stack::new(1, 256);
    let ptr1 = stack.try_push(5).expect("failed to allocate");
    let ptr2 = stack.try_push(8).expect("failed to allocate");
    let ptr3 = stack.try_push(1).expect("failed to allocate");
    assert_eq!(ptr2 - ptr1, 5);
    assert_eq!(ptr3 - ptr2, 8);
    stack.pop_unchecked(1);
    let ptr4 = stack.try_push(2).expect("failed to allocate");
    assert_eq!(ptr3, ptr4);
}

#[test]
fn too_large() {
    let mut stack = array::Stack::new(1, 16);
    stack.try_push(5);
    assert!(stack.try_push(12).is_none(), "allocation fit");
}

#[test]
fn pop_zero() {
    let mut stack = array::Stack::new(1, 16);
    stack.pop_unchecked(0);
}

#[test]
fn array_push_zero() {
    let mut stack = array::Stack::new(1, 16);
    stack.try_push(16).expect("failed to allocate");
    stack.try_push(0).expect("failed to allocate");
    stack.try_push(0).expect("failed to allocate");
}

#[test]
fn contains_allocated() {
    let mut stack = array::Stack::new(1, 16);
    let ptr = stack.try_push(1).expect("failed to allocate");
    assert!(stack.contains_allocated(ptr, 1));
    let ptr = stack.try_push(14).expect("failed to allocate");
    assert!(stack.contains_allocated(ptr, 14));
    let ptr = stack.try_push(1).expect("failed to allocate");
    assert!(stack.contains_allocated(ptr, 1));
    let ptr = stack.try_push(0).expect("failed to allocate");
    assert!(stack.contains_allocated(ptr, 0));
    assert!(stack.contains_allocated(0, 0));
    assert!(!stack.contains_allocated(0, 1));
    // An address past the end of the buffer, as a disjoint allocator
    // would produce.
    assert!(!stack.contains_allocated(17, 1));
}

#[test]
fn heap_overaligned() {
    let mut heap = Heap::new(256, 256);
    let ptr = heap.allocate(256);
    assert_eq!(ptr % 256, 0);
    heap.deallocate(ptr, 256);
}

#[test]
fn heap_unique() {
    let mut heap = Heap::new(1, 0);
    let ptr1 = heap.allocate(1);
    let ptr2 = heap.allocate(1);
    assert_ne!(ptr1, ptr2);
    heap.deallocate(ptr1, 1);
    heap.deallocate(ptr2, 1);
}

#[test]
fn unbounded_overaligned() {
    let mut stack = unbounded::Stack::new(256, 4096);
    let ptr1 = stack.push(256);
    assert_eq!(ptr1 % 256, 0);
    let ptr2 = stack.push(256 * 20);
    assert_eq!(ptr2 % 256, 0);
    stack.pop(ptr2, 256 * 20);
    stack.pop(ptr1, 256);
}

#[test]
fn allocate() {
    let mut stack = unbounded::Stack::new(1, 4096);
    stack.push(5);
    let ptr = stack.push(4097);
    stack.pop(ptr, 4097);
}

#[test]
fn simple() {
    let mut stack = unbounded::Stack::new(1, 4096);
    let ptr = stack.push(5);
    stack.pop(ptr, 5);
}

#[test]
fn unbounded_push_zero() {
    let mut stack = unbounded::Stack::new(1, 4096);
    let ptr1 = stack.push(4096);
    let ptr2 = stack.push(0);
    let ptr3 = stack.push(1);
    stack.pop(ptr3, 1);
    stack.pop(ptr2, 0);
    stack.pop(ptr1, 4096);
}

#[test]
fn spill_over() {
    let mut stack = unbounded::Stack::new(1, 4096);
    let ptr1 = stack.push(4095);
    let ptr2 = stack.push(1);
    let ptr3 = stack.push(1);
    stack.pop(ptr3, 1);
    stack.pop(ptr2, 1);
    stack.pop(ptr1, 4095);
}

#[test]
fn unbounded_unique() {
    let mut stack = unbounded::Stack::new(1, 4096);
    let ptr1 = stack.push(1);
    let ptr2 = stack.push(1);
    assert_ne!(ptr1, ptr2);
    stack.pop(ptr2, 1);
    stack.pop(ptr1, 1);
}

#[test]
fn replace_last_on_stack() {
    let mut stack = unbounded::Stack::new(1, 4096);
    assert_eq!(stack.bounded_stack.len, 0);
    let ptr1 = stack.push(2);
    assert_eq!(stack.bounded_stack.len, 2);
    let ptr2 = stack.replace_last(ptr1, 2, 2);
    assert_eq!(stack.bounded_stack.len, 2);
    assert_eq!(ptr1, ptr2);
    let ptr3 = stack.replace_last(ptr2, 2, 5);
    assert_eq!(stack.bounded_stack.len, 5);
    assert_eq!(ptr2, ptr3);
    let ptr4 = stack.replace_last(ptr3, 5, 3);
    assert_eq!(stack.bounded_stack.len, 3);
    assert_eq!(ptr3, ptr4);
}

#[test]
fn replace_last_on_heap() {
    let mut stack = unbounded::Stack::new(1, 4096);
    assert_eq!(stack.bounded_stack.len, 0);
    let ptr1 = stack.push(4097);
    assert_eq!(stack.bounded_stack.len, 0);
    let ptr2 = stack.replace_last(ptr1, 4097, 4097);
    assert_eq!(stack.bounded_stack.len, 0);
    assert_eq!(ptr1, ptr2);
    let ptr3 = stack.replace_last(ptr2, 4097, 4098);
    assert_eq!(stack.bounded_stack.len, 0);
    let ptr4 = stack.replace_last(ptr3, 4098, 4097);
    assert_eq!(stack.bounded_stack.len, 0);
    stack.pop(ptr4, 4097);
}

#[test]
fn replace_last_relocate() {
    let mut stack = unbounded::Stack::new(1, 4096);
    assert_eq!(stack.bounded_stack.len, 0);
    let ptr1 = stack.push(4096);
    assert_eq!(stack.bounded_stack.len, 4096);
    let ptr2 = stack.replace_last(ptr1, 4096, 4097);
    assert_eq!(stack.bounded_stack.len, 0);
    assert_ne!(ptr1, ptr2);
    let ptr3 = stack.replace_last(ptr2, 4097, 4096);
    assert_eq!(stack.bounded_stack.len, 4096);
    assert_eq!(ptr1, ptr3);
}
