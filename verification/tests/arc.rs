use arc_weak::arc::{Arc, Weak};
use arc_weak::heap::Heap;
use std::cell::Cell;
use std::rc::Rc;

/// Counts its own destruction.
struct DetectDrop {
    drops: Rc<Cell<usize>>,
}

impl Drop for DetectDrop {
    fn drop(&mut self) {
        self.drops.set(self.drops.get() + 1);
    }
}

fn detector() -> (Rc<Cell<usize>>, DetectDrop) {
    let drops = Rc::new(Cell::new(0));
    let detect = DetectDrop { drops: drops.clone() };
    (drops, detect)
}

#[test]
fn test() {
    let (num_drops, detect) = detector();
    let mut heap = Heap::new();

    // Create an Arc and two Weaks sharing an object containing a string and a DetectDrop
    let x = Arc::new(("hello", detect), &mut heap);
    let y = Arc::downgrade(&x, &mut heap);
    let z = Arc::downgrade(&x, &mut heap);

    {
        // Weak pointer should be upgradable at this point
        let upgraded = y.upgrade(&mut heap).unwrap();
        assert_eq!(upgraded.deref(&heap).0, "hello");
        upgraded.drop(&mut heap);
        y.drop(&mut heap);
    }

    // x should still be usable here
    assert_eq!(x.deref(&heap).0, "hello");

    // One Arc, x, is left, so the object shouldn't have been dropped yet.
    assert_eq!(num_drops.get(), 0);

    x.drop(&mut heap);

    // Now that x is dropped the object should've been dropped
    assert_eq!(num_drops.get(), 1);

    // at this point, the data has been dropped, so z cannot be upgraded to an Arc anymore
    assert!(z.upgrade(&mut heap).is_none());
}

#[test]
fn new_block_has_one_strong_handle() {
    let mut heap = Heap::new();
    assert_eq!(heap.len(), 0);
    let x = Arc::new(7u32, &mut heap);
    assert_eq!(x.addr(), 0);
    assert_eq!(heap.len(), 1);
    assert!(heap.is_allocated(0));
    assert!(heap.is_populated(0));
    assert_eq!(heap.strong_count(0), Some(1));
    assert_eq!(heap.total_count(0), Some(1));
    assert_eq!(*x.deref(&heap), 7);
}

#[test]
fn every_block_gets_an_address_of_its_own() {
    let mut heap = Heap::new();
    let a = Arc::new(1u8, &mut heap);
    let b = Arc::new(2u8, &mut heap);
    assert_eq!(a.addr(), 0);
    assert_eq!(b.addr(), 1);
    a.drop(&mut heap);
    let c = Arc::new(3u8, &mut heap);
    assert_eq!(c.addr(), 2);
    assert!(!heap.is_allocated(0));
    assert_eq!(heap.strong_count(0), None);
    assert_eq!(heap.total_count(0), None);
    assert!(!heap.is_populated(0));
    assert_eq!(*b.deref(&heap), 2);
    assert_eq!(*c.deref(&heap), 3);
    assert!(!heap.is_allocated(3));
}

#[test]
fn clone_counts_in_both_counters() {
    let mut heap = Heap::new();
    let x = Arc::new(String::from("shared"), &mut heap);
    let y = x.clone(&mut heap);
    assert_eq!(y.addr(), x.addr());
    assert_eq!(heap.strong_count(0), Some(2));
    assert_eq!(heap.total_count(0), Some(2));
    assert_eq!(y.deref(&heap), "shared");
    y.drop(&mut heap);
    assert_eq!(heap.strong_count(0), Some(1));
    assert_eq!(heap.total_count(0), Some(1));
    assert_eq!(x.deref(&heap), "shared");
}

#[test]
fn downgrade_and_weak_clone_count_in_total_only() {
    let mut heap = Heap::new();
    let x = Arc::new(5i64, &mut heap);
    let w = Arc::downgrade(&x, &mut heap);
    assert_eq!(w.addr(), x.addr());
    assert_eq!(heap.strong_count(0), Some(1));
    assert_eq!(heap.total_count(0), Some(2));
    let v: Weak<i64> = w.clone(&mut heap);
    assert_eq!(v.addr(), 0);
    assert_eq!(heap.strong_count(0), Some(1));
    assert_eq!(heap.total_count(0), Some(3));
    v.drop(&mut heap);
    assert_eq!(heap.total_count(0), Some(2));
    assert!(heap.is_populated(0));
}

#[test]
fn value_is_destroyed_once_with_the_last_strong_handle() {
    let (drops, detect) = detector();
    let mut heap = Heap::new();
    let a = Arc::new(detect, &mut heap);
    let b = a.clone(&mut heap);
    let c = b.clone(&mut heap);
    let w1 = Arc::downgrade(&a, &mut heap);
    let w2 = w1.clone(&mut heap);

    b.drop(&mut heap);
    assert_eq!(drops.get(), 0);
    a.drop(&mut heap);
    assert_eq!(drops.get(), 0);
    assert!(heap.is_populated(0));
    c.drop(&mut heap);
    assert_eq!(drops.get(), 1);
    assert!(!heap.is_populated(0));
    assert_eq!(heap.strong_count(0), Some(0));
    assert_eq!(heap.total_count(0), Some(2));

    // the weak handles outlive the value and do not destroy it again
    w1.drop(&mut heap);
    assert_eq!(drops.get(), 1);
    w2.drop(&mut heap);
    assert_eq!(drops.get(), 1);
}

#[test]
fn block_is_freed_with_the_last_handle_of_either_kind() {
    let (drops, detect) = detector();
    let mut heap = Heap::new();
    let a = Arc::new(detect, &mut heap);
    let w = Arc::downgrade(&a, &mut heap);
    let v = w.clone(&mut heap);

    a.drop(&mut heap);
    assert!(heap.is_allocated(0));
    w.drop(&mut heap);
    assert!(heap.is_allocated(0));
    assert_eq!(heap.total_count(0), Some(1));
    v.drop(&mut heap);
    assert!(!heap.is_allocated(0));
    assert_eq!(drops.get(), 1);
    assert_eq!(heap.len(), 1);
}

#[test]
fn last_strong_handle_frees_the_block_when_no_weak_is_left() {
    let (drops, detect) = detector();
    let mut heap = Heap::new();
    let a = Arc::new(detect, &mut heap);
    let w = Arc::downgrade(&a, &mut heap);
    w.drop(&mut heap);
    assert!(heap.is_allocated(0));
    assert_eq!(drops.get(), 0);
    a.drop(&mut heap);
    assert!(!heap.is_allocated(0));
    assert_eq!(drops.get(), 1);
}

#[test]
fn get_mut_needs_the_only_handle() {
    let mut heap = Heap::new();
    let mut x = Arc::new(10u32, &mut heap);

    // alone: exclusive access
    match Arc::get_mut(&mut x, &mut heap) {
        Some(value) => *value = 11,
        None => panic!("the only handle must get exclusive access"),
    }
    assert_eq!(*x.deref(&heap), 11);

    // a second strong handle stands in the way
    let y = x.clone(&mut heap);
    assert!(Arc::get_mut(&mut x, &mut heap).is_none());
    y.drop(&mut heap);
    assert!(Arc::get_mut(&mut x, &mut heap).is_some());

    // and so does a weak handle, though the strong count is one
    let w = Arc::downgrade(&x, &mut heap);
    assert_eq!(heap.strong_count(0), Some(1));
    assert!(Arc::get_mut(&mut x, &mut heap).is_none());
    assert_eq!(*x.deref(&heap), 11);
    w.drop(&mut heap);
    match Arc::get_mut(&mut x, &mut heap) {
        Some(value) => *value += 1,
        None => panic!("the only handle must get exclusive access"),
    }
    assert_eq!(*x.deref(&heap), 12);
    assert_eq!(heap.strong_count(0), Some(1));
    assert_eq!(heap.total_count(0), Some(1));
}

#[test]
fn upgrade_gives_a_handle_on_the_same_value() {
    let mut heap = Heap::new();
    let x = Arc::new(vec![1u8, 2, 3], &mut heap);
    let w = Arc::downgrade(&x, &mut heap);
    let y = w.upgrade(&mut heap).unwrap();
    assert_eq!(y.addr(), x.addr());
    assert_eq!(heap.strong_count(0), Some(2));
    assert_eq!(heap.total_count(0), Some(3));
    assert_eq!(y.deref(&heap), x.deref(&heap));
    assert_eq!(y.deref(&heap), &vec![1u8, 2, 3]);

    // the upgraded handle alone keeps the value
    x.drop(&mut heap);
    assert_eq!(y.deref(&heap), &vec![1u8, 2, 3]);
    let again = w.upgrade(&mut heap).unwrap();
    assert_eq!(again.deref(&heap).len(), 3);
    again.drop(&mut heap);
    y.drop(&mut heap);
    assert_eq!(heap.strong_count(0), Some(0));
    assert_eq!(heap.total_count(0), Some(1));
}

#[test]
fn upgrade_after_the_last_strong_handle_finds_nothing() {
    let mut heap = Heap::new();
    let x = Arc::new(1u8, &mut heap);
    let w = Arc::downgrade(&x, &mut heap);
    x.drop(&mut heap);
    assert!(w.upgrade(&mut heap).is_none());
    // and the question changes nothing
    assert_eq!(heap.strong_count(0), Some(0));
    assert_eq!(heap.total_count(0), Some(1));
    assert!(w.upgrade(&mut heap).is_none());
    let v = w.clone(&mut heap);
    assert!(v.upgrade(&mut heap).is_none());
    v.drop(&mut heap);
    w.drop(&mut heap);
    assert!(!heap.is_allocated(0));
}

#[test]
fn a_storm_of_clones_and_drops_destroys_once() {
    let (drops, detect) = detector();
    let mut heap = Heap::new();
    let root = Arc::new(("payload", detect), &mut heap);
    let mut strong: Vec<Arc<(&str, DetectDrop)>> = Vec::new();
    let mut weak: Vec<Weak<(&str, DetectDrop)>> = Vec::new();

    for round in 0..200usize {
        strong.push(root.clone(&mut heap));
        weak.push(Arc::downgrade(&root, &mut heap));
        if round % 3 == 0 {
            let w = weak.pop().unwrap();
            strong.push(w.upgrade(&mut heap).unwrap());
            weak.push(w.clone(&mut heap));
            w.drop(&mut heap);
        }
        if round % 5 == 0 {
            strong.pop().unwrap().drop(&mut heap);
        }
        assert_eq!(heap.strong_count(0), Some(strong.len() + 1));
        assert_eq!(heap.total_count(0), Some(strong.len() + weak.len() + 1));
        assert_eq!(drops.get(), 0);
    }

    root.drop(&mut heap);
    while let Some(handle) = strong.pop() {
        assert_eq!(handle.deref(&heap).0, "payload");
        assert_eq!(drops.get(), 0);
        handle.drop(&mut heap);
    }
    assert_eq!(drops.get(), 1);
    assert!(heap.is_allocated(0));

    while let Some(handle) = weak.pop() {
        assert!(heap.is_allocated(0));
        assert!(handle.upgrade(&mut heap).is_none());
        handle.drop(&mut heap);
    }
    assert_eq!(drops.get(), 1);
    assert!(!heap.is_allocated(0));
}

#[test]
fn blocks_do_not_touch_each_other() {
    let mut heap = Heap::new();
    let a = Arc::new(1u32, &mut heap);
    let b = Arc::new(2u32, &mut heap);
    let wa = Arc::downgrade(&a, &mut heap);
    let b2 = b.clone(&mut heap);
    assert_eq!(heap.strong_count(0), Some(1));
    assert_eq!(heap.total_count(0), Some(2));
    assert_eq!(heap.strong_count(1), Some(2));
    assert_eq!(heap.total_count(1), Some(2));
    a.drop(&mut heap);
    assert!(wa.upgrade(&mut heap).is_none());
    assert_eq!(*b.deref(&heap), 2);
    assert_eq!(*b2.deref(&heap), 2);
}
