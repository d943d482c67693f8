use std::cell::Cell;
use std::rc::Rc;
use try_box::{Box, RawHandle};

struct Counted(Rc<Cell<usize>>, u32);

impl Drop for Counted {
    fn drop(&mut self) {
        self.0.set(self.0.get() + 1);
    }
}

#[test]
fn handle_round_trip_keeps_the_value() {
    let a = Box::try_new(41_u64).unwrap();
    let h: RawHandle<u64> = Box::into_non_null(a);
    assert_eq!(*h.as_ref(), 41);
    let mut b = Box::from_non_null(h);
    assert_eq!(*b, 41);
    *b += 1;
    assert_eq!(*b, 42);
}

#[test]
fn a_handle_does_not_tear_down() {
    let drops = Rc::new(Cell::new(0));
    let a = Box::try_new(Counted(drops.clone(), 7)).unwrap();
    let h = Box::into_non_null(a);
    assert_eq!(drops.get(), 0);
    assert_eq!(h.as_ref().1, 7);
    drop(h);
    assert_eq!(drops.get(), 0);
}

#[test]
fn a_rebuilt_box_tears_down_once() {
    let drops = Rc::new(Cell::new(0));
    let a = Box::try_new(Counted(drops.clone(), 7)).unwrap();
    let h = Box::into_non_null(a);
    let b = Box::from_non_null(h);
    assert_eq!(drops.get(), 0);
    assert_eq!(b.1, 7);
    drop(b);
    assert_eq!(drops.get(), 1);
}

#[test]
fn leak_hands_out_the_value_for_good() {
    let a = Box::try_new(10_u32).unwrap();
    let r: &'static mut u32 = Box::leak(a);
    assert_eq!(*r, 10);
    *r = 11;
    assert_eq!(*r, 11);
}

#[test]
fn leak_never_tears_down() {
    let drops = Rc::new(Cell::new(0));
    {
        let a = Box::try_new(Counted(drops.clone(), 3)).unwrap();
        let r = Box::leak(a);
        assert_eq!(r.1, 3);
        r.1 = 4;
        assert_eq!(r.1, 4);
    }
    assert_eq!(drops.get(), 0);
}

#[test]
fn zero_sized_values_travel_too() {
    let a = Box::try_new(()).unwrap();
    let h = Box::into_non_null(a);
    let b = Box::from_non_null(h);
    assert_eq!(*b, ());
    let r = Box::leak(b);
    assert_eq!(*r, ());
}

fn can_cross_threads<T: Send>(_: &T) {}

fn can_be_shared<T: Sync>(_: &T) {}

#[test]
fn a_box_travels_as_its_value_does() {
    let a = Box::try_new(1_u64).unwrap();
    can_cross_threads(&a);
    can_be_shared(&a);
    let h = Box::into_non_null(Box::try_new(String::new()).unwrap());
    can_cross_threads(&h);
    can_be_shared(&h);
    let moved = std::sync::mpsc::channel::<Box<u64>>();
    moved.0.send(a).unwrap();
    assert_eq!(*moved.1.recv().unwrap(), 1);
}
