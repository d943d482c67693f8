use std::cell::Cell;
use std::rc::Rc;
use try_box::{alloc_memory, granted, AllocErr, Box};

#[test]
fn alloc_zst() {
    let a = Box::try_new(()).unwrap();
    assert_eq!(*a, ());
}

#[test]
fn alloc_bool() {
    let _ = Box::try_new(true).unwrap();
}

#[test]
fn alloc_u8() {
    let _ = Box::try_new(1_u8).unwrap();
}

#[test]
fn alloc_u64() {
    let _ = Box::try_new(4_u64).unwrap();
}

#[test]
fn alloc_array() {
    let _ = Box::try_new([1_u8; 256]).unwrap();
}

#[test]
fn alloc_struct() {
    struct Foo(u64, u32);
    let _ = Box::try_new(Foo(1, 2)).unwrap();
}

#[test]
fn default() {
    let a = Box::<u16>::try_default().unwrap();
    let b = u16::default();
    assert_eq!(*a, b);
}

#[test]
fn new_then_read_gives_the_value_back() {
    let a = Box::try_new(4_u64).unwrap();
    assert_eq!(*a, 4);
    assert_eq!(*a.as_ref(), 4);
    drop(a);

    let b = Box::try_new(String::from("payload")).unwrap();
    assert_eq!(b.as_ref(), "payload");
    assert_eq!(b.len(), 7);

    let c = Box::try_new([1_u8; 256]).unwrap();
    assert_eq!(*c, [1_u8; 256]);

    let d = Box::try_new((7_u32, -3_i64)).unwrap();
    assert_eq!(*d, (7, -3));
}

#[test]
fn default_of_other_types() {
    assert_eq!(*Box::<bool>::try_default().unwrap(), false);
    assert_eq!(*Box::<String>::try_default().unwrap(), String::new());
    assert_eq!(*Box::<Option<u8>>::try_default().unwrap(), None);
    assert_eq!(*Box::<()>::try_default().unwrap(), ());
}

#[test]
fn zero_sized_values_always_get_a_box() {
    struct Marker;
    assert!(alloc_memory::<()>().is_ok());
    assert!(alloc_memory::<Marker>().is_ok());
    assert!(alloc_memory::<[u64; 0]>().is_ok());
    assert!(Box::try_new(Marker).is_ok());
    assert!(Box::try_new([0_u64; 0]).is_ok());
    let many: Vec<Box<()>> = (0..1000).map(|_| Box::try_new(()).unwrap()).collect();
    assert_eq!(many.len(), 1000);
}

#[test]
fn place_moves_the_value_into_granted_memory() {
    let a = Box::place(alloc_memory::<u64>(), 9_u64).unwrap();
    assert_eq!(*a, 9);
    let b = Box::place(alloc_memory::<String>(), String::from("x")).unwrap();
    assert_eq!(b.as_ref(), "x");
}

#[test]
fn place_passes_an_allocation_failure_on() {
    let r = Box::<u64>::place(Err(AllocErr), 5_u64);
    assert!(matches!(r, Err(AllocErr)));
    let r = Box::<String>::place(Err(AllocErr), String::from("never stored"));
    assert!(r.is_err());
    assert_eq!(r.unwrap_err(), AllocErr);
}

#[test]
fn a_refused_value_is_torn_down_not_lost() {
    struct Counted(Rc<Cell<usize>>);
    impl Drop for Counted {
        fn drop(&mut self) {
            self.0.set(self.0.get() + 1);
        }
    }

    let drops = Rc::new(Cell::new(0));
    let r = Box::place(Err(AllocErr), Counted(drops.clone()));
    assert!(r.is_err());
    assert_eq!(drops.get(), 1);
}

#[test]
fn write_through_the_box() {
    let mut a = Box::try_new(1_u32).unwrap();
    *a.as_mut() = 2;
    assert_eq!(*a, 2);
    *a = 3;
    assert_eq!(*a, 3);
    *a += 4;
    assert_eq!(*a.as_ref(), 7);

    let mut s = Box::try_new(String::from("ab")).unwrap();
    s.push('c');
    s.as_mut().push('d');
    assert_eq!(s.as_str(), "abcd");
}

#[test]
fn the_value_is_torn_down_once_when_the_box_goes() {
    struct Counted(Rc<Cell<usize>>);
    impl Drop for Counted {
        fn drop(&mut self) {
            self.0.set(self.0.get() + 1);
        }
    }

    let drops = Rc::new(Cell::new(0));
    let a = Box::try_new(Counted(drops.clone())).unwrap();
    assert_eq!(drops.get(), 0);
    drop(a);
    assert_eq!(drops.get(), 1);
}

#[test]
fn a_failed_request_reads_as_the_error() {
    let mut bytes: Vec<u8> = Vec::new();
    let refused = bytes.try_reserve_exact(usize::MAX);
    assert!(refused.is_err());
    assert_eq!(granted(refused), Err(AllocErr));
    assert_eq!(granted(bytes.try_reserve_exact(1)), Ok(()));
    assert_eq!(granted(Ok(())), Ok(()));
}
