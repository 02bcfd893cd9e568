use any_downcast::{downcast_arc, downcast_box, downcast_rc, downcast_ref, is, ArcAny, BoxAny, RcAny};
use std::rc::Rc;
use std::sync::Arc;

trait Exclusive: BoxAny {}
trait Shared: RcAny {}
trait SharedAtomic: ArcAny {}

#[derive(Debug, PartialEq)]
struct Foo(u32);
impl Exclusive for Foo {}
impl Shared for Foo {}
impl SharedAtomic for Foo {}

#[derive(Debug, PartialEq)]
struct Bar(f64);
impl Exclusive for Bar {}
impl Shared for Bar {}
impl SharedAtomic for Bar {}

#[derive(Debug, PartialEq)]
struct Pair {
    left: String,
    right: Vec<u8>,
}
impl Exclusive for Pair {}
impl Shared for Pair {}
impl SharedAtomic for Pair {}

#[test]
fn box_of_own_type_is_unwrapped() {
    let held: Box<dyn Exclusive> = Box::new(Pair { left: "l".to_string(), right: vec![1, 2, 3] });
    let pair = downcast_box::<Pair, dyn Exclusive>(held).ok().unwrap();
    assert_eq!(*pair, Pair { left: "l".to_string(), right: vec![1, 2, 3] });
}

#[test]
fn box_of_other_type_comes_back() {
    let held: Box<dyn Exclusive> = Box::new(Foo(7));
    let held = downcast_box::<Bar, dyn Exclusive>(held).err().unwrap();
    let held = downcast_box::<Pair, dyn Exclusive>(held).err().unwrap();
    assert!(is::<Foo, dyn Exclusive>(&*held));
    assert_eq!(downcast_ref::<Foo, dyn Exclusive>(&*held), Some(&Foo(7)));
    assert_eq!(*downcast_box::<Foo, dyn Exclusive>(held).ok().unwrap(), Foo(7));
}

#[test]
fn rc_of_own_type_is_unwrapped() {
    let held: Rc<dyn Shared> = Rc::new(Foo(7));
    let other = Rc::clone(&held);
    assert_eq!(Rc::strong_count(&held), 2);
    let foo = downcast_rc::<Foo, dyn Shared>(held).ok().unwrap();
    assert_eq!(*foo, Foo(7));
    assert_eq!(Rc::strong_count(&foo), 2);
    assert_eq!(Rc::strong_count(&other), 2);
    let again = downcast_rc::<Foo, dyn Shared>(other).ok().unwrap();
    assert!(Rc::ptr_eq(&foo, &again));
}

#[test]
fn rc_of_other_type_comes_back() {
    let held: Rc<dyn Shared> = Rc::new(Foo(7));
    let other = Rc::clone(&held);
    let back = match downcast_rc::<Bar, dyn Shared>(held) {
        Ok(_) => panic!("a Foo is no Bar"),
        Err(back) => back,
    };
    assert!(Rc::ptr_eq(&back, &other));
    assert_eq!(Rc::strong_count(&back), 2);
    assert!(is::<Foo, dyn Shared>(&*back));
    assert_eq!(downcast_ref::<Foo, dyn Shared>(&*back), Some(&Foo(7)));
}

#[test]
fn arc_of_own_type_is_unwrapped() {
    let held: Arc<dyn SharedAtomic> = Arc::new(Bar(0.5));
    let other = Arc::clone(&held);
    let bar = downcast_arc::<Bar, dyn SharedAtomic>(held).ok().unwrap();
    assert_eq!(*bar, Bar(0.5));
    assert_eq!(Arc::strong_count(&bar), 2);
    let again = downcast_arc::<Bar, dyn SharedAtomic>(other).ok().unwrap();
    assert!(Arc::ptr_eq(&bar, &again));
}

#[test]
fn arc_of_other_type_comes_back() {
    let held: Arc<dyn SharedAtomic> = Arc::new(Bar(0.5));
    let other = Arc::clone(&held);
    let back = match downcast_arc::<Foo, dyn SharedAtomic>(held) {
        Ok(_) => panic!("a Bar is no Foo"),
        Err(back) => back,
    };
    assert!(Arc::ptr_eq(&back, &other));
    assert_eq!(Arc::strong_count(&back), 2);
    assert!(is::<Bar, dyn SharedAtomic>(&*back));
    assert_eq!(downcast_ref::<Bar, dyn SharedAtomic>(&*back), Some(&Bar(0.5)));
}

#[test]
fn rc_and_arc_are_probed_without_being_consumed() {
    let rc: Rc<dyn Shared> = Rc::new(Pair { left: "a".to_string(), right: vec![] });
    let arc: Arc<dyn SharedAtomic> = Arc::new(Pair { left: "b".to_string(), right: vec![9] });
    assert!(is::<Pair, dyn Shared>(&*rc));
    assert!(!is::<Foo, dyn Shared>(&*rc));
    assert!(is::<Pair, dyn SharedAtomic>(&*arc));
    assert!(!is::<Bar, dyn SharedAtomic>(&*arc));
    assert_eq!(downcast_ref::<Pair, dyn Shared>(&*rc).map(|pair| pair.left.as_str()), Some("a"));
    assert_eq!(downcast_ref::<Pair, dyn SharedAtomic>(&*arc).map(|pair| pair.right.len()), Some(1));
    assert_eq!(Rc::strong_count(&rc), 1);
    assert_eq!(Arc::strong_count(&arc), 1);
}
