use any_downcast::{
    downcast_arc, downcast_box, downcast_mut, downcast_rc, downcast_ref, ArcAny, BoxAny, RcAny,
};
use std::rc::Rc;
use std::sync::Arc;

trait Record: BoxAny + RcAny + ArcAny {}

#[derive(Debug, PartialEq)]
struct Entry {
    key: u64,
    text: String,
}
impl Record for Entry {}

#[derive(Debug, PartialEq)]
struct Blank;
impl Record for Blank {}

fn entry() -> Entry {
    Entry { key: 7, text: "seven".to_string() }
}

fn address_of<T>(place: &T) -> String {
    format!("{:p}", place)
}

fn share_between_threads<T: Send + Sync>(value: T) -> T {
    value
}

#[test]
fn a_shared_downcast_refers_to_the_value_in_place() {
    let typed = Box::new(entry());
    let before = address_of(&*typed);
    let held: Box<dyn Record> = typed;
    let found = downcast_ref::<Entry, dyn Record>(&*held).unwrap();
    assert_eq!(address_of(found), before);
    assert!(std::ptr::eq(found, downcast_ref::<Entry, dyn Record>(&*held).unwrap()));
}

#[test]
fn a_mutable_downcast_refers_to_the_value_in_place() {
    let typed = Box::new(entry());
    let before = address_of(&*typed);
    let mut held: Box<dyn Record> = typed;
    let found = downcast_mut::<Entry, dyn Record>(&mut *held).unwrap();
    assert_eq!(address_of(found), before);
    found.text.push_str("teen");
    found.key += 10;
    assert_eq!(address_of(downcast_ref::<Entry, dyn Record>(&*held).unwrap()), before);
    assert_eq!(
        downcast_ref::<Entry, dyn Record>(&*held),
        Some(&Entry { key: 17, text: "seventeen".to_string() })
    );
}

#[test]
fn a_box_keeps_its_value_in_place() {
    let typed = Box::new(entry());
    let before = address_of(&*typed);
    let held: Box<dyn Record> = typed;
    let held = downcast_box::<Blank, dyn Record>(held).err().unwrap();
    assert_eq!(address_of(downcast_ref::<Entry, dyn Record>(&*held).unwrap()), before);
    let unwrapped = downcast_box::<Entry, dyn Record>(held).ok().unwrap();
    assert_eq!(address_of(&*unwrapped), before);
    assert_eq!(*unwrapped, entry());
}

#[test]
fn an_rc_keeps_its_value_in_place() {
    let typed = Rc::new(entry());
    let before = address_of(&*typed);
    let held: Rc<dyn Record> = typed;
    let held = downcast_rc::<Blank, dyn Record>(held).err().unwrap();
    assert_eq!(address_of(downcast_ref::<Entry, dyn Record>(&*held).unwrap()), before);
    let unwrapped = downcast_rc::<Entry, dyn Record>(held).ok().unwrap();
    assert_eq!(address_of(&*unwrapped), before);
    assert_eq!(*unwrapped, entry());
}

#[test]
fn an_arc_keeps_its_value_in_place() {
    let typed = Arc::new(entry());
    let before = address_of(&*typed);
    let held: Arc<dyn Record> = typed;
    let held = downcast_arc::<Blank, dyn Record>(held).err().unwrap();
    assert_eq!(address_of(downcast_ref::<Entry, dyn Record>(&*held).unwrap()), before);
    let unwrapped = downcast_arc::<Entry, dyn Record>(held).ok().unwrap();
    assert_eq!(address_of(&*unwrapped), before);
    assert_eq!(*unwrapped, entry());
}

#[test]
fn what_an_arc_is_erased_to_can_be_shared_between_threads() {
    let held: Arc<dyn Record> = Arc::new(entry());
    let held = share_between_threads(held);
    let erased = share_between_threads(ArcAny::into_any(Arc::clone(&held)));
    assert_eq!(Arc::strong_count(&held), 2);
    drop(erased);
    let unwrapped = share_between_threads(downcast_arc::<Entry, dyn Record>(held).ok().unwrap());
    assert_eq!(unwrapped.key, 7);
}
