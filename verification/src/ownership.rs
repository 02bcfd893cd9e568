//! Erasure of an owned value, one trait for each kind of owner: `Box`, `Rc`
//! and `Arc`. The owner stays what it is; only the type of what it owns is
//! forgotten.

use crate::adapters::{AsAny, AsMutAny};
use crate::any::{any_arc_view, any_box_view, any_rc_view, AnyArc, AnyBox, AnyRc};
use std::rc::Rc;
use std::sync::Arc;
use vstd::prelude::*;

verus! {

/// A value whose box can be erased.
pub trait BoxAny: AsAny + AsMutAny {
    /// The box, erased. It owns the same value.
    fn into_any(self: Box<Self>) -> (r: AnyBox)
        ensures
            any_box_view(r) == (*self).erasure(),
    ;
}

impl<T: AsAny + AsMutAny> BoxAny for T {
    fn into_any(self: Box<Self>) -> (r: AnyBox) {
        AnyBox::new(self)
    }
}

/// A value whose `Rc` can be erased.
pub trait RcAny: AsAny + 'static {
    /// The `Rc`, erased. It shares the same value.
    fn into_any(self: Rc<Self>) -> (r: AnyRc)
        ensures
            any_rc_view(r) == (*self).erasure(),
    ;
}

impl<T: AsAny> RcAny for T {
    fn into_any(self: Rc<Self>) -> (r: AnyRc) {
        AnyRc::new(self)
    }
}

/// A value whose `Arc` can be erased. The value can be shared between
/// threads, and so can what is erased.
pub trait ArcAny: AsAny + 'static + Send + Sync {
    /// The `Arc`, erased. It shares the same value.
    fn into_any(self: Arc<Self>) -> (r: AnyArc)
        ensures
            any_arc_view(r) == (*self).erasure(),
    ;
}

impl<T: AsAny + 'static + Send + Sync> ArcAny for T {
    fn into_any(self: Arc<Self>) -> (r: AnyArc) {
        AnyArc::new(self)
    }
}

} // verus!
