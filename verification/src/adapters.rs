//! The two capabilities that make a type erasable: a shared and a mutable
//! erased reference to a value. Every `'static` type has both.

use crate::any::{any_mut_final, any_mut_view, any_ref_view, AnyMut, AnyRef};
use crate::erasure::{erasure_of, Erasure};
use vstd::prelude::*;

verus! {

/// A value that can be seen through an erased shared reference.
pub trait AsAny: 'static {
    /// The value with its static type forgotten. For a trait object this is
    /// the erasure of the concrete value behind it.
    spec fn erasure(&self) -> Erasure;

    /// An erased reference to `self`.
    fn as_any(&self) -> (r: AnyRef<'_>)
        ensures
            any_ref_view(r) == (*self).erasure(),
    ;
}

impl<T: 'static> AsAny for T {
    open spec fn erasure(&self) -> Erasure {
        erasure_of(*self)
    }

    fn as_any(&self) -> (r: AnyRef<'_>) {
        AnyRef::new(self)
    }
}

/// `b` is the only value of its type that erases to what it erases to: to
/// know its erasure is to know `b`.
pub open spec fn known_by_erasure<B: AsAny + ?Sized>(b: &B) -> bool {
    forall|other: &B|
        #![trigger (*other).erasure()]
        (*other).erasure() == (*b).erasure() ==> other == b
}

/// A value that can be seen, and changed, through an erased mutable
/// reference.
pub trait AsMutAny: AsAny {
    /// An erased mutable reference to `self`. What the reference refers to
    /// when the borrow ends is what `self` is then, and nothing else of its
    /// type is.
    fn as_any_mut(&mut self) -> (r: AnyMut<'_>)
        ensures
            any_mut_view(r) == (*old(self)).erasure(),
            any_mut_final(r) == (*final(self)).erasure(),
            known_by_erasure(&*final(self)),
    ;
}

impl<T: 'static> AsMutAny for T {
    fn as_any_mut(&mut self) -> (r: AnyMut<'_>) {
        AnyMut::new(self)
    }
}

} // verus!
