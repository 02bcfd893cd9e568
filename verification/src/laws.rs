//! What holds of the operations together, whatever the type through which a
//! value is held and whatever the concrete type that is asked for.
//!
//! `B` ranges over every type that a value can be held through, and so over
//! the trait objects of every trait that extends the traits of this crate,
//! whatever its type parameters and associated types are.
//!
//! A law speaks of what an operation returns through `call_ensures`: the
//! result is any value that the operation may return on the given argument.
//! Two concrete types are different where their tags are.

use crate::adapters::{AsAny, AsMutAny};
use crate::downcast::{
    downcast_arc, downcast_box, downcast_mut, downcast_rc, downcast_ref, holds, holds_type, is,
};
use crate::erasure::tag_of;
use crate::ownership::{ArcAny, BoxAny, RcAny};
use std::rc::Rc;
use std::sync::Arc;
use vstd::prelude::*;

verus! {

/// A value that is held directly, under its own type, is the value behind
/// itself.
pub proof fn lemma_value_holds_itself<T: 'static>(x: T)
    ensures
        holds(&x, x),
        holds_type::<T, T>(&x),
{
}

/// Where a value of type `T` is held, the probe for `T` says yes.
pub proof fn lemma_is_own_type<T: 'static, B: AsAny + ?Sized>(w: &B, x: T, probe: bool)
    requires
        holds(w, x),
        call_ensures(is::<T, B>, (w,), probe),
    ensures
        probe,
{
}

/// Where a value of type `T` is held, the probe for another type says no.
pub proof fn lemma_is_no_other_type<T: 'static, U: 'static, B: AsAny + ?Sized>(
    w: &B,
    x: T,
    probe: bool,
)
    requires
        holds(w, x),
        tag_of::<T>() != tag_of::<U>(),
        call_ensures(is::<U, B>, (w,), probe),
    ensures
        !probe,
{
}

/// The shared downcast finds a value exactly where the probe says yes.
pub proof fn lemma_downcast_ref_agrees_with_is<T: 'static, B: AsAny + ?Sized>(
    w: &B,
    probe: bool,
    found: Option<&T>,
)
    requires
        call_ensures(is::<T, B>, (w,), probe),
        call_ensures(downcast_ref::<T, B>, (w,), found),
    ensures
        found.is_some() == probe,
{
}

/// Where a value of type `T` is held, the shared downcast to `T` finds that
/// value.
pub proof fn lemma_downcast_ref_finds_value<T: 'static, B: AsAny + ?Sized>(
    w: &B,
    x: T,
    found: Option<&T>,
)
    requires
        holds(w, x),
        call_ensures(downcast_ref::<T, B>, (w,), found),
    ensures
        found == Some(&x),
{
}

/// Where a value of type `T` is held, the mutable downcast to `T` gives a
/// reference to that value.
pub proof fn lemma_downcast_mut_finds_value<T: 'static, B: AsMutAny + ?Sized>(
    w: &mut B,
    x: T,
    given: Option<&mut T>,
)
    requires
        holds(&*w, x),
        call_ensures(downcast_mut::<T, B>, (w,), given),
    ensures
        given matches Some(v) && *v == x,
{
}

/// What is written through the reference that the mutable downcast gives is
/// what a shared downcast finds afterwards.
pub proof fn lemma_mutation_is_seen<T: 'static, B: AsMutAny + ?Sized>(
    w: &mut B,
    given: Option<&mut T>,
    found: Option<&T>,
)
    requires
        given is Some,
        call_ensures(downcast_mut::<T, B>, (w,), given),
        call_ensures(downcast_ref::<T, B>, (&*final(w),), found),
    ensures
        given matches Some(v) && found == Some(&*final(v)),
{
}

/// A box that owns a value of type `T` and is asked for another type comes
/// back as it was, and still owns a value of type `T`.
pub proof fn lemma_box_of_other_type_comes_back<T: 'static, U: 'static, B: BoxAny + ?Sized>(
    w: Box<B>,
    x: T,
    r: Result<Box<U>, Box<B>>,
    probe: bool,
)
    requires
        holds(&*w, x),
        tag_of::<T>() != tag_of::<U>(),
        call_ensures(downcast_box::<U, B>, (w,), r),
        r matches Err(e) ==> call_ensures(is::<T, B>, (&*e,), probe),
    ensures
        r == Err::<Box<U>, Box<B>>(w),
        probe,
{
}

/// A box that owns a value of type `T` and is asked for `T` becomes a box
/// of `T` that owns that value.
pub proof fn lemma_box_of_own_type_is_unwrapped<T: 'static, B: BoxAny + ?Sized>(
    w: Box<B>,
    x: T,
    r: Result<Box<T>, Box<B>>,
)
    requires
        holds(&*w, x),
        call_ensures(downcast_box::<T, B>, (w,), r),
    ensures
        r == Ok::<Box<T>, Box<B>>(Box::new(x)),
{
}

/// An `Rc` that shares a value of type `T` and is asked for another type
/// comes back as it was, and still shares a value of type `T`.
pub proof fn lemma_rc_of_other_type_comes_back<T: 'static, U: 'static, B: RcAny + ?Sized>(
    w: Rc<B>,
    x: T,
    r: Result<Rc<U>, Rc<B>>,
    probe: bool,
)
    requires
        holds(&*w, x),
        tag_of::<T>() != tag_of::<U>(),
        call_ensures(downcast_rc::<U, B>, (w,), r),
        r matches Err(e) ==> call_ensures(is::<T, B>, (&*e,), probe),
    ensures
        r == Err::<Rc<U>, Rc<B>>(w),
        probe,
{
}

/// An `Rc` that shares a value of type `T` and is asked for `T` becomes an
/// `Rc` of `T` that shares that value.
pub proof fn lemma_rc_of_own_type_is_unwrapped<T: 'static, B: RcAny + ?Sized>(
    w: Rc<B>,
    x: T,
    r: Result<Rc<T>, Rc<B>>,
)
    requires
        holds(&*w, x),
        call_ensures(downcast_rc::<T, B>, (w,), r),
    ensures
        r == Ok::<Rc<T>, Rc<B>>(Rc::new(x)),
{
}

/// An `Arc` that shares a value of type `T` and is asked for another type
/// comes back as it was, and still shares a value of type `T`.
pub proof fn lemma_arc_of_other_type_comes_back<
    T: 'static,
    U: 'static + Send + Sync,
    B: ArcAny + ?Sized,
>(w: Arc<B>, x: T, r: Result<Arc<U>, Arc<B>>, probe: bool)
    requires
        holds(&*w, x),
        tag_of::<T>() != tag_of::<U>(),
        call_ensures(downcast_arc::<U, B>, (w,), r),
        r matches Err(e) ==> call_ensures(is::<T, B>, (&*e,), probe),
    ensures
        r == Err::<Arc<U>, Arc<B>>(w),
        probe,
{
}

/// An `Arc` that shares a value of type `T` and is asked for `T` becomes an
/// `Arc` of `T` that shares that value.
pub proof fn lemma_arc_of_own_type_is_unwrapped<T: 'static + Send + Sync, B: ArcAny + ?Sized>(
    w: Arc<B>,
    x: T,
    r: Result<Arc<T>, Arc<B>>,
)
    requires
        holds(&*w, x),
        call_ensures(downcast_arc::<T, B>, (w,), r),
    ensures
        r == Ok::<Arc<T>, Arc<B>>(Arc::new(x)),
{
}

} // verus!
