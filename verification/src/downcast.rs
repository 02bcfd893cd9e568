//! The four operations on a value held through a trait it implements: the
//! probe, the shared and the mutable downcast, and the downcast that consumes
//! the owner, for each kind of owner.
//!
//! `T` is the concrete type that is asked for, `B` the type through which the
//! value is held: most often `dyn Trait`, for a trait that extends the traits
//! of this crate. A `Box<dyn Trait>` is itself a `'static` value with a type
//! of its own, so an operation that takes `&B` is handed `&*boxed`, not
//! `&boxed`. A type that does not implement the trait may be asked for; it is
//! never found.

use crate::adapters::{known_by_erasure, AsAny, AsMutAny};
use crate::erasure::{erased_from, erasure_of, tag_of};
use crate::ownership::{ArcAny, BoxAny, RcAny};
use std::rc::Rc;
use std::sync::Arc;
use vstd::prelude::*;

verus! {

/// The value behind `b` is of the concrete type `T`.
pub open spec fn holds_type<T: 'static, B: AsAny + ?Sized>(b: &B) -> bool {
    (*b).erasure().tag == tag_of::<T>()
}

/// The value behind `b` is `x`.
pub open spec fn holds<T: 'static, B: AsAny + ?Sized>(b: &B, x: T) -> bool {
    (*b).erasure() == erasure_of(x)
}

/// The value behind `b` is `v`, and no other value of `T`.
pub open spec fn holds_only<T: 'static, B: AsAny + ?Sized>(b: &B, v: T) -> bool {
    erased_from((*b).erasure(), v)
}

/// Whether the value behind `b` is of the concrete type `T`.
pub fn is<T: 'static, B: AsAny + ?Sized>(b: &B) -> (r: bool)
    ensures
        r == holds_type::<T, B>(b),
{
    AsAny::as_any(b).is::<T>()
}

/// A reference to the value behind `b` if it is of the concrete type `T`,
/// nothing otherwise.
pub fn downcast_ref<T: 'static, B: AsAny + ?Sized>(b: &B) -> (r: Option<&T>)
    ensures
        r.is_some() == holds_type::<T, B>(b),
        r matches Some(v) ==> holds_only(b, *v),
{
    AsAny::as_any(b).downcast_ref::<T>()
}

/// A mutable reference to the value behind `b` if it is of the concrete type
/// `T`, nothing otherwise. What is written through the reference is what `b`
/// holds afterwards, and `b` is then known by what it holds; where there is
/// no reference, `b` is as it was.
pub fn downcast_mut<T: 'static, B: AsMutAny + ?Sized>(b: &mut B) -> (r: Option<&mut T>)
    ensures
        r.is_some() == holds_type::<T, B>(&*old(b)),
        r matches Some(v) ==> holds_only(&*old(b), *v) && holds(&*final(b), *final(v)),
        r is None ==> &*final(b) == &*old(b),
        known_by_erasure(&*final(b)),
{
    AsMutAny::as_any_mut(b).downcast_mut::<T>()
}

/// The box with the concrete type of what it owns, if that is `T`; the box
/// as it was given, otherwise.
pub fn downcast_box<T: 'static, B: BoxAny + ?Sized>(b: Box<B>) -> (r: Result<Box<T>, Box<B>>)
    ensures
        r.is_ok() == holds_type::<T, B>(&*b),
        r matches Ok(v) ==> holds_only(&*b, *v),
        r matches Err(e) ==> e == b,
{
    if is::<T, B>(&*b) {
        Ok(BoxAny::into_any(b).downcast::<T>().unwrap())
    } else {
        Err(b)
    }
}

/// The `Rc` with the concrete type of what it shares, if that is `T`; the
/// `Rc` as it was given, otherwise.
pub fn downcast_rc<T: 'static, B: RcAny + ?Sized>(b: Rc<B>) -> (r: Result<Rc<T>, Rc<B>>)
    ensures
        r.is_ok() == holds_type::<T, B>(&*b),
        r matches Ok(v) ==> holds_only(&*b, *v),
        r matches Err(e) ==> e == b,
{
    if is::<T, B>(&*b) {
        Ok(RcAny::into_any(b).downcast::<T>().unwrap())
    } else {
        Err(b)
    }
}

/// The `Arc` with the concrete type of what it shares, if that is `T`; the
/// `Arc` as it was given, otherwise.
pub fn downcast_arc<T: 'static + Send + Sync, B: ArcAny + ?Sized>(b: Arc<B>) -> (r: Result<
    Arc<T>,
    Arc<B>,
>)
    ensures
        r.is_ok() == holds_type::<T, B>(&*b),
        r matches Ok(v) ==> holds_only(&*b, *v),
        r matches Err(e) ==> e == b,
{
    if is::<T, B>(&*b) {
        Ok(ArcAny::into_any(b).downcast::<T>().unwrap())
    } else {
        Err(b)
    }
}

} // verus!
