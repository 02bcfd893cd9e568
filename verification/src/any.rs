//! The erased forms: a value behind `dyn Any`, held by each kind of owner.
//!
//! The verifier does not take `dyn Any`, neither in a signature nor in a
//! field, so each form is a struct whose one field it does not look into, and
//! what the form holds has a name. A form is made by the traits of this crate
//! and used up by its operations.
//!
//! Nothing in this file is proved: each contract says of `std::any` what its
//! documentation says.

use crate::erasure::{erased_from, erasure_of, tag_of, type_id_of, untyped, Erasure};
use std::any::Any;
use std::rc::Rc;
use std::sync::Arc;
use vstd::prelude::*;

verus! {

/// An erased shared reference: `&dyn Any`.
#[verifier::external_body]
pub struct AnyRef<'a> {
    inner: &'a dyn Any,
}

/// An erased mutable reference: `&mut dyn Any`.
#[verifier::external_body]
pub struct AnyMut<'a> {
    inner: &'a mut dyn Any,
}

/// An erased box: `Box<dyn Any>`.
#[verifier::external_body]
#[derive(Debug)]
pub struct AnyBox {
    inner: Box<dyn Any>,
}

/// An erased `Rc`: `Rc<dyn Any>`.
#[verifier::external_body]
#[derive(Debug)]
pub struct AnyRc {
    inner: Rc<dyn Any>,
}

/// An erased `Arc`: `Arc<dyn Any + Send + Sync>`.
#[verifier::external_body]
#[derive(Debug)]
pub struct AnyArc {
    inner: Arc<dyn Any + Send + Sync>,
}

/// What an erased shared reference refers to.
pub uninterp spec fn any_ref_view(a: AnyRef<'_>) -> Erasure;

/// What an erased mutable reference refers to when it is made.
pub uninterp spec fn any_mut_view(a: AnyMut<'_>) -> Erasure;

/// What an erased mutable reference refers to when its borrow ends.
pub uninterp spec fn any_mut_final(a: AnyMut<'_>) -> Erasure;

/// What an erased box owns.
pub uninterp spec fn any_box_view(a: AnyBox) -> Erasure;

/// What an erased `Rc` shares.
pub uninterp spec fn any_rc_view(a: AnyRc) -> Erasure;

/// What an erased `Arc` shares.
pub uninterp spec fn any_arc_view(a: AnyArc) -> Erasure;

impl<'a> AnyRef<'a> {
    /// The coercion of `&T` to `&dyn Any`. The result refers to `*x`; its tag
    /// is the one that `type_id` gives for `*x`, which is that of `T`.
    #[verifier::external_body]
    pub(crate) fn new<T: 'static>(x: &'a T) -> (r: Self)
        ensures
            any_ref_view(r) == erasure_of(*x),
            any_ref_view(r).tag == type_id_of(untyped(*x)),
    {
        AnyRef { inner: x }
    }

    /// `<dyn Any>::is`: whether the concrete type of the value is `T`, that
    /// is, whether its tag is the tag of `T`.
    #[verifier::external_body]
    pub(crate) fn is<T: 'static>(&self) -> (r: bool)
        ensures
            r == (any_ref_view(*self).tag == tag_of::<T>()),
    {
        self.inner.is::<T>()
    }

    /// `<dyn Any>::downcast_ref`: a reference to the value if its concrete
    /// type is `T`, nothing otherwise. The reference is to the value that was
    /// erased: that value erases to what `self` refers to, and no other value
    /// of `T` does.
    #[verifier::external_body]
    pub(crate) fn downcast_ref<T: 'static>(self) -> (r: Option<&'a T>)
        ensures
            r.is_some() == (any_ref_view(self).tag == tag_of::<T>()),
            r matches Some(v) ==> erased_from(any_ref_view(self), *v),
    {
        self.inner.downcast_ref::<T>()
    }
}

impl<'a> AnyMut<'a> {
    /// The coercion of `&mut T` to `&mut dyn Any`. The result refers to `*x`
    /// for as long as the borrow lasts: whatever it refers to in the end,
    /// `*x` is that.
    #[verifier::external_body]
    pub(crate) fn new<T: 'static>(x: &'a mut T) -> (r: Self)
        ensures
            any_mut_view(r) == erasure_of(*old(x)),
            erased_from(any_mut_final(r), *final(x)),
    {
        AnyMut { inner: x }
    }

    /// `<dyn Any>::downcast_mut`: a mutable reference to the value if its
    /// concrete type is `T`, nothing otherwise. The reference is to the value
    /// that was erased, and what it holds in the end is what `self` refers to
    /// in the end. Where there is no reference, `self` refers in the end to
    /// what it referred to at first.
    #[verifier::external_body]
    pub(crate) fn downcast_mut<T: 'static>(self) -> (r: Option<&'a mut T>)
        ensures
            r.is_some() == (any_mut_view(self).tag == tag_of::<T>()),
            r matches Some(v) ==> erased_from(any_mut_view(self), *v),
            r matches Some(v) ==> any_mut_final(self) == erasure_of(*final(v)),
            r is None ==> any_mut_final(self) == any_mut_view(self),
    {
        self.inner.downcast_mut::<T>()
    }
}

impl AnyBox {
    /// The coercion of `Box<T>` to `Box<dyn Any>`. The result owns `*x`.
    #[verifier::external_body]
    pub(crate) fn new<T: 'static>(x: Box<T>) -> (r: Self)
        ensures
            any_box_view(r) == erasure_of(*x),
    {
        AnyBox { inner: x }
    }

    /// `Box<dyn Any>::downcast`: the box with its concrete type if that is
    /// `T`, the erased box as it was otherwise. The box owns the value that
    /// was erased.
    #[verifier::external_body]
    pub(crate) fn downcast<T: 'static>(self) -> (r: Result<Box<T>, AnyBox>)
        ensures
            r.is_ok() == (any_box_view(self).tag == tag_of::<T>()),
            r matches Ok(v) ==> erased_from(any_box_view(self), *v),
            r matches Err(e) ==> any_box_view(e) == any_box_view(self),
    {
        match self.inner.downcast::<T>() {
            Ok(v) => Ok(v),
            Err(inner) => Err(AnyBox { inner }),
        }
    }
}

impl AnyRc {
    /// The coercion of `Rc<T>` to `Rc<dyn Any>`. The result shares `*x`.
    #[verifier::external_body]
    pub(crate) fn new<T: 'static>(x: Rc<T>) -> (r: Self)
        ensures
            any_rc_view(r) == erasure_of(*x),
    {
        AnyRc { inner: x }
    }

    /// `Rc<dyn Any>::downcast`: the `Rc` with its concrete type if that is
    /// `T`, the erased `Rc` as it was otherwise. The `Rc` shares the value
    /// that was erased.
    #[verifier::external_body]
    pub(crate) fn downcast<T: 'static>(self) -> (r: Result<Rc<T>, AnyRc>)
        ensures
            r.is_ok() == (any_rc_view(self).tag == tag_of::<T>()),
            r matches Ok(v) ==> erased_from(any_rc_view(self), *v),
            r matches Err(e) ==> any_rc_view(e) == any_rc_view(self),
    {
        match self.inner.downcast::<T>() {
            Ok(v) => Ok(v),
            Err(inner) => Err(AnyRc { inner }),
        }
    }
}

impl AnyArc {
    /// The coercion of `Arc<T>` to `Arc<dyn Any + Send + Sync>`. The result
    /// shares `*x`.
    #[verifier::external_body]
    pub(crate) fn new<T: 'static + Send + Sync>(x: Arc<T>) -> (r: Self)
        ensures
            any_arc_view(r) == erasure_of(*x),
    {
        AnyArc { inner: x }
    }

    /// `Arc<dyn Any + Send + Sync>::downcast`: the `Arc` with its concrete
    /// type if that is `T`, the erased `Arc` as it was otherwise. The `Arc`
    /// shares the value that was erased.
    #[verifier::external_body]
    pub(crate) fn downcast<T: 'static + Send + Sync>(self) -> (r: Result<Arc<T>, AnyArc>)
        ensures
            r.is_ok() == (any_arc_view(self).tag == tag_of::<T>()),
            r matches Ok(v) ==> erased_from(any_arc_view(self), *v),
            r matches Err(e) ==> any_arc_view(e) == any_arc_view(self),
    {
        match self.inner.downcast::<T>() {
            Ok(v) => Ok(v),
            Err(inner) => Err(AnyArc { inner }),
        }
    }
}

} // verus!
