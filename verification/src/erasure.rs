//! The model that every contract of this crate speaks of: what is left of a
//! value once its static type is forgotten.

use std::any::TypeId;
use vstd::prelude::*;

verus! {

/// `std::any::TypeId`, the tag by which a concrete type is known at run time.
/// Nothing is said of a tag but whether it equals another.
#[verifier::external_type_specification]
#[verifier::external_body]
pub struct ExTypeId(TypeId);

/// Every `'static` type has this, so that a value of any of them can stand
/// behind one and the same type.
trait Opaque {
}

impl<T: 'static> Opaque for T {
}

/// A value behind a type that no longer says what it is.
pub struct Untyped(Box<dyn Opaque>);

/// The tag that `Any::type_id` gives for a value, whatever its type.
pub uninterp spec fn type_id_of(value: Untyped) -> TypeId;

/// `x` without its type.
pub closed spec fn untyped<T: 'static>(x: T) -> Untyped {
    Untyped(Box::new(x))
}

/// The tag of the type `T`. A tag depends on the type alone, so the tag of
/// any one value of `T` is the tag of `T`.
pub closed spec fn tag_of<T: 'static>() -> TypeId {
    type_id_of(untyped(arbitrary::<T>()))
}

/// A value with its static type forgotten: the tag of its concrete type, and
/// the value itself.
pub struct Erasure {
    pub tag: TypeId,
    pub value: Untyped,
}

/// What erasing `x` gives.
pub open spec fn erasure_of<T: 'static>(x: T) -> Erasure {
    Erasure { tag: tag_of::<T>(), value: untyped(x) }
}

/// `e` is what erasing `v` gives, and no other value of `T` gives it: `v` is
/// the value that was erased.
pub open spec fn erased_from<T: 'static>(e: Erasure, v: T) -> bool {
    &&& e == erasure_of(v)
    &&& forall|x: T| #![trigger erasure_of(x)] e == erasure_of(x) ==> x == v
}

} // verus!
