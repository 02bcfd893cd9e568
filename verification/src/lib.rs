//! Recovers the concrete type of a value that is held only through a trait
//! it implements, behind `Box`, `Rc` or `Arc`.
//!
//! A trait whose objects are to be downcast extends [`BoxAny`], [`RcAny`] or
//! [`ArcAny`], after the owner that holds them. Every `'static` type has all
//! of these that it can have, so a type that implements the trait adds
//! nothing for them.
//!
//! ```
//! use any_downcast::{downcast_box, downcast_mut, downcast_ref, is, BoxAny};
//!
//! trait Base: BoxAny {}
//!
//! struct Foo(u32);
//! impl Base for Foo {}
//!
//! struct Bar(f64);
//! impl Base for Bar {}
//!
//! let mut base: Box<dyn Base> = Box::new(Foo(42));
//! assert!(is::<Foo, dyn Base>(&*base));
//! assert!(downcast_ref::<Bar, dyn Base>(&*base).is_none());
//! if let Some(foo) = downcast_mut::<Foo, dyn Base>(&mut *base) {
//!     foo.0 = 54;
//! }
//! let base = downcast_box::<Bar, dyn Base>(base).err().unwrap();
//! assert_eq!(downcast_box::<Foo, dyn Base>(base).ok().unwrap().0, 54);
//! ```
//!
//! The operations are in [`downcast`]. What they promise is stated over the
//! model in [`erasure`]: a value without its static type is the tag of its
//! concrete type and the value itself. [`laws`] holds what follows for the
//! operations together. [`any`] is the one place where `std::any` is called;
//! its contracts are believed, everything else is proved from them.

pub mod adapters;
pub mod any;
pub mod downcast;
pub mod erasure;
pub mod laws;
pub mod ownership;

pub use crate::adapters::{AsAny, AsMutAny};
pub use crate::downcast::{downcast_arc, downcast_box, downcast_mut, downcast_rc, downcast_ref, is};
pub use crate::ownership::{ArcAny, BoxAny, RcAny};
