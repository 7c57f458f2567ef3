//! Open sum types for precise error handling.
//!
//! A [`OneOf<(T1, T2, ...)>`](OneOf) holds one value out of a set of types given
//! as a tuple. It can be narrowed to one type ([`OneOf::narrow`]), broadened to a
//! superset ([`Broaden`]), split into a subset and the rest ([`SubsetErr`]),
//! converted ([`OneOf::into`]) or turned into an enum for matching
//! ([`OneOf::to_enum`], [`OneOf::as_enum`]).
//!
//! The sets are type-level lists (`Cons<T1, Cons<T2, End>>`); which type goes
//! where is decided at compile time by an index that records its position, and
//! each runtime move between sums is verified against the sums' specifications.

use vstd::prelude::*;

pub mod enums;
pub mod type_set;
pub mod tuples;
pub mod one_of;
pub mod broaden;
pub mod subset;

pub use broaden::Broaden;
pub use enums::{E0, E1, E10, E11, E12, E13, E14, E15, E16, E2, E3, E4, E5, E6, E7, E8, E9};
pub use one_of::{DrainInto, OneOf};
pub use subset::SubsetErr;
pub use type_set::{
    Compose, EmbedWiden,
    CloneFold, Contains, Coprod, DrainList, EnumRef, EnumRuntime, Narrow, NarrowBack, NarrowOther, NarrowSwap, Lift, SubsetComplement, SupersetOf, SupersetOfSelf, TupleForm,
    TypeList, TypeSet,
};

verus! {

/// The terminal element of a type-level `Cons` list.
///
/// Serves as the base case for all recursive trait implementations over
/// the [`Cons`] heterogeneous list. `End` is uninhabited — it
/// can never be constructed at runtime.
pub type End = core::convert::Infallible;

/// A single node in a compile-time heterogeneous linked list.
///
/// The full type-level list for a tuple `(T1, T2, T3)` is represented as
/// `Cons<T1, Cons<T2, Cons<T3, End>>>`. This structure is stored in
/// [`TypeSet::Variants`] and is used by traits like [`Contains`], [`Narrow`],
/// and [`SupersetOf`] to perform compile-time set arithmetic.
///
/// `Cons` is never constructed at runtime; it exists purely as a type-level token.
#[derive(Debug)]
pub struct Cons<Head, Tail>(core::marker::PhantomData<Head>, Tail);

/// A phantom wrapper used to encode the *recursive step* of a trait search.
///
/// When a trait like [`Contains`] or [`Narrow`] must find some target type in
/// the *tail* of a [`Cons`] list, the compiler needs to distinguish the
/// "found at head" case (`Index = End`) from the "recurse into tail" case
/// (`Index = Recurse<…>`). `Recurse<Tail>` carries that tail-index path and is
/// never constructed at runtime.
#[derive(Debug)]
pub struct Recurse<Tail>(Tail);

} // verus!
