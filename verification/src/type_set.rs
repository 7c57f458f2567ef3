//! Type-level set inclusion and difference over `Cons` lists, with the
//! runtime moves between the sums that those lists describe.
//!
//! A list `Cons<T1, Cons<T2, End>>` describes the sum `Coprod<T1, Coprod<T2, E0>>`:
//! a value is `Here` when it is of the head type, and `There` when it lies in
//! the tail. Every operation below is a structural move between such sums,
//! selected at compile time by an index that records a position in a list.

use vstd::prelude::*;
use vstd::pervasive::{arbitrary, cloned, unreached};
use vstd::std_specs::convert::IntoSpec;
use crate::{Cons, End, Recurse, E0};

verus! {

/// One step of a value held by a sum over a `Cons` list: either the head
/// type of the list (`Here`) or a value of the sum over the tail (`There`).
#[derive(Debug, Clone, PartialEq, Eq)]
pub enum Coprod<Head, Tail> {
    Here(Head),
    There(Tail),
}

/* ------------------------- TypeList ----------------------- */

/// A type-level list (`Cons<…, End>`) together with the runtime sum of its types.
///
/// `End` is empty: its sum `E0` has no values, so `wf` is false of every one
/// of them, and a well-formed sum over `Cons<H, T>` is either `Here` of an `H`
/// or `There` of a well-formed sum over `T`.
pub trait TypeList {
    /// The runtime sum of the types of this list.
    type Sum;

    /// The sum holds a value of one of the list's types (false for `End`).
    spec fn wf(s: Self::Sum) -> bool;

    /// Number of types in the list.
    spec fn len() -> nat;

    /// Position in the list of the type of the value that `s` holds.
    spec fn tag(s: Self::Sum) -> nat;
}

impl TypeList for End {
    type Sum = E0;

    open spec fn wf(s: E0) -> bool {
        false
    }

    open spec fn len() -> nat {
        0
    }

    open spec fn tag(s: E0) -> nat {
        0
    }
}

impl<Head, Tail: TypeList> TypeList for Cons<Head, Tail> {
    type Sum = Coprod<Head, Tail::Sum>;

    open spec fn wf(s: Self::Sum) -> bool {
        match s {
            Coprod::Here(_) => true,
            Coprod::There(r) => Tail::wf(r),
        }
    }

    open spec fn len() -> nat {
        Tail::len() + 1
    }

    open spec fn tag(s: Self::Sum) -> nat {
        match s {
            Coprod::Here(_) => 0,
            Coprod::There(r) => Tail::tag(r) + 1,
        }
    }
}

/* ------------------------- TypeSet ----------------------- */

/// Maps a tuple of distinct types to the internal representation used by [`OneOf`](crate::OneOf).
///
/// - [`Variants`](TypeSet::Variants) is the `Cons<T1, Cons<T2, … End>>` list of the tuple's
///   types, on which [`Contains`], [`Narrow`] and [`SupersetOf`] work.
/// - [`Enum`](TypeSet::Enum) is the generated enum (e.g. `E2<T1, T2>`) handed out by
///   [`OneOf::to_enum`](crate::OneOf::to_enum).
/// - [`EnumRef`] gives its borrowed form, handed out by
///   [`OneOf::as_enum`](crate::OneOf::as_enum).
///
/// Implemented for tuples of 0 to 16 types.
///
/// The types of a set are meant to be distinct. Where a type occurs more than
/// once, the compile-time index (given explicitly, since it cannot be inferred)
/// decides which of its slots a value goes into and which slot `narrow`,
/// `broaden` and `subset` look at; it is not the first slot of that type.
pub trait TypeSet {
    /// Runtime sum held by a [`OneOf<Self>`](crate::OneOf): the sum of `Variants`.
    type Sum;

    /// Type-level linked-list form (`Cons<..., End>`) of this tuple set.
    type Variants: TypeList<Sum = Self::Sum>;

    /// Enum handed out by `OneOf::to_enum`.
    type Enum;

    /// The enum value that stands for a sum: variant `Tk` for the `k`-th type.
    spec fn spec_to_enum(s: <Self::Variants as TypeList>::Sum) -> Self::Enum;

    /// The variant of the enum, counted from 0.
    spec fn enum_tag(e: Self::Enum) -> nat;

    /// Moves the value of a sum into the enum.
    fn to_enum(s: <Self::Variants as TypeList>::Sum) -> (e: Self::Enum)
        requires
            Self::Variants::wf(s),
        ensures
            e == Self::spec_to_enum(s),
            Self::enum_tag(e) == Self::Variants::tag(s),
    ;
}

/// The borrowed form of [`TypeSet::Enum`] for borrows that live for `'a`
/// (e.g. `E2<&'a T1, &'a T2>` for `(T1, T2)`), handed out by
/// [`OneOf::as_enum`](crate::OneOf::as_enum).
pub trait EnumRef<'a>: TypeSet {
    /// Borrowed lifted runtime enum.
    type EnumRef;

    /// The borrowed enum value that stands for a borrowed sum: variant `Tk`
    /// borrowing the value at position `k`.
    spec fn spec_as_enum(s: &'a <Self::Variants as TypeList>::Sum) -> Self::EnumRef;

    /// Borrows the value of a sum as the borrowed enum.
    fn as_enum(s: &'a <Self::Variants as TypeList>::Sum) -> (e: Self::EnumRef)
        requires
            Self::Variants::wf(*s),
        ensures
            e == Self::spec_as_enum(s),
    ;
}

/// Moves values from the generated [`TypeSet::Enum`] forms back into the sums
/// over [`TypeSet::Variants`].
///
/// Together with [`TypeSet::to_enum`] this is a bijection between the
/// well-formed sums and the enum: no value is lost in either direction.
pub trait EnumRuntime: TypeSet + Sized {
    /// The sum that stands for an enum value.
    spec fn spec_from_enum(e: Self::Enum) -> <Self::Variants as TypeList>::Sum;

    /// Moves the value of the enum into the sum.
    fn from_enum(e: Self::Enum) -> (s: <Self::Variants as TypeList>::Sum)
        ensures
            s == Self::spec_from_enum(e),
    ;

    /// Turning a sum into the enum and back gives the sum back.
    proof fn lemma_from_to_enum(s: <Self::Variants as TypeList>::Sum)
        requires
            Self::Variants::wf(s),
        ensures
            Self::spec_from_enum(Self::spec_to_enum(s)) == s,
    ;

    /// Turning an enum into the sum and back gives the enum back, and the sum is
    /// well formed wherever the set has a type at all.
    proof fn lemma_to_from_enum(e: Self::Enum)
        ensures
            Self::spec_to_enum(Self::spec_from_enum(e)) == e,
            Self::Variants::len() > 0 ==> Self::Variants::wf(Self::spec_from_enum(e)),
    ;
}

/* ------------------------- TupleForm ----------------------- */

/// The inverse of [`TypeSet`]: the tuple whose `Variants` is this `Cons`/`End` list.
///
/// Used after [`Narrow`] and [`SupersetOf`] produce a new list, to parametrize
/// a new [`OneOf`](crate::OneOf) over it.
pub trait TupleForm: TypeList {
    /// Tuple representation corresponding to this `Cons`/`End` chain.
    type Tuple: TypeSet<Variants = Self>;
}

/* ------------------------- Contains ----------------------- */

/// Compile-time proof that type `T` is a member of the `Cons` list `Self`.
///
/// `Index` records the position of `T` in the list: `End` when it is the head,
/// `Recurse<I>` when it is at position `I` of the tail. It also says where a
/// value of `T` goes in the list's sum.
pub trait Contains<T, Index>: TypeList {
    /// Position of `T` in the list.
    spec fn position() -> nat;

    /// The sum holding `t` at the position of `T`.
    spec fn spec_inject(t: T) -> Self::Sum;

    /// Puts `t` into the sum, at the position of `T`.
    fn inject(t: T) -> (s: Self::Sum)
        ensures
            s == Self::spec_inject(t),
    ;

    /// Injecting gives a well-formed sum tagged with the position of `T`.
    proof fn lemma_inject(t: T)
        ensures
            Self::wf(Self::spec_inject(t)),
            Self::tag(Self::spec_inject(t)) == Self::position(),
            Self::position() < Self::len(),
    ;
}

/// Base case: `T` is the head of the list.
impl<T, Tail: TypeList> Contains<T, End> for Cons<T, Tail> {
    open spec fn position() -> nat {
        0
    }

    open spec fn spec_inject(t: T) -> Self::Sum {
        Coprod::Here(t)
    }

    fn inject(t: T) -> (s: Self::Sum) {
        Coprod::Here(t)
    }

    proof fn lemma_inject(t: T) {
    }
}

/// Recursive case: `T` is in the tail of the list.
impl<T, Index, Head, Tail: Contains<T, Index>> Contains<T, Recurse<Index>> for Cons<Head, Tail> {
    open spec fn position() -> nat {
        Tail::position() + 1
    }

    open spec fn spec_inject(t: T) -> Self::Sum {
        Coprod::There(Tail::spec_inject(t))
    }

    fn inject(t: T) -> (s: Self::Sum) {
        Coprod::There(Tail::inject(t))
    }

    proof fn lemma_inject(t: T) {
        Tail::lemma_inject(t);
    }
}

/* ------------------------- Narrow ----------------------- */

/// Compile-time extraction of a single type `Target` from a `Cons` list.
///
/// `Remainder` is the list with `Target` removed. At runtime, `narrow` splits
/// a sum over the list into either the `Target` it holds or a sum over the
/// remainder, and `widen` puts a sum over the remainder back into the list's sum.
/// The two are inverse: the sums over the list are exactly the injected targets
/// and the widened remainders.
pub trait Narrow<Target, Index>: Contains<Target, Index> {
    /// `Self` with `Target` removed.
    type Remainder: TypeList;

    /// `Ok` of the target when the sum holds one, else `Err` of the sum over the remainder.
    spec fn spec_narrow(s: Self::Sum) -> Result<Target, <Self::Remainder as TypeList>::Sum>;

    /// The sum over the list that holds what a sum over the remainder holds.
    spec fn spec_widen(r: <Self::Remainder as TypeList>::Sum) -> Self::Sum;

    /// Splits a sum into the target or the remainder.
    fn narrow(s: Self::Sum) -> (res: Result<Target, <Self::Remainder as TypeList>::Sum>)
        ensures
            res == Self::spec_narrow(s),
    ;

    /// Puts a sum over the remainder back into the list's sum.
    fn widen(r: <Self::Remainder as TypeList>::Sum) -> (s: Self::Sum)
        ensures
            s == Self::spec_widen(r),
    ;

    /// Narrowing an injected target gives the target back.
    proof fn lemma_narrow_inject(t: Target)
        ensures
            Self::spec_narrow(Self::spec_inject(t)) == Ok::<
                Target,
                <Self::Remainder as TypeList>::Sum,
            >(t),
    ;

    /// Narrowing a widened remainder gives the remainder back.
    proof fn lemma_narrow_widen(r: <Self::Remainder as TypeList>::Sum)
        requires
            Self::Remainder::wf(r),
        ensures
            Self::spec_narrow(Self::spec_widen(r)) == Err::<
                Target,
                <Self::Remainder as TypeList>::Sum,
            >(r),
            Self::wf(Self::spec_widen(r)),
    ;

    /// Every well-formed sum is an injected target or a widened well-formed remainder.
    proof fn lemma_narrow_cases(s: Self::Sum)
        requires
            Self::wf(s),
        ensures
            match Self::spec_narrow(s) {
                Ok(t) => s == Self::spec_inject(t),
                Err(r) => Self::Remainder::wf(r) && s == Self::spec_widen(r),
            },
    ;

    /// The remainder has one type fewer than the list.
    proof fn lemma_remainder_len()
        ensures
            Self::Remainder::len() + 1 == Self::len(),
    ;
}

/// Base case where the search Target is in the Head of the Variants.
impl<Target, Tail: TypeList> Narrow<Target, End> for Cons<Target, Tail> {
    type Remainder = Tail;

    open spec fn spec_narrow(s: Self::Sum) -> Result<Target, Tail::Sum> {
        match s {
            Coprod::Here(t) => Ok(t),
            Coprod::There(r) => Err(r),
        }
    }

    open spec fn spec_widen(r: Tail::Sum) -> Self::Sum {
        Coprod::There(r)
    }

    fn narrow(s: Self::Sum) -> (res: Result<Target, Tail::Sum>) {
        match s {
            Coprod::Here(t) => Ok(t),
            Coprod::There(r) => Err(r),
        }
    }

    fn widen(r: Tail::Sum) -> (s: Self::Sum) {
        Coprod::There(r)
    }

    proof fn lemma_narrow_inject(t: Target) {
    }

    proof fn lemma_narrow_widen(r: Tail::Sum) {
    }

    proof fn lemma_narrow_cases(s: Self::Sum) {
    }

    proof fn lemma_remainder_len() {
    }
}

/// Recursive case where the search Target is in the Tail of the Variants.
impl<Head, Tail, Target, Index> Narrow<Target, Recurse<Index>> for Cons<Head, Tail> where
    Tail: Narrow<Target, Index>,
 {
    type Remainder = Cons<Head, <Tail as Narrow<Target, Index>>::Remainder>;

    open spec fn spec_narrow(s: Self::Sum) -> Result<Target, <Self::Remainder as TypeList>::Sum> {
        match s {
            Coprod::Here(h) => Err(Coprod::Here(h)),
            Coprod::There(r) => match Tail::spec_narrow(r) {
                Ok(t) => Ok(t),
                Err(rr) => Err(Coprod::There(rr)),
            },
        }
    }

    open spec fn spec_widen(r: <Self::Remainder as TypeList>::Sum) -> Self::Sum {
        match r {
            Coprod::Here(h) => Coprod::Here(h),
            Coprod::There(rr) => Coprod::There(Tail::spec_widen(rr)),
        }
    }

    fn narrow(s: Self::Sum) -> (res: Result<Target, <Self::Remainder as TypeList>::Sum>) {
        match s {
            Coprod::Here(h) => Err(Coprod::Here(h)),
            Coprod::There(r) => match Tail::narrow(r) {
                Ok(t) => Ok(t),
                Err(rr) => Err(Coprod::There(rr)),
            },
        }
    }

    fn widen(r: <Self::Remainder as TypeList>::Sum) -> (s: Self::Sum) {
        match r {
            Coprod::Here(h) => Coprod::Here(h),
            Coprod::There(rr) => Coprod::There(Tail::widen(rr)),
        }
    }

    proof fn lemma_narrow_inject(t: Target) {
        Tail::lemma_narrow_inject(t);
    }

    proof fn lemma_narrow_widen(r: <Self::Remainder as TypeList>::Sum) {
        match r {
            Coprod::Here(h) => {},
            Coprod::There(rr) => {
                Tail::lemma_narrow_widen(rr);
            },
        }
    }

    proof fn lemma_narrow_cases(s: Self::Sum) {
        match s {
            Coprod::Here(h) => {},
            Coprod::There(r) => {
                Tail::lemma_narrow_cases(r);
            },
        }
    }

    proof fn lemma_remainder_len() {
        Tail::lemma_remainder_len();
    }
}

/* ------------------------- NarrowOther ----------------------- */

/// Narrowing to `Target` a value of another type `U` of the list.
///
/// `I` is the position of `Target` in the list, `J` that of `U`, and `K` the
/// position of `U` in the remainder left once `Target` is removed (the same as
/// `J` when `U` comes first, one step less when it comes after `Target`). The
/// law says that narrowing an injected `U` to `Target` fails, and that the
/// remainder then holds the same `U` at its position `K`, so that narrowing the
/// remainder to `U` gives it back: a failed narrow loses nothing.
///
/// Implemented for every pair of distinct positions of a list.
pub trait NarrowOther<Target, I, U, J, K>: Narrow<Target, I> + Contains<U, J> where
    <Self as Narrow<Target, I>>::Remainder: Contains<U, K>,
 {
    /// Narrowing an injected `U` to `Target` gives the remainder holding that
    /// `U`, and widening it back gives the injected `U`.
    proof fn lemma_narrow_other(u: U)
        ensures
            <Self as Narrow<Target, I>>::spec_narrow(<Self as Contains<U, J>>::spec_inject(u))
                == Err::<Target, <<Self as Narrow<Target, I>>::Remainder as TypeList>::Sum>(
                <<Self as Narrow<Target, I>>::Remainder as Contains<U, K>>::spec_inject(u),
            ),
            <Self as Narrow<Target, I>>::spec_widen(
                <<Self as Narrow<Target, I>>::Remainder as Contains<U, K>>::spec_inject(u),
            ) == <Self as Contains<U, J>>::spec_inject(u),
    ;
}

/// `Target` is the head and `U` is in the tail.
impl<Target, Tail, U, J> NarrowOther<Target, End, U, Recurse<J>, J> for Cons<Target, Tail> where
    Tail: Contains<U, J>,
 {
    proof fn lemma_narrow_other(u: U) {
    }
}

/// `U` is the head and `Target` is in the tail.
impl<Head, Tail, Target, I> NarrowOther<Target, Recurse<I>, Head, End, End> for Cons<
    Head,
    Tail,
> where Tail: Narrow<Target, I> {
    proof fn lemma_narrow_other(u: Head) {
    }
}

/// Both are in the tail.
impl<Head, Tail, Target, I, U, J, K> NarrowOther<
    Target,
    Recurse<I>,
    U,
    Recurse<J>,
    Recurse<K>,
> for Cons<Head, Tail> where
    Tail: NarrowOther<Target, I, U, J, K>,
    <Tail as Narrow<Target, I>>::Remainder: Contains<U, K>,
 {
    proof fn lemma_narrow_other(u: U) {
        Tail::lemma_narrow_other(u);
    }
}

/* ------------------------- SupersetOf ----------------------- */

/// Compile-time proof that every type in `Other` is also present in `Self`.
///
/// Used by [`Broaden`](crate::Broaden) (which requires `Self ⊇ Other`) and
/// [`SubsetErr`](crate::SubsetErr) (which tests whether the held value belongs to a subset).
///
/// `Remainder` is the list of the types of `Self` that are not in `Other`.
/// At runtime, `embed` moves a sum over `Other` into a sum over `Self`, and
/// `split` splits a sum over `Self` into a sum over `Other` or a sum over the
/// remainder; `rest` moves a sum over the remainder back into `Self`'s sum.
/// `split` is the inverse of `embed` and `rest` together.
pub trait SupersetOf<Other: TypeList, Index>: TypeList {
    /// Types present in `Self` but not in `Other`.
    type Remainder: TypeList;

    /// The sum over `Self` that holds what a sum over `Other` holds.
    spec fn spec_embed(x: Other::Sum) -> Self::Sum;

    /// `Ok` of a sum over `Other` when the held value's type is in `Other`,
    /// else `Err` of a sum over the remainder.
    spec fn spec_split(s: Self::Sum) -> Result<Other::Sum, <Self::Remainder as TypeList>::Sum>;

    /// The sum over `Self` that holds what a sum over the remainder holds.
    spec fn spec_rest(r: <Self::Remainder as TypeList>::Sum) -> Self::Sum;

    /// Moves a sum over `Other` into a sum over `Self`.
    fn embed(x: Other::Sum) -> (s: Self::Sum)
        requires
            Other::wf(x),
        ensures
            s == Self::spec_embed(x),
    ;

    /// Splits a sum over `Self` into a sum over `Other` or over the remainder.
    fn split(s: Self::Sum) -> (res: Result<Other::Sum, <Self::Remainder as TypeList>::Sum>)
        ensures
            res == Self::spec_split(s),
    ;

    /// Splitting an embedded sum gives it back.
    proof fn lemma_split_embed(x: Other::Sum)
        requires
            Other::wf(x),
        ensures
            Self::spec_split(Self::spec_embed(x)) == Ok::<
                Other::Sum,
                <Self::Remainder as TypeList>::Sum,
            >(x),
            Self::wf(Self::spec_embed(x)),
    ;

    /// Splitting a sum put back from the remainder gives the remainder back.
    proof fn lemma_split_rest(r: <Self::Remainder as TypeList>::Sum)
        requires
            Self::Remainder::wf(r),
        ensures
            Self::spec_split(Self::spec_rest(r)) == Err::<
                Other::Sum,
                <Self::Remainder as TypeList>::Sum,
            >(r),
            Self::wf(Self::spec_rest(r)),
    ;

    /// Every well-formed sum over `Self` is an embedded sum over `Other` or a
    /// remainder put back.
    proof fn lemma_split_cases(s: Self::Sum)
        requires
            Self::wf(s),
        ensures
            match Self::spec_split(s) {
                Ok(x) => Other::wf(x) && s == Self::spec_embed(x),
                Err(r) => Self::Remainder::wf(r) && s == Self::spec_rest(r),
            },
    ;

    /// `Self` has the types of `Other` and those of the remainder.
    proof fn lemma_superset_len()
        ensures
            Self::Remainder::len() + Other::len() == Self::len(),
    ;
}

/// Base case: every list is a superset of the empty list.
impl<T: TypeList> SupersetOf<End, End> for T {
    type Remainder = T;

    open spec fn spec_embed(x: E0) -> T::Sum {
        arbitrary()
    }

    open spec fn spec_split(s: T::Sum) -> Result<E0, T::Sum> {
        Err(s)
    }

    open spec fn spec_rest(r: T::Sum) -> T::Sum {
        r
    }

    fn embed(x: E0) -> (s: T::Sum) {
        unreached()
    }

    fn split(s: T::Sum) -> (res: Result<E0, T::Sum>) {
        Err(s)
    }

    proof fn lemma_split_embed(x: E0) {
    }

    proof fn lemma_split_rest(r: T::Sum) {
    }

    proof fn lemma_split_cases(s: T::Sum) {
    }

    proof fn lemma_superset_len() {
    }
}

/// Recursive case: the head of `Other` is narrowed out of `Self`, and the
/// remainder must be a superset of the tail of `Other`.
impl<SubHead, SubTail, Super, HeadIndex, TailIndex> SupersetOf<
    Cons<SubHead, SubTail>,
    Cons<HeadIndex, TailIndex>,
> for Super where
    SubTail: TypeList,
    Self: Narrow<SubHead, HeadIndex>,
    <Self as Narrow<SubHead, HeadIndex>>::Remainder: SupersetOf<SubTail, TailIndex>,
 {
    type Remainder = <<Self as Narrow<SubHead, HeadIndex>>::Remainder as SupersetOf<
        SubTail,
        TailIndex,
    >>::Remainder;

    open spec fn spec_embed(x: Coprod<SubHead, SubTail::Sum>) -> Self::Sum {
        match x {
            Coprod::Here(h) => <Self as Contains<SubHead, HeadIndex>>::spec_inject(h),
            Coprod::There(r) => <Self as Narrow<SubHead, HeadIndex>>::spec_widen(
                <<Self as Narrow<SubHead, HeadIndex>>::Remainder as SupersetOf<
                    SubTail,
                    TailIndex,
                >>::spec_embed(r),
            ),
        }
    }

    open spec fn spec_split(s: Self::Sum) -> Result<
        Coprod<SubHead, SubTail::Sum>,
        <Self::Remainder as TypeList>::Sum,
    > {
        match <Self as Narrow<SubHead, HeadIndex>>::spec_narrow(s) {
            Ok(h) => Ok(Coprod::Here(h)),
            Err(r) => match <<Self as Narrow<SubHead, HeadIndex>>::Remainder as SupersetOf<
                SubTail,
                TailIndex,
            >>::spec_split(r) {
                Ok(x) => Ok(Coprod::There(x)),
                Err(rr) => Err(rr),
            },
        }
    }

    open spec fn spec_rest(r: <Self::Remainder as TypeList>::Sum) -> Self::Sum {
        <Self as Narrow<SubHead, HeadIndex>>::spec_widen(
            <<Self as Narrow<SubHead, HeadIndex>>::Remainder as SupersetOf<
                SubTail,
                TailIndex,
            >>::spec_rest(r),
        )
    }

    fn embed(x: Coprod<SubHead, SubTail::Sum>) -> (s: Self::Sum) {
        match x {
            Coprod::Here(h) => <Self as Contains<SubHead, HeadIndex>>::inject(h),
            Coprod::There(r) => <Self as Narrow<SubHead, HeadIndex>>::widen(
                <<Self as Narrow<SubHead, HeadIndex>>::Remainder as SupersetOf<
                    SubTail,
                    TailIndex,
                >>::embed(r),
            ),
        }
    }

    fn split(s: Self::Sum) -> (res: Result<
        Coprod<SubHead, SubTail::Sum>,
        <Self::Remainder as TypeList>::Sum,
    >) {
        match <Self as Narrow<SubHead, HeadIndex>>::narrow(s) {
            Ok(h) => Ok(Coprod::Here(h)),
            Err(r) => match <<Self as Narrow<SubHead, HeadIndex>>::Remainder as SupersetOf<
                SubTail,
                TailIndex,
            >>::split(r) {
                Ok(x) => Ok(Coprod::There(x)),
                Err(rr) => Err(rr),
            },
        }
    }

    proof fn lemma_split_embed(x: Coprod<SubHead, SubTail::Sum>) {
        match x {
            Coprod::Here(h) => {
                <Self as Narrow<SubHead, HeadIndex>>::lemma_narrow_inject(h);
                <Self as Contains<SubHead, HeadIndex>>::lemma_inject(h);
            },
            Coprod::There(r) => {
                <<Self as Narrow<SubHead, HeadIndex>>::Remainder as SupersetOf<
                    SubTail,
                    TailIndex,
                >>::lemma_split_embed(r);
                let e = <<Self as Narrow<SubHead, HeadIndex>>::Remainder as SupersetOf<
                    SubTail,
                    TailIndex,
                >>::spec_embed(r);
                <Self as Narrow<SubHead, HeadIndex>>::lemma_narrow_widen(e);
            },
        }
    }

    proof fn lemma_split_rest(r: <Self::Remainder as TypeList>::Sum) {
        <<Self as Narrow<SubHead, HeadIndex>>::Remainder as SupersetOf<
            SubTail,
            TailIndex,
        >>::lemma_split_rest(r);
        let e = <<Self as Narrow<SubHead, HeadIndex>>::Remainder as SupersetOf<
            SubTail,
            TailIndex,
        >>::spec_rest(r);
        <Self as Narrow<SubHead, HeadIndex>>::lemma_narrow_widen(e);
    }

    proof fn lemma_split_cases(s: Self::Sum) {
        <Self as Narrow<SubHead, HeadIndex>>::lemma_narrow_cases(s);
        match <Self as Narrow<SubHead, HeadIndex>>::spec_narrow(s) {
            Ok(h) => {},
            Err(r) => {
                <<Self as Narrow<SubHead, HeadIndex>>::Remainder as SupersetOf<
                    SubTail,
                    TailIndex,
                >>::lemma_split_cases(r);
            },
        }
    }

    proof fn lemma_superset_len() {
        <Self as Narrow<SubHead, HeadIndex>>::lemma_remainder_len();
        <<Self as Narrow<SubHead, HeadIndex>>::Remainder as SupersetOf<
            SubTail,
            TailIndex,
        >>::lemma_superset_len();
    }
}

/* ------------------------- SupersetOfSelf ----------------------- */

/// Every list is a superset of itself through `SelfIndex`, which finds each type
/// at the head of what is left: broadening to the same set is the identity.
///
/// Implemented for every list; for a set of distinct types, `SelfIndex` is the
/// only index by which the set is a superset of itself.
pub trait SupersetOfSelf: TypeList + Sized where
    Self: SupersetOf<Self, <Self as SupersetOfSelf>::SelfIndex>,
 {
    /// The index by which the list is a superset of itself in place.
    type SelfIndex;

    /// Embedding a sum into its own list gives it back.
    proof fn lemma_embed_self(x: Self::Sum)
        requires
            Self::wf(x),
        ensures
            <Self as SupersetOf<Self, Self::SelfIndex>>::spec_embed(x) == x,
    ;
}

impl SupersetOfSelf for End {
    type SelfIndex = End;

    proof fn lemma_embed_self(x: E0) {
    }
}

impl<Head, Tail> SupersetOfSelf for Cons<Head, Tail> where
    Tail: SupersetOfSelf,
    Tail: SupersetOf<Tail, <Tail as SupersetOfSelf>::SelfIndex>,
 {
    type SelfIndex = Cons<End, <Tail as SupersetOfSelf>::SelfIndex>;

    proof fn lemma_embed_self(x: Self::Sum) {
        match x {
            Coprod::Here(h) => {},
            Coprod::There(r) => {
                Tail::lemma_embed_self(r);
            },
        }
    }
}

/* ------------------------- NarrowSwap ----------------------- */

/// Removing two types of a list in either order leaves the same list, and
/// putting a value back through the two removals gives the same sum in either order.
///
/// `T` is at position `I` of the list and `U` at position `J`; `U` is at `K` once
/// `T` is removed, and `T` is at `I2` once `U` is removed. Implemented for every
/// pair of distinct positions of a list.
pub trait NarrowSwap<T, I, U, J, K>: Narrow<T, I> + Narrow<U, J> where
    <Self as Narrow<T, I>>::Remainder: Narrow<U, K>,
    <Self as Narrow<U, J>>::Remainder: Narrow<
        T,
        <Self as NarrowSwap<T, I, U, J, K>>::I2,
        Remainder = <<Self as Narrow<T, I>>::Remainder as Narrow<U, K>>::Remainder,
    >,
 {
    /// Position of `T` once `U` is removed.
    type I2;

    /// Widening back through `U` then `T` equals widening back through `T` then `U`.
    proof fn lemma_swap(
        y: <<<Self as Narrow<T, I>>::Remainder as Narrow<U, K>>::Remainder as TypeList>::Sum,
    )
        ensures
            <Self as Narrow<T, I>>::spec_widen(
                <<Self as Narrow<T, I>>::Remainder as Narrow<U, K>>::spec_widen(y),
            ) == <Self as Narrow<U, J>>::spec_widen(
                <<Self as Narrow<U, J>>::Remainder as Narrow<T, Self::I2>>::spec_widen(y),
            ),
    ;

    /// A `T` injected at `I2` in the list without `U`, widened back, is the `T`
    /// injected at `I` in the list.
    proof fn lemma_swap_inject(t: T)
        ensures
            <Self as Narrow<U, J>>::spec_widen(
                <<Self as Narrow<U, J>>::Remainder as Contains<T, Self::I2>>::spec_inject(t),
            ) == <Self as Contains<T, I>>::spec_inject(t),
    ;
}

/// `T` is the head and `U` is in the tail.
impl<T, Tail, U, J> NarrowSwap<T, End, U, Recurse<J>, J> for Cons<T, Tail> where
    Tail: Narrow<U, J>,
 {
    type I2 = End;

    proof fn lemma_swap(y: <<Tail as Narrow<U, J>>::Remainder as TypeList>::Sum) {
    }

    proof fn lemma_swap_inject(t: T) {
    }
}

/// `U` is the head and `T` is in the tail.
impl<U, Tail, T, I> NarrowSwap<T, Recurse<I>, U, End, End> for Cons<U, Tail> where
    Tail: Narrow<T, I>,
 {
    type I2 = I;

    proof fn lemma_swap(y: <<Tail as Narrow<T, I>>::Remainder as TypeList>::Sum) {
    }

    proof fn lemma_swap_inject(t: T) {
    }
}

/// Both are in the tail.
impl<Head, Tail, T, I, U, J, K> NarrowSwap<T, Recurse<I>, U, Recurse<J>, Recurse<K>> for Cons<
    Head,
    Tail,
> where
    Tail: NarrowSwap<T, I, U, J, K>,
    <Tail as Narrow<T, I>>::Remainder: Narrow<U, K>,
    <Tail as Narrow<U, J>>::Remainder: Narrow<
        T,
        <Tail as NarrowSwap<T, I, U, J, K>>::I2,
        Remainder = <<Tail as Narrow<T, I>>::Remainder as Narrow<U, K>>::Remainder,
    >,
 {
    type I2 = Recurse<<Tail as NarrowSwap<T, I, U, J, K>>::I2>;

    proof fn lemma_swap(
        y: Coprod<
            Head,
            <<<Tail as Narrow<T, I>>::Remainder as Narrow<U, K>>::Remainder as TypeList>::Sum,
        >,
    ) {
        match y {
            Coprod::Here(h) => {},
            Coprod::There(y2) => {
                Tail::lemma_swap(y2);
            },
        }
    }

    proof fn lemma_swap_inject(t: T) {
        Tail::lemma_swap_inject(t);
    }
}

/* ------------------------- NarrowBack ----------------------- */

/// Where a value of the remainder goes when widened back.
///
/// When `U` is at position `K` of the list without `Target` (at `I`), it is at
/// position `J` of the list, and widening an injected `U` back gives the `U`
/// injected at `J`. Implemented for every position of every remainder.
pub trait NarrowBack<Target, I, U, K>: Narrow<Target, I> where
    <Self as Narrow<Target, I>>::Remainder: Contains<U, K>,
    Self: Contains<U, <Self as NarrowBack<Target, I, U, K>>::J>,
 {
    /// Position of `U` in the list.
    type J;

    /// Widening an injected `U` gives the `U` injected at `J`.
    proof fn lemma_widen_inject(u: U)
        ensures
            <Self as Narrow<Target, I>>::spec_widen(
                <<Self as Narrow<Target, I>>::Remainder as Contains<U, K>>::spec_inject(u),
            ) == <Self as Contains<U, Self::J>>::spec_inject(u),
    ;
}

/// `Target` is the head: everything of the remainder moves one step down.
impl<Target, Tail, U, K> NarrowBack<Target, End, U, K> for Cons<Target, Tail> where
    Tail: Contains<U, K>,
 {
    type J = Recurse<K>;

    proof fn lemma_widen_inject(u: U) {
    }
}

/// `U` is the head of the remainder, which is the head of the list.
impl<Head, Tail, Target, I> NarrowBack<Target, Recurse<I>, Head, End> for Cons<Head, Tail> where
    Tail: Narrow<Target, I>,
 {
    type J = End;

    proof fn lemma_widen_inject(u: Head) {
    }
}

/// Both are in the tail.
impl<Head, Tail, Target, I, U, K> NarrowBack<Target, Recurse<I>, U, Recurse<K>> for Cons<
    Head,
    Tail,
> where
    Tail: NarrowBack<Target, I, U, K>,
    <Tail as Narrow<Target, I>>::Remainder: Contains<U, K>,
    Tail: Contains<U, <Tail as NarrowBack<Target, I, U, K>>::J>,
 {
    type J = Recurse<<Tail as NarrowBack<Target, I, U, K>>::J>;

    proof fn lemma_widen_inject(u: U) {
        Tail::lemma_widen_inject(u);
    }
}

/* ------------------------- Lift ----------------------- */

/// Embedding a list `X` into a list through the remainder left by removing `T`.
///
/// When the list without `T` (at position `I`) is a superset of `X` through `J`,
/// the list itself is a superset of `X` through `Lifted`, and embedding into the
/// remainder then widening back equals embedding directly.
pub trait Lift<T, I, X: TypeList, J>: Narrow<T, I> where
    <Self as Narrow<T, I>>::Remainder: SupersetOf<X, J>,
    Self: SupersetOf<X, <Self as Lift<T, I, X, J>>::Lifted>,
 {
    /// Index by which the list is a superset of `X`.
    type Lifted;

    /// Widening an embedding into the remainder equals embedding into the list.
    proof fn lemma_lift(x: X::Sum)
        requires
            X::wf(x),
        ensures
            <Self as Narrow<T, I>>::spec_widen(
                <<Self as Narrow<T, I>>::Remainder as SupersetOf<X, J>>::spec_embed(x),
            ) == <Self as SupersetOf<X, Self::Lifted>>::spec_embed(x),
    ;
}

/// Nothing to embed.
impl<L, T, I> Lift<T, I, End, End> for L where L: Narrow<T, I> {
    type Lifted = End;

    proof fn lemma_lift(x: E0) {
    }
}

/// The head of `X` is at `H` in the remainder and at `NarrowBack::J` in the
/// list; the tail is lifted through the list without the head of `X`.
impl<L, T, I, XH, XT, H, Tt> Lift<T, I, Cons<XH, XT>, Cons<H, Tt>> for L where
    XT: TypeList,
    <L as Narrow<T, I>>::Remainder: Narrow<XH, H>,
    <<L as Narrow<T, I>>::Remainder as Narrow<XH, H>>::Remainder: SupersetOf<XT, Tt>,
    L: NarrowBack<T, I, XH, H>,
    L: Narrow<XH, <L as NarrowBack<T, I, XH, H>>::J>,
    L: NarrowSwap<T, I, XH, <L as NarrowBack<T, I, XH, H>>::J, H>,
    <L as Narrow<XH, <L as NarrowBack<T, I, XH, H>>::J>>::Remainder: Narrow<
        T,
        <L as NarrowSwap<T, I, XH, <L as NarrowBack<T, I, XH, H>>::J, H>>::I2,
        Remainder = <<L as Narrow<T, I>>::Remainder as Narrow<XH, H>>::Remainder,
    >,
    <L as Narrow<XH, <L as NarrowBack<T, I, XH, H>>::J>>::Remainder: Lift<
        T,
        <L as NarrowSwap<T, I, XH, <L as NarrowBack<T, I, XH, H>>::J, H>>::I2,
        XT,
        Tt,
    >,
    <L as Narrow<XH, <L as NarrowBack<T, I, XH, H>>::J>>::Remainder: SupersetOf<
        XT,
        <<L as Narrow<XH, <L as NarrowBack<T, I, XH, H>>::J>>::Remainder as Lift<
            T,
            <L as NarrowSwap<T, I, XH, <L as NarrowBack<T, I, XH, H>>::J, H>>::I2,
            XT,
            Tt,
        >>::Lifted,
    >,
 {
    type Lifted = Cons<
        <L as NarrowBack<T, I, XH, H>>::J,
        <<L as Narrow<XH, <L as NarrowBack<T, I, XH, H>>::J>>::Remainder as Lift<
            T,
            <L as NarrowSwap<T, I, XH, <L as NarrowBack<T, I, XH, H>>::J, H>>::I2,
            XT,
            Tt,
        >>::Lifted,
    >;

    proof fn lemma_lift(x: Coprod<XH, XT::Sum>) {
        match x {
            Coprod::Here(xh) => {
                <L as NarrowBack<T, I, XH, H>>::lemma_widen_inject(xh);
            },
            Coprod::There(r) => {
                let y = <<<L as Narrow<T, I>>::Remainder as Narrow<XH, H>>::Remainder as SupersetOf<
                    XT,
                    Tt,
                >>::spec_embed(r);
                <L as NarrowSwap<T, I, XH, <L as NarrowBack<T, I, XH, H>>::J, H>>::lemma_swap(y);
                <<L as Narrow<XH, <L as NarrowBack<T, I, XH, H>>::J>>::Remainder as Lift<
                    T,
                    <L as NarrowSwap<T, I, XH, <L as NarrowBack<T, I, XH, H>>::J, H>>::I2,
                    XT,
                    Tt,
                >>::lemma_lift(r);
            },
        }
    }
}

/* ------------------------- SubsetComplement ----------------------- */

/// Broadening the remainder of a split back into the list equals putting it back.
///
/// When `Self ⊇ Other` through `Index` with remainder `R`, the list is also a
/// superset of `R` through `Complement`, and embedding a sum over `R` through it
/// gives `spec_rest`: what `subset` leaves in its `Err` arm, broadened back, is
/// the value the split started from. Implemented for every superset relation;
/// for a set of distinct types, `Complement` is the only index by which the
/// list is a superset of `R`.
pub trait SubsetComplement<Other: TypeList, Index>: SupersetOf<Other, Index> where
    Self: SupersetOf<
        <Self as SupersetOf<Other, Index>>::Remainder,
        <Self as SubsetComplement<Other, Index>>::Complement,
    >,
 {
    /// Index by which the list is a superset of the remainder.
    type Complement;

    /// Embedding the remainder through `Complement` equals putting it back through `Index`.
    proof fn lemma_rest_is_embed(r: <<Self as SupersetOf<Other, Index>>::Remainder as TypeList>::Sum)
        requires
            <Self as SupersetOf<Other, Index>>::Remainder::wf(r),
        ensures
            <Self as SupersetOf<Other, Index>>::spec_rest(r) == <Self as SupersetOf<
                <Self as SupersetOf<Other, Index>>::Remainder,
                Self::Complement,
            >>::spec_embed(r),
    ;
}

/// Splitting off nothing: the remainder is the whole list.
impl<L> SubsetComplement<End, End> for L where
    L: SupersetOfSelf,
    L: SupersetOf<L, <L as SupersetOfSelf>::SelfIndex>,
 {
    type Complement = <L as SupersetOfSelf>::SelfIndex;

    proof fn lemma_rest_is_embed(r: L::Sum) {
        L::lemma_embed_self(r);
    }
}

/// Splitting off a head and then the tail: the complement of the tail's split in
/// the remainder, lifted through the removal of the head.
impl<L, SH, ST, HI, TI> SubsetComplement<Cons<SH, ST>, Cons<HI, TI>> for L where
    ST: TypeList,
    L: Narrow<SH, HI>,
    <L as Narrow<SH, HI>>::Remainder: SupersetOf<ST, TI>,
    <L as Narrow<SH, HI>>::Remainder: SubsetComplement<ST, TI>,
    <L as Narrow<SH, HI>>::Remainder: SupersetOf<
        <<L as Narrow<SH, HI>>::Remainder as SupersetOf<ST, TI>>::Remainder,
        <<L as Narrow<SH, HI>>::Remainder as SubsetComplement<ST, TI>>::Complement,
    >,
    L: Lift<
        SH,
        HI,
        <<L as Narrow<SH, HI>>::Remainder as SupersetOf<ST, TI>>::Remainder,
        <<L as Narrow<SH, HI>>::Remainder as SubsetComplement<ST, TI>>::Complement,
    >,
    L: SupersetOf<
        <<L as Narrow<SH, HI>>::Remainder as SupersetOf<ST, TI>>::Remainder,
        <L as Lift<
            SH,
            HI,
            <<L as Narrow<SH, HI>>::Remainder as SupersetOf<ST, TI>>::Remainder,
            <<L as Narrow<SH, HI>>::Remainder as SubsetComplement<ST, TI>>::Complement,
        >>::Lifted,
    >,
 {
    type Complement = <L as Lift<
        SH,
        HI,
        <<L as Narrow<SH, HI>>::Remainder as SupersetOf<ST, TI>>::Remainder,
        <<L as Narrow<SH, HI>>::Remainder as SubsetComplement<ST, TI>>::Complement,
    >>::Lifted;

    proof fn lemma_rest_is_embed(
        r: <<<L as Narrow<SH, HI>>::Remainder as SupersetOf<ST, TI>>::Remainder as TypeList>::Sum,
    ) {
        <<L as Narrow<SH, HI>>::Remainder as SubsetComplement<ST, TI>>::lemma_rest_is_embed(r);
        <L as Lift<
            SH,
            HI,
            <<L as Narrow<SH, HI>>::Remainder as SupersetOf<ST, TI>>::Remainder,
            <<L as Narrow<SH, HI>>::Remainder as SubsetComplement<ST, TI>>::Complement,
        >>::lemma_lift(r);
    }
}

/* ------------------------- EmbedWiden ----------------------- */

/// How an embedding of `F` into the list treats a type `U` of `F` at position `K`.
///
/// `U` goes to position `Moved` of the list: embedding an injected `U` gives the
/// `U` injected at `Moved`. The list without `U` is a superset of `F` without
/// `U` through `RestIndex`, and embedding a sum widened back into `F` equals
/// embedding it into the list without `U` and widening back there.
/// Implemented for every superset relation and every position of `F`.
pub trait EmbedWiden<F: TypeList, J1, U, K>: SupersetOf<F, J1> where
    F: Narrow<U, K>,
    Self: Narrow<U, <Self as EmbedWiden<F, J1, U, K>>::Moved>,
    <Self as Narrow<U, <Self as EmbedWiden<F, J1, U, K>>::Moved>>::Remainder: SupersetOf<
        <F as Narrow<U, K>>::Remainder,
        <Self as EmbedWiden<F, J1, U, K>>::RestIndex,
    >,
 {
    /// Position of `U` in the list.
    type Moved;

    /// Index by which the list without `U` is a superset of `F` without `U`.
    type RestIndex;

    /// Embedding an injected `U` gives the `U` injected at `Moved`.
    proof fn lemma_embed_inject(u: U)
        ensures
            <Self as SupersetOf<F, J1>>::spec_embed(<F as Contains<U, K>>::spec_inject(u))
                == <Self as Contains<U, Self::Moved>>::spec_inject(u),
    ;

    /// Embedding a sum widened back into `F` equals embedding it without `U`
    /// and widening back into the list.
    proof fn lemma_embed_widen(y: <<F as Narrow<U, K>>::Remainder as TypeList>::Sum)
        requires
            <F as Narrow<U, K>>::Remainder::wf(y),
        ensures
            <Self as SupersetOf<F, J1>>::spec_embed(<F as Narrow<U, K>>::spec_widen(y))
                == <Self as Narrow<U, Self::Moved>>::spec_widen(
                <<Self as Narrow<U, Self::Moved>>::Remainder as SupersetOf<
                    <F as Narrow<U, K>>::Remainder,
                    Self::RestIndex,
                >>::spec_embed(y),
            ),
    ;
}

/// `U` is the head of `F`.
impl<G, FH, FT, G0, Gt> EmbedWiden<Cons<FH, FT>, Cons<G0, Gt>, FH, End> for G where
    FT: TypeList,
    G: Narrow<FH, G0>,
    <G as Narrow<FH, G0>>::Remainder: SupersetOf<FT, Gt>,
 {
    type Moved = G0;

    type RestIndex = Gt;

    proof fn lemma_embed_inject(u: FH) {
    }

    proof fn lemma_embed_widen(y: FT::Sum) {
    }
}

/// `U` is in the tail of `F`.
impl<G, FH, FT, G0, Gt, U, K> EmbedWiden<Cons<FH, FT>, Cons<G0, Gt>, U, Recurse<K>> for G where
    FT: Narrow<U, K>,
    G: Narrow<FH, G0>,
    <G as Narrow<FH, G0>>::Remainder: SupersetOf<FT, Gt>,
    <G as Narrow<FH, G0>>::Remainder: EmbedWiden<FT, Gt, U, K>,
    <G as Narrow<FH, G0>>::Remainder: Narrow<
        U,
        <<G as Narrow<FH, G0>>::Remainder as EmbedWiden<FT, Gt, U, K>>::Moved,
    >,
    <<G as Narrow<FH, G0>>::Remainder as Narrow<
        U,
        <<G as Narrow<FH, G0>>::Remainder as EmbedWiden<FT, Gt, U, K>>::Moved,
    >>::Remainder: SupersetOf<
        <FT as Narrow<U, K>>::Remainder,
        <<G as Narrow<FH, G0>>::Remainder as EmbedWiden<FT, Gt, U, K>>::RestIndex,
    >,
    G: NarrowBack<
        FH,
        G0,
        U,
        <<G as Narrow<FH, G0>>::Remainder as EmbedWiden<FT, Gt, U, K>>::Moved,
    >,
    G: Narrow<
        U,
        <G as NarrowBack<
            FH,
            G0,
            U,
            <<G as Narrow<FH, G0>>::Remainder as EmbedWiden<FT, Gt, U, K>>::Moved,
        >>::J,
    >,
    G: NarrowSwap<
        FH,
        G0,
        U,
        <G as NarrowBack<
            FH,
            G0,
            U,
            <<G as Narrow<FH, G0>>::Remainder as EmbedWiden<FT, Gt, U, K>>::Moved,
        >>::J,
        <<G as Narrow<FH, G0>>::Remainder as EmbedWiden<FT, Gt, U, K>>::Moved,
    >,
    <G as Narrow<
        U,
        <G as NarrowBack<
            FH,
            G0,
            U,
            <<G as Narrow<FH, G0>>::Remainder as EmbedWiden<FT, Gt, U, K>>::Moved,
        >>::J,
    >>::Remainder: Narrow<
        FH,
        <G as NarrowSwap<
            FH,
            G0,
            U,
            <G as NarrowBack<
                FH,
                G0,
                U,
                <<G as Narrow<FH, G0>>::Remainder as EmbedWiden<FT, Gt, U, K>>::Moved,
            >>::J,
            <<G as Narrow<FH, G0>>::Remainder as EmbedWiden<FT, Gt, U, K>>::Moved,
        >>::I2,
        Remainder = <<G as Narrow<FH, G0>>::Remainder as Narrow<
            U,
            <<G as Narrow<FH, G0>>::Remainder as EmbedWiden<FT, Gt, U, K>>::Moved,
        >>::Remainder,
    >,
 {
    type Moved = <G as NarrowBack<
        FH,
        G0,
        U,
        <<G as Narrow<FH, G0>>::Remainder as EmbedWiden<FT, Gt, U, K>>::Moved,
    >>::J;

    type RestIndex = Cons<
        <G as NarrowSwap<
            FH,
            G0,
            U,
            <G as NarrowBack<
                FH,
                G0,
                U,
                <<G as Narrow<FH, G0>>::Remainder as EmbedWiden<FT, Gt, U, K>>::Moved,
            >>::J,
            <<G as Narrow<FH, G0>>::Remainder as EmbedWiden<FT, Gt, U, K>>::Moved,
        >>::I2,
        <<G as Narrow<FH, G0>>::Remainder as EmbedWiden<FT, Gt, U, K>>::RestIndex,
    >;

    proof fn lemma_embed_inject(u: U) {
        <<G as Narrow<FH, G0>>::Remainder as EmbedWiden<FT, Gt, U, K>>::lemma_embed_inject(u);
        <G as NarrowBack<
            FH,
            G0,
            U,
            <<G as Narrow<FH, G0>>::Remainder as EmbedWiden<FT, Gt, U, K>>::Moved,
        >>::lemma_widen_inject(u);
    }

    proof fn lemma_embed_widen(y: Coprod<FH, <<FT as Narrow<U, K>>::Remainder as TypeList>::Sum>) {
        match y {
            Coprod::Here(fh) => {
                <G as NarrowSwap<
                    FH,
                    G0,
                    U,
                    <G as NarrowBack<
                        FH,
                        G0,
                        U,
                        <<G as Narrow<FH, G0>>::Remainder as EmbedWiden<FT, Gt, U, K>>::Moved,
                    >>::J,
                    <<G as Narrow<FH, G0>>::Remainder as EmbedWiden<FT, Gt, U, K>>::Moved,
                >>::lemma_swap_inject(fh);
            },
            Coprod::There(y2) => {
                <<G as Narrow<FH, G0>>::Remainder as EmbedWiden<FT, Gt, U, K>>::lemma_embed_widen(
                    y2,
                );
                let z = <<<G as Narrow<FH, G0>>::Remainder as Narrow<
                    U,
                    <<G as Narrow<FH, G0>>::Remainder as EmbedWiden<FT, Gt, U, K>>::Moved,
                >>::Remainder as SupersetOf<
                    <FT as Narrow<U, K>>::Remainder,
                    <<G as Narrow<FH, G0>>::Remainder as EmbedWiden<FT, Gt, U, K>>::RestIndex,
                >>::spec_embed(y2);
                <G as NarrowSwap<
                    FH,
                    G0,
                    U,
                    <G as NarrowBack<
                        FH,
                        G0,
                        U,
                        <<G as Narrow<FH, G0>>::Remainder as EmbedWiden<FT, Gt, U, K>>::Moved,
                    >>::J,
                    <<G as Narrow<FH, G0>>::Remainder as EmbedWiden<FT, Gt, U, K>>::Moved,
                >>::lemma_swap(z);
            },
        }
    }
}

/* ------------------------- Compose ----------------------- */

/// Broadening in two steps equals broadening once.
///
/// When `Self ⊇ F` through `J1` and `F ⊇ X` through `J0`, the list is a superset
/// of `X` through `Composed`, and embedding into `F` and then into the list
/// equals embedding into the list at once. Implemented for every pair of
/// superset relations; for sets of distinct types, `Composed` is the only index
/// by which the list is a superset of `X`.
pub trait Compose<F: TypeList, J1, X: TypeList, J0>: SupersetOf<F, J1> where
    F: SupersetOf<X, J0>,
    Self: SupersetOf<X, <Self as Compose<F, J1, X, J0>>::Composed>,
 {
    /// Index by which the list is a superset of `X`.
    type Composed;

    /// Embedding into `F` then into the list equals embedding into the list.
    proof fn lemma_compose(x: X::Sum)
        requires
            X::wf(x),
        ensures
            <Self as SupersetOf<F, J1>>::spec_embed(<F as SupersetOf<X, J0>>::spec_embed(x))
                == <Self as SupersetOf<X, Self::Composed>>::spec_embed(x),
    ;
}

/// Nothing to embed.
impl<G, F, J1> Compose<F, J1, End, End> for G where F: TypeList, G: SupersetOf<F, J1> {
    type Composed = End;

    proof fn lemma_compose(x: E0) {
    }
}

/// The head of `X` goes where `F`'s embedding sends it; the tail is composed
/// in the lists without it.
impl<G, F, J1, XH, XT, H0, T0> Compose<F, J1, Cons<XH, XT>, Cons<H0, T0>> for G where
    XT: TypeList,
    F: Narrow<XH, H0>,
    <F as Narrow<XH, H0>>::Remainder: SupersetOf<XT, T0>,
    G: EmbedWiden<F, J1, XH, H0>,
    G: Narrow<XH, <G as EmbedWiden<F, J1, XH, H0>>::Moved>,
    <G as Narrow<XH, <G as EmbedWiden<F, J1, XH, H0>>::Moved>>::Remainder: SupersetOf<
        <F as Narrow<XH, H0>>::Remainder,
        <G as EmbedWiden<F, J1, XH, H0>>::RestIndex,
    >,
    <G as Narrow<XH, <G as EmbedWiden<F, J1, XH, H0>>::Moved>>::Remainder: Compose<
        <F as Narrow<XH, H0>>::Remainder,
        <G as EmbedWiden<F, J1, XH, H0>>::RestIndex,
        XT,
        T0,
    >,
    <G as Narrow<XH, <G as EmbedWiden<F, J1, XH, H0>>::Moved>>::Remainder: SupersetOf<
        XT,
        <<G as Narrow<XH, <G as EmbedWiden<F, J1, XH, H0>>::Moved>>::Remainder as Compose<
            <F as Narrow<XH, H0>>::Remainder,
            <G as EmbedWiden<F, J1, XH, H0>>::RestIndex,
            XT,
            T0,
        >>::Composed,
    >,
 {
    type Composed = Cons<
        <G as EmbedWiden<F, J1, XH, H0>>::Moved,
        <<G as Narrow<XH, <G as EmbedWiden<F, J1, XH, H0>>::Moved>>::Remainder as Compose<
            <F as Narrow<XH, H0>>::Remainder,
            <G as EmbedWiden<F, J1, XH, H0>>::RestIndex,
            XT,
            T0,
        >>::Composed,
    >;

    proof fn lemma_compose(x: Coprod<XH, XT::Sum>) {
        match x {
            Coprod::Here(xh) => {
                <G as EmbedWiden<F, J1, XH, H0>>::lemma_embed_inject(xh);
            },
            Coprod::There(r) => {
                <<F as Narrow<XH, H0>>::Remainder as SupersetOf<XT, T0>>::lemma_split_embed(r);
                let y = <<F as Narrow<XH, H0>>::Remainder as SupersetOf<XT, T0>>::spec_embed(r);
                <G as EmbedWiden<F, J1, XH, H0>>::lemma_embed_widen(y);
                <<G as Narrow<XH, <G as EmbedWiden<F, J1, XH, H0>>::Moved>>::Remainder as Compose<
                    <F as Narrow<XH, H0>>::Remainder,
                    <G as EmbedWiden<F, J1, XH, H0>>::RestIndex,
                    XT,
                    T0,
                >>::lemma_compose(r);
            },
        }
    }
}

/* ------------------------- DrainList ----------------------- */

/// Converts whichever value a sum over the list holds into `O`.
///
/// Every type of the list must implement `Into<O>`; the conversion made is
/// that of the held value's type.
pub trait DrainList<O>: TypeList {
    /// Every type of the list follows the specification of its `Into<O>`.
    spec fn obeys_drain() -> bool;

    /// The `into_spec` of the value that the sum holds.
    spec fn spec_drain(s: Self::Sum) -> O;

    /// `o` is a result that the `Into<O>::into` of the held value's type can
    /// give for the held value.
    spec fn drained(s: Self::Sum, o: O) -> bool;

    /// Converts the held value into `O`.
    fn drain_sum(s: Self::Sum) -> (o: O)
        requires
            Self::wf(s),
        ensures
            Self::drained(s, o),
            Self::obeys_drain() ==> o == Self::spec_drain(s),
    ;
}

impl<O> DrainList<O> for End {
    open spec fn obeys_drain() -> bool {
        true
    }

    open spec fn spec_drain(s: E0) -> O {
        arbitrary()
    }

    open spec fn drained(s: E0, o: O) -> bool {
        false
    }

    fn drain_sum(s: E0) -> (o: O) {
        unreached()
    }
}

impl<O, Head: Into<O>, Tail: DrainList<O>> DrainList<O> for Cons<Head, Tail> {
    open spec fn obeys_drain() -> bool {
        <Head as IntoSpec<O>>::obeys_into_spec() && Tail::obeys_drain()
    }

    open spec fn spec_drain(s: Self::Sum) -> O {
        match s {
            Coprod::Here(h) => h.into_spec(),
            Coprod::There(r) => Tail::spec_drain(r),
        }
    }

    open spec fn drained(s: Self::Sum, o: O) -> bool {
        match s {
            Coprod::Here(h) => call_ensures(Head::into, (h,), o),
            Coprod::There(r) => Tail::drained(r, o),
        }
    }

    fn drain_sum(s: Self::Sum) -> (o: O) {
        match s {
            Coprod::Here(h) => h.into(),
            Coprod::There(r) => Tail::drain_sum(r),
        }
    }
}

/* ------------------------- CloneFold ----------------------- */

/// Runtime dispatch of [`Clone`] over a `Cons` list: clones whichever value a
/// sum over the list holds, keeping its position.
///
/// Used by the [`Clone`] implementation of [`OneOf`](crate::OneOf).
pub trait CloneFold: TypeList {
    /// `b` holds, at the same position as `a`, a clone of what `a` holds.
    spec fn sum_cloned(a: Self::Sum, b: Self::Sum) -> bool;

    /// Clones the held value.
    fn clone_fold(s: &Self::Sum) -> (c: Self::Sum)
        requires
            Self::wf(*s),
        ensures
            Self::wf(c),
            Self::tag(c) == Self::tag(*s),
            Self::sum_cloned(*s, c),
    ;
}

impl CloneFold for End {
    open spec fn sum_cloned(a: E0, b: E0) -> bool {
        false
    }

    fn clone_fold(s: &E0) -> (c: E0) {
        unreached()
    }
}

impl<Head: Clone, Tail: CloneFold> CloneFold for Cons<Head, Tail> {
    open spec fn sum_cloned(a: Self::Sum, b: Self::Sum) -> bool {
        match (a, b) {
            (Coprod::Here(x), Coprod::Here(y)) => cloned(x, y),
            (Coprod::There(x), Coprod::There(y)) => Tail::sum_cloned(x, y),
            _ => false,
        }
    }

    fn clone_fold(s: &Self::Sum) -> (c: Self::Sum) {
        match s {
            Coprod::Here(h) => Coprod::Here(h.clone()),
            Coprod::There(r) => Coprod::There(Tail::clone_fold(r)),
        }
    }
}

} // verus!
