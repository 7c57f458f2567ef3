//! Similar to anonymous unions / enums in languages that support type narrowing.

use vstd::prelude::*;
use crate::type_set::{
    CloneFold, Contains, Coprod, DrainList, EnumRef, EnumRuntime, Narrow, NarrowOther, SubsetComplement, SupersetOf, TupleForm, TypeList,
    TypeSet,
};
use crate::{Cons, End};

verus! {

/* ------------------------- OneOf ----------------------- */

/// `OneOf` is an open sum type like a union or sum type in other languages.
///
/// It differs from an enum
/// in that you do not need to define any actual new type
/// in order to hold some specific combination of variants,
/// but rather you simply describe the `OneOf` as holding
/// one value out of several specific possibilities,
/// defined by using a tuple of those possible variants
/// as the generic parameter for the `OneOf`.
///
/// For example, a `OneOf<(&'static str, u32)>` contains either
/// a `&'static str` or a `u32`. The value over a simple `Result`
/// or other traditional enum starts to become apparent in larger
/// codebases where error handling needs to occur in
/// different places for different errors. `OneOf` allows
/// you to quickly specify a function's return value as
/// involving a precise subset of errors that the caller
/// can clearly reason about.
///
/// Its view is the sum over `E::Variants` that it holds; that sum always
/// holds a value of one of the types of `E`.
#[derive(Debug)]
pub struct OneOf<E: TypeSet> {
    value: E::Sum,
}

impl<E: TypeSet> View for OneOf<E> {
    type V = <E::Variants as TypeList>::Sum;

    closed spec fn view(&self) -> Self::V {
        self.value
    }
}

impl<E: TypeSet> OneOf<E> {
    /// The held sum holds a value of one of the types of `E`.
    #[verifier::type_invariant]
    closed spec fn holds_a_variant(self) -> bool {
        E::Variants::wf(self.value)
    }

    /// Wraps a sum that holds a value of one of the types of `E`.
    pub(crate) fn from_sum(s: <E::Variants as TypeList>::Sum) -> (o: Self)
        requires
            E::Variants::wf(s),
        ensures
            o@ == s,
    {
        OneOf { value: s }
    }

    /// Unwraps the held sum.
    pub(crate) fn into_sum(self) -> (s: <E::Variants as TypeList>::Sum)
        ensures
            s == self@,
            E::Variants::wf(s),
    {
        proof {
            use_type_invariant(&self);
        }
        self.value
    }

    /// Borrows the held sum.
    pub(crate) fn sum_ref(&self) -> (s: &<E::Variants as TypeList>::Sum)
        ensures
            *s == self@,
            E::Variants::wf(*s),
    {
        proof {
            use_type_invariant(self);
        }
        &self.value
    }

    /// The held sum holds a value of one of the types of `E` (false of every sum
    /// over the empty set), so the laws of [`Narrow`] and
    /// [`SupersetOf`](crate::SupersetOf) over well-formed sums apply to `self@`.
    /// Nothing happens at run time.
    pub fn well_formed(&self)
        ensures
            E::Variants::wf(self@),
    {
        proof {
            use_type_invariant(self);
        }
    }

    /// Create a new `OneOf` holding `t`, at the position of `T` in `E`.
    pub fn new<T, Index>(t: T) -> (res: Self) where
        E: EnumRuntime,
        E::Variants: Contains<T, Index>,

        ensures
            res@ == <E::Variants as Contains<T, Index>>::spec_inject(t),
            E::Variants::wf(res@),
            E::Variants::tag(res@) == <E::Variants as Contains<T, Index>>::position(),
    {
        proof {
            <E::Variants as Contains<T, Index>>::lemma_inject(t);
        }
        OneOf { value: <E::Variants as Contains<T, Index>>::inject(t) }
    }

    /// Attempt to downcast the `OneOf` into a specific type, and
    /// if that fails, return a `OneOf` which does not contain that
    /// type as one of its possible variants.
    pub fn narrow<Target, Index>(self) -> (res: Result<
        Target,
        OneOf<<<E::Variants as Narrow<Target, Index>>::Remainder as TupleForm>::Tuple>,
    >) where
        E: EnumRuntime,
        E::Variants: Narrow<Target, Index>,
        <E::Variants as Narrow<Target, Index>>::Remainder: TupleForm,
        <<E::Variants as Narrow<Target, Index>>::Remainder as TupleForm>::Tuple: EnumRuntime,

        ensures
            match res {
                Ok(t) => <E::Variants as Narrow<Target, Index>>::spec_narrow(self@) == Ok::<
                    Target,
                    <<E::Variants as Narrow<Target, Index>>::Remainder as TypeList>::Sum,
                >(t),
                Err(r) => <E::Variants as Narrow<Target, Index>>::spec_narrow(self@) == Err::<
                    Target,
                    <<E::Variants as Narrow<Target, Index>>::Remainder as TypeList>::Sum,
                >(r@),
            },
    {
        let s = self.into_sum();
        proof {
            <E::Variants as Narrow<Target, Index>>::lemma_narrow_cases(s);
        }
        match <E::Variants as Narrow<Target, Index>>::narrow(s) {
            Ok(t) => Ok(t),
            Err(r) => Err(OneOf::from_sum(r)),
        }
    }

    /// For a `OneOf` with a single variant, return the contained value.
    pub fn take<Target>(self) -> (res: Target) where
        E: TypeSet<Variants = Cons<Target, End>> + EnumRuntime,

        ensures
            self@ == Coprod::<Target, <End as TypeList>::Sum>::Here(res),
    {
        match self.into_sum() {
            Coprod::Here(t) => t,
            Coprod::There(r) => vstd::pervasive::unreached(),
        }
    }

    /// Consumes the [`Self`] and converts whichever variant it holds into `O`,
    /// requiring every possible variant to implement `Into<O>`.
    ///
    /// This is an inherent method rather than an `Into<O>` implementation,
    /// which would conflict with `core`'s blanket `Into` implementation.
    pub fn into<O>(self) -> (res: O) where E: DrainInto<O>
        ensures
            E::drained_into(self@, res),
            E::obeys_drain_into() ==> res == E::spec_drain_into(self@),
    {
        <E as DrainInto<O>>::drain(self)
    }

    /// Convert the `OneOf` to an owned enum for
    /// use in pattern matching etc...
    pub fn to_enum(self) -> (res: E::Enum)
        ensures
            res == E::spec_to_enum(self@),
            E::enum_tag(res) == E::Variants::tag(self@),
    {
        E::to_enum(self.into_sum())
    }

    /// Borrow the enum as an enum for use in
    /// pattern matching etc...
    pub fn as_enum<'a>(&'a self) -> (res: <E as EnumRef<'a>>::EnumRef) where E: EnumRef<'a>
        ensures
            res == <E as EnumRef<'a>>::spec_as_enum(&self@),
    {
        proof {
            use_type_invariant(self);
        }
        <E as EnumRef<'a>>::as_enum(&self.value)
    }
}

/* ------------------------- Laws ----------------------- */

/// A failed narrow loses nothing: narrowing `OneOf::<E>::new(u)` to another type
/// `Target` of `E` gives `Err` of the remainder holding `u`, and narrowing that
/// remainder to `U` gives `u` back.
///
/// (`OneOf::new(t).narrow::<T, _>() == Ok(t)` is [`Narrow::lemma_narrow_inject`].)
pub proof fn lemma_failed_narrow_keeps_value<E, Target, I, U, J, K>(u: U) where
    E: TypeSet,
    E::Variants: NarrowOther<Target, I, U, J, K>,
    <E::Variants as Narrow<Target, I>>::Remainder: Narrow<U, K>,

    ensures
        <E::Variants as Narrow<Target, I>>::spec_narrow(
            <E::Variants as Contains<U, J>>::spec_inject(u),
        ) == Err::<Target, <<E::Variants as Narrow<Target, I>>::Remainder as TypeList>::Sum>(
            <<E::Variants as Narrow<Target, I>>::Remainder as Contains<U, K>>::spec_inject(u),
        ),
        <<E::Variants as Narrow<Target, I>>::Remainder as Narrow<U, K>>::spec_narrow(
            <<E::Variants as Narrow<Target, I>>::Remainder as Contains<U, K>>::spec_inject(u),
        ) == Ok::<U, <<<E::Variants as Narrow<Target, I>>::Remainder as Narrow<U, K>>::Remainder as TypeList>::Sum>(u),
{
    <E::Variants as NarrowOther<Target, I, U, J, K>>::lemma_narrow_other(u);
    <<E::Variants as Narrow<Target, I>>::Remainder as Narrow<U, K>>::lemma_narrow_inject(u);
}

/// Broadening back what [`subset`](OneOf::subset) gives, on either arm, gives
/// the sum the split started from: a value in `O` is broadened back through the
/// same index, and a remainder through the complement index.
pub proof fn lemma_broaden_undoes_subset<E, O, Index>(s: <E::Variants as TypeList>::Sum) where
    E: TypeSet,
    O: TypeSet,
    E::Variants: SubsetComplement<O::Variants, Index>,
    E::Variants: SupersetOf<
        <E::Variants as SupersetOf<O::Variants, Index>>::Remainder,
        <E::Variants as SubsetComplement<O::Variants, Index>>::Complement,
    >,

    requires
        E::Variants::wf(s),
    ensures
        match <E::Variants as SupersetOf<O::Variants, Index>>::spec_split(s) {
            Ok(x) => <E::Variants as SupersetOf<O::Variants, Index>>::spec_embed(x) == s,
            Err(r) => <E::Variants as SupersetOf<
                <E::Variants as SupersetOf<O::Variants, Index>>::Remainder,
                <E::Variants as SubsetComplement<O::Variants, Index>>::Complement,
            >>::spec_embed(r) == s,
        },
{
    <E::Variants as SupersetOf<O::Variants, Index>>::lemma_split_cases(s);
    match <E::Variants as SupersetOf<O::Variants, Index>>::spec_split(s) {
        Ok(x) => {},
        Err(r) => {
            <E::Variants as SubsetComplement<O::Variants, Index>>::lemma_rest_is_embed(r);
        },
    }
}

/* ------------------------- DrainInto ----------------------- */

/// Exhaustively converts a [`OneOf`] into a single output type `O` by consuming it.
///
/// Every variant in the set must implement `Into<O>`; the conversion used is
/// that of the type of the value held.
pub trait DrainInto<O>: TypeSet + Sized {
    /// Every type of the set follows the specification of its `Into<O>`.
    spec fn obeys_drain_into() -> bool;

    /// The `into_spec` of the value that the sum holds.
    spec fn spec_drain_into(s: <Self::Variants as TypeList>::Sum) -> O;

    /// `o` is a result that the `Into<O>::into` of the held value's type can
    /// give for the held value.
    spec fn drained_into(s: <Self::Variants as TypeList>::Sum, o: O) -> bool;

    /// Consumes `e` and converts whichever variant it holds into `O`.
    fn drain(e: OneOf<Self>) -> (o: O)
        ensures
            Self::drained_into(e@, o),
            Self::obeys_drain_into() ==> o == Self::spec_drain_into(e@),
    ;
}

impl<E: TypeSet, O> DrainInto<O> for E where E::Variants: DrainList<O> {
    open spec fn obeys_drain_into() -> bool {
        <E::Variants as DrainList<O>>::obeys_drain()
    }

    open spec fn spec_drain_into(s: <E::Variants as TypeList>::Sum) -> O {
        <E::Variants as DrainList<O>>::spec_drain(s)
    }

    open spec fn drained_into(s: <E::Variants as TypeList>::Sum, o: O) -> bool {
        <E::Variants as DrainList<O>>::drained(s, o)
    }

    fn drain(e: OneOf<E>) -> (o: O) {
        <E::Variants as DrainList<O>>::drain_sum(e.into_sum())
    }
}

/* ------------------------- std traits ----------------------- */

impl<E: TypeSet> Clone for OneOf<E> where E::Variants: CloneFold {
    /// Clones the held value, keeping its position.
    fn clone(&self) -> (c: Self)
        ensures
            <E::Variants as CloneFold>::sum_cloned(self@, c@),
            E::Variants::tag(c@) == E::Variants::tag(self@),
    {
        proof {
            use_type_invariant(self);
        }
        OneOf { value: <E::Variants as CloneFold>::clone_fold(&self.value) }
    }
}

impl<T1> vstd::std_specs::convert::FromSpecImpl<T1> for OneOf<(T1,)> {
    open spec fn obeys_from_spec() -> bool {
        true
    }

    closed spec fn from_spec(t: T1) -> Self {
        OneOf { value: Coprod::Here(t) }
    }
}

impl<T1> From<T1> for OneOf<(T1,)> {
    /// Wraps `t` as the only possible variant.
    fn from(t: T1) -> (res: Self)
        ensures
            res@ == Coprod::<T1, <End as TypeList>::Sum>::Here(t),
    {
        OneOf { value: Coprod::Here(t) }
    }
}

impl<T1> core::ops::Deref for OneOf<(T1,)> {
    type Target = T1;

    /// Borrows the only possible variant.
    fn deref(&self) -> (r: &T1)
        ensures
            self@ == Coprod::<T1, <End as TypeList>::Sum>::Here(*r),
    {
        match self.sum_ref() {
            Coprod::Here(t) => t,
            Coprod::There(r) => vstd::pervasive::unreached(),
        }
    }
}

} // verus!
