//! Splitting the held error of a `OneOf` off into a requested subset.

use vstd::prelude::*;
use crate::type_set::{EnumRuntime, SupersetOf, TupleForm, TypeList, TypeSet};
use crate::OneOf;

verus! {

/// Splits [Self] by checking whether the held error belongs to a requested subset `O`.
///
/// `Index` is the compile-time evidence that `O ⊆ E`; it is inferred.
pub trait SubsetErr<E: TypeSet, O, Index> {
    /// Output type after subsetting to `O`.
    type Output;

    /// `out` is what splitting `self` by `O` gives.
    spec fn subsets_to(self, out: Self::Output) -> bool;

    /// Designed to be used in a method chain before ? to narrow down
    /// the error type to a subset of variants that the caller can handle.
    fn subset(self) -> (out: Self::Output)
        ensures
            self.subsets_to(out),
    ;
}

impl<E: TypeSet + EnumRuntime> OneOf<E> {
    /// Attempt to split a subset of variants out of the `OneOf`,
    /// returning the remainder of possible variants if the value
    /// does not have one of the types of `O`.
    pub fn subset<O, Index>(self) -> (res: Result<
        OneOf<O>,
        OneOf<<<E::Variants as SupersetOf<O::Variants, Index>>::Remainder as TupleForm>::Tuple>,
    >) where
        O: TypeSet + EnumRuntime,
        E::Variants: SupersetOf<O::Variants, Index>,
        <E::Variants as SupersetOf<O::Variants, Index>>::Remainder: TupleForm,
        <<E::Variants as SupersetOf<O::Variants, Index>>::Remainder as TupleForm>::Tuple: EnumRuntime,

        ensures
            match res {
                Ok(o) => <E::Variants as SupersetOf<O::Variants, Index>>::spec_split(self@) == Ok::<
                    <O::Variants as TypeList>::Sum,
                    <<E::Variants as SupersetOf<O::Variants, Index>>::Remainder as TypeList>::Sum,
                >(o@),
                Err(r) => <E::Variants as SupersetOf<O::Variants, Index>>::spec_split(self@)
                    == Err::<
                    <O::Variants as TypeList>::Sum,
                    <<E::Variants as SupersetOf<O::Variants, Index>>::Remainder as TypeList>::Sum,
                >(r@),
            },
    {
        let s = self.into_sum();
        proof {
            <E::Variants as SupersetOf<O::Variants, Index>>::lemma_split_cases(s);
        }
        match <E::Variants as SupersetOf<O::Variants, Index>>::split(s) {
            Ok(x) => Ok(OneOf::from_sum(x)),
            Err(r) => Err(OneOf::from_sum(r)),
        }
    }
}

impl<E, O, Index> SubsetErr<E, O, Index> for OneOf<E> where
    E: TypeSet + EnumRuntime,
    O: TypeSet + EnumRuntime,
    E::Variants: SupersetOf<O::Variants, Index>,
    <E::Variants as SupersetOf<O::Variants, Index>>::Remainder: TupleForm,
    <<E::Variants as SupersetOf<O::Variants, Index>>::Remainder as TupleForm>::Tuple: EnumRuntime,
 {
    type Output = Result<
        OneOf<O>,
        OneOf<<<E::Variants as SupersetOf<O::Variants, Index>>::Remainder as TupleForm>::Tuple>,
    >;

    /// Attempt to split a subset of variants out of the `OneOf`,
    /// returning the remainder of possible variants if the value
    /// does not have one of the Target List types.
    open spec fn subsets_to(
        self,
        out: Result<
            OneOf<O>,
            OneOf<<<E::Variants as SupersetOf<O::Variants, Index>>::Remainder as TupleForm>::Tuple>,
        >,
    ) -> bool {
            match out {
                Ok(o) => <E::Variants as SupersetOf<O::Variants, Index>>::spec_split(self@) == Ok::<
                    <O::Variants as TypeList>::Sum,
                    <<E::Variants as SupersetOf<O::Variants, Index>>::Remainder as TypeList>::Sum,
                >(o@),
                Err(r) => <E::Variants as SupersetOf<O::Variants, Index>>::spec_split(self@)
                    == Err::<
                    <O::Variants as TypeList>::Sum,
                    <<E::Variants as SupersetOf<O::Variants, Index>>::Remainder as TypeList>::Sum,
                >(r@),
            }
    }

    fn subset(self) -> (out: Result<
        OneOf<O>,
        OneOf<<<E::Variants as SupersetOf<O::Variants, Index>>::Remainder as TupleForm>::Tuple>,
    >) {
        OneOf::<E>::subset::<O, Index>(self)
    }
}

impl<T, E, O, Index> SubsetErr<E, O, Index> for Result<T, OneOf<E>> where
    E: TypeSet + EnumRuntime,
    O: TypeSet + EnumRuntime,
    E::Variants: SupersetOf<O::Variants, Index>,
    <E::Variants as SupersetOf<O::Variants, Index>>::Remainder: TupleForm,
    <<E::Variants as SupersetOf<O::Variants, Index>>::Remainder as TupleForm>::Tuple: EnumRuntime,
 {
    type Output = Result<
        Result<
            T,
            OneOf<<<E::Variants as SupersetOf<O::Variants, Index>>::Remainder as TupleForm>::Tuple>,
        >,
        OneOf<O>,
    >;

    /// This method splits a `Result<T, OneOf<E>>` into three outcomes:
    ///
    /// - `Ok(Ok(T))` when the original result was successful.
    /// - `Err(OneOf<O>)` when the error belongs to subset `O`, so it can be propagated with `?`.
    /// - `Ok(Err(OneOf<Rest>))` when the error is not `O`, preserving the remainder.
    open spec fn subsets_to(
        self,
        out: Result<
            Result<
                T,
                OneOf<<<E::Variants as SupersetOf<O::Variants, Index>>::Remainder as TupleForm>::Tuple>,
            >,
            OneOf<O>,
        >,
    ) -> bool {
            match self {
                Ok(v) => out matches Ok(Ok(w)) && w == v,
                Err(e) => match out {
                    Ok(Ok(_)) => false,
                    Ok(Err(r)) => <E::Variants as SupersetOf<O::Variants, Index>>::spec_split(e@)
                        == Err::<
                        <O::Variants as TypeList>::Sum,
                        <<E::Variants as SupersetOf<O::Variants, Index>>::Remainder as TypeList>::Sum,
                    >(r@),
                    Err(o) => <E::Variants as SupersetOf<O::Variants, Index>>::spec_split(e@)
                        == Ok::<
                        <O::Variants as TypeList>::Sum,
                        <<E::Variants as SupersetOf<O::Variants, Index>>::Remainder as TypeList>::Sum,
                    >(o@),
                },
            }
    }

    fn subset(self) -> (out: Result<
        Result<
            T,
            OneOf<<<E::Variants as SupersetOf<O::Variants, Index>>::Remainder as TupleForm>::Tuple>,
        >,
        OneOf<O>,
    >) {
        match self {
            Ok(value) => Ok(Ok(value)),
            Err(errs) => match OneOf::<E>::subset::<O, Index>(errs) {
                Ok(o) => Err(o),
                Err(rest) => Ok(Err(rest)),
            },
        }
    }
}

/* ------------------------- Laws ----------------------- */

/// Splitting a `OneOf` by `O` loses nothing and sorts rightly: the arm is `Ok`
/// exactly when the held value's type is in `O`, broadening the `Ok` value back
/// gives the original, and putting the `Err` remainder back gives the original.
pub proof fn lemma_subset_partitions<E, O, Index>(
    x: OneOf<E>,
    out: Result<
        OneOf<O>,
        OneOf<<<E::Variants as SupersetOf<O::Variants, Index>>::Remainder as TupleForm>::Tuple>,
    >,
) where
    E: TypeSet + EnumRuntime,
    O: TypeSet + EnumRuntime,
    E::Variants: SupersetOf<O::Variants, Index>,
    <E::Variants as SupersetOf<O::Variants, Index>>::Remainder: TupleForm,
    <<E::Variants as SupersetOf<O::Variants, Index>>::Remainder as TupleForm>::Tuple: EnumRuntime,

    requires
        <OneOf<E> as SubsetErr<E, O, Index>>::subsets_to(x, out),
        E::Variants::wf(x@),
    ensures
        out is Ok <==> <E::Variants as SupersetOf<O::Variants, Index>>::spec_split(x@) is Ok,
        out matches Ok(p) ==> O::Variants::wf(p@) && <E::Variants as SupersetOf<
            O::Variants,
            Index,
        >>::spec_embed(p@) == x@,
        out matches Err(r) ==> <E::Variants as SupersetOf<O::Variants, Index>>::Remainder::wf(r@)
            && <E::Variants as SupersetOf<O::Variants, Index>>::spec_rest(r@) == x@,
{
    <E::Variants as SupersetOf<O::Variants, Index>>::lemma_split_cases(x@);
}

/// Splitting a `Result` passes `Ok` through unchanged, never turns an error
/// into `Ok(Ok(..))`, and sorts the error like splitting the `OneOf` does: an
/// error of `O` goes to the outer `Err` and broadens back to the original, any
/// other goes to `Ok(Err(..))` and puts back to the original.
pub proof fn lemma_subset_result<T, E, O, Index>(
    x: Result<T, OneOf<E>>,
    out: Result<
        Result<
            T,
            OneOf<<<E::Variants as SupersetOf<O::Variants, Index>>::Remainder as TupleForm>::Tuple>,
        >,
        OneOf<O>,
    >,
) where
    E: TypeSet + EnumRuntime,
    O: TypeSet + EnumRuntime,
    E::Variants: SupersetOf<O::Variants, Index>,
    <E::Variants as SupersetOf<O::Variants, Index>>::Remainder: TupleForm,
    <<E::Variants as SupersetOf<O::Variants, Index>>::Remainder as TupleForm>::Tuple: EnumRuntime,

    requires
        <Result<T, OneOf<E>> as SubsetErr<E, O, Index>>::subsets_to(x, out),
        x matches Err(e) ==> E::Variants::wf(e@),
    ensures
        x matches Ok(v) ==> out matches Ok(Ok(w)) && w == v,
        x is Err ==> !(out matches Ok(Ok(_))),
        x matches Err(e) ==> (out is Err <==> <E::Variants as SupersetOf<
            O::Variants,
            Index,
        >>::spec_split(e@) is Ok),
        x matches Err(e) ==> (out matches Err(p) ==> <E::Variants as SupersetOf<
            O::Variants,
            Index,
        >>::spec_embed(p@) == e@),
        x matches Err(e) ==> (out matches Ok(Err(r)) ==> <E::Variants as SupersetOf<
            O::Variants,
            Index,
        >>::spec_rest(r@) == e@),
{
    if let Err(e) = x {
        <E::Variants as SupersetOf<O::Variants, Index>>::lemma_split_cases(e@);
    }
}

} // verus!
