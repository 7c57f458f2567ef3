//! Broadening a `OneOf` (or a container that holds one) into a superset of variants.

use vstd::prelude::*;
use crate::type_set::{EnumRuntime, SupersetOf, TypeList, TypeSet};
use crate::OneOf;

verus! {

/// Broadens a [`OneOf`] (or containers that hold it) into a superset of variants.
///
/// This is mainly ergonomic sugar so you can write `.map_err(OneOf::broaden)` and
/// similar method chains while preserving compile-time subset/superset checks.
/// `Other` is the broader set and `Index` the compile-time evidence that
/// `Other ⊇ E`; both are inferred from the expected output.
pub trait Broaden<E: TypeSet, Other, Index> {
    /// Resulting container type after broadening to `Other`.
    type Output;

    /// `out` is what broadening `self` gives.
    spec fn broadens_to(self, out: Self::Output) -> bool;

    /// Turns the `OneOf` into a `OneOf` with a set of variants
    /// which is a superset of the current one. This may also be
    /// the same set of variants, but in a different order.
    fn broaden(self) -> (out: Self::Output)
        ensures
            self.broadens_to(out),
    ;
}

impl<E: TypeSet + EnumRuntime> OneOf<E> {
    /// Turns the `OneOf` into a `OneOf` with a set of variants
    /// which is a superset of the current one. This may also be
    /// the same set of variants, but in a different order.
    ///
    /// The result holds the held value, moved to its position in `Other`.
    pub fn broaden<Other, Index>(self) -> (res: OneOf<Other>) where
        Other: TypeSet + EnumRuntime,
        Other::Variants: SupersetOf<E::Variants, Index>,

        ensures
            res@ == <Other::Variants as SupersetOf<E::Variants, Index>>::spec_embed(self@),
    {
        let s = self.into_sum();
        proof {
            <Other::Variants as SupersetOf<E::Variants, Index>>::lemma_split_embed(s);
        }
        OneOf::from_sum(<Other::Variants as SupersetOf<E::Variants, Index>>::embed(s))
    }
}

impl<E, Other, Index> Broaden<E, Other, Index> for OneOf<E> where
    E: TypeSet + EnumRuntime,
    Other: TypeSet + EnumRuntime,
    Other::Variants: SupersetOf<E::Variants, Index>,
 {
    type Output = OneOf<Other>;

    /// The result holds the held value, moved to its position in `Other`.
    open spec fn broadens_to(self, out: OneOf<Other>) -> bool {
        out@ == <Other::Variants as SupersetOf<E::Variants, Index>>::spec_embed(self@)
    }

    fn broaden(self) -> (out: OneOf<Other>) {
        OneOf::<E>::broaden::<Other, Index>(self)
    }
}

impl<E, Other, Index> Broaden<E, Other, Index> for Option<OneOf<E>> where
    E: TypeSet + EnumRuntime,
    Other: TypeSet + EnumRuntime,
    Other::Variants: SupersetOf<E::Variants, Index>,
 {
    type Output = Option<OneOf<Other>>;

    /// `None` stays `None`; a held `OneOf` is broadened.
    open spec fn broadens_to(self, out: Option<OneOf<Other>>) -> bool {
        match self {
            Some(o) => out matches Some(b) && b@ == <Other::Variants as SupersetOf<
                E::Variants,
                Index,
            >>::spec_embed(o@),
            None => out is None,
        }
    }

    fn broaden(self) -> (out: Option<OneOf<Other>>) {
        match self {
            Some(o) => Some(OneOf::<E>::broaden::<Other, Index>(o)),
            None => None,
        }
    }
}

impl<T, E, Other, Index> Broaden<E, Other, Index> for Result<T, OneOf<E>> where
    E: TypeSet + EnumRuntime,
    Other: TypeSet + EnumRuntime,
    Other::Variants: SupersetOf<E::Variants, Index>,
 {
    type Output = Result<T, OneOf<Other>>;

    /// `Ok` passes through; an error `OneOf` is broadened.
    open spec fn broadens_to(self, out: Result<T, OneOf<Other>>) -> bool {
        match self {
            Ok(v) => out matches Ok(w) && w == v,
            Err(o) => out matches Err(b) && b@ == <Other::Variants as SupersetOf<
                E::Variants,
                Index,
            >>::spec_embed(o@),
        }
    }

    fn broaden(self) -> (out: Result<T, OneOf<Other>>) {
        match self {
            Ok(v) => Ok(v),
            Err(o) => Err(OneOf::<E>::broaden::<Other, Index>(o)),
        }
    }
}

/* ------------------------- Laws ----------------------- */

/// Broadening a `OneOf` keeps its value: the result is the value moved into
/// `Other`, and splitting `Other` back by `E` gives the value again.
pub proof fn lemma_broaden_keeps_value<E, Other, Index>(x: OneOf<E>, out: OneOf<Other>) where
    E: TypeSet + EnumRuntime,
    Other: TypeSet + EnumRuntime,
    Other::Variants: SupersetOf<E::Variants, Index>,

    requires
        <OneOf<E> as Broaden<E, Other, Index>>::broadens_to(x, out),
        E::Variants::wf(x@),
    ensures
        out@ == <Other::Variants as SupersetOf<E::Variants, Index>>::spec_embed(x@),
        Other::Variants::wf(out@),
        <Other::Variants as SupersetOf<E::Variants, Index>>::spec_split(out@) == Ok::<
            <E::Variants as TypeList>::Sum,
            <<Other::Variants as SupersetOf<E::Variants, Index>>::Remainder as TypeList>::Sum,
        >(x@),
{
    <Other::Variants as SupersetOf<E::Variants, Index>>::lemma_split_embed(x@);
}

/// Broadening an `Option` never drops nor invents a value: `Some(o)` gives
/// `Some` of `o` broadened (which splits back to `o`), and `None` gives `None`.
pub proof fn lemma_broaden_option<E, Other, Index>(x: Option<OneOf<E>>, out: Option<OneOf<Other>>) where
    E: TypeSet + EnumRuntime,
    Other: TypeSet + EnumRuntime,
    Other::Variants: SupersetOf<E::Variants, Index>,

    requires
        <Option<OneOf<E>> as Broaden<E, Other, Index>>::broadens_to(x, out),
        x matches Some(o) ==> E::Variants::wf(o@),
    ensures
        x is Some <==> out is Some,
        x matches Some(o) ==> out matches Some(b) && b@ == <Other::Variants as SupersetOf<
            E::Variants,
            Index,
        >>::spec_embed(o@) && Other::Variants::wf(b@) && <Other::Variants as SupersetOf<
            E::Variants,
            Index,
        >>::spec_split(b@) == Ok::<
            <E::Variants as TypeList>::Sum,
            <<Other::Variants as SupersetOf<E::Variants, Index>>::Remainder as TypeList>::Sum,
        >(o@),
{
    if let Some(o) = x {
        <Other::Variants as SupersetOf<E::Variants, Index>>::lemma_split_embed(o@);
    }
}

/// Broadening a `Result` passes `Ok` through unchanged and keeps the error:
/// `Err(o)` gives `Err` of `o` broadened (which splits back to `o`).
pub proof fn lemma_broaden_result<T, E, Other, Index>(
    x: Result<T, OneOf<E>>,
    out: Result<T, OneOf<Other>>,
) where
    E: TypeSet + EnumRuntime,
    Other: TypeSet + EnumRuntime,
    Other::Variants: SupersetOf<E::Variants, Index>,

    requires
        <Result<T, OneOf<E>> as Broaden<E, Other, Index>>::broadens_to(x, out),
        x matches Err(o) ==> E::Variants::wf(o@),
    ensures
        x is Ok <==> out is Ok,
        x matches Ok(v) ==> out == Ok::<T, OneOf<Other>>(v),
        x matches Err(o) ==> out matches Err(b) && b@ == <Other::Variants as SupersetOf<
            E::Variants,
            Index,
        >>::spec_embed(o@) && Other::Variants::wf(b@) && <Other::Variants as SupersetOf<
            E::Variants,
            Index,
        >>::spec_split(b@) == Ok::<
            <E::Variants as TypeList>::Sum,
            <<Other::Variants as SupersetOf<E::Variants, Index>>::Remainder as TypeList>::Sum,
        >(o@),
{
    if let Err(o) = x {
        <Other::Variants as SupersetOf<E::Variants, Index>>::lemma_split_embed(o@);
    }
}

} // verus!
