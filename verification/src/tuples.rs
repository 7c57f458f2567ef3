//! `TypeSet`, `EnumRuntime` and `TupleForm` for the tuples of 0 to 16 types.

use vstd::prelude::*;
use vstd::pervasive::{arbitrary, unreached};
use crate::enums::{E0, E1, E2, E3, E4, E5, E6, E7, E8, E9, E10, E11, E12, E13, E14, E15, E16};
use crate::type_set::{Coprod, EnumRef, EnumRuntime, TupleForm, TypeList, TypeSet};
use crate::{Cons, End};

verus! {

impl TypeSet for () {
    type Sum = E0;
    type Variants = End;
    type Enum = E0;

    open spec fn spec_to_enum(s: E0) -> E0 {
        s
    }

    open spec fn enum_tag(e: E0) -> nat {
        0
    }

    fn to_enum(s: E0) -> (e: E0) {
        s
    }

}

impl<'a> EnumRef<'a> for () {
    type EnumRef = E0;

    open spec fn spec_as_enum(s: &'a E0) -> E0 {
        *s
    }

    fn as_enum(s: &'a E0) -> (e: E0) {
        unreached()
    }
}

impl EnumRuntime for () {
    open spec fn spec_from_enum(e: E0) -> E0 {
        e
    }

    fn from_enum(e: E0) -> (s: E0) {
        e
    }

    proof fn lemma_from_to_enum(s: E0) {
    }

    proof fn lemma_to_from_enum(e: E0) {
    }
}

impl TupleForm for End {
    type Tuple = ();
}


impl<T1> TypeSet for (T1,) {
    type Sum = Coprod<T1, E0>;
    type Variants = Cons<T1, End>;
    type Enum = E1<T1>;

    open spec fn spec_to_enum(s: <Self::Variants as TypeList>::Sum) -> E1<T1> {
        match s {
            Coprod::Here(v) => E1::T1(v),
            Coprod::There(_) => arbitrary(),
        }
    }

    open spec fn enum_tag(e: E1<T1>) -> nat {
        match e {
            E1::T1(_) => 0,
        }
    }

    fn to_enum(s: <Self::Variants as TypeList>::Sum) -> (e: E1<T1>) {
        match s {
            Coprod::Here(v) => E1::T1(v),
            Coprod::There(_) => unreached(),
        }
    }

}

impl<'a, T1: 'a> EnumRef<'a> for (T1,) {
    type EnumRef = E1<&'a T1>;

    open spec fn spec_as_enum(s: &'a <Self::Variants as TypeList>::Sum) -> E1<&'a T1> {
        match s {
            Coprod::Here(v) => E1::T1(v),
            Coprod::There(_) => arbitrary(),
        }
    }

    fn as_enum(s: &'a <Self::Variants as TypeList>::Sum) -> (e: E1<&'a T1>) {
        match s {
            Coprod::Here(v) => E1::T1(v),
            Coprod::There(_) => unreached(),
        }
    }
}

impl<T1> EnumRuntime for (T1,) {
    open spec fn spec_from_enum(e: E1<T1>) -> <Self::Variants as TypeList>::Sum {
        match e {
            E1::T1(v) => Coprod::Here(v),
        }
    }

    fn from_enum(e: E1<T1>) -> (s: <Self::Variants as TypeList>::Sum) {
        match e {
            E1::T1(v) => Coprod::Here(v),
        }
    }

    proof fn lemma_from_to_enum(s: <Self::Variants as TypeList>::Sum) {
    }

    proof fn lemma_to_from_enum(e: E1<T1>) {
    }
}

impl<T1> TupleForm for Cons<T1, End> {
    type Tuple = (T1,);
}


impl<T1, T2> TypeSet for (T1, T2) {
    type Sum = Coprod<T1, Coprod<T2, E0>>;
    type Variants = Cons<T1, Cons<T2, End>>;
    type Enum = E2<T1, T2>;

    open spec fn spec_to_enum(s: <Self::Variants as TypeList>::Sum) -> E2<T1, T2> {
        match s {
            Coprod::Here(v) => E2::T1(v),
            Coprod::There(Coprod::Here(v)) => E2::T2(v),
            Coprod::There(Coprod::There(_)) => arbitrary(),
        }
    }

    open spec fn enum_tag(e: E2<T1, T2>) -> nat {
        match e {
            E2::T1(_) => 0,
            E2::T2(_) => 1,
        }
    }

    fn to_enum(s: <Self::Variants as TypeList>::Sum) -> (e: E2<T1, T2>) {
        match s {
            Coprod::Here(v) => E2::T1(v),
            Coprod::There(Coprod::Here(v)) => E2::T2(v),
            Coprod::There(Coprod::There(_)) => unreached(),
        }
    }

}

impl<'a, T1: 'a, T2: 'a> EnumRef<'a> for (T1, T2) {
    type EnumRef = E2<&'a T1, &'a T2>;

    open spec fn spec_as_enum(s: &'a <Self::Variants as TypeList>::Sum) -> E2<&'a T1, &'a T2> {
        match s {
            Coprod::Here(v) => E2::T1(v),
            Coprod::There(Coprod::Here(v)) => E2::T2(v),
            Coprod::There(Coprod::There(_)) => arbitrary(),
        }
    }

    fn as_enum(s: &'a <Self::Variants as TypeList>::Sum) -> (e: E2<&'a T1, &'a T2>) {
        match s {
            Coprod::Here(v) => E2::T1(v),
            Coprod::There(Coprod::Here(v)) => E2::T2(v),
            Coprod::There(Coprod::There(_)) => unreached(),
        }
    }
}

impl<T1, T2> EnumRuntime for (T1, T2) {
    open spec fn spec_from_enum(e: E2<T1, T2>) -> <Self::Variants as TypeList>::Sum {
        match e {
            E2::T1(v) => Coprod::Here(v),
            E2::T2(v) => Coprod::There(Coprod::Here(v)),
        }
    }

    fn from_enum(e: E2<T1, T2>) -> (s: <Self::Variants as TypeList>::Sum) {
        match e {
            E2::T1(v) => Coprod::Here(v),
            E2::T2(v) => Coprod::There(Coprod::Here(v)),
        }
    }

    proof fn lemma_from_to_enum(s: <Self::Variants as TypeList>::Sum) {
    }

    proof fn lemma_to_from_enum(e: E2<T1, T2>) {
    }
}

impl<T1, T2> TupleForm for Cons<T1, Cons<T2, End>> {
    type Tuple = (T1, T2);
}


impl<T1, T2, T3> TypeSet for (T1, T2, T3) {
    type Sum = Coprod<T1, Coprod<T2, Coprod<T3, E0>>>;
    type Variants = Cons<T1, Cons<T2, Cons<T3, End>>>;
    type Enum = E3<T1, T2, T3>;

    open spec fn spec_to_enum(s: <Self::Variants as TypeList>::Sum) -> E3<T1, T2, T3> {
        match s {
            Coprod::Here(v) => E3::T1(v),
            Coprod::There(Coprod::Here(v)) => E3::T2(v),
            Coprod::There(Coprod::There(Coprod::Here(v))) => E3::T3(v),
            Coprod::There(Coprod::There(Coprod::There(_))) => arbitrary(),
        }
    }

    open spec fn enum_tag(e: E3<T1, T2, T3>) -> nat {
        match e {
            E3::T1(_) => 0,
            E3::T2(_) => 1,
            E3::T3(_) => 2,
        }
    }

    fn to_enum(s: <Self::Variants as TypeList>::Sum) -> (e: E3<T1, T2, T3>) {
        match s {
            Coprod::Here(v) => E3::T1(v),
            Coprod::There(Coprod::Here(v)) => E3::T2(v),
            Coprod::There(Coprod::There(Coprod::Here(v))) => E3::T3(v),
            Coprod::There(Coprod::There(Coprod::There(_))) => unreached(),
        }
    }

}

impl<'a, T1: 'a, T2: 'a, T3: 'a> EnumRef<'a> for (T1, T2, T3) {
    type EnumRef = E3<&'a T1, &'a T2, &'a T3>;

    open spec fn spec_as_enum(s: &'a <Self::Variants as TypeList>::Sum) -> E3<&'a T1, &'a T2, &'a T3> {
        match s {
            Coprod::Here(v) => E3::T1(v),
            Coprod::There(Coprod::Here(v)) => E3::T2(v),
            Coprod::There(Coprod::There(Coprod::Here(v))) => E3::T3(v),
            Coprod::There(Coprod::There(Coprod::There(_))) => arbitrary(),
        }
    }

    fn as_enum(s: &'a <Self::Variants as TypeList>::Sum) -> (e: E3<&'a T1, &'a T2, &'a T3>) {
        match s {
            Coprod::Here(v) => E3::T1(v),
            Coprod::There(Coprod::Here(v)) => E3::T2(v),
            Coprod::There(Coprod::There(Coprod::Here(v))) => E3::T3(v),
            Coprod::There(Coprod::There(Coprod::There(_))) => unreached(),
        }
    }
}

impl<T1, T2, T3> EnumRuntime for (T1, T2, T3) {
    open spec fn spec_from_enum(e: E3<T1, T2, T3>) -> <Self::Variants as TypeList>::Sum {
        match e {
            E3::T1(v) => Coprod::Here(v),
            E3::T2(v) => Coprod::There(Coprod::Here(v)),
            E3::T3(v) => Coprod::There(Coprod::There(Coprod::Here(v))),
        }
    }

    fn from_enum(e: E3<T1, T2, T3>) -> (s: <Self::Variants as TypeList>::Sum) {
        match e {
            E3::T1(v) => Coprod::Here(v),
            E3::T2(v) => Coprod::There(Coprod::Here(v)),
            E3::T3(v) => Coprod::There(Coprod::There(Coprod::Here(v))),
        }
    }

    proof fn lemma_from_to_enum(s: <Self::Variants as TypeList>::Sum) {
    }

    proof fn lemma_to_from_enum(e: E3<T1, T2, T3>) {
    }
}

impl<T1, T2, T3> TupleForm for Cons<T1, Cons<T2, Cons<T3, End>>> {
    type Tuple = (T1, T2, T3);
}


impl<T1, T2, T3, T4> TypeSet for (T1, T2, T3, T4) {
    type Sum = Coprod<T1, Coprod<T2, Coprod<T3, Coprod<T4, E0>>>>;
    type Variants = Cons<T1, Cons<T2, Cons<T3, Cons<T4, End>>>>;
    type Enum = E4<T1, T2, T3, T4>;

    open spec fn spec_to_enum(s: <Self::Variants as TypeList>::Sum) -> E4<T1, T2, T3, T4> {
        match s {
            Coprod::Here(v) => E4::T1(v),
            Coprod::There(Coprod::Here(v)) => E4::T2(v),
            Coprod::There(Coprod::There(Coprod::Here(v))) => E4::T3(v),
            Coprod::There(Coprod::There(Coprod::There(Coprod::Here(v)))) => E4::T4(v),
            Coprod::There(Coprod::There(Coprod::There(Coprod::There(_)))) => arbitrary(),
        }
    }

    open spec fn enum_tag(e: E4<T1, T2, T3, T4>) -> nat {
        match e {
            E4::T1(_) => 0,
            E4::T2(_) => 1,
            E4::T3(_) => 2,
            E4::T4(_) => 3,
        }
    }

    fn to_enum(s: <Self::Variants as TypeList>::Sum) -> (e: E4<T1, T2, T3, T4>) {
        match s {
            Coprod::Here(v) => E4::T1(v),
            Coprod::There(Coprod::Here(v)) => E4::T2(v),
            Coprod::There(Coprod::There(Coprod::Here(v))) => E4::T3(v),
            Coprod::There(Coprod::There(Coprod::There(Coprod::Here(v)))) => E4::T4(v),
            Coprod::There(Coprod::There(Coprod::There(Coprod::There(_)))) => unreached(),
        }
    }

}

impl<'a, T1: 'a, T2: 'a, T3: 'a, T4: 'a> EnumRef<'a> for (T1, T2, T3, T4) {
    type EnumRef = E4<&'a T1, &'a T2, &'a T3, &'a T4>;

    open spec fn spec_as_enum(s: &'a <Self::Variants as TypeList>::Sum) -> E4<&'a T1, &'a T2, &'a T3, &'a T4> {
        match s {
            Coprod::Here(v) => E4::T1(v),
            Coprod::There(Coprod::Here(v)) => E4::T2(v),
            Coprod::There(Coprod::There(Coprod::Here(v))) => E4::T3(v),
            Coprod::There(Coprod::There(Coprod::There(Coprod::Here(v)))) => E4::T4(v),
            Coprod::There(Coprod::There(Coprod::There(Coprod::There(_)))) => arbitrary(),
        }
    }

    fn as_enum(s: &'a <Self::Variants as TypeList>::Sum) -> (e: E4<&'a T1, &'a T2, &'a T3, &'a T4>) {
        match s {
            Coprod::Here(v) => E4::T1(v),
            Coprod::There(Coprod::Here(v)) => E4::T2(v),
            Coprod::There(Coprod::There(Coprod::Here(v))) => E4::T3(v),
            Coprod::There(Coprod::There(Coprod::There(Coprod::Here(v)))) => E4::T4(v),
            Coprod::There(Coprod::There(Coprod::There(Coprod::There(_)))) => unreached(),
        }
    }
}

impl<T1, T2, T3, T4> EnumRuntime for (T1, T2, T3, T4) {
    open spec fn spec_from_enum(e: E4<T1, T2, T3, T4>) -> <Self::Variants as TypeList>::Sum {
        match e {
            E4::T1(v) => Coprod::Here(v),
            E4::T2(v) => Coprod::There(Coprod::Here(v)),
            E4::T3(v) => Coprod::There(Coprod::There(Coprod::Here(v))),
            E4::T4(v) => Coprod::There(Coprod::There(Coprod::There(Coprod::Here(v)))),
        }
    }

    fn from_enum(e: E4<T1, T2, T3, T4>) -> (s: <Self::Variants as TypeList>::Sum) {
        match e {
            E4::T1(v) => Coprod::Here(v),
            E4::T2(v) => Coprod::There(Coprod::Here(v)),
            E4::T3(v) => Coprod::There(Coprod::There(Coprod::Here(v))),
            E4::T4(v) => Coprod::There(Coprod::There(Coprod::There(Coprod::Here(v)))),
        }
    }

    proof fn lemma_from_to_enum(s: <Self::Variants as TypeList>::Sum) {
    }

    proof fn lemma_to_from_enum(e: E4<T1, T2, T3, T4>) {
    }
}

impl<T1, T2, T3, T4> TupleForm for Cons<T1, Cons<T2, Cons<T3, Cons<T4, End>>>> {
    type Tuple = (T1, T2, T3, T4);
}


impl<T1, T2, T3, T4, T5> TypeSet for (T1, T2, T3, T4, T5) {
    type Sum = Coprod<T1, Coprod<T2, Coprod<T3, Coprod<T4, Coprod<T5, E0>>>>>;
    type Variants = Cons<T1, Cons<T2, Cons<T3, Cons<T4, Cons<T5, End>>>>>;
    type Enum = E5<T1, T2, T3, T4, T5>;

    open spec fn spec_to_enum(s: <Self::Variants as TypeList>::Sum) -> E5<T1, T2, T3, T4, T5> {
        match s {
            Coprod::Here(v) => E5::T1(v),
            Coprod::There(Coprod::Here(v)) => E5::T2(v),
            Coprod::There(Coprod::There(Coprod::Here(v))) => E5::T3(v),
            Coprod::There(Coprod::There(Coprod::There(Coprod::Here(v)))) => E5::T4(v),
            Coprod::There(Coprod::There(Coprod::There(Coprod::There(Coprod::Here(v))))) => E5::T5(v),
            Coprod::There(Coprod::There(Coprod::There(Coprod::There(Coprod::There(_))))) => arbitrary(),
        }
    }

    open spec fn enum_tag(e: E5<T1, T2, T3, T4, T5>) -> nat {
        match e {
            E5::T1(_) => 0,
            E5::T2(_) => 1,
            E5::T3(_) => 2,
            E5::T4(_) => 3,
            E5::T5(_) => 4,
        }
    }

    fn to_enum(s: <Self::Variants as TypeList>::Sum) -> (e: E5<T1, T2, T3, T4, T5>) {
        match s {
            Coprod::Here(v) => E5::T1(v),
            Coprod::There(Coprod::Here(v)) => E5::T2(v),
            Coprod::There(Coprod::There(Coprod::Here(v))) => E5::T3(v),
            Coprod::There(Coprod::There(Coprod::There(Coprod::Here(v)))) => E5::T4(v),
            Coprod::There(Coprod::There(Coprod::There(Coprod::There(Coprod::Here(v))))) => E5::T5(v),
            Coprod::There(Coprod::There(Coprod::There(Coprod::There(Coprod::There(_))))) => unreached(),
        }
    }

}

impl<'a, T1: 'a, T2: 'a, T3: 'a, T4: 'a, T5: 'a> EnumRef<'a> for (T1, T2, T3, T4, T5) {
    type EnumRef = E5<&'a T1, &'a T2, &'a T3, &'a T4, &'a T5>;

    open spec fn spec_as_enum(s: &'a <Self::Variants as TypeList>::Sum) -> E5<&'a T1, &'a T2, &'a T3, &'a T4, &'a T5> {
        match s {
            Coprod::Here(v) => E5::T1(v),
            Coprod::There(Coprod::Here(v)) => E5::T2(v),
            Coprod::There(Coprod::There(Coprod::Here(v))) => E5::T3(v),
            Coprod::There(Coprod::There(Coprod::There(Coprod::Here(v)))) => E5::T4(v),
            Coprod::There(Coprod::There(Coprod::There(Coprod::There(Coprod::Here(v))))) => E5::T5(v),
            Coprod::There(Coprod::There(Coprod::There(Coprod::There(Coprod::There(_))))) => arbitrary(),
        }
    }

    fn as_enum(s: &'a <Self::Variants as TypeList>::Sum) -> (e: E5<&'a T1, &'a T2, &'a T3, &'a T4, &'a T5>) {
        match s {
            Coprod::Here(v) => E5::T1(v),
            Coprod::There(Coprod::Here(v)) => E5::T2(v),
            Coprod::There(Coprod::There(Coprod::Here(v))) => E5::T3(v),
            Coprod::There(Coprod::There(Coprod::There(Coprod::Here(v)))) => E5::T4(v),
            Coprod::There(Coprod::There(Coprod::There(Coprod::There(Coprod::Here(v))))) => E5::T5(v),
            Coprod::There(Coprod::There(Coprod::There(Coprod::There(Coprod::There(_))))) => unreached(),
        }
    }
}

impl<T1, T2, T3, T4, T5> EnumRuntime for (T1, T2, T3, T4, T5) {
    open spec fn spec_from_enum(e: E5<T1, T2, T3, T4, T5>) -> <Self::Variants as TypeList>::Sum {
        match e {
            E5::T1(v) => Coprod::Here(v),
            E5::T2(v) => Coprod::There(Coprod::Here(v)),
            E5::T3(v) => Coprod::There(Coprod::There(Coprod::Here(v))),
            E5::T4(v) => Coprod::There(Coprod::There(Coprod::There(Coprod::Here(v)))),
            E5::T5(v) => Coprod::There(Coprod::There(Coprod::There(Coprod::There(Coprod::Here(v))))),
        }
    }

    fn from_enum(e: E5<T1, T2, T3, T4, T5>) -> (s: <Self::Variants as TypeList>::Sum) {
        match e {
            E5::T1(v) => Coprod::Here(v),
            E5::T2(v) => Coprod::There(Coprod::Here(v)),
            E5::T3(v) => Coprod::There(Coprod::There(Coprod::Here(v))),
            E5::T4(v) => Coprod::There(Coprod::There(Coprod::There(Coprod::Here(v)))),
            E5::T5(v) => Coprod::There(Coprod::There(Coprod::There(Coprod::There(Coprod::Here(v))))),
        }
    }

    proof fn lemma_from_to_enum(s: <Self::Variants as TypeList>::Sum) {
    }

    proof fn lemma_to_from_enum(e: E5<T1, T2, T3, T4, T5>) {
    }
}

impl<T1, T2, T3, T4, T5> TupleForm for Cons<T1, Cons<T2, Cons<T3, Cons<T4, Cons<T5, End>>>>> {
    type Tuple = (T1, T2, T3, T4, T5);
}


impl<T1, T2, T3, T4, T5, T6> TypeSet for (T1, T2, T3, T4, T5, T6) {
    type Sum = Coprod<T1, Coprod<T2, Coprod<T3, Coprod<T4, Coprod<T5, Coprod<T6, E0>>>>>>;
    type Variants = Cons<T1, Cons<T2, Cons<T3, Cons<T4, Cons<T5, Cons<T6, End>>>>>>;
    type Enum = E6<T1, T2, T3, T4, T5, T6>;

    open spec fn spec_to_enum(s: <Self::Variants as TypeList>::Sum) -> E6<T1, T2, T3, T4, T5, T6> {
        match s {
            Coprod::Here(v) => E6::T1(v),
            Coprod::There(Coprod::Here(v)) => E6::T2(v),
            Coprod::There(Coprod::There(Coprod::Here(v))) => E6::T3(v),
            Coprod::There(Coprod::There(Coprod::There(Coprod::Here(v)))) => E6::T4(v),
            Coprod::There(Coprod::There(Coprod::There(Coprod::There(Coprod::Here(v))))) => E6::T5(v),
            Coprod::There(Coprod::There(Coprod::There(Coprod::There(Coprod::There(Coprod::Here(v)))))) => E6::T6(v),
            Coprod::There(Coprod::There(Coprod::There(Coprod::There(Coprod::There(Coprod::There(_)))))) => arbitrary(),
        }
    }

    open spec fn enum_tag(e: E6<T1, T2, T3, T4, T5, T6>) -> nat {
        match e {
            E6::T1(_) => 0,
            E6::T2(_) => 1,
            E6::T3(_) => 2,
            E6::T4(_) => 3,
            E6::T5(_) => 4,
            E6::T6(_) => 5,
        }
    }

    fn to_enum(s: <Self::Variants as TypeList>::Sum) -> (e: E6<T1, T2, T3, T4, T5, T6>) {
        match s {
            Coprod::Here(v) => E6::T1(v),
            Coprod::There(Coprod::Here(v)) => E6::T2(v),
            Coprod::There(Coprod::There(Coprod::Here(v))) => E6::T3(v),
            Coprod::There(Coprod::There(Coprod::There(Coprod::Here(v)))) => E6::T4(v),
            Coprod::There(Coprod::There(Coprod::There(Coprod::There(Coprod::Here(v))))) => E6::T5(v),
            Coprod::There(Coprod::There(Coprod::There(Coprod::There(Coprod::There(Coprod::Here(v)))))) => E6::T6(v),
            Coprod::There(Coprod::There(Coprod::There(Coprod::There(Coprod::There(Coprod::There(_)))))) => unreached(),
        }
    }

}

impl<'a, T1: 'a, T2: 'a, T3: 'a, T4: 'a, T5: 'a, T6: 'a> EnumRef<'a> for (T1, T2, T3, T4, T5, T6) {
    type EnumRef = E6<&'a T1, &'a T2, &'a T3, &'a T4, &'a T5, &'a T6>;

    open spec fn spec_as_enum(s: &'a <Self::Variants as TypeList>::Sum) -> E6<&'a T1, &'a T2, &'a T3, &'a T4, &'a T5, &'a T6> {
        match s {
            Coprod::Here(v) => E6::T1(v),
            Coprod::There(Coprod::Here(v)) => E6::T2(v),
            Coprod::There(Coprod::There(Coprod::Here(v))) => E6::T3(v),
            Coprod::There(Coprod::There(Coprod::There(Coprod::Here(v)))) => E6::T4(v),
            Coprod::There(Coprod::There(Coprod::There(Coprod::There(Coprod::Here(v))))) => E6::T5(v),
            Coprod::There(Coprod::There(Coprod::There(Coprod::There(Coprod::There(Coprod::Here(v)))))) => E6::T6(v),
            Coprod::There(Coprod::There(Coprod::There(Coprod::There(Coprod::There(Coprod::There(_)))))) => arbitrary(),
        }
    }

    fn as_enum(s: &'a <Self::Variants as TypeList>::Sum) -> (e: E6<&'a T1, &'a T2, &'a T3, &'a T4, &'a T5, &'a T6>) {
        match s {
            Coprod::Here(v) => E6::T1(v),
            Coprod::There(Coprod::Here(v)) => E6::T2(v),
            Coprod::There(Coprod::There(Coprod::Here(v))) => E6::T3(v),
            Coprod::There(Coprod::There(Coprod::There(Coprod::Here(v)))) => E6::T4(v),
            Coprod::There(Coprod::There(Coprod::There(Coprod::There(Coprod::Here(v))))) => E6::T5(v),
            Coprod::There(Coprod::There(Coprod::There(Coprod::There(Coprod::There(Coprod::Here(v)))))) => E6::T6(v),
            Coprod::There(Coprod::There(Coprod::There(Coprod::There(Coprod::There(Coprod::There(_)))))) => unreached(),
        }
    }
}

impl<T1, T2, T3, T4, T5, T6> EnumRuntime for (T1, T2, T3, T4, T5, T6) {
    open spec fn spec_from_enum(e: E6<T1, T2, T3, T4, T5, T6>) -> <Self::Variants as TypeList>::Sum {
        match e {
            E6::T1(v) => Coprod::Here(v),
            E6::T2(v) => Coprod::There(Coprod::Here(v)),
            E6::T3(v) => Coprod::There(Coprod::There(Coprod::Here(v))),
            E6::T4(v) => Coprod::There(Coprod::There(Coprod::There(Coprod::Here(v)))),
            E6::T5(v) => Coprod::There(Coprod::There(Coprod::There(Coprod::There(Coprod::Here(v))))),
            E6::T6(v) => Coprod::There(Coprod::There(Coprod::There(Coprod::There(Coprod::There(Coprod::Here(v)))))),
        }
    }

    fn from_enum(e: E6<T1, T2, T3, T4, T5, T6>) -> (s: <Self::Variants as TypeList>::Sum) {
        match e {
            E6::T1(v) => Coprod::Here(v),
            E6::T2(v) => Coprod::There(Coprod::Here(v)),
            E6::T3(v) => Coprod::There(Coprod::There(Coprod::Here(v))),
            E6::T4(v) => Coprod::There(Coprod::There(Coprod::There(Coprod::Here(v)))),
            E6::T5(v) => Coprod::There(Coprod::There(Coprod::There(Coprod::There(Coprod::Here(v))))),
            E6::T6(v) => Coprod::There(Coprod::There(Coprod::There(Coprod::There(Coprod::There(Coprod::Here(v)))))),
        }
    }

    proof fn lemma_from_to_enum(s: <Self::Variants as TypeList>::Sum) {
    }

    proof fn lemma_to_from_enum(e: E6<T1, T2, T3, T4, T5, T6>) {
    }
}

impl<T1, T2, T3, T4, T5, T6> TupleForm for Cons<T1, Cons<T2, Cons<T3, Cons<T4, Cons<T5, Cons<T6, End>>>>>> {
    type Tuple = (T1, T2, T3, T4, T5, T6);
}


impl<T1, T2, T3, T4, T5, T6, T7> TypeSet for (T1, T2, T3, T4, T5, T6, T7) {
    type Sum = Coprod<T1, Coprod<T2, Coprod<T3, Coprod<T4, Coprod<T5, Coprod<T6, Coprod<T7, E0>>>>>>>;
    type Variants = Cons<T1, Cons<T2, Cons<T3, Cons<T4, Cons<T5, Cons<T6, Cons<T7, End>>>>>>>;
    type Enum = E7<T1, T2, T3, T4, T5, T6, T7>;

    open spec fn spec_to_enum(s: <Self::Variants as TypeList>::Sum) -> E7<T1, T2, T3, T4, T5, T6, T7> {
        match s {
            Coprod::Here(v) => E7::T1(v),
            Coprod::There(Coprod::Here(v)) => E7::T2(v),
            Coprod::There(Coprod::There(Coprod::Here(v))) => E7::T3(v),
            Coprod::There(Coprod::There(Coprod::There(Coprod::Here(v)))) => E7::T4(v),
            Coprod::There(Coprod::There(Coprod::There(Coprod::There(Coprod::Here(v))))) => E7::T5(v),
            Coprod::There(Coprod::There(Coprod::There(Coprod::There(Coprod::There(Coprod::Here(v)))))) => E7::T6(v),
            Coprod::There(Coprod::There(Coprod::There(Coprod::There(Coprod::There(Coprod::There(Coprod::Here(v))))))) => E7::T7(v),
            Coprod::There(Coprod::There(Coprod::There(Coprod::There(Coprod::There(Coprod::There(Coprod::There(_))))))) => arbitrary(),
        }
    }

    open spec fn enum_tag(e: E7<T1, T2, T3, T4, T5, T6, T7>) -> nat {
        match e {
            E7::T1(_) => 0,
            E7::T2(_) => 1,
            E7::T3(_) => 2,
            E7::T4(_) => 3,
            E7::T5(_) => 4,
            E7::T6(_) => 5,
            E7::T7(_) => 6,
        }
    }

    fn to_enum(s: <Self::Variants as TypeList>::Sum) -> (e: E7<T1, T2, T3, T4, T5, T6, T7>) {
        match s {
            Coprod::Here(v) => E7::T1(v),
            Coprod::There(Coprod::Here(v)) => E7::T2(v),
            Coprod::There(Coprod::There(Coprod::Here(v))) => E7::T3(v),
            Coprod::There(Coprod::There(Coprod::There(Coprod::Here(v)))) => E7::T4(v),
            Coprod::There(Coprod::There(Coprod::There(Coprod::There(Coprod::Here(v))))) => E7::T5(v),
            Coprod::There(Coprod::There(Coprod::There(Coprod::There(Coprod::There(Coprod::Here(v)))))) => E7::T6(v),
            Coprod::There(Coprod::There(Coprod::There(Coprod::There(Coprod::There(Coprod::There(Coprod::Here(v))))))) => E7::T7(v),
            Coprod::There(Coprod::There(Coprod::There(Coprod::There(Coprod::There(Coprod::There(Coprod::There(_))))))) => unreached(),
        }
    }

}

impl<'a, T1: 'a, T2: 'a, T3: 'a, T4: 'a, T5: 'a, T6: 'a, T7: 'a> EnumRef<'a> for (T1, T2, T3, T4, T5, T6, T7) {
    type EnumRef = E7<&'a T1, &'a T2, &'a T3, &'a T4, &'a T5, &'a T6, &'a T7>;

    open spec fn spec_as_enum(s: &'a <Self::Variants as TypeList>::Sum) -> E7<&'a T1, &'a T2, &'a T3, &'a T4, &'a T5, &'a T6, &'a T7> {
        match s {
            Coprod::Here(v) => E7::T1(v),
            Coprod::There(Coprod::Here(v)) => E7::T2(v),
            Coprod::There(Coprod::There(Coprod::Here(v))) => E7::T3(v),
            Coprod::There(Coprod::There(Coprod::There(Coprod::Here(v)))) => E7::T4(v),
            Coprod::There(Coprod::There(Coprod::There(Coprod::There(Coprod::Here(v))))) => E7::T5(v),
            Coprod::There(Coprod::There(Coprod::There(Coprod::There(Coprod::There(Coprod::Here(v)))))) => E7::T6(v),
            Coprod::There(Coprod::There(Coprod::There(Coprod::There(Coprod::There(Coprod::There(Coprod::Here(v))))))) => E7::T7(v),
            Coprod::There(Coprod::There(Coprod::There(Coprod::There(Coprod::There(Coprod::There(Coprod::There(_))))))) => arbitrary(),
        }
    }

    fn as_enum(s: &'a <Self::Variants as TypeList>::Sum) -> (e: E7<&'a T1, &'a T2, &'a T3, &'a T4, &'a T5, &'a T6, &'a T7>) {
        match s {
            Coprod::Here(v) => E7::T1(v),
            Coprod::There(Coprod::Here(v)) => E7::T2(v),
            Coprod::There(Coprod::There(Coprod::Here(v))) => E7::T3(v),
            Coprod::There(Coprod::There(Coprod::There(Coprod::Here(v)))) => E7::T4(v),
            Coprod::There(Coprod::There(Coprod::There(Coprod::There(Coprod::Here(v))))) => E7::T5(v),
            Coprod::There(Coprod::There(Coprod::There(Coprod::There(Coprod::There(Coprod::Here(v)))))) => E7::T6(v),
            Coprod::There(Coprod::There(Coprod::There(Coprod::There(Coprod::There(Coprod::There(Coprod::Here(v))))))) => E7::T7(v),
            Coprod::There(Coprod::There(Coprod::There(Coprod::There(Coprod::There(Coprod::There(Coprod::There(_))))))) => unreached(),
        }
    }
}

impl<T1, T2, T3, T4, T5, T6, T7> EnumRuntime for (T1, T2, T3, T4, T5, T6, T7) {
    open spec fn spec_from_enum(e: E7<T1, T2, T3, T4, T5, T6, T7>) -> <Self::Variants as TypeList>::Sum {
        match e {
            E7::T1(v) => Coprod::Here(v),
            E7::T2(v) => Coprod::There(Coprod::Here(v)),
            E7::T3(v) => Coprod::There(Coprod::There(Coprod::Here(v))),
            E7::T4(v) => Coprod::There(Coprod::There(Coprod::There(Coprod::Here(v)))),
            E7::T5(v) => Coprod::There(Coprod::There(Coprod::There(Coprod::There(Coprod::Here(v))))),
            E7::T6(v) => Coprod::There(Coprod::There(Coprod::There(Coprod::There(Coprod::There(Coprod::Here(v)))))),
            E7::T7(v) => Coprod::There(Coprod::There(Coprod::There(Coprod::There(Coprod::There(Coprod::There(Coprod::Here(v))))))),
        }
    }

    fn from_enum(e: E7<T1, T2, T3, T4, T5, T6, T7>) -> (s: <Self::Variants as TypeList>::Sum) {
        match e {
            E7::T1(v) => Coprod::Here(v),
            E7::T2(v) => Coprod::There(Coprod::Here(v)),
            E7::T3(v) => Coprod::There(Coprod::There(Coprod::Here(v))),
            E7::T4(v) => Coprod::There(Coprod::There(Coprod::There(Coprod::Here(v)))),
            E7::T5(v) => Coprod::There(Coprod::There(Coprod::There(Coprod::There(Coprod::Here(v))))),
            E7::T6(v) => Coprod::There(Coprod::There(Coprod::There(Coprod::There(Coprod::There(Coprod::Here(v)))))),
            E7::T7(v) => Coprod::There(Coprod::There(Coprod::There(Coprod::There(Coprod::There(Coprod::There(Coprod::Here(v))))))),
        }
    }

    proof fn lemma_from_to_enum(s: <Self::Variants as TypeList>::Sum) {
    }

    proof fn lemma_to_from_enum(e: E7<T1, T2, T3, T4, T5, T6, T7>) {
    }
}

impl<T1, T2, T3, T4, T5, T6, T7> TupleForm for Cons<T1, Cons<T2, Cons<T3, Cons<T4, Cons<T5, Cons<T6, Cons<T7, End>>>>>>> {
    type Tuple = (T1, T2, T3, T4, T5, T6, T7);
}


impl<T1, T2, T3, T4, T5, T6, T7, T8> TypeSet for (T1, T2, T3, T4, T5, T6, T7, T8) {
    type Sum = Coprod<T1, Coprod<T2, Coprod<T3, Coprod<T4, Coprod<T5, Coprod<T6, Coprod<T7, Coprod<T8, E0>>>>>>>>;
    type Variants = Cons<T1, Cons<T2, Cons<T3, Cons<T4, Cons<T5, Cons<T6, Cons<T7, Cons<T8, End>>>>>>>>;
    type Enum = E8<T1, T2, T3, T4, T5, T6, T7, T8>;

    open spec fn spec_to_enum(s: <Self::Variants as TypeList>::Sum) -> E8<T1, T2, T3, T4, T5, T6, T7, T8> {
        match s {
            Coprod::Here(v) => E8::T1(v),
            Coprod::There(Coprod::Here(v)) => E8::T2(v),
            Coprod::There(Coprod::There(Coprod::Here(v))) => E8::T3(v),
            Coprod::There(Coprod::There(Coprod::There(Coprod::Here(v)))) => E8::T4(v),
            Coprod::There(Coprod::There(Coprod::There(Coprod::There(Coprod::Here(v))))) => E8::T5(v),
            Coprod::There(Coprod::There(Coprod::There(Coprod::There(Coprod::There(Coprod::Here(v)))))) => E8::T6(v),
            Coprod::There(Coprod::There(Coprod::There(Coprod::There(Coprod::There(Coprod::There(Coprod::Here(v))))))) => E8::T7(v),
            Coprod::There(Coprod::There(Coprod::There(Coprod::There(Coprod::There(Coprod::There(Coprod::There(Coprod::Here(v)))))))) => E8::T8(v),
            Coprod::There(Coprod::There(Coprod::There(Coprod::There(Coprod::There(Coprod::There(Coprod::There(Coprod::There(_)))))))) => arbitrary(),
        }
    }

    open spec fn enum_tag(e: E8<T1, T2, T3, T4, T5, T6, T7, T8>) -> nat {
        match e {
            E8::T1(_) => 0,
            E8::T2(_) => 1,
            E8::T3(_) => 2,
            E8::T4(_) => 3,
            E8::T5(_) => 4,
            E8::T6(_) => 5,
            E8::T7(_) => 6,
            E8::T8(_) => 7,
        }
    }

    fn to_enum(s: <Self::Variants as TypeList>::Sum) -> (e: E8<T1, T2, T3, T4, T5, T6, T7, T8>) {
        match s {
            Coprod::Here(v) => E8::T1(v),
            Coprod::There(Coprod::Here(v)) => E8::T2(v),
            Coprod::There(Coprod::There(Coprod::Here(v))) => E8::T3(v),
            Coprod::There(Coprod::There(Coprod::There(Coprod::Here(v)))) => E8::T4(v),
            Coprod::There(Coprod::There(Coprod::There(Coprod::There(Coprod::Here(v))))) => E8::T5(v),
            Coprod::There(Coprod::There(Coprod::There(Coprod::There(Coprod::There(Coprod::Here(v)))))) => E8::T6(v),
            Coprod::There(Coprod::There(Coprod::There(Coprod::There(Coprod::There(Coprod::There(Coprod::Here(v))))))) => E8::T7(v),
            Coprod::There(Coprod::There(Coprod::There(Coprod::There(Coprod::There(Coprod::There(Coprod::There(Coprod::Here(v)))))))) => E8::T8(v),
            Coprod::There(Coprod::There(Coprod::There(Coprod::There(Coprod::There(Coprod::There(Coprod::There(Coprod::There(_)))))))) => unreached(),
        }
    }

}

impl<'a, T1: 'a, T2: 'a, T3: 'a, T4: 'a, T5: 'a, T6: 'a, T7: 'a, T8: 'a> EnumRef<'a> for (T1, T2, T3, T4, T5, T6, T7, T8) {
    type EnumRef = E8<&'a T1, &'a T2, &'a T3, &'a T4, &'a T5, &'a T6, &'a T7, &'a T8>;

    open spec fn spec_as_enum(s: &'a <Self::Variants as TypeList>::Sum) -> E8<&'a T1, &'a T2, &'a T3, &'a T4, &'a T5, &'a T6, &'a T7, &'a T8> {
        match s {
            Coprod::Here(v) => E8::T1(v),
            Coprod::There(Coprod::Here(v)) => E8::T2(v),
            Coprod::There(Coprod::There(Coprod::Here(v))) => E8::T3(v),
            Coprod::There(Coprod::There(Coprod::There(Coprod::Here(v)))) => E8::T4(v),
            Coprod::There(Coprod::There(Coprod::There(Coprod::There(Coprod::Here(v))))) => E8::T5(v),
            Coprod::There(Coprod::There(Coprod::There(Coprod::There(Coprod::There(Coprod::Here(v)))))) => E8::T6(v),
            Coprod::There(Coprod::There(Coprod::There(Coprod::There(Coprod::There(Coprod::There(Coprod::Here(v))))))) => E8::T7(v),
            Coprod::There(Coprod::There(Coprod::There(Coprod::There(Coprod::There(Coprod::There(Coprod::There(Coprod::Here(v)))))))) => E8::T8(v),
            Coprod::There(Coprod::There(Coprod::There(Coprod::There(Coprod::There(Coprod::There(Coprod::There(Coprod::There(_)))))))) => arbitrary(),
        }
    }

    fn as_enum(s: &'a <Self::Variants as TypeList>::Sum) -> (e: E8<&'a T1, &'a T2, &'a T3, &'a T4, &'a T5, &'a T6, &'a T7, &'a T8>) {
        match s {
            Coprod::Here(v) => E8::T1(v),
            Coprod::There(Coprod::Here(v)) => E8::T2(v),
            Coprod::There(Coprod::There(Coprod::Here(v))) => E8::T3(v),
            Coprod::There(Coprod::There(Coprod::There(Coprod::Here(v)))) => E8::T4(v),
            Coprod::There(Coprod::There(Coprod::There(Coprod::There(Coprod::Here(v))))) => E8::T5(v),
            Coprod::There(Coprod::There(Coprod::There(Coprod::There(Coprod::There(Coprod::Here(v)))))) => E8::T6(v),
            Coprod::There(Coprod::There(Coprod::There(Coprod::There(Coprod::There(Coprod::There(Coprod::Here(v))))))) => E8::T7(v),
            Coprod::There(Coprod::There(Coprod::There(Coprod::There(Coprod::There(Coprod::There(Coprod::There(Coprod::Here(v)))))))) => E8::T8(v),
            Coprod::There(Coprod::There(Coprod::There(Coprod::There(Coprod::There(Coprod::There(Coprod::There(Coprod::There(_)))))))) => unreached(),
        }
    }
}

impl<T1, T2, T3, T4, T5, T6, T7, T8> EnumRuntime for (T1, T2, T3, T4, T5, T6, T7, T8) {
    open spec fn spec_from_enum(e: E8<T1, T2, T3, T4, T5, T6, T7, T8>) -> <Self::Variants as TypeList>::Sum {
        match e {
            E8::T1(v) => Coprod::Here(v),
            E8::T2(v) => Coprod::There(Coprod::Here(v)),
            E8::T3(v) => Coprod::There(Coprod::There(Coprod::Here(v))),
            E8::T4(v) => Coprod::There(Coprod::There(Coprod::There(Coprod::Here(v)))),
            E8::T5(v) => Coprod::There(Coprod::There(Coprod::There(Coprod::There(Coprod::Here(v))))),
            E8::T6(v) => Coprod::There(Coprod::There(Coprod::There(Coprod::There(Coprod::There(Coprod::Here(v)))))),
            E8::T7(v) => Coprod::There(Coprod::There(Coprod::There(Coprod::There(Coprod::There(Coprod::There(Coprod::Here(v))))))),
            E8::T8(v) => Coprod::There(Coprod::There(Coprod::There(Coprod::There(Coprod::There(Coprod::There(Coprod::There(Coprod::Here(v)))))))),
        }
    }

    fn from_enum(e: E8<T1, T2, T3, T4, T5, T6, T7, T8>) -> (s: <Self::Variants as TypeList>::Sum) {
        match e {
            E8::T1(v) => Coprod::Here(v),
            E8::T2(v) => Coprod::There(Coprod::Here(v)),
            E8::T3(v) => Coprod::There(Coprod::There(Coprod::Here(v))),
            E8::T4(v) => Coprod::There(Coprod::There(Coprod::There(Coprod::Here(v)))),
            E8::T5(v) => Coprod::There(Coprod::There(Coprod::There(Coprod::There(Coprod::Here(v))))),
            E8::T6(v) => Coprod::There(Coprod::There(Coprod::There(Coprod::There(Coprod::There(Coprod::Here(v)))))),
            E8::T7(v) => Coprod::There(Coprod::There(Coprod::There(Coprod::There(Coprod::There(Coprod::There(Coprod::Here(v))))))),
            E8::T8(v) => Coprod::There(Coprod::There(Coprod::There(Coprod::There(Coprod::There(Coprod::There(Coprod::There(Coprod::Here(v)))))))),
        }
    }

    proof fn lemma_from_to_enum(s: <Self::Variants as TypeList>::Sum) {
    }

    proof fn lemma_to_from_enum(e: E8<T1, T2, T3, T4, T5, T6, T7, T8>) {
    }
}

impl<T1, T2, T3, T4, T5, T6, T7, T8> TupleForm for Cons<T1, Cons<T2, Cons<T3, Cons<T4, Cons<T5, Cons<T6, Cons<T7, Cons<T8, End>>>>>>>> {
    type Tuple = (T1, T2, T3, T4, T5, T6, T7, T8);
}


impl<T1, T2, T3, T4, T5, T6, T7, T8, T9> TypeSet for (T1, T2, T3, T4, T5, T6, T7, T8, T9) {
    type Sum = Coprod<T1, Coprod<T2, Coprod<T3, Coprod<T4, Coprod<T5, Coprod<T6, Coprod<T7, Coprod<T8, Coprod<T9, E0>>>>>>>>>;
    type Variants = Cons<T1, Cons<T2, Cons<T3, Cons<T4, Cons<T5, Cons<T6, Cons<T7, Cons<T8, Cons<T9, End>>>>>>>>>;
    type Enum = E9<T1, T2, T3, T4, T5, T6, T7, T8, T9>;

    open spec fn spec_to_enum(s: <Self::Variants as TypeList>::Sum) -> E9<T1, T2, T3, T4, T5, T6, T7, T8, T9> {
        match s {
            Coprod::Here(v) => E9::T1(v),
            Coprod::There(Coprod::Here(v)) => E9::T2(v),
            Coprod::There(Coprod::There(Coprod::Here(v))) => E9::T3(v),
            Coprod::There(Coprod::There(Coprod::There(Coprod::Here(v)))) => E9::T4(v),
            Coprod::There(Coprod::There(Coprod::There(Coprod::There(Coprod::Here(v))))) => E9::T5(v),
            Coprod::There(Coprod::There(Coprod::There(Coprod::There(Coprod::There(Coprod::Here(v)))))) => E9::T6(v),
            Coprod::There(Coprod::There(Coprod::There(Coprod::There(Coprod::There(Coprod::There(Coprod::Here(v))))))) => E9::T7(v),
            Coprod::There(Coprod::There(Coprod::There(Coprod::There(Coprod::There(Coprod::There(Coprod::There(Coprod::Here(v)))))))) => E9::T8(v),
            Coprod::There(Coprod::There(Coprod::There(Coprod::There(Coprod::There(Coprod::There(Coprod::There(Coprod::There(Coprod::Here(v))))))))) => E9::T9(v),
            Coprod::There(Coprod::There(Coprod::There(Coprod::There(Coprod::There(Coprod::There(Coprod::There(Coprod::There(Coprod::There(_))))))))) => arbitrary(),
        }
    }

    open spec fn enum_tag(e: E9<T1, T2, T3, T4, T5, T6, T7, T8, T9>) -> nat {
        match e {
            E9::T1(_) => 0,
            E9::T2(_) => 1,
            E9::T3(_) => 2,
            E9::T4(_) => 3,
            E9::T5(_) => 4,
            E9::T6(_) => 5,
            E9::T7(_) => 6,
            E9::T8(_) => 7,
            E9::T9(_) => 8,
        }
    }

    fn to_enum(s: <Self::Variants as TypeList>::Sum) -> (e: E9<T1, T2, T3, T4, T5, T6, T7, T8, T9>) {
        match s {
            Coprod::Here(v) => E9::T1(v),
            Coprod::There(Coprod::Here(v)) => E9::T2(v),
            Coprod::There(Coprod::There(Coprod::Here(v))) => E9::T3(v),
            Coprod::There(Coprod::There(Coprod::There(Coprod::Here(v)))) => E9::T4(v),
            Coprod::There(Coprod::There(Coprod::There(Coprod::There(Coprod::Here(v))))) => E9::T5(v),
            Coprod::There(Coprod::There(Coprod::There(Coprod::There(Coprod::There(Coprod::Here(v)))))) => E9::T6(v),
            Coprod::There(Coprod::There(Coprod::There(Coprod::There(Coprod::There(Coprod::There(Coprod::Here(v))))))) => E9::T7(v),
            Coprod::There(Coprod::There(Coprod::There(Coprod::There(Coprod::There(Coprod::There(Coprod::There(Coprod::Here(v)))))))) => E9::T8(v),
            Coprod::There(Coprod::There(Coprod::There(Coprod::There(Coprod::There(Coprod::There(Coprod::There(Coprod::There(Coprod::Here(v))))))))) => E9::T9(v),
            Coprod::There(Coprod::There(Coprod::There(Coprod::There(Coprod::There(Coprod::There(Coprod::There(Coprod::There(Coprod::There(_))))))))) => unreached(),
        }
    }

}

impl<'a, T1: 'a, T2: 'a, T3: 'a, T4: 'a, T5: 'a, T6: 'a, T7: 'a, T8: 'a, T9: 'a> EnumRef<'a> for (T1, T2, T3, T4, T5, T6, T7, T8, T9) {
    type EnumRef = E9<&'a T1, &'a T2, &'a T3, &'a T4, &'a T5, &'a T6, &'a T7, &'a T8, &'a T9>;

    open spec fn spec_as_enum(s: &'a <Self::Variants as TypeList>::Sum) -> E9<&'a T1, &'a T2, &'a T3, &'a T4, &'a T5, &'a T6, &'a T7, &'a T8, &'a T9> {
        match s {
            Coprod::Here(v) => E9::T1(v),
            Coprod::There(Coprod::Here(v)) => E9::T2(v),
            Coprod::There(Coprod::There(Coprod::Here(v))) => E9::T3(v),
            Coprod::There(Coprod::There(Coprod::There(Coprod::Here(v)))) => E9::T4(v),
            Coprod::There(Coprod::There(Coprod::There(Coprod::There(Coprod::Here(v))))) => E9::T5(v),
            Coprod::There(Coprod::There(Coprod::There(Coprod::There(Coprod::There(Coprod::Here(v)))))) => E9::T6(v),
            Coprod::There(Coprod::There(Coprod::There(Coprod::There(Coprod::There(Coprod::There(Coprod::Here(v))))))) => E9::T7(v),
            Coprod::There(Coprod::There(Coprod::There(Coprod::There(Coprod::There(Coprod::There(Coprod::There(Coprod::Here(v)))))))) => E9::T8(v),
            Coprod::There(Coprod::There(Coprod::There(Coprod::There(Coprod::There(Coprod::There(Coprod::There(Coprod::There(Coprod::Here(v))))))))) => E9::T9(v),
            Coprod::There(Coprod::There(Coprod::There(Coprod::There(Coprod::There(Coprod::There(Coprod::There(Coprod::There(Coprod::There(_))))))))) => arbitrary(),
        }
    }

    fn as_enum(s: &'a <Self::Variants as TypeList>::Sum) -> (e: E9<&'a T1, &'a T2, &'a T3, &'a T4, &'a T5, &'a T6, &'a T7, &'a T8, &'a T9>) {
        match s {
            Coprod::Here(v) => E9::T1(v),
            Coprod::There(Coprod::Here(v)) => E9::T2(v),
            Coprod::There(Coprod::There(Coprod::Here(v))) => E9::T3(v),
            Coprod::There(Coprod::There(Coprod::There(Coprod::Here(v)))) => E9::T4(v),
            Coprod::There(Coprod::There(Coprod::There(Coprod::There(Coprod::Here(v))))) => E9::T5(v),
            Coprod::There(Coprod::There(Coprod::There(Coprod::There(Coprod::There(Coprod::Here(v)))))) => E9::T6(v),
            Coprod::There(Coprod::There(Coprod::There(Coprod::There(Coprod::There(Coprod::There(Coprod::Here(v))))))) => E9::T7(v),
            Coprod::There(Coprod::There(Coprod::There(Coprod::There(Coprod::There(Coprod::There(Coprod::There(Coprod::Here(v)))))))) => E9::T8(v),
            Coprod::There(Coprod::There(Coprod::There(Coprod::There(Coprod::There(Coprod::There(Coprod::There(Coprod::There(Coprod::Here(v))))))))) => E9::T9(v),
            Coprod::There(Coprod::There(Coprod::There(Coprod::There(Coprod::There(Coprod::There(Coprod::There(Coprod::There(Coprod::There(_))))))))) => unreached(),
        }
    }
}

impl<T1, T2, T3, T4, T5, T6, T7, T8, T9> EnumRuntime for (T1, T2, T3, T4, T5, T6, T7, T8, T9) {
    open spec fn spec_from_enum(e: E9<T1, T2, T3, T4, T5, T6, T7, T8, T9>) -> <Self::Variants as TypeList>::Sum {
        match e {
            E9::T1(v) => Coprod::Here(v),
            E9::T2(v) => Coprod::There(Coprod::Here(v)),
            E9::T3(v) => Coprod::There(Coprod::There(Coprod::Here(v))),
            E9::T4(v) => Coprod::There(Coprod::There(Coprod::There(Coprod::Here(v)))),
            E9::T5(v) => Coprod::There(Coprod::There(Coprod::There(Coprod::There(Coprod::Here(v))))),
            E9::T6(v) => Coprod::There(Coprod::There(Coprod::There(Coprod::There(Coprod::There(Coprod::Here(v)))))),
            E9::T7(v) => Coprod::There(Coprod::There(Coprod::There(Coprod::There(Coprod::There(Coprod::There(Coprod::Here(v))))))),
            E9::T8(v) => Coprod::There(Coprod::There(Coprod::There(Coprod::There(Coprod::There(Coprod::There(Coprod::There(Coprod::Here(v)))))))),
            E9::T9(v) => Coprod::There(Coprod::There(Coprod::There(Coprod::There(Coprod::There(Coprod::There(Coprod::There(Coprod::There(Coprod::Here(v))))))))),
        }
    }

    fn from_enum(e: E9<T1, T2, T3, T4, T5, T6, T7, T8, T9>) -> (s: <Self::Variants as TypeList>::Sum) {
        match e {
            E9::T1(v) => Coprod::Here(v),
            E9::T2(v) => Coprod::There(Coprod::Here(v)),
            E9::T3(v) => Coprod::There(Coprod::There(Coprod::Here(v))),
            E9::T4(v) => Coprod::There(Coprod::There(Coprod::There(Coprod::Here(v)))),
            E9::T5(v) => Coprod::There(Coprod::There(Coprod::There(Coprod::There(Coprod::Here(v))))),
            E9::T6(v) => Coprod::There(Coprod::There(Coprod::There(Coprod::There(Coprod::There(Coprod::Here(v)))))),
            E9::T7(v) => Coprod::There(Coprod::There(Coprod::There(Coprod::There(Coprod::There(Coprod::There(Coprod::Here(v))))))),
            E9::T8(v) => Coprod::There(Coprod::There(Coprod::There(Coprod::There(Coprod::There(Coprod::There(Coprod::There(Coprod::Here(v)))))))),
            E9::T9(v) => Coprod::There(Coprod::There(Coprod::There(Coprod::There(Coprod::There(Coprod::There(Coprod::There(Coprod::There(Coprod::Here(v))))))))),
        }
    }

    proof fn lemma_from_to_enum(s: <Self::Variants as TypeList>::Sum) {
    }

    proof fn lemma_to_from_enum(e: E9<T1, T2, T3, T4, T5, T6, T7, T8, T9>) {
    }
}

impl<T1, T2, T3, T4, T5, T6, T7, T8, T9> TupleForm for Cons<T1, Cons<T2, Cons<T3, Cons<T4, Cons<T5, Cons<T6, Cons<T7, Cons<T8, Cons<T9, End>>>>>>>>> {
    type Tuple = (T1, T2, T3, T4, T5, T6, T7, T8, T9);
}


impl<T1, T2, T3, T4, T5, T6, T7, T8, T9, T10> TypeSet for (T1, T2, T3, T4, T5, T6, T7, T8, T9, T10) {
    type Sum = Coprod<T1, Coprod<T2, Coprod<T3, Coprod<T4, Coprod<T5, Coprod<T6, Coprod<T7, Coprod<T8, Coprod<T9, Coprod<T10, E0>>>>>>>>>>;
    type Variants = Cons<T1, Cons<T2, Cons<T3, Cons<T4, Cons<T5, Cons<T6, Cons<T7, Cons<T8, Cons<T9, Cons<T10, End>>>>>>>>>>;
    type Enum = E10<T1, T2, T3, T4, T5, T6, T7, T8, T9, T10>;

    open spec fn spec_to_enum(s: <Self::Variants as TypeList>::Sum) -> E10<T1, T2, T3, T4, T5, T6, T7, T8, T9, T10> {
        match s {
            Coprod::Here(v) => E10::T1(v),
            Coprod::There(Coprod::Here(v)) => E10::T2(v),
            Coprod::There(Coprod::There(Coprod::Here(v))) => E10::T3(v),
            Coprod::There(Coprod::There(Coprod::There(Coprod::Here(v)))) => E10::T4(v),
            Coprod::There(Coprod::There(Coprod::There(Coprod::There(Coprod::Here(v))))) => E10::T5(v),
            Coprod::There(Coprod::There(Coprod::There(Coprod::There(Coprod::There(Coprod::Here(v)))))) => E10::T6(v),
            Coprod::There(Coprod::There(Coprod::There(Coprod::There(Coprod::There(Coprod::There(Coprod::Here(v))))))) => E10::T7(v),
            Coprod::There(Coprod::There(Coprod::There(Coprod::There(Coprod::There(Coprod::There(Coprod::There(Coprod::Here(v)))))))) => E10::T8(v),
            Coprod::There(Coprod::There(Coprod::There(Coprod::There(Coprod::There(Coprod::There(Coprod::There(Coprod::There(Coprod::Here(v))))))))) => E10::T9(v),
            Coprod::There(Coprod::There(Coprod::There(Coprod::There(Coprod::There(Coprod::There(Coprod::There(Coprod::There(Coprod::There(Coprod::Here(v)))))))))) => E10::T10(v),
            Coprod::There(Coprod::There(Coprod::There(Coprod::There(Coprod::There(Coprod::There(Coprod::There(Coprod::There(Coprod::There(Coprod::There(_)))))))))) => arbitrary(),
        }
    }

    open spec fn enum_tag(e: E10<T1, T2, T3, T4, T5, T6, T7, T8, T9, T10>) -> nat {
        match e {
            E10::T1(_) => 0,
            E10::T2(_) => 1,
            E10::T3(_) => 2,
            E10::T4(_) => 3,
            E10::T5(_) => 4,
            E10::T6(_) => 5,
            E10::T7(_) => 6,
            E10::T8(_) => 7,
            E10::T9(_) => 8,
            E10::T10(_) => 9,
        }
    }

    fn to_enum(s: <Self::Variants as TypeList>::Sum) -> (e: E10<T1, T2, T3, T4, T5, T6, T7, T8, T9, T10>) {
        match s {
            Coprod::Here(v) => E10::T1(v),
            Coprod::There(Coprod::Here(v)) => E10::T2(v),
            Coprod::There(Coprod::There(Coprod::Here(v))) => E10::T3(v),
            Coprod::There(Coprod::There(Coprod::There(Coprod::Here(v)))) => E10::T4(v),
            Coprod::There(Coprod::There(Coprod::There(Coprod::There(Coprod::Here(v))))) => E10::T5(v),
            Coprod::There(Coprod::There(Coprod::There(Coprod::There(Coprod::There(Coprod::Here(v)))))) => E10::T6(v),
            Coprod::There(Coprod::There(Coprod::There(Coprod::There(Coprod::There(Coprod::There(Coprod::Here(v))))))) => E10::T7(v),
            Coprod::There(Coprod::There(Coprod::There(Coprod::There(Coprod::There(Coprod::There(Coprod::There(Coprod::Here(v)))))))) => E10::T8(v),
            Coprod::There(Coprod::There(Coprod::There(Coprod::There(Coprod::There(Coprod::There(Coprod::There(Coprod::There(Coprod::Here(v))))))))) => E10::T9(v),
            Coprod::There(Coprod::There(Coprod::There(Coprod::There(Coprod::There(Coprod::There(Coprod::There(Coprod::There(Coprod::There(Coprod::Here(v)))))))))) => E10::T10(v),
            Coprod::There(Coprod::There(Coprod::There(Coprod::There(Coprod::There(Coprod::There(Coprod::There(Coprod::There(Coprod::There(Coprod::There(_)))))))))) => unreached(),
        }
    }

}

impl<'a, T1: 'a, T2: 'a, T3: 'a, T4: 'a, T5: 'a, T6: 'a, T7: 'a, T8: 'a, T9: 'a, T10: 'a> EnumRef<'a> for (T1, T2, T3, T4, T5, T6, T7, T8, T9, T10) {
    type EnumRef = E10<&'a T1, &'a T2, &'a T3, &'a T4, &'a T5, &'a T6, &'a T7, &'a T8, &'a T9, &'a T10>;

    open spec fn spec_as_enum(s: &'a <Self::Variants as TypeList>::Sum) -> E10<&'a T1, &'a T2, &'a T3, &'a T4, &'a T5, &'a T6, &'a T7, &'a T8, &'a T9, &'a T10> {
        match s {
            Coprod::Here(v) => E10::T1(v),
            Coprod::There(Coprod::Here(v)) => E10::T2(v),
            Coprod::There(Coprod::There(Coprod::Here(v))) => E10::T3(v),
            Coprod::There(Coprod::There(Coprod::There(Coprod::Here(v)))) => E10::T4(v),
            Coprod::There(Coprod::There(Coprod::There(Coprod::There(Coprod::Here(v))))) => E10::T5(v),
            Coprod::There(Coprod::There(Coprod::There(Coprod::There(Coprod::There(Coprod::Here(v)))))) => E10::T6(v),
            Coprod::There(Coprod::There(Coprod::There(Coprod::There(Coprod::There(Coprod::There(Coprod::Here(v))))))) => E10::T7(v),
            Coprod::There(Coprod::There(Coprod::There(Coprod::There(Coprod::There(Coprod::There(Coprod::There(Coprod::Here(v)))))))) => E10::T8(v),
            Coprod::There(Coprod::There(Coprod::There(Coprod::There(Coprod::There(Coprod::There(Coprod::There(Coprod::There(Coprod::Here(v))))))))) => E10::T9(v),
            Coprod::There(Coprod::There(Coprod::There(Coprod::There(Coprod::There(Coprod::There(Coprod::There(Coprod::There(Coprod::There(Coprod::Here(v)))))))))) => E10::T10(v),
            Coprod::There(Coprod::There(Coprod::There(Coprod::There(Coprod::There(Coprod::There(Coprod::There(Coprod::There(Coprod::There(Coprod::There(_)))))))))) => arbitrary(),
        }
    }

    fn as_enum(s: &'a <Self::Variants as TypeList>::Sum) -> (e: E10<&'a T1, &'a T2, &'a T3, &'a T4, &'a T5, &'a T6, &'a T7, &'a T8, &'a T9, &'a T10>) {
        match s {
            Coprod::Here(v) => E10::T1(v),
            Coprod::There(Coprod::Here(v)) => E10::T2(v),
            Coprod::There(Coprod::There(Coprod::Here(v))) => E10::T3(v),
            Coprod::There(Coprod::There(Coprod::There(Coprod::Here(v)))) => E10::T4(v),
            Coprod::There(Coprod::There(Coprod::There(Coprod::There(Coprod::Here(v))))) => E10::T5(v),
            Coprod::There(Coprod::There(Coprod::There(Coprod::There(Coprod::There(Coprod::Here(v)))))) => E10::T6(v),
            Coprod::There(Coprod::There(Coprod::There(Coprod::There(Coprod::There(Coprod::There(Coprod::Here(v))))))) => E10::T7(v),
            Coprod::There(Coprod::There(Coprod::There(Coprod::There(Coprod::There(Coprod::There(Coprod::There(Coprod::Here(v)))))))) => E10::T8(v),
            Coprod::There(Coprod::There(Coprod::There(Coprod::There(Coprod::There(Coprod::There(Coprod::There(Coprod::There(Coprod::Here(v))))))))) => E10::T9(v),
            Coprod::There(Coprod::There(Coprod::There(Coprod::There(Coprod::There(Coprod::There(Coprod::There(Coprod::There(Coprod::There(Coprod::Here(v)))))))))) => E10::T10(v),
            Coprod::There(Coprod::There(Coprod::There(Coprod::There(Coprod::There(Coprod::There(Coprod::There(Coprod::There(Coprod::There(Coprod::There(_)))))))))) => unreached(),
        }
    }
}

impl<T1, T2, T3, T4, T5, T6, T7, T8, T9, T10> EnumRuntime for (T1, T2, T3, T4, T5, T6, T7, T8, T9, T10) {
    open spec fn spec_from_enum(e: E10<T1, T2, T3, T4, T5, T6, T7, T8, T9, T10>) -> <Self::Variants as TypeList>::Sum {
        match e {
            E10::T1(v) => Coprod::Here(v),
            E10::T2(v) => Coprod::There(Coprod::Here(v)),
            E10::T3(v) => Coprod::There(Coprod::There(Coprod::Here(v))),
            E10::T4(v) => Coprod::There(Coprod::There(Coprod::There(Coprod::Here(v)))),
            E10::T5(v) => Coprod::There(Coprod::There(Coprod::There(Coprod::There(Coprod::Here(v))))),
            E10::T6(v) => Coprod::There(Coprod::There(Coprod::There(Coprod::There(Coprod::There(Coprod::Here(v)))))),
            E10::T7(v) => Coprod::There(Coprod::There(Coprod::There(Coprod::There(Coprod::There(Coprod::There(Coprod::Here(v))))))),
            E10::T8(v) => Coprod::There(Coprod::There(Coprod::There(Coprod::There(Coprod::There(Coprod::There(Coprod::There(Coprod::Here(v)))))))),
            E10::T9(v) => Coprod::There(Coprod::There(Coprod::There(Coprod::There(Coprod::There(Coprod::There(Coprod::There(Coprod::There(Coprod::Here(v))))))))),
            E10::T10(v) => Coprod::There(Coprod::There(Coprod::There(Coprod::There(Coprod::There(Coprod::There(Coprod::There(Coprod::There(Coprod::There(Coprod::Here(v)))))))))),
        }
    }

    fn from_enum(e: E10<T1, T2, T3, T4, T5, T6, T7, T8, T9, T10>) -> (s: <Self::Variants as TypeList>::Sum) {
        match e {
            E10::T1(v) => Coprod::Here(v),
            E10::T2(v) => Coprod::There(Coprod::Here(v)),
            E10::T3(v) => Coprod::There(Coprod::There(Coprod::Here(v))),
            E10::T4(v) => Coprod::There(Coprod::There(Coprod::There(Coprod::Here(v)))),
            E10::T5(v) => Coprod::There(Coprod::There(Coprod::There(Coprod::There(Coprod::Here(v))))),
            E10::T6(v) => Coprod::There(Coprod::There(Coprod::There(Coprod::There(Coprod::There(Coprod::Here(v)))))),
            E10::T7(v) => Coprod::There(Coprod::There(Coprod::There(Coprod::There(Coprod::There(Coprod::There(Coprod::Here(v))))))),
            E10::T8(v) => Coprod::There(Coprod::There(Coprod::There(Coprod::There(Coprod::There(Coprod::There(Coprod::There(Coprod::Here(v)))))))),
            E10::T9(v) => Coprod::There(Coprod::There(Coprod::There(Coprod::There(Coprod::There(Coprod::There(Coprod::There(Coprod::There(Coprod::Here(v))))))))),
            E10::T10(v) => Coprod::There(Coprod::There(Coprod::There(Coprod::There(Coprod::There(Coprod::There(Coprod::There(Coprod::There(Coprod::There(Coprod::Here(v)))))))))),
        }
    }

    proof fn lemma_from_to_enum(s: <Self::Variants as TypeList>::Sum) {
    }

    proof fn lemma_to_from_enum(e: E10<T1, T2, T3, T4, T5, T6, T7, T8, T9, T10>) {
    }
}

impl<T1, T2, T3, T4, T5, T6, T7, T8, T9, T10> TupleForm for Cons<T1, Cons<T2, Cons<T3, Cons<T4, Cons<T5, Cons<T6, Cons<T7, Cons<T8, Cons<T9, Cons<T10, End>>>>>>>>>> {
    type Tuple = (T1, T2, T3, T4, T5, T6, T7, T8, T9, T10);
}


impl<T1, T2, T3, T4, T5, T6, T7, T8, T9, T10, T11> TypeSet for (T1, T2, T3, T4, T5, T6, T7, T8, T9, T10, T11) {
    type Sum = Coprod<T1, Coprod<T2, Coprod<T3, Coprod<T4, Coprod<T5, Coprod<T6, Coprod<T7, Coprod<T8, Coprod<T9, Coprod<T10, Coprod<T11, E0>>>>>>>>>>>;
    type Variants = Cons<T1, Cons<T2, Cons<T3, Cons<T4, Cons<T5, Cons<T6, Cons<T7, Cons<T8, Cons<T9, Cons<T10, Cons<T11, End>>>>>>>>>>>;
    type Enum = E11<T1, T2, T3, T4, T5, T6, T7, T8, T9, T10, T11>;

    open spec fn spec_to_enum(s: <Self::Variants as TypeList>::Sum) -> E11<T1, T2, T3, T4, T5, T6, T7, T8, T9, T10, T11> {
        match s {
            Coprod::Here(v) => E11::T1(v),
            Coprod::There(Coprod::Here(v)) => E11::T2(v),
            Coprod::There(Coprod::There(Coprod::Here(v))) => E11::T3(v),
            Coprod::There(Coprod::There(Coprod::There(Coprod::Here(v)))) => E11::T4(v),
            Coprod::There(Coprod::There(Coprod::There(Coprod::There(Coprod::Here(v))))) => E11::T5(v),
            Coprod::There(Coprod::There(Coprod::There(Coprod::There(Coprod::There(Coprod::Here(v)))))) => E11::T6(v),
            Coprod::There(Coprod::There(Coprod::There(Coprod::There(Coprod::There(Coprod::There(Coprod::Here(v))))))) => E11::T7(v),
            Coprod::There(Coprod::There(Coprod::There(Coprod::There(Coprod::There(Coprod::There(Coprod::There(Coprod::Here(v)))))))) => E11::T8(v),
            Coprod::There(Coprod::There(Coprod::There(Coprod::There(Coprod::There(Coprod::There(Coprod::There(Coprod::There(Coprod::Here(v))))))))) => E11::T9(v),
            Coprod::There(Coprod::There(Coprod::There(Coprod::There(Coprod::There(Coprod::There(Coprod::There(Coprod::There(Coprod::There(Coprod::Here(v)))))))))) => E11::T10(v),
            Coprod::There(Coprod::There(Coprod::There(Coprod::There(Coprod::There(Coprod::There(Coprod::There(Coprod::There(Coprod::There(Coprod::There(Coprod::Here(v))))))))))) => E11::T11(v),
            Coprod::There(Coprod::There(Coprod::There(Coprod::There(Coprod::There(Coprod::There(Coprod::There(Coprod::There(Coprod::There(Coprod::There(Coprod::There(_))))))))))) => arbitrary(),
        }
    }

    open spec fn enum_tag(e: E11<T1, T2, T3, T4, T5, T6, T7, T8, T9, T10, T11>) -> nat {
        match e {
            E11::T1(_) => 0,
            E11::T2(_) => 1,
            E11::T3(_) => 2,
            E11::T4(_) => 3,
            E11::T5(_) => 4,
            E11::T6(_) => 5,
            E11::T7(_) => 6,
            E11::T8(_) => 7,
            E11::T9(_) => 8,
            E11::T10(_) => 9,
            E11::T11(_) => 10,
        }
    }

    fn to_enum(s: <Self::Variants as TypeList>::Sum) -> (e: E11<T1, T2, T3, T4, T5, T6, T7, T8, T9, T10, T11>) {
        match s {
            Coprod::Here(v) => E11::T1(v),
            Coprod::There(Coprod::Here(v)) => E11::T2(v),
            Coprod::There(Coprod::There(Coprod::Here(v))) => E11::T3(v),
            Coprod::There(Coprod::There(Coprod::There(Coprod::Here(v)))) => E11::T4(v),
            Coprod::There(Coprod::There(Coprod::There(Coprod::There(Coprod::Here(v))))) => E11::T5(v),
            Coprod::There(Coprod::There(Coprod::There(Coprod::There(Coprod::There(Coprod::Here(v)))))) => E11::T6(v),
            Coprod::There(Coprod::There(Coprod::There(Coprod::There(Coprod::There(Coprod::There(Coprod::Here(v))))))) => E11::T7(v),
            Coprod::There(Coprod::There(Coprod::There(Coprod::There(Coprod::There(Coprod::There(Coprod::There(Coprod::Here(v)))))))) => E11::T8(v),
            Coprod::There(Coprod::There(Coprod::There(Coprod::There(Coprod::There(Coprod::There(Coprod::There(Coprod::There(Coprod::Here(v))))))))) => E11::T9(v),
            Coprod::There(Coprod::There(Coprod::There(Coprod::There(Coprod::There(Coprod::There(Coprod::There(Coprod::There(Coprod::There(Coprod::Here(v)))))))))) => E11::T10(v),
            Coprod::There(Coprod::There(Coprod::There(Coprod::There(Coprod::There(Coprod::There(Coprod::There(Coprod::There(Coprod::There(Coprod::There(Coprod::Here(v))))))))))) => E11::T11(v),
            Coprod::There(Coprod::There(Coprod::There(Coprod::There(Coprod::There(Coprod::There(Coprod::There(Coprod::There(Coprod::There(Coprod::There(Coprod::There(_))))))))))) => unreached(),
        }
    }

}

impl<'a, T1: 'a, T2: 'a, T3: 'a, T4: 'a, T5: 'a, T6: 'a, T7: 'a, T8: 'a, T9: 'a, T10: 'a, T11: 'a> EnumRef<'a> for (T1, T2, T3, T4, T5, T6, T7, T8, T9, T10, T11) {
    type EnumRef = E11<&'a T1, &'a T2, &'a T3, &'a T4, &'a T5, &'a T6, &'a T7, &'a T8, &'a T9, &'a T10, &'a T11>;

    open spec fn spec_as_enum(s: &'a <Self::Variants as TypeList>::Sum) -> E11<&'a T1, &'a T2, &'a T3, &'a T4, &'a T5, &'a T6, &'a T7, &'a T8, &'a T9, &'a T10, &'a T11> {
        match s {
            Coprod::Here(v) => E11::T1(v),
            Coprod::There(Coprod::Here(v)) => E11::T2(v),
            Coprod::There(Coprod::There(Coprod::Here(v))) => E11::T3(v),
            Coprod::There(Coprod::There(Coprod::There(Coprod::Here(v)))) => E11::T4(v),
            Coprod::There(Coprod::There(Coprod::There(Coprod::There(Coprod::Here(v))))) => E11::T5(v),
            Coprod::There(Coprod::There(Coprod::There(Coprod::There(Coprod::There(Coprod::Here(v)))))) => E11::T6(v),
            Coprod::There(Coprod::There(Coprod::There(Coprod::There(Coprod::There(Coprod::There(Coprod::Here(v))))))) => E11::T7(v),
            Coprod::There(Coprod::There(Coprod::There(Coprod::There(Coprod::There(Coprod::There(Coprod::There(Coprod::Here(v)))))))) => E11::T8(v),
            Coprod::There(Coprod::There(Coprod::There(Coprod::There(Coprod::There(Coprod::There(Coprod::There(Coprod::There(Coprod::Here(v))))))))) => E11::T9(v),
            Coprod::There(Coprod::There(Coprod::There(Coprod::There(Coprod::There(Coprod::There(Coprod::There(Coprod::There(Coprod::There(Coprod::Here(v)))))))))) => E11::T10(v),
            Coprod::There(Coprod::There(Coprod::There(Coprod::There(Coprod::There(Coprod::There(Coprod::There(Coprod::There(Coprod::There(Coprod::There(Coprod::Here(v))))))))))) => E11::T11(v),
            Coprod::There(Coprod::There(Coprod::There(Coprod::There(Coprod::There(Coprod::There(Coprod::There(Coprod::There(Coprod::There(Coprod::There(Coprod::There(_))))))))))) => arbitrary(),
        }
    }

    fn as_enum(s: &'a <Self::Variants as TypeList>::Sum) -> (e: E11<&'a T1, &'a T2, &'a T3, &'a T4, &'a T5, &'a T6, &'a T7, &'a T8, &'a T9, &'a T10, &'a T11>) {
        match s {
            Coprod::Here(v) => E11::T1(v),
            Coprod::There(Coprod::Here(v)) => E11::T2(v),
            Coprod::There(Coprod::There(Coprod::Here(v))) => E11::T3(v),
            Coprod::There(Coprod::There(Coprod::There(Coprod::Here(v)))) => E11::T4(v),
            Coprod::There(Coprod::There(Coprod::There(Coprod::There(Coprod::Here(v))))) => E11::T5(v),
            Coprod::There(Coprod::There(Coprod::There(Coprod::There(Coprod::There(Coprod::Here(v)))))) => E11::T6(v),
            Coprod::There(Coprod::There(Coprod::There(Coprod::There(Coprod::There(Coprod::There(Coprod::Here(v))))))) => E11::T7(v),
            Coprod::There(Coprod::There(Coprod::There(Coprod::There(Coprod::There(Coprod::There(Coprod::There(Coprod::Here(v)))))))) => E11::T8(v),
            Coprod::There(Coprod::There(Coprod::There(Coprod::There(Coprod::There(Coprod::There(Coprod::There(Coprod::There(Coprod::Here(v))))))))) => E11::T9(v),
            Coprod::There(Coprod::There(Coprod::There(Coprod::There(Coprod::There(Coprod::There(Coprod::There(Coprod::There(Coprod::There(Coprod::Here(v)))))))))) => E11::T10(v),
            Coprod::There(Coprod::There(Coprod::There(Coprod::There(Coprod::There(Coprod::There(Coprod::There(Coprod::There(Coprod::There(Coprod::There(Coprod::Here(v))))))))))) => E11::T11(v),
            Coprod::There(Coprod::There(Coprod::There(Coprod::There(Coprod::There(Coprod::There(Coprod::There(Coprod::There(Coprod::There(Coprod::There(Coprod::There(_))))))))))) => unreached(),
        }
    }
}

impl<T1, T2, T3, T4, T5, T6, T7, T8, T9, T10, T11> EnumRuntime for (T1, T2, T3, T4, T5, T6, T7, T8, T9, T10, T11) {
    open spec fn spec_from_enum(e: E11<T1, T2, T3, T4, T5, T6, T7, T8, T9, T10, T11>) -> <Self::Variants as TypeList>::Sum {
        match e {
            E11::T1(v) => Coprod::Here(v),
            E11::T2(v) => Coprod::There(Coprod::Here(v)),
            E11::T3(v) => Coprod::There(Coprod::There(Coprod::Here(v))),
            E11::T4(v) => Coprod::There(Coprod::There(Coprod::There(Coprod::Here(v)))),
            E11::T5(v) => Coprod::There(Coprod::There(Coprod::There(Coprod::There(Coprod::Here(v))))),
            E11::T6(v) => Coprod::There(Coprod::There(Coprod::There(Coprod::There(Coprod::There(Coprod::Here(v)))))),
            E11::T7(v) => Coprod::There(Coprod::There(Coprod::There(Coprod::There(Coprod::There(Coprod::There(Coprod::Here(v))))))),
            E11::T8(v) => Coprod::There(Coprod::There(Coprod::There(Coprod::There(Coprod::There(Coprod::There(Coprod::There(Coprod::Here(v)))))))),
            E11::T9(v) => Coprod::There(Coprod::There(Coprod::There(Coprod::There(Coprod::There(Coprod::There(Coprod::There(Coprod::There(Coprod::Here(v))))))))),
            E11::T10(v) => Coprod::There(Coprod::There(Coprod::There(Coprod::There(Coprod::There(Coprod::There(Coprod::There(Coprod::There(Coprod::There(Coprod::Here(v)))))))))),
            E11::T11(v) => Coprod::There(Coprod::There(Coprod::There(Coprod::There(Coprod::There(Coprod::There(Coprod::There(Coprod::There(Coprod::There(Coprod::There(Coprod::Here(v))))))))))),
        }
    }

    fn from_enum(e: E11<T1, T2, T3, T4, T5, T6, T7, T8, T9, T10, T11>) -> (s: <Self::Variants as TypeList>::Sum) {
        match e {
            E11::T1(v) => Coprod::Here(v),
            E11::T2(v) => Coprod::There(Coprod::Here(v)),
            E11::T3(v) => Coprod::There(Coprod::There(Coprod::Here(v))),
            E11::T4(v) => Coprod::There(Coprod::There(Coprod::There(Coprod::Here(v)))),
            E11::T5(v) => Coprod::There(Coprod::There(Coprod::There(Coprod::There(Coprod::Here(v))))),
            E11::T6(v) => Coprod::There(Coprod::There(Coprod::There(Coprod::There(Coprod::There(Coprod::Here(v)))))),
            E11::T7(v) => Coprod::There(Coprod::There(Coprod::There(Coprod::There(Coprod::There(Coprod::There(Coprod::Here(v))))))),
            E11::T8(v) => Coprod::There(Coprod::There(Coprod::There(Coprod::There(Coprod::There(Coprod::There(Coprod::There(Coprod::Here(v)))))))),
            E11::T9(v) => Coprod::There(Coprod::There(Coprod::There(Coprod::There(Coprod::There(Coprod::There(Coprod::There(Coprod::There(Coprod::Here(v))))))))),
            E11::T10(v) => Coprod::There(Coprod::There(Coprod::There(Coprod::There(Coprod::There(Coprod::There(Coprod::There(Coprod::There(Coprod::There(Coprod::Here(v)))))))))),
            E11::T11(v) => Coprod::There(Coprod::There(Coprod::There(Coprod::There(Coprod::There(Coprod::There(Coprod::There(Coprod::There(Coprod::There(Coprod::There(Coprod::Here(v))))))))))),
        }
    }

    proof fn lemma_from_to_enum(s: <Self::Variants as TypeList>::Sum) {
    }

    proof fn lemma_to_from_enum(e: E11<T1, T2, T3, T4, T5, T6, T7, T8, T9, T10, T11>) {
    }
}

impl<T1, T2, T3, T4, T5, T6, T7, T8, T9, T10, T11> TupleForm for Cons<T1, Cons<T2, Cons<T3, Cons<T4, Cons<T5, Cons<T6, Cons<T7, Cons<T8, Cons<T9, Cons<T10, Cons<T11, End>>>>>>>>>>> {
    type Tuple = (T1, T2, T3, T4, T5, T6, T7, T8, T9, T10, T11);
}


impl<T1, T2, T3, T4, T5, T6, T7, T8, T9, T10, T11, T12> TypeSet for (T1, T2, T3, T4, T5, T6, T7, T8, T9, T10, T11, T12) {
    type Sum = Coprod<T1, Coprod<T2, Coprod<T3, Coprod<T4, Coprod<T5, Coprod<T6, Coprod<T7, Coprod<T8, Coprod<T9, Coprod<T10, Coprod<T11, Coprod<T12, E0>>>>>>>>>>>>;
    type Variants = Cons<T1, Cons<T2, Cons<T3, Cons<T4, Cons<T5, Cons<T6, Cons<T7, Cons<T8, Cons<T9, Cons<T10, Cons<T11, Cons<T12, End>>>>>>>>>>>>;
    type Enum = E12<T1, T2, T3, T4, T5, T6, T7, T8, T9, T10, T11, T12>;

    open spec fn spec_to_enum(s: <Self::Variants as TypeList>::Sum) -> E12<T1, T2, T3, T4, T5, T6, T7, T8, T9, T10, T11, T12> {
        match s {
            Coprod::Here(v) => E12::T1(v),
            Coprod::There(Coprod::Here(v)) => E12::T2(v),
            Coprod::There(Coprod::There(Coprod::Here(v))) => E12::T3(v),
            Coprod::There(Coprod::There(Coprod::There(Coprod::Here(v)))) => E12::T4(v),
            Coprod::There(Coprod::There(Coprod::There(Coprod::There(Coprod::Here(v))))) => E12::T5(v),
            Coprod::There(Coprod::There(Coprod::There(Coprod::There(Coprod::There(Coprod::Here(v)))))) => E12::T6(v),
            Coprod::There(Coprod::There(Coprod::There(Coprod::There(Coprod::There(Coprod::There(Coprod::Here(v))))))) => E12::T7(v),
            Coprod::There(Coprod::There(Coprod::There(Coprod::There(Coprod::There(Coprod::There(Coprod::There(Coprod::Here(v)))))))) => E12::T8(v),
            Coprod::There(Coprod::There(Coprod::There(Coprod::There(Coprod::There(Coprod::There(Coprod::There(Coprod::There(Coprod::Here(v))))))))) => E12::T9(v),
            Coprod::There(Coprod::There(Coprod::There(Coprod::There(Coprod::There(Coprod::There(Coprod::There(Coprod::There(Coprod::There(Coprod::Here(v)))))))))) => E12::T10(v),
            Coprod::There(Coprod::There(Coprod::There(Coprod::There(Coprod::There(Coprod::There(Coprod::There(Coprod::There(Coprod::There(Coprod::There(Coprod::Here(v))))))))))) => E12::T11(v),
            Coprod::There(Coprod::There(Coprod::There(Coprod::There(Coprod::There(Coprod::There(Coprod::There(Coprod::There(Coprod::There(Coprod::There(Coprod::There(Coprod::Here(v)))))))))))) => E12::T12(v),
            Coprod::There(Coprod::There(Coprod::There(Coprod::There(Coprod::There(Coprod::There(Coprod::There(Coprod::There(Coprod::There(Coprod::There(Coprod::There(Coprod::There(_)))))))))))) => arbitrary(),
        }
    }

    open spec fn enum_tag(e: E12<T1, T2, T3, T4, T5, T6, T7, T8, T9, T10, T11, T12>) -> nat {
        match e {
            E12::T1(_) => 0,
            E12::T2(_) => 1,
            E12::T3(_) => 2,
            E12::T4(_) => 3,
            E12::T5(_) => 4,
            E12::T6(_) => 5,
            E12::T7(_) => 6,
            E12::T8(_) => 7,
            E12::T9(_) => 8,
            E12::T10(_) => 9,
            E12::T11(_) => 10,
            E12::T12(_) => 11,
        }
    }

    fn to_enum(s: <Self::Variants as TypeList>::Sum) -> (e: E12<T1, T2, T3, T4, T5, T6, T7, T8, T9, T10, T11, T12>) {
        match s {
            Coprod::Here(v) => E12::T1(v),
            Coprod::There(Coprod::Here(v)) => E12::T2(v),
            Coprod::There(Coprod::There(Coprod::Here(v))) => E12::T3(v),
            Coprod::There(Coprod::There(Coprod::There(Coprod::Here(v)))) => E12::T4(v),
            Coprod::There(Coprod::There(Coprod::There(Coprod::There(Coprod::Here(v))))) => E12::T5(v),
            Coprod::There(Coprod::There(Coprod::There(Coprod::There(Coprod::There(Coprod::Here(v)))))) => E12::T6(v),
            Coprod::There(Coprod::There(Coprod::There(Coprod::There(Coprod::There(Coprod::There(Coprod::Here(v))))))) => E12::T7(v),
            Coprod::There(Coprod::There(Coprod::There(Coprod::There(Coprod::There(Coprod::There(Coprod::There(Coprod::Here(v)))))))) => E12::T8(v),
            Coprod::There(Coprod::There(Coprod::There(Coprod::There(Coprod::There(Coprod::There(Coprod::There(Coprod::There(Coprod::Here(v))))))))) => E12::T9(v),
            Coprod::There(Coprod::There(Coprod::There(Coprod::There(Coprod::There(Coprod::There(Coprod::There(Coprod::There(Coprod::There(Coprod::Here(v)))))))))) => E12::T10(v),
            Coprod::There(Coprod::There(Coprod::There(Coprod::There(Coprod::There(Coprod::There(Coprod::There(Coprod::There(Coprod::There(Coprod::There(Coprod::Here(v))))))))))) => E12::T11(v),
            Coprod::There(Coprod::There(Coprod::There(Coprod::There(Coprod::There(Coprod::There(Coprod::There(Coprod::There(Coprod::There(Coprod::There(Coprod::There(Coprod::Here(v)))))))))))) => E12::T12(v),
            Coprod::There(Coprod::There(Coprod::There(Coprod::There(Coprod::There(Coprod::There(Coprod::There(Coprod::There(Coprod::There(Coprod::There(Coprod::There(Coprod::There(_)))))))))))) => unreached(),
        }
    }

}

impl<'a, T1: 'a, T2: 'a, T3: 'a, T4: 'a, T5: 'a, T6: 'a, T7: 'a, T8: 'a, T9: 'a, T10: 'a, T11: 'a, T12: 'a> EnumRef<'a> for (T1, T2, T3, T4, T5, T6, T7, T8, T9, T10, T11, T12) {
    type EnumRef = E12<&'a T1, &'a T2, &'a T3, &'a T4, &'a T5, &'a T6, &'a T7, &'a T8, &'a T9, &'a T10, &'a T11, &'a T12>;

    open spec fn spec_as_enum(s: &'a <Self::Variants as TypeList>::Sum) -> E12<&'a T1, &'a T2, &'a T3, &'a T4, &'a T5, &'a T6, &'a T7, &'a T8, &'a T9, &'a T10, &'a T11, &'a T12> {
        match s {
            Coprod::Here(v) => E12::T1(v),
            Coprod::There(Coprod::Here(v)) => E12::T2(v),
            Coprod::There(Coprod::There(Coprod::Here(v))) => E12::T3(v),
            Coprod::There(Coprod::There(Coprod::There(Coprod::Here(v)))) => E12::T4(v),
            Coprod::There(Coprod::There(Coprod::There(Coprod::There(Coprod::Here(v))))) => E12::T5(v),
            Coprod::There(Coprod::There(Coprod::There(Coprod::There(Coprod::There(Coprod::Here(v)))))) => E12::T6(v),
            Coprod::There(Coprod::There(Coprod::There(Coprod::There(Coprod::There(Coprod::There(Coprod::Here(v))))))) => E12::T7(v),
            Coprod::There(Coprod::There(Coprod::There(Coprod::There(Coprod::There(Coprod::There(Coprod::There(Coprod::Here(v)))))))) => E12::T8(v),
            Coprod::There(Coprod::There(Coprod::There(Coprod::There(Coprod::There(Coprod::There(Coprod::There(Coprod::There(Coprod::Here(v))))))))) => E12::T9(v),
            Coprod::There(Coprod::There(Coprod::There(Coprod::There(Coprod::There(Coprod::There(Coprod::There(Coprod::There(Coprod::There(Coprod::Here(v)))))))))) => E12::T10(v),
            Coprod::There(Coprod::There(Coprod::There(Coprod::There(Coprod::There(Coprod::There(Coprod::There(Coprod::There(Coprod::There(Coprod::There(Coprod::Here(v))))))))))) => E12::T11(v),
            Coprod::There(Coprod::There(Coprod::There(Coprod::There(Coprod::There(Coprod::There(Coprod::There(Coprod::There(Coprod::There(Coprod::There(Coprod::There(Coprod::Here(v)))))))))))) => E12::T12(v),
            Coprod::There(Coprod::There(Coprod::There(Coprod::There(Coprod::There(Coprod::There(Coprod::There(Coprod::There(Coprod::There(Coprod::There(Coprod::There(Coprod::There(_)))))))))))) => arbitrary(),
        }
    }

    fn as_enum(s: &'a <Self::Variants as TypeList>::Sum) -> (e: E12<&'a T1, &'a T2, &'a T3, &'a T4, &'a T5, &'a T6, &'a T7, &'a T8, &'a T9, &'a T10, &'a T11, &'a T12>) {
        match s {
            Coprod::Here(v) => E12::T1(v),
            Coprod::There(Coprod::Here(v)) => E12::T2(v),
            Coprod::There(Coprod::There(Coprod::Here(v))) => E12::T3(v),
            Coprod::There(Coprod::There(Coprod::There(Coprod::Here(v)))) => E12::T4(v),
            Coprod::There(Coprod::There(Coprod::There(Coprod::There(Coprod::Here(v))))) => E12::T5(v),
            Coprod::There(Coprod::There(Coprod::There(Coprod::There(Coprod::There(Coprod::Here(v)))))) => E12::T6(v),
            Coprod::There(Coprod::There(Coprod::There(Coprod::There(Coprod::There(Coprod::There(Coprod::Here(v))))))) => E12::T7(v),
            Coprod::There(Coprod::There(Coprod::There(Coprod::There(Coprod::There(Coprod::There(Coprod::There(Coprod::Here(v)))))))) => E12::T8(v),
            Coprod::There(Coprod::There(Coprod::There(Coprod::There(Coprod::There(Coprod::There(Coprod::There(Coprod::There(Coprod::Here(v))))))))) => E12::T9(v),
            Coprod::There(Coprod::There(Coprod::There(Coprod::There(Coprod::There(Coprod::There(Coprod::There(Coprod::There(Coprod::There(Coprod::Here(v)))))))))) => E12::T10(v),
            Coprod::There(Coprod::There(Coprod::There(Coprod::There(Coprod::There(Coprod::There(Coprod::There(Coprod::There(Coprod::There(Coprod::There(Coprod::Here(v))))))))))) => E12::T11(v),
            Coprod::There(Coprod::There(Coprod::There(Coprod::There(Coprod::There(Coprod::There(Coprod::There(Coprod::There(Coprod::There(Coprod::There(Coprod::There(Coprod::Here(v)))))))))))) => E12::T12(v),
            Coprod::There(Coprod::There(Coprod::There(Coprod::There(Coprod::There(Coprod::There(Coprod::There(Coprod::There(Coprod::There(Coprod::There(Coprod::There(Coprod::There(_)))))))))))) => unreached(),
        }
    }
}

impl<T1, T2, T3, T4, T5, T6, T7, T8, T9, T10, T11, T12> EnumRuntime for (T1, T2, T3, T4, T5, T6, T7, T8, T9, T10, T11, T12) {
    open spec fn spec_from_enum(e: E12<T1, T2, T3, T4, T5, T6, T7, T8, T9, T10, T11, T12>) -> <Self::Variants as TypeList>::Sum {
        match e {
            E12::T1(v) => Coprod::Here(v),
            E12::T2(v) => Coprod::There(Coprod::Here(v)),
            E12::T3(v) => Coprod::There(Coprod::There(Coprod::Here(v))),
            E12::T4(v) => Coprod::There(Coprod::There(Coprod::There(Coprod::Here(v)))),
            E12::T5(v) => Coprod::There(Coprod::There(Coprod::There(Coprod::There(Coprod::Here(v))))),
            E12::T6(v) => Coprod::There(Coprod::There(Coprod::There(Coprod::There(Coprod::There(Coprod::Here(v)))))),
            E12::T7(v) => Coprod::There(Coprod::There(Coprod::There(Coprod::There(Coprod::There(Coprod::There(Coprod::Here(v))))))),
            E12::T8(v) => Coprod::There(Coprod::There(Coprod::There(Coprod::There(Coprod::There(Coprod::There(Coprod::There(Coprod::Here(v)))))))),
            E12::T9(v) => Coprod::There(Coprod::There(Coprod::There(Coprod::There(Coprod::There(Coprod::There(Coprod::There(Coprod::There(Coprod::Here(v))))))))),
            E12::T10(v) => Coprod::There(Coprod::There(Coprod::There(Coprod::There(Coprod::There(Coprod::There(Coprod::There(Coprod::There(Coprod::There(Coprod::Here(v)))))))))),
            E12::T11(v) => Coprod::There(Coprod::There(Coprod::There(Coprod::There(Coprod::There(Coprod::There(Coprod::There(Coprod::There(Coprod::There(Coprod::There(Coprod::Here(v))))))))))),
            E12::T12(v) => Coprod::There(Coprod::There(Coprod::There(Coprod::There(Coprod::There(Coprod::There(Coprod::There(Coprod::There(Coprod::There(Coprod::There(Coprod::There(Coprod::Here(v)))))))))))),
        }
    }

    fn from_enum(e: E12<T1, T2, T3, T4, T5, T6, T7, T8, T9, T10, T11, T12>) -> (s: <Self::Variants as TypeList>::Sum) {
        match e {
            E12::T1(v) => Coprod::Here(v),
            E12::T2(v) => Coprod::There(Coprod::Here(v)),
            E12::T3(v) => Coprod::There(Coprod::There(Coprod::Here(v))),
            E12::T4(v) => Coprod::There(Coprod::There(Coprod::There(Coprod::Here(v)))),
            E12::T5(v) => Coprod::There(Coprod::There(Coprod::There(Coprod::There(Coprod::Here(v))))),
            E12::T6(v) => Coprod::There(Coprod::There(Coprod::There(Coprod::There(Coprod::There(Coprod::Here(v)))))),
            E12::T7(v) => Coprod::There(Coprod::There(Coprod::There(Coprod::There(Coprod::There(Coprod::There(Coprod::Here(v))))))),
            E12::T8(v) => Coprod::There(Coprod::There(Coprod::There(Coprod::There(Coprod::There(Coprod::There(Coprod::There(Coprod::Here(v)))))))),
            E12::T9(v) => Coprod::There(Coprod::There(Coprod::There(Coprod::There(Coprod::There(Coprod::There(Coprod::There(Coprod::There(Coprod::Here(v))))))))),
            E12::T10(v) => Coprod::There(Coprod::There(Coprod::There(Coprod::There(Coprod::There(Coprod::There(Coprod::There(Coprod::There(Coprod::There(Coprod::Here(v)))))))))),
            E12::T11(v) => Coprod::There(Coprod::There(Coprod::There(Coprod::There(Coprod::There(Coprod::There(Coprod::There(Coprod::There(Coprod::There(Coprod::There(Coprod::Here(v))))))))))),
            E12::T12(v) => Coprod::There(Coprod::There(Coprod::There(Coprod::There(Coprod::There(Coprod::There(Coprod::There(Coprod::There(Coprod::There(Coprod::There(Coprod::There(Coprod::Here(v)))))))))))),
        }
    }

    proof fn lemma_from_to_enum(s: <Self::Variants as TypeList>::Sum) {
    }

    proof fn lemma_to_from_enum(e: E12<T1, T2, T3, T4, T5, T6, T7, T8, T9, T10, T11, T12>) {
    }
}

impl<T1, T2, T3, T4, T5, T6, T7, T8, T9, T10, T11, T12> TupleForm for Cons<T1, Cons<T2, Cons<T3, Cons<T4, Cons<T5, Cons<T6, Cons<T7, Cons<T8, Cons<T9, Cons<T10, Cons<T11, Cons<T12, End>>>>>>>>>>>> {
    type Tuple = (T1, T2, T3, T4, T5, T6, T7, T8, T9, T10, T11, T12);
}


impl<T1, T2, T3, T4, T5, T6, T7, T8, T9, T10, T11, T12, T13> TypeSet for (T1, T2, T3, T4, T5, T6, T7, T8, T9, T10, T11, T12, T13) {
    type Sum = Coprod<T1, Coprod<T2, Coprod<T3, Coprod<T4, Coprod<T5, Coprod<T6, Coprod<T7, Coprod<T8, Coprod<T9, Coprod<T10, Coprod<T11, Coprod<T12, Coprod<T13, E0>>>>>>>>>>>>>;
    type Variants = Cons<T1, Cons<T2, Cons<T3, Cons<T4, Cons<T5, Cons<T6, Cons<T7, Cons<T8, Cons<T9, Cons<T10, Cons<T11, Cons<T12, Cons<T13, End>>>>>>>>>>>>>;
    type Enum = E13<T1, T2, T3, T4, T5, T6, T7, T8, T9, T10, T11, T12, T13>;

    open spec fn spec_to_enum(s: <Self::Variants as TypeList>::Sum) -> E13<T1, T2, T3, T4, T5, T6, T7, T8, T9, T10, T11, T12, T13> {
        match s {
            Coprod::Here(v) => E13::T1(v),
            Coprod::There(Coprod::Here(v)) => E13::T2(v),
            Coprod::There(Coprod::There(Coprod::Here(v))) => E13::T3(v),
            Coprod::There(Coprod::There(Coprod::There(Coprod::Here(v)))) => E13::T4(v),
            Coprod::There(Coprod::There(Coprod::There(Coprod::There(Coprod::Here(v))))) => E13::T5(v),
            Coprod::There(Coprod::There(Coprod::There(Coprod::There(Coprod::There(Coprod::Here(v)))))) => E13::T6(v),
            Coprod::There(Coprod::There(Coprod::There(Coprod::There(Coprod::There(Coprod::There(Coprod::Here(v))))))) => E13::T7(v),
            Coprod::There(Coprod::There(Coprod::There(Coprod::There(Coprod::There(Coprod::There(Coprod::There(Coprod::Here(v)))))))) => E13::T8(v),
            Coprod::There(Coprod::There(Coprod::There(Coprod::There(Coprod::There(Coprod::There(Coprod::There(Coprod::There(Coprod::Here(v))))))))) => E13::T9(v),
            Coprod::There(Coprod::There(Coprod::There(Coprod::There(Coprod::There(Coprod::There(Coprod::There(Coprod::There(Coprod::There(Coprod::Here(v)))))))))) => E13::T10(v),
            Coprod::There(Coprod::There(Coprod::There(Coprod::There(Coprod::There(Coprod::There(Coprod::There(Coprod::There(Coprod::There(Coprod::There(Coprod::Here(v))))))))))) => E13::T11(v),
            Coprod::There(Coprod::There(Coprod::There(Coprod::There(Coprod::There(Coprod::There(Coprod::There(Coprod::There(Coprod::There(Coprod::There(Coprod::There(Coprod::Here(v)))))))))))) => E13::T12(v),
            Coprod::There(Coprod::There(Coprod::There(Coprod::There(Coprod::There(Coprod::There(Coprod::There(Coprod::There(Coprod::There(Coprod::There(Coprod::There(Coprod::There(Coprod::Here(v))))))))))))) => E13::T13(v),
            Coprod::There(Coprod::There(Coprod::There(Coprod::There(Coprod::There(Coprod::There(Coprod::There(Coprod::There(Coprod::There(Coprod::There(Coprod::There(Coprod::There(Coprod::There(_))))))))))))) => arbitrary(),
        }
    }

    open spec fn enum_tag(e: E13<T1, T2, T3, T4, T5, T6, T7, T8, T9, T10, T11, T12, T13>) -> nat {
        match e {
            E13::T1(_) => 0,
            E13::T2(_) => 1,
            E13::T3(_) => 2,
            E13::T4(_) => 3,
            E13::T5(_) => 4,
            E13::T6(_) => 5,
            E13::T7(_) => 6,
            E13::T8(_) => 7,
            E13::T9(_) => 8,
            E13::T10(_) => 9,
            E13::T11(_) => 10,
            E13::T12(_) => 11,
            E13::T13(_) => 12,
        }
    }

    fn to_enum(s: <Self::Variants as TypeList>::Sum) -> (e: E13<T1, T2, T3, T4, T5, T6, T7, T8, T9, T10, T11, T12, T13>) {
        match s {
            Coprod::Here(v) => E13::T1(v),
            Coprod::There(Coprod::Here(v)) => E13::T2(v),
            Coprod::There(Coprod::There(Coprod::Here(v))) => E13::T3(v),
            Coprod::There(Coprod::There(Coprod::There(Coprod::Here(v)))) => E13::T4(v),
            Coprod::There(Coprod::There(Coprod::There(Coprod::There(Coprod::Here(v))))) => E13::T5(v),
            Coprod::There(Coprod::There(Coprod::There(Coprod::There(Coprod::There(Coprod::Here(v)))))) => E13::T6(v),
            Coprod::There(Coprod::There(Coprod::There(Coprod::There(Coprod::There(Coprod::There(Coprod::Here(v))))))) => E13::T7(v),
            Coprod::There(Coprod::There(Coprod::There(Coprod::There(Coprod::There(Coprod::There(Coprod::There(Coprod::Here(v)))))))) => E13::T8(v),
            Coprod::There(Coprod::There(Coprod::There(Coprod::There(Coprod::There(Coprod::There(Coprod::There(Coprod::There(Coprod::Here(v))))))))) => E13::T9(v),
            Coprod::There(Coprod::There(Coprod::There(Coprod::There(Coprod::There(Coprod::There(Coprod::There(Coprod::There(Coprod::There(Coprod::Here(v)))))))))) => E13::T10(v),
            Coprod::There(Coprod::There(Coprod::There(Coprod::There(Coprod::There(Coprod::There(Coprod::There(Coprod::There(Coprod::There(Coprod::There(Coprod::Here(v))))))))))) => E13::T11(v),
            Coprod::There(Coprod::There(Coprod::There(Coprod::There(Coprod::There(Coprod::There(Coprod::There(Coprod::There(Coprod::There(Coprod::There(Coprod::There(Coprod::Here(v)))))))))))) => E13::T12(v),
            Coprod::There(Coprod::There(Coprod::There(Coprod::There(Coprod::There(Coprod::There(Coprod::There(Coprod::There(Coprod::There(Coprod::There(Coprod::There(Coprod::There(Coprod::Here(v))))))))))))) => E13::T13(v),
            Coprod::There(Coprod::There(Coprod::There(Coprod::There(Coprod::There(Coprod::There(Coprod::There(Coprod::There(Coprod::There(Coprod::There(Coprod::There(Coprod::There(Coprod::There(_))))))))))))) => unreached(),
        }
    }

}

impl<'a, T1: 'a, T2: 'a, T3: 'a, T4: 'a, T5: 'a, T6: 'a, T7: 'a, T8: 'a, T9: 'a, T10: 'a, T11: 'a, T12: 'a, T13: 'a> EnumRef<'a> for (T1, T2, T3, T4, T5, T6, T7, T8, T9, T10, T11, T12, T13) {
    type EnumRef = E13<&'a T1, &'a T2, &'a T3, &'a T4, &'a T5, &'a T6, &'a T7, &'a T8, &'a T9, &'a T10, &'a T11, &'a T12, &'a T13>;

    open spec fn spec_as_enum(s: &'a <Self::Variants as TypeList>::Sum) -> E13<&'a T1, &'a T2, &'a T3, &'a T4, &'a T5, &'a T6, &'a T7, &'a T8, &'a T9, &'a T10, &'a T11, &'a T12, &'a T13> {
        match s {
            Coprod::Here(v) => E13::T1(v),
            Coprod::There(Coprod::Here(v)) => E13::T2(v),
            Coprod::There(Coprod::There(Coprod::Here(v))) => E13::T3(v),
            Coprod::There(Coprod::There(Coprod::There(Coprod::Here(v)))) => E13::T4(v),
            Coprod::There(Coprod::There(Coprod::There(Coprod::There(Coprod::Here(v))))) => E13::T5(v),
            Coprod::There(Coprod::There(Coprod::There(Coprod::There(Coprod::There(Coprod::Here(v)))))) => E13::T6(v),
            Coprod::There(Coprod::There(Coprod::There(Coprod::There(Coprod::There(Coprod::There(Coprod::Here(v))))))) => E13::T7(v),
            Coprod::There(Coprod::There(Coprod::There(Coprod::There(Coprod::There(Coprod::There(Coprod::There(Coprod::Here(v)))))))) => E13::T8(v),
            Coprod::There(Coprod::There(Coprod::There(Coprod::There(Coprod::There(Coprod::There(Coprod::There(Coprod::There(Coprod::Here(v))))))))) => E13::T9(v),
            Coprod::There(Coprod::There(Coprod::There(Coprod::There(Coprod::There(Coprod::There(Coprod::There(Coprod::There(Coprod::There(Coprod::Here(v)))))))))) => E13::T10(v),
            Coprod::There(Coprod::There(Coprod::There(Coprod::There(Coprod::There(Coprod::There(Coprod::There(Coprod::There(Coprod::There(Coprod::There(Coprod::Here(v))))))))))) => E13::T11(v),
            Coprod::There(Coprod::There(Coprod::There(Coprod::There(Coprod::There(Coprod::There(Coprod::There(Coprod::There(Coprod::There(Coprod::There(Coprod::There(Coprod::Here(v)))))))))))) => E13::T12(v),
            Coprod::There(Coprod::There(Coprod::There(Coprod::There(Coprod::There(Coprod::There(Coprod::There(Coprod::There(Coprod::There(Coprod::There(Coprod::There(Coprod::There(Coprod::Here(v))))))))))))) => E13::T13(v),
            Coprod::There(Coprod::There(Coprod::There(Coprod::There(Coprod::There(Coprod::There(Coprod::There(Coprod::There(Coprod::There(Coprod::There(Coprod::There(Coprod::There(Coprod::There(_))))))))))))) => arbitrary(),
        }
    }

    fn as_enum(s: &'a <Self::Variants as TypeList>::Sum) -> (e: E13<&'a T1, &'a T2, &'a T3, &'a T4, &'a T5, &'a T6, &'a T7, &'a T8, &'a T9, &'a T10, &'a T11, &'a T12, &'a T13>) {
        match s {
            Coprod::Here(v) => E13::T1(v),
            Coprod::There(Coprod::Here(v)) => E13::T2(v),
            Coprod::There(Coprod::There(Coprod::Here(v))) => E13::T3(v),
            Coprod::There(Coprod::There(Coprod::There(Coprod::Here(v)))) => E13::T4(v),
            Coprod::There(Coprod::There(Coprod::There(Coprod::There(Coprod::Here(v))))) => E13::T5(v),
            Coprod::There(Coprod::There(Coprod::There(Coprod::There(Coprod::There(Coprod::Here(v)))))) => E13::T6(v),
            Coprod::There(Coprod::There(Coprod::There(Coprod::There(Coprod::There(Coprod::There(Coprod::Here(v))))))) => E13::T7(v),
            Coprod::There(Coprod::There(Coprod::There(Coprod::There(Coprod::There(Coprod::There(Coprod::There(Coprod::Here(v)))))))) => E13::T8(v),
            Coprod::There(Coprod::There(Coprod::There(Coprod::There(Coprod::There(Coprod::There(Coprod::There(Coprod::There(Coprod::Here(v))))))))) => E13::T9(v),
            Coprod::There(Coprod::There(Coprod::There(Coprod::There(Coprod::There(Coprod::There(Coprod::There(Coprod::There(Coprod::There(Coprod::Here(v)))))))))) => E13::T10(v),
            Coprod::There(Coprod::There(Coprod::There(Coprod::There(Coprod::There(Coprod::There(Coprod::There(Coprod::There(Coprod::There(Coprod::There(Coprod::Here(v))))))))))) => E13::T11(v),
            Coprod::There(Coprod::There(Coprod::There(Coprod::There(Coprod::There(Coprod::There(Coprod::There(Coprod::There(Coprod::There(Coprod::There(Coprod::There(Coprod::Here(v)))))))))))) => E13::T12(v),
            Coprod::There(Coprod::There(Coprod::There(Coprod::There(Coprod::There(Coprod::There(Coprod::There(Coprod::There(Coprod::There(Coprod::There(Coprod::There(Coprod::There(Coprod::Here(v))))))))))))) => E13::T13(v),
            Coprod::There(Coprod::There(Coprod::There(Coprod::There(Coprod::There(Coprod::There(Coprod::There(Coprod::There(Coprod::There(Coprod::There(Coprod::There(Coprod::There(Coprod::There(_))))))))))))) => unreached(),
        }
    }
}

impl<T1, T2, T3, T4, T5, T6, T7, T8, T9, T10, T11, T12, T13> EnumRuntime for (T1, T2, T3, T4, T5, T6, T7, T8, T9, T10, T11, T12, T13) {
    open spec fn spec_from_enum(e: E13<T1, T2, T3, T4, T5, T6, T7, T8, T9, T10, T11, T12, T13>) -> <Self::Variants as TypeList>::Sum {
        match e {
            E13::T1(v) => Coprod::Here(v),
            E13::T2(v) => Coprod::There(Coprod::Here(v)),
            E13::T3(v) => Coprod::There(Coprod::There(Coprod::Here(v))),
            E13::T4(v) => Coprod::There(Coprod::There(Coprod::There(Coprod::Here(v)))),
            E13::T5(v) => Coprod::There(Coprod::There(Coprod::There(Coprod::There(Coprod::Here(v))))),
            E13::T6(v) => Coprod::There(Coprod::There(Coprod::There(Coprod::There(Coprod::There(Coprod::Here(v)))))),
            E13::T7(v) => Coprod::There(Coprod::There(Coprod::There(Coprod::There(Coprod::There(Coprod::There(Coprod::Here(v))))))),
            E13::T8(v) => Coprod::There(Coprod::There(Coprod::There(Coprod::There(Coprod::There(Coprod::There(Coprod::There(Coprod::Here(v)))))))),
            E13::T9(v) => Coprod::There(Coprod::There(Coprod::There(Coprod::There(Coprod::There(Coprod::There(Coprod::There(Coprod::There(Coprod::Here(v))))))))),
            E13::T10(v) => Coprod::There(Coprod::There(Coprod::There(Coprod::There(Coprod::There(Coprod::There(Coprod::There(Coprod::There(Coprod::There(Coprod::Here(v)))))))))),
            E13::T11(v) => Coprod::There(Coprod::There(Coprod::There(Coprod::There(Coprod::There(Coprod::There(Coprod::There(Coprod::There(Coprod::There(Coprod::There(Coprod::Here(v))))))))))),
            E13::T12(v) => Coprod::There(Coprod::There(Coprod::There(Coprod::There(Coprod::There(Coprod::There(Coprod::There(Coprod::There(Coprod::There(Coprod::There(Coprod::There(Coprod::Here(v)))))))))))),
            E13::T13(v) => Coprod::There(Coprod::There(Coprod::There(Coprod::There(Coprod::There(Coprod::There(Coprod::There(Coprod::There(Coprod::There(Coprod::There(Coprod::There(Coprod::There(Coprod::Here(v))))))))))))),
        }
    }

    fn from_enum(e: E13<T1, T2, T3, T4, T5, T6, T7, T8, T9, T10, T11, T12, T13>) -> (s: <Self::Variants as TypeList>::Sum) {
        match e {
            E13::T1(v) => Coprod::Here(v),
            E13::T2(v) => Coprod::There(Coprod::Here(v)),
            E13::T3(v) => Coprod::There(Coprod::There(Coprod::Here(v))),
            E13::T4(v) => Coprod::There(Coprod::There(Coprod::There(Coprod::Here(v)))),
            E13::T5(v) => Coprod::There(Coprod::There(Coprod::There(Coprod::There(Coprod::Here(v))))),
            E13::T6(v) => Coprod::There(Coprod::There(Coprod::There(Coprod::There(Coprod::There(Coprod::Here(v)))))),
            E13::T7(v) => Coprod::There(Coprod::There(Coprod::There(Coprod::There(Coprod::There(Coprod::There(Coprod::Here(v))))))),
            E13::T8(v) => Coprod::There(Coprod::There(Coprod::There(Coprod::There(Coprod::There(Coprod::There(Coprod::There(Coprod::Here(v)))))))),
            E13::T9(v) => Coprod::There(Coprod::There(Coprod::There(Coprod::There(Coprod::There(Coprod::There(Coprod::There(Coprod::There(Coprod::Here(v))))))))),
            E13::T10(v) => Coprod::There(Coprod::There(Coprod::There(Coprod::There(Coprod::There(Coprod::There(Coprod::There(Coprod::There(Coprod::There(Coprod::Here(v)))))))))),
            E13::T11(v) => Coprod::There(Coprod::There(Coprod::There(Coprod::There(Coprod::There(Coprod::There(Coprod::There(Coprod::There(Coprod::There(Coprod::There(Coprod::Here(v))))))))))),
            E13::T12(v) => Coprod::There(Coprod::There(Coprod::There(Coprod::There(Coprod::There(Coprod::There(Coprod::There(Coprod::There(Coprod::There(Coprod::There(Coprod::There(Coprod::Here(v)))))))))))),
            E13::T13(v) => Coprod::There(Coprod::There(Coprod::There(Coprod::There(Coprod::There(Coprod::There(Coprod::There(Coprod::There(Coprod::There(Coprod::There(Coprod::There(Coprod::There(Coprod::Here(v))))))))))))),
        }
    }

    proof fn lemma_from_to_enum(s: <Self::Variants as TypeList>::Sum) {
    }

    proof fn lemma_to_from_enum(e: E13<T1, T2, T3, T4, T5, T6, T7, T8, T9, T10, T11, T12, T13>) {
    }
}

impl<T1, T2, T3, T4, T5, T6, T7, T8, T9, T10, T11, T12, T13> TupleForm for Cons<T1, Cons<T2, Cons<T3, Cons<T4, Cons<T5, Cons<T6, Cons<T7, Cons<T8, Cons<T9, Cons<T10, Cons<T11, Cons<T12, Cons<T13, End>>>>>>>>>>>>> {
    type Tuple = (T1, T2, T3, T4, T5, T6, T7, T8, T9, T10, T11, T12, T13);
}


impl<T1, T2, T3, T4, T5, T6, T7, T8, T9, T10, T11, T12, T13, T14> TypeSet for (T1, T2, T3, T4, T5, T6, T7, T8, T9, T10, T11, T12, T13, T14) {
    type Sum = Coprod<T1, Coprod<T2, Coprod<T3, Coprod<T4, Coprod<T5, Coprod<T6, Coprod<T7, Coprod<T8, Coprod<T9, Coprod<T10, Coprod<T11, Coprod<T12, Coprod<T13, Coprod<T14, E0>>>>>>>>>>>>>>;
    type Variants = Cons<T1, Cons<T2, Cons<T3, Cons<T4, Cons<T5, Cons<T6, Cons<T7, Cons<T8, Cons<T9, Cons<T10, Cons<T11, Cons<T12, Cons<T13, Cons<T14, End>>>>>>>>>>>>>>;
    type Enum = E14<T1, T2, T3, T4, T5, T6, T7, T8, T9, T10, T11, T12, T13, T14>;

    open spec fn spec_to_enum(s: <Self::Variants as TypeList>::Sum) -> E14<T1, T2, T3, T4, T5, T6, T7, T8, T9, T10, T11, T12, T13, T14> {
        match s {
            Coprod::Here(v) => E14::T1(v),
            Coprod::There(Coprod::Here(v)) => E14::T2(v),
            Coprod::There(Coprod::There(Coprod::Here(v))) => E14::T3(v),
            Coprod::There(Coprod::There(Coprod::There(Coprod::Here(v)))) => E14::T4(v),
            Coprod::There(Coprod::There(Coprod::There(Coprod::There(Coprod::Here(v))))) => E14::T5(v),
            Coprod::There(Coprod::There(Coprod::There(Coprod::There(Coprod::There(Coprod::Here(v)))))) => E14::T6(v),
            Coprod::There(Coprod::There(Coprod::There(Coprod::There(Coprod::There(Coprod::There(Coprod::Here(v))))))) => E14::T7(v),
            Coprod::There(Coprod::There(Coprod::There(Coprod::There(Coprod::There(Coprod::There(Coprod::There(Coprod::Here(v)))))))) => E14::T8(v),
            Coprod::There(Coprod::There(Coprod::There(Coprod::There(Coprod::There(Coprod::There(Coprod::There(Coprod::There(Coprod::Here(v))))))))) => E14::T9(v),
            Coprod::There(Coprod::There(Coprod::There(Coprod::There(Coprod::There(Coprod::There(Coprod::There(Coprod::There(Coprod::There(Coprod::Here(v)))))))))) => E14::T10(v),
            Coprod::There(Coprod::There(Coprod::There(Coprod::There(Coprod::There(Coprod::There(Coprod::There(Coprod::There(Coprod::There(Coprod::There(Coprod::Here(v))))))))))) => E14::T11(v),
            Coprod::There(Coprod::There(Coprod::There(Coprod::There(Coprod::There(Coprod::There(Coprod::There(Coprod::There(Coprod::There(Coprod::There(Coprod::There(Coprod::Here(v)))))))))))) => E14::T12(v),
            Coprod::There(Coprod::There(Coprod::There(Coprod::There(Coprod::There(Coprod::There(Coprod::There(Coprod::There(Coprod::There(Coprod::There(Coprod::There(Coprod::There(Coprod::Here(v))))))))))))) => E14::T13(v),
            Coprod::There(Coprod::There(Coprod::There(Coprod::There(Coprod::There(Coprod::There(Coprod::There(Coprod::There(Coprod::There(Coprod::There(Coprod::There(Coprod::There(Coprod::There(Coprod::Here(v)))))))))))))) => E14::T14(v),
            Coprod::There(Coprod::There(Coprod::There(Coprod::There(Coprod::There(Coprod::There(Coprod::There(Coprod::There(Coprod::There(Coprod::There(Coprod::There(Coprod::There(Coprod::There(Coprod::There(_)))))))))))))) => arbitrary(),
        }
    }

    open spec fn enum_tag(e: E14<T1, T2, T3, T4, T5, T6, T7, T8, T9, T10, T11, T12, T13, T14>) -> nat {
        match e {
            E14::T1(_) => 0,
            E14::T2(_) => 1,
            E14::T3(_) => 2,
            E14::T4(_) => 3,
            E14::T5(_) => 4,
            E14::T6(_) => 5,
            E14::T7(_) => 6,
            E14::T8(_) => 7,
            E14::T9(_) => 8,
            E14::T10(_) => 9,
            E14::T11(_) => 10,
            E14::T12(_) => 11,
            E14::T13(_) => 12,
            E14::T14(_) => 13,
        }
    }

    fn to_enum(s: <Self::Variants as TypeList>::Sum) -> (e: E14<T1, T2, T3, T4, T5, T6, T7, T8, T9, T10, T11, T12, T13, T14>) {
        match s {
            Coprod::Here(v) => E14::T1(v),
            Coprod::There(Coprod::Here(v)) => E14::T2(v),
            Coprod::There(Coprod::There(Coprod::Here(v))) => E14::T3(v),
            Coprod::There(Coprod::There(Coprod::There(Coprod::Here(v)))) => E14::T4(v),
            Coprod::There(Coprod::There(Coprod::There(Coprod::There(Coprod::Here(v))))) => E14::T5(v),
            Coprod::There(Coprod::There(Coprod::There(Coprod::There(Coprod::There(Coprod::Here(v)))))) => E14::T6(v),
            Coprod::There(Coprod::There(Coprod::There(Coprod::There(Coprod::There(Coprod::There(Coprod::Here(v))))))) => E14::T7(v),
            Coprod::There(Coprod::There(Coprod::There(Coprod::There(Coprod::There(Coprod::There(Coprod::There(Coprod::Here(v)))))))) => E14::T8(v),
            Coprod::There(Coprod::There(Coprod::There(Coprod::There(Coprod::There(Coprod::There(Coprod::There(Coprod::There(Coprod::Here(v))))))))) => E14::T9(v),
            Coprod::There(Coprod::There(Coprod::There(Coprod::There(Coprod::There(Coprod::There(Coprod::There(Coprod::There(Coprod::There(Coprod::Here(v)))))))))) => E14::T10(v),
            Coprod::There(Coprod::There(Coprod::There(Coprod::There(Coprod::There(Coprod::There(Coprod::There(Coprod::There(Coprod::There(Coprod::There(Coprod::Here(v))))))))))) => E14::T11(v),
            Coprod::There(Coprod::There(Coprod::There(Coprod::There(Coprod::There(Coprod::There(Coprod::There(Coprod::There(Coprod::There(Coprod::There(Coprod::There(Coprod::Here(v)))))))))))) => E14::T12(v),
            Coprod::There(Coprod::There(Coprod::There(Coprod::There(Coprod::There(Coprod::There(Coprod::There(Coprod::There(Coprod::There(Coprod::There(Coprod::There(Coprod::There(Coprod::Here(v))))))))))))) => E14::T13(v),
            Coprod::There(Coprod::There(Coprod::There(Coprod::There(Coprod::There(Coprod::There(Coprod::There(Coprod::There(Coprod::There(Coprod::There(Coprod::There(Coprod::There(Coprod::There(Coprod::Here(v)))))))))))))) => E14::T14(v),
            Coprod::There(Coprod::There(Coprod::There(Coprod::There(Coprod::There(Coprod::There(Coprod::There(Coprod::There(Coprod::There(Coprod::There(Coprod::There(Coprod::There(Coprod::There(Coprod::There(_)))))))))))))) => unreached(),
        }
    }

}

impl<'a, T1: 'a, T2: 'a, T3: 'a, T4: 'a, T5: 'a, T6: 'a, T7: 'a, T8: 'a, T9: 'a, T10: 'a, T11: 'a, T12: 'a, T13: 'a, T14: 'a> EnumRef<'a> for (T1, T2, T3, T4, T5, T6, T7, T8, T9, T10, T11, T12, T13, T14) {
    type EnumRef = E14<&'a T1, &'a T2, &'a T3, &'a T4, &'a T5, &'a T6, &'a T7, &'a T8, &'a T9, &'a T10, &'a T11, &'a T12, &'a T13, &'a T14>;

    open spec fn spec_as_enum(s: &'a <Self::Variants as TypeList>::Sum) -> E14<&'a T1, &'a T2, &'a T3, &'a T4, &'a T5, &'a T6, &'a T7, &'a T8, &'a T9, &'a T10, &'a T11, &'a T12, &'a T13, &'a T14> {
        match s {
            Coprod::Here(v) => E14::T1(v),
            Coprod::There(Coprod::Here(v)) => E14::T2(v),
            Coprod::There(Coprod::There(Coprod::Here(v))) => E14::T3(v),
            Coprod::There(Coprod::There(Coprod::There(Coprod::Here(v)))) => E14::T4(v),
            Coprod::There(Coprod::There(Coprod::There(Coprod::There(Coprod::Here(v))))) => E14::T5(v),
            Coprod::There(Coprod::There(Coprod::There(Coprod::There(Coprod::There(Coprod::Here(v)))))) => E14::T6(v),
            Coprod::There(Coprod::There(Coprod::There(Coprod::There(Coprod::There(Coprod::There(Coprod::Here(v))))))) => E14::T7(v),
            Coprod::There(Coprod::There(Coprod::There(Coprod::There(Coprod::There(Coprod::There(Coprod::There(Coprod::Here(v)))))))) => E14::T8(v),
            Coprod::There(Coprod::There(Coprod::There(Coprod::There(Coprod::There(Coprod::There(Coprod::There(Coprod::There(Coprod::Here(v))))))))) => E14::T9(v),
            Coprod::There(Coprod::There(Coprod::There(Coprod::There(Coprod::There(Coprod::There(Coprod::There(Coprod::There(Coprod::There(Coprod::Here(v)))))))))) => E14::T10(v),
            Coprod::There(Coprod::There(Coprod::There(Coprod::There(Coprod::There(Coprod::There(Coprod::There(Coprod::There(Coprod::There(Coprod::There(Coprod::Here(v))))))))))) => E14::T11(v),
            Coprod::There(Coprod::There(Coprod::There(Coprod::There(Coprod::There(Coprod::There(Coprod::There(Coprod::There(Coprod::There(Coprod::There(Coprod::There(Coprod::Here(v)))))))))))) => E14::T12(v),
            Coprod::There(Coprod::There(Coprod::There(Coprod::There(Coprod::There(Coprod::There(Coprod::There(Coprod::There(Coprod::There(Coprod::There(Coprod::There(Coprod::There(Coprod::Here(v))))))))))))) => E14::T13(v),
            Coprod::There(Coprod::There(Coprod::There(Coprod::There(Coprod::There(Coprod::There(Coprod::There(Coprod::There(Coprod::There(Coprod::There(Coprod::There(Coprod::There(Coprod::There(Coprod::Here(v)))))))))))))) => E14::T14(v),
            Coprod::There(Coprod::There(Coprod::There(Coprod::There(Coprod::There(Coprod::There(Coprod::There(Coprod::There(Coprod::There(Coprod::There(Coprod::There(Coprod::There(Coprod::There(Coprod::There(_)))))))))))))) => arbitrary(),
        }
    }

    fn as_enum(s: &'a <Self::Variants as TypeList>::Sum) -> (e: E14<&'a T1, &'a T2, &'a T3, &'a T4, &'a T5, &'a T6, &'a T7, &'a T8, &'a T9, &'a T10, &'a T11, &'a T12, &'a T13, &'a T14>) {
        match s {
            Coprod::Here(v) => E14::T1(v),
            Coprod::There(Coprod::Here(v)) => E14::T2(v),
            Coprod::There(Coprod::There(Coprod::Here(v))) => E14::T3(v),
            Coprod::There(Coprod::There(Coprod::There(Coprod::Here(v)))) => E14::T4(v),
            Coprod::There(Coprod::There(Coprod::There(Coprod::There(Coprod::Here(v))))) => E14::T5(v),
            Coprod::There(Coprod::There(Coprod::There(Coprod::There(Coprod::There(Coprod::Here(v)))))) => E14::T6(v),
            Coprod::There(Coprod::There(Coprod::There(Coprod::There(Coprod::There(Coprod::There(Coprod::Here(v))))))) => E14::T7(v),
            Coprod::There(Coprod::There(Coprod::There(Coprod::There(Coprod::There(Coprod::There(Coprod::There(Coprod::Here(v)))))))) => E14::T8(v),
            Coprod::There(Coprod::There(Coprod::There(Coprod::There(Coprod::There(Coprod::There(Coprod::There(Coprod::There(Coprod::Here(v))))))))) => E14::T9(v),
            Coprod::There(Coprod::There(Coprod::There(Coprod::There(Coprod::There(Coprod::There(Coprod::There(Coprod::There(Coprod::There(Coprod::Here(v)))))))))) => E14::T10(v),
            Coprod::There(Coprod::There(Coprod::There(Coprod::There(Coprod::There(Coprod::There(Coprod::There(Coprod::There(Coprod::There(Coprod::There(Coprod::Here(v))))))))))) => E14::T11(v),
            Coprod::There(Coprod::There(Coprod::There(Coprod::There(Coprod::There(Coprod::There(Coprod::There(Coprod::There(Coprod::There(Coprod::There(Coprod::There(Coprod::Here(v)))))))))))) => E14::T12(v),
            Coprod::There(Coprod::There(Coprod::There(Coprod::There(Coprod::There(Coprod::There(Coprod::There(Coprod::There(Coprod::There(Coprod::There(Coprod::There(Coprod::There(Coprod::Here(v))))))))))))) => E14::T13(v),
            Coprod::There(Coprod::There(Coprod::There(Coprod::There(Coprod::There(Coprod::There(Coprod::There(Coprod::There(Coprod::There(Coprod::There(Coprod::There(Coprod::There(Coprod::There(Coprod::Here(v)))))))))))))) => E14::T14(v),
            Coprod::There(Coprod::There(Coprod::There(Coprod::There(Coprod::There(Coprod::There(Coprod::There(Coprod::There(Coprod::There(Coprod::There(Coprod::There(Coprod::There(Coprod::There(Coprod::There(_)))))))))))))) => unreached(),
        }
    }
}

impl<T1, T2, T3, T4, T5, T6, T7, T8, T9, T10, T11, T12, T13, T14> EnumRuntime for (T1, T2, T3, T4, T5, T6, T7, T8, T9, T10, T11, T12, T13, T14) {
    open spec fn spec_from_enum(e: E14<T1, T2, T3, T4, T5, T6, T7, T8, T9, T10, T11, T12, T13, T14>) -> <Self::Variants as TypeList>::Sum {
        match e {
            E14::T1(v) => Coprod::Here(v),
            E14::T2(v) => Coprod::There(Coprod::Here(v)),
            E14::T3(v) => Coprod::There(Coprod::There(Coprod::Here(v))),
            E14::T4(v) => Coprod::There(Coprod::There(Coprod::There(Coprod::Here(v)))),
            E14::T5(v) => Coprod::There(Coprod::There(Coprod::There(Coprod::There(Coprod::Here(v))))),
            E14::T6(v) => Coprod::There(Coprod::There(Coprod::There(Coprod::There(Coprod::There(Coprod::Here(v)))))),
            E14::T7(v) => Coprod::There(Coprod::There(Coprod::There(Coprod::There(Coprod::There(Coprod::There(Coprod::Here(v))))))),
            E14::T8(v) => Coprod::There(Coprod::There(Coprod::There(Coprod::There(Coprod::There(Coprod::There(Coprod::There(Coprod::Here(v)))))))),
            E14::T9(v) => Coprod::There(Coprod::There(Coprod::There(Coprod::There(Coprod::There(Coprod::There(Coprod::There(Coprod::There(Coprod::Here(v))))))))),
            E14::T10(v) => Coprod::There(Coprod::There(Coprod::There(Coprod::There(Coprod::There(Coprod::There(Coprod::There(Coprod::There(Coprod::There(Coprod::Here(v)))))))))),
            E14::T11(v) => Coprod::There(Coprod::There(Coprod::There(Coprod::There(Coprod::There(Coprod::There(Coprod::There(Coprod::There(Coprod::There(Coprod::There(Coprod::Here(v))))))))))),
            E14::T12(v) => Coprod::There(Coprod::There(Coprod::There(Coprod::There(Coprod::There(Coprod::There(Coprod::There(Coprod::There(Coprod::There(Coprod::There(Coprod::There(Coprod::Here(v)))))))))))),
            E14::T13(v) => Coprod::There(Coprod::There(Coprod::There(Coprod::There(Coprod::There(Coprod::There(Coprod::There(Coprod::There(Coprod::There(Coprod::There(Coprod::There(Coprod::There(Coprod::Here(v))))))))))))),
            E14::T14(v) => Coprod::There(Coprod::There(Coprod::There(Coprod::There(Coprod::There(Coprod::There(Coprod::There(Coprod::There(Coprod::There(Coprod::There(Coprod::There(Coprod::There(Coprod::There(Coprod::Here(v)))))))))))))),
        }
    }

    fn from_enum(e: E14<T1, T2, T3, T4, T5, T6, T7, T8, T9, T10, T11, T12, T13, T14>) -> (s: <Self::Variants as TypeList>::Sum) {
        match e {
            E14::T1(v) => Coprod::Here(v),
            E14::T2(v) => Coprod::There(Coprod::Here(v)),
            E14::T3(v) => Coprod::There(Coprod::There(Coprod::Here(v))),
            E14::T4(v) => Coprod::There(Coprod::There(Coprod::There(Coprod::Here(v)))),
            E14::T5(v) => Coprod::There(Coprod::There(Coprod::There(Coprod::There(Coprod::Here(v))))),
            E14::T6(v) => Coprod::There(Coprod::There(Coprod::There(Coprod::There(Coprod::There(Coprod::Here(v)))))),
            E14::T7(v) => Coprod::There(Coprod::There(Coprod::There(Coprod::There(Coprod::There(Coprod::There(Coprod::Here(v))))))),
            E14::T8(v) => Coprod::There(Coprod::There(Coprod::There(Coprod::There(Coprod::There(Coprod::There(Coprod::There(Coprod::Here(v)))))))),
            E14::T9(v) => Coprod::There(Coprod::There(Coprod::There(Coprod::There(Coprod::There(Coprod::There(Coprod::There(Coprod::There(Coprod::Here(v))))))))),
            E14::T10(v) => Coprod::There(Coprod::There(Coprod::There(Coprod::There(Coprod::There(Coprod::There(Coprod::There(Coprod::There(Coprod::There(Coprod::Here(v)))))))))),
            E14::T11(v) => Coprod::There(Coprod::There(Coprod::There(Coprod::There(Coprod::There(Coprod::There(Coprod::There(Coprod::There(Coprod::There(Coprod::There(Coprod::Here(v))))))))))),
            E14::T12(v) => Coprod::There(Coprod::There(Coprod::There(Coprod::There(Coprod::There(Coprod::There(Coprod::There(Coprod::There(Coprod::There(Coprod::There(Coprod::There(Coprod::Here(v)))))))))))),
            E14::T13(v) => Coprod::There(Coprod::There(Coprod::There(Coprod::There(Coprod::There(Coprod::There(Coprod::There(Coprod::There(Coprod::There(Coprod::There(Coprod::There(Coprod::There(Coprod::Here(v))))))))))))),
            E14::T14(v) => Coprod::There(Coprod::There(Coprod::There(Coprod::There(Coprod::There(Coprod::There(Coprod::There(Coprod::There(Coprod::There(Coprod::There(Coprod::There(Coprod::There(Coprod::There(Coprod::Here(v)))))))))))))),
        }
    }

    proof fn lemma_from_to_enum(s: <Self::Variants as TypeList>::Sum) {
    }

    proof fn lemma_to_from_enum(e: E14<T1, T2, T3, T4, T5, T6, T7, T8, T9, T10, T11, T12, T13, T14>) {
    }
}

impl<T1, T2, T3, T4, T5, T6, T7, T8, T9, T10, T11, T12, T13, T14> TupleForm for Cons<T1, Cons<T2, Cons<T3, Cons<T4, Cons<T5, Cons<T6, Cons<T7, Cons<T8, Cons<T9, Cons<T10, Cons<T11, Cons<T12, Cons<T13, Cons<T14, End>>>>>>>>>>>>>> {
    type Tuple = (T1, T2, T3, T4, T5, T6, T7, T8, T9, T10, T11, T12, T13, T14);
}


impl<T1, T2, T3, T4, T5, T6, T7, T8, T9, T10, T11, T12, T13, T14, T15> TypeSet for (T1, T2, T3, T4, T5, T6, T7, T8, T9, T10, T11, T12, T13, T14, T15) {
    type Sum = Coprod<T1, Coprod<T2, Coprod<T3, Coprod<T4, Coprod<T5, Coprod<T6, Coprod<T7, Coprod<T8, Coprod<T9, Coprod<T10, Coprod<T11, Coprod<T12, Coprod<T13, Coprod<T14, Coprod<T15, E0>>>>>>>>>>>>>>>;
    type Variants = Cons<T1, Cons<T2, Cons<T3, Cons<T4, Cons<T5, Cons<T6, Cons<T7, Cons<T8, Cons<T9, Cons<T10, Cons<T11, Cons<T12, Cons<T13, Cons<T14, Cons<T15, End>>>>>>>>>>>>>>>;
    type Enum = E15<T1, T2, T3, T4, T5, T6, T7, T8, T9, T10, T11, T12, T13, T14, T15>;

    open spec fn spec_to_enum(s: <Self::Variants as TypeList>::Sum) -> E15<T1, T2, T3, T4, T5, T6, T7, T8, T9, T10, T11, T12, T13, T14, T15> {
        match s {
            Coprod::Here(v) => E15::T1(v),
            Coprod::There(Coprod::Here(v)) => E15::T2(v),
            Coprod::There(Coprod::There(Coprod::Here(v))) => E15::T3(v),
            Coprod::There(Coprod::There(Coprod::There(Coprod::Here(v)))) => E15::T4(v),
            Coprod::There(Coprod::There(Coprod::There(Coprod::There(Coprod::Here(v))))) => E15::T5(v),
            Coprod::There(Coprod::There(Coprod::There(Coprod::There(Coprod::There(Coprod::Here(v)))))) => E15::T6(v),
            Coprod::There(Coprod::There(Coprod::There(Coprod::There(Coprod::There(Coprod::There(Coprod::Here(v))))))) => E15::T7(v),
            Coprod::There(Coprod::There(Coprod::There(Coprod::There(Coprod::There(Coprod::There(Coprod::There(Coprod::Here(v)))))))) => E15::T8(v),
            Coprod::There(Coprod::There(Coprod::There(Coprod::There(Coprod::There(Coprod::There(Coprod::There(Coprod::There(Coprod::Here(v))))))))) => E15::T9(v),
            Coprod::There(Coprod::There(Coprod::There(Coprod::There(Coprod::There(Coprod::There(Coprod::There(Coprod::There(Coprod::There(Coprod::Here(v)))))))))) => E15::T10(v),
            Coprod::There(Coprod::There(Coprod::There(Coprod::There(Coprod::There(Coprod::There(Coprod::There(Coprod::There(Coprod::There(Coprod::There(Coprod::Here(v))))))))))) => E15::T11(v),
            Coprod::There(Coprod::There(Coprod::There(Coprod::There(Coprod::There(Coprod::There(Coprod::There(Coprod::There(Coprod::There(Coprod::There(Coprod::There(Coprod::Here(v)))))))))))) => E15::T12(v),
            Coprod::There(Coprod::There(Coprod::There(Coprod::There(Coprod::There(Coprod::There(Coprod::There(Coprod::There(Coprod::There(Coprod::There(Coprod::There(Coprod::There(Coprod::Here(v))))))))))))) => E15::T13(v),
            Coprod::There(Coprod::There(Coprod::There(Coprod::There(Coprod::There(Coprod::There(Coprod::There(Coprod::There(Coprod::There(Coprod::There(Coprod::There(Coprod::There(Coprod::There(Coprod::Here(v)))))))))))))) => E15::T14(v),
            Coprod::There(Coprod::There(Coprod::There(Coprod::There(Coprod::There(Coprod::There(Coprod::There(Coprod::There(Coprod::There(Coprod::There(Coprod::There(Coprod::There(Coprod::There(Coprod::There(Coprod::Here(v))))))))))))))) => E15::T15(v),
            Coprod::There(Coprod::There(Coprod::There(Coprod::There(Coprod::There(Coprod::There(Coprod::There(Coprod::There(Coprod::There(Coprod::There(Coprod::There(Coprod::There(Coprod::There(Coprod::There(Coprod::There(_))))))))))))))) => arbitrary(),
        }
    }

    open spec fn enum_tag(e: E15<T1, T2, T3, T4, T5, T6, T7, T8, T9, T10, T11, T12, T13, T14, T15>) -> nat {
        match e {
            E15::T1(_) => 0,
            E15::T2(_) => 1,
            E15::T3(_) => 2,
            E15::T4(_) => 3,
            E15::T5(_) => 4,
            E15::T6(_) => 5,
            E15::T7(_) => 6,
            E15::T8(_) => 7,
            E15::T9(_) => 8,
            E15::T10(_) => 9,
            E15::T11(_) => 10,
            E15::T12(_) => 11,
            E15::T13(_) => 12,
            E15::T14(_) => 13,
            E15::T15(_) => 14,
        }
    }

    fn to_enum(s: <Self::Variants as TypeList>::Sum) -> (e: E15<T1, T2, T3, T4, T5, T6, T7, T8, T9, T10, T11, T12, T13, T14, T15>) {
        match s {
            Coprod::Here(v) => E15::T1(v),
            Coprod::There(Coprod::Here(v)) => E15::T2(v),
            Coprod::There(Coprod::There(Coprod::Here(v))) => E15::T3(v),
            Coprod::There(Coprod::There(Coprod::There(Coprod::Here(v)))) => E15::T4(v),
            Coprod::There(Coprod::There(Coprod::There(Coprod::There(Coprod::Here(v))))) => E15::T5(v),
            Coprod::There(Coprod::There(Coprod::There(Coprod::There(Coprod::There(Coprod::Here(v)))))) => E15::T6(v),
            Coprod::There(Coprod::There(Coprod::There(Coprod::There(Coprod::There(Coprod::There(Coprod::Here(v))))))) => E15::T7(v),
            Coprod::There(Coprod::There(Coprod::There(Coprod::There(Coprod::There(Coprod::There(Coprod::There(Coprod::Here(v)))))))) => E15::T8(v),
            Coprod::There(Coprod::There(Coprod::There(Coprod::There(Coprod::There(Coprod::There(Coprod::There(Coprod::There(Coprod::Here(v))))))))) => E15::T9(v),
            Coprod::There(Coprod::There(Coprod::There(Coprod::There(Coprod::There(Coprod::There(Coprod::There(Coprod::There(Coprod::There(Coprod::Here(v)))))))))) => E15::T10(v),
            Coprod::There(Coprod::There(Coprod::There(Coprod::There(Coprod::There(Coprod::There(Coprod::There(Coprod::There(Coprod::There(Coprod::There(Coprod::Here(v))))))))))) => E15::T11(v),
            Coprod::There(Coprod::There(Coprod::There(Coprod::There(Coprod::There(Coprod::There(Coprod::There(Coprod::There(Coprod::There(Coprod::There(Coprod::There(Coprod::Here(v)))))))))))) => E15::T12(v),
            Coprod::There(Coprod::There(Coprod::There(Coprod::There(Coprod::There(Coprod::There(Coprod::There(Coprod::There(Coprod::There(Coprod::There(Coprod::There(Coprod::There(Coprod::Here(v))))))))))))) => E15::T13(v),
            Coprod::There(Coprod::There(Coprod::There(Coprod::There(Coprod::There(Coprod::There(Coprod::There(Coprod::There(Coprod::There(Coprod::There(Coprod::There(Coprod::There(Coprod::There(Coprod::Here(v)))))))))))))) => E15::T14(v),
            Coprod::There(Coprod::There(Coprod::There(Coprod::There(Coprod::There(Coprod::There(Coprod::There(Coprod::There(Coprod::There(Coprod::There(Coprod::There(Coprod::There(Coprod::There(Coprod::There(Coprod::Here(v))))))))))))))) => E15::T15(v),
            Coprod::There(Coprod::There(Coprod::There(Coprod::There(Coprod::There(Coprod::There(Coprod::There(Coprod::There(Coprod::There(Coprod::There(Coprod::There(Coprod::There(Coprod::There(Coprod::There(Coprod::There(_))))))))))))))) => unreached(),
        }
    }

}

impl<'a, T1: 'a, T2: 'a, T3: 'a, T4: 'a, T5: 'a, T6: 'a, T7: 'a, T8: 'a, T9: 'a, T10: 'a, T11: 'a, T12: 'a, T13: 'a, T14: 'a, T15: 'a> EnumRef<'a> for (T1, T2, T3, T4, T5, T6, T7, T8, T9, T10, T11, T12, T13, T14, T15) {
    type EnumRef = E15<&'a T1, &'a T2, &'a T3, &'a T4, &'a T5, &'a T6, &'a T7, &'a T8, &'a T9, &'a T10, &'a T11, &'a T12, &'a T13, &'a T14, &'a T15>;

    open spec fn spec_as_enum(s: &'a <Self::Variants as TypeList>::Sum) -> E15<&'a T1, &'a T2, &'a T3, &'a T4, &'a T5, &'a T6, &'a T7, &'a T8, &'a T9, &'a T10, &'a T11, &'a T12, &'a T13, &'a T14, &'a T15> {
        match s {
            Coprod::Here(v) => E15::T1(v),
            Coprod::There(Coprod::Here(v)) => E15::T2(v),
            Coprod::There(Coprod::There(Coprod::Here(v))) => E15::T3(v),
            Coprod::There(Coprod::There(Coprod::There(Coprod::Here(v)))) => E15::T4(v),
            Coprod::There(Coprod::There(Coprod::There(Coprod::There(Coprod::Here(v))))) => E15::T5(v),
            Coprod::There(Coprod::There(Coprod::There(Coprod::There(Coprod::There(Coprod::Here(v)))))) => E15::T6(v),
            Coprod::There(Coprod::There(Coprod::There(Coprod::There(Coprod::There(Coprod::There(Coprod::Here(v))))))) => E15::T7(v),
            Coprod::There(Coprod::There(Coprod::There(Coprod::There(Coprod::There(Coprod::There(Coprod::There(Coprod::Here(v)))))))) => E15::T8(v),
            Coprod::There(Coprod::There(Coprod::There(Coprod::There(Coprod::There(Coprod::There(Coprod::There(Coprod::There(Coprod::Here(v))))))))) => E15::T9(v),
            Coprod::There(Coprod::There(Coprod::There(Coprod::There(Coprod::There(Coprod::There(Coprod::There(Coprod::There(Coprod::There(Coprod::Here(v)))))))))) => E15::T10(v),
            Coprod::There(Coprod::There(Coprod::There(Coprod::There(Coprod::There(Coprod::There(Coprod::There(Coprod::There(Coprod::There(Coprod::There(Coprod::Here(v))))))))))) => E15::T11(v),
            Coprod::There(Coprod::There(Coprod::There(Coprod::There(Coprod::There(Coprod::There(Coprod::There(Coprod::There(Coprod::There(Coprod::There(Coprod::There(Coprod::Here(v)))))))))))) => E15::T12(v),
            Coprod::There(Coprod::There(Coprod::There(Coprod::There(Coprod::There(Coprod::There(Coprod::There(Coprod::There(Coprod::There(Coprod::There(Coprod::There(Coprod::There(Coprod::Here(v))))))))))))) => E15::T13(v),
            Coprod::There(Coprod::There(Coprod::There(Coprod::There(Coprod::There(Coprod::There(Coprod::There(Coprod::There(Coprod::There(Coprod::There(Coprod::There(Coprod::There(Coprod::There(Coprod::Here(v)))))))))))))) => E15::T14(v),
            Coprod::There(Coprod::There(Coprod::There(Coprod::There(Coprod::There(Coprod::There(Coprod::There(Coprod::There(Coprod::There(Coprod::There(Coprod::There(Coprod::There(Coprod::There(Coprod::There(Coprod::Here(v))))))))))))))) => E15::T15(v),
            Coprod::There(Coprod::There(Coprod::There(Coprod::There(Coprod::There(Coprod::There(Coprod::There(Coprod::There(Coprod::There(Coprod::There(Coprod::There(Coprod::There(Coprod::There(Coprod::There(Coprod::There(_))))))))))))))) => arbitrary(),
        }
    }

    fn as_enum(s: &'a <Self::Variants as TypeList>::Sum) -> (e: E15<&'a T1, &'a T2, &'a T3, &'a T4, &'a T5, &'a T6, &'a T7, &'a T8, &'a T9, &'a T10, &'a T11, &'a T12, &'a T13, &'a T14, &'a T15>) {
        match s {
            Coprod::Here(v) => E15::T1(v),
            Coprod::There(Coprod::Here(v)) => E15::T2(v),
            Coprod::There(Coprod::There(Coprod::Here(v))) => E15::T3(v),
            Coprod::There(Coprod::There(Coprod::There(Coprod::Here(v)))) => E15::T4(v),
            Coprod::There(Coprod::There(Coprod::There(Coprod::There(Coprod::Here(v))))) => E15::T5(v),
            Coprod::There(Coprod::There(Coprod::There(Coprod::There(Coprod::There(Coprod::Here(v)))))) => E15::T6(v),
            Coprod::There(Coprod::There(Coprod::There(Coprod::There(Coprod::There(Coprod::There(Coprod::Here(v))))))) => E15::T7(v),
            Coprod::There(Coprod::There(Coprod::There(Coprod::There(Coprod::There(Coprod::There(Coprod::There(Coprod::Here(v)))))))) => E15::T8(v),
            Coprod::There(Coprod::There(Coprod::There(Coprod::There(Coprod::There(Coprod::There(Coprod::There(Coprod::There(Coprod::Here(v))))))))) => E15::T9(v),
            Coprod::There(Coprod::There(Coprod::There(Coprod::There(Coprod::There(Coprod::There(Coprod::There(Coprod::There(Coprod::There(Coprod::Here(v)))))))))) => E15::T10(v),
            Coprod::There(Coprod::There(Coprod::There(Coprod::There(Coprod::There(Coprod::There(Coprod::There(Coprod::There(Coprod::There(Coprod::There(Coprod::Here(v))))))))))) => E15::T11(v),
            Coprod::There(Coprod::There(Coprod::There(Coprod::There(Coprod::There(Coprod::There(Coprod::There(Coprod::There(Coprod::There(Coprod::There(Coprod::There(Coprod::Here(v)))))))))))) => E15::T12(v),
            Coprod::There(Coprod::There(Coprod::There(Coprod::There(Coprod::There(Coprod::There(Coprod::There(Coprod::There(Coprod::There(Coprod::There(Coprod::There(Coprod::There(Coprod::Here(v))))))))))))) => E15::T13(v),
            Coprod::There(Coprod::There(Coprod::There(Coprod::There(Coprod::There(Coprod::There(Coprod::There(Coprod::There(Coprod::There(Coprod::There(Coprod::There(Coprod::There(Coprod::There(Coprod::Here(v)))))))))))))) => E15::T14(v),
            Coprod::There(Coprod::There(Coprod::There(Coprod::There(Coprod::There(Coprod::There(Coprod::There(Coprod::There(Coprod::There(Coprod::There(Coprod::There(Coprod::There(Coprod::There(Coprod::There(Coprod::Here(v))))))))))))))) => E15::T15(v),
            Coprod::There(Coprod::There(Coprod::There(Coprod::There(Coprod::There(Coprod::There(Coprod::There(Coprod::There(Coprod::There(Coprod::There(Coprod::There(Coprod::There(Coprod::There(Coprod::There(Coprod::There(_))))))))))))))) => unreached(),
        }
    }
}

impl<T1, T2, T3, T4, T5, T6, T7, T8, T9, T10, T11, T12, T13, T14, T15> EnumRuntime for (T1, T2, T3, T4, T5, T6, T7, T8, T9, T10, T11, T12, T13, T14, T15) {
    open spec fn spec_from_enum(e: E15<T1, T2, T3, T4, T5, T6, T7, T8, T9, T10, T11, T12, T13, T14, T15>) -> <Self::Variants as TypeList>::Sum {
        match e {
            E15::T1(v) => Coprod::Here(v),
            E15::T2(v) => Coprod::There(Coprod::Here(v)),
            E15::T3(v) => Coprod::There(Coprod::There(Coprod::Here(v))),
            E15::T4(v) => Coprod::There(Coprod::There(Coprod::There(Coprod::Here(v)))),
            E15::T5(v) => Coprod::There(Coprod::There(Coprod::There(Coprod::There(Coprod::Here(v))))),
            E15::T6(v) => Coprod::There(Coprod::There(Coprod::There(Coprod::There(Coprod::There(Coprod::Here(v)))))),
            E15::T7(v) => Coprod::There(Coprod::There(Coprod::There(Coprod::There(Coprod::There(Coprod::There(Coprod::Here(v))))))),
            E15::T8(v) => Coprod::There(Coprod::There(Coprod::There(Coprod::There(Coprod::There(Coprod::There(Coprod::There(Coprod::Here(v)))))))),
            E15::T9(v) => Coprod::There(Coprod::There(Coprod::There(Coprod::There(Coprod::There(Coprod::There(Coprod::There(Coprod::There(Coprod::Here(v))))))))),
            E15::T10(v) => Coprod::There(Coprod::There(Coprod::There(Coprod::There(Coprod::There(Coprod::There(Coprod::There(Coprod::There(Coprod::There(Coprod::Here(v)))))))))),
            E15::T11(v) => Coprod::There(Coprod::There(Coprod::There(Coprod::There(Coprod::There(Coprod::There(Coprod::There(Coprod::There(Coprod::There(Coprod::There(Coprod::Here(v))))))))))),
            E15::T12(v) => Coprod::There(Coprod::There(Coprod::There(Coprod::There(Coprod::There(Coprod::There(Coprod::There(Coprod::There(Coprod::There(Coprod::There(Coprod::There(Coprod::Here(v)))))))))))),
            E15::T13(v) => Coprod::There(Coprod::There(Coprod::There(Coprod::There(Coprod::There(Coprod::There(Coprod::There(Coprod::There(Coprod::There(Coprod::There(Coprod::There(Coprod::There(Coprod::Here(v))))))))))))),
            E15::T14(v) => Coprod::There(Coprod::There(Coprod::There(Coprod::There(Coprod::There(Coprod::There(Coprod::There(Coprod::There(Coprod::There(Coprod::There(Coprod::There(Coprod::There(Coprod::There(Coprod::Here(v)))))))))))))),
            E15::T15(v) => Coprod::There(Coprod::There(Coprod::There(Coprod::There(Coprod::There(Coprod::There(Coprod::There(Coprod::There(Coprod::There(Coprod::There(Coprod::There(Coprod::There(Coprod::There(Coprod::There(Coprod::Here(v))))))))))))))),
        }
    }

    fn from_enum(e: E15<T1, T2, T3, T4, T5, T6, T7, T8, T9, T10, T11, T12, T13, T14, T15>) -> (s: <Self::Variants as TypeList>::Sum) {
        match e {
            E15::T1(v) => Coprod::Here(v),
            E15::T2(v) => Coprod::There(Coprod::Here(v)),
            E15::T3(v) => Coprod::There(Coprod::There(Coprod::Here(v))),
            E15::T4(v) => Coprod::There(Coprod::There(Coprod::There(Coprod::Here(v)))),
            E15::T5(v) => Coprod::There(Coprod::There(Coprod::There(Coprod::There(Coprod::Here(v))))),
            E15::T6(v) => Coprod::There(Coprod::There(Coprod::There(Coprod::There(Coprod::There(Coprod::Here(v)))))),
            E15::T7(v) => Coprod::There(Coprod::There(Coprod::There(Coprod::There(Coprod::There(Coprod::There(Coprod::Here(v))))))),
            E15::T8(v) => Coprod::There(Coprod::There(Coprod::There(Coprod::There(Coprod::There(Coprod::There(Coprod::There(Coprod::Here(v)))))))),
            E15::T9(v) => Coprod::There(Coprod::There(Coprod::There(Coprod::There(Coprod::There(Coprod::There(Coprod::There(Coprod::There(Coprod::Here(v))))))))),
            E15::T10(v) => Coprod::There(Coprod::There(Coprod::There(Coprod::There(Coprod::There(Coprod::There(Coprod::There(Coprod::There(Coprod::There(Coprod::Here(v)))))))))),
            E15::T11(v) => Coprod::There(Coprod::There(Coprod::There(Coprod::There(Coprod::There(Coprod::There(Coprod::There(Coprod::There(Coprod::There(Coprod::There(Coprod::Here(v))))))))))),
            E15::T12(v) => Coprod::There(Coprod::There(Coprod::There(Coprod::There(Coprod::There(Coprod::There(Coprod::There(Coprod::There(Coprod::There(Coprod::There(Coprod::There(Coprod::Here(v)))))))))))),
            E15::T13(v) => Coprod::There(Coprod::There(Coprod::There(Coprod::There(Coprod::There(Coprod::There(Coprod::There(Coprod::There(Coprod::There(Coprod::There(Coprod::There(Coprod::There(Coprod::Here(v))))))))))))),
            E15::T14(v) => Coprod::There(Coprod::There(Coprod::There(Coprod::There(Coprod::There(Coprod::There(Coprod::There(Coprod::There(Coprod::There(Coprod::There(Coprod::There(Coprod::There(Coprod::There(Coprod::Here(v)))))))))))))),
            E15::T15(v) => Coprod::There(Coprod::There(Coprod::There(Coprod::There(Coprod::There(Coprod::There(Coprod::There(Coprod::There(Coprod::There(Coprod::There(Coprod::There(Coprod::There(Coprod::There(Coprod::There(Coprod::Here(v))))))))))))))),
        }
    }

    proof fn lemma_from_to_enum(s: <Self::Variants as TypeList>::Sum) {
    }

    proof fn lemma_to_from_enum(e: E15<T1, T2, T3, T4, T5, T6, T7, T8, T9, T10, T11, T12, T13, T14, T15>) {
    }
}

impl<T1, T2, T3, T4, T5, T6, T7, T8, T9, T10, T11, T12, T13, T14, T15> TupleForm for Cons<T1, Cons<T2, Cons<T3, Cons<T4, Cons<T5, Cons<T6, Cons<T7, Cons<T8, Cons<T9, Cons<T10, Cons<T11, Cons<T12, Cons<T13, Cons<T14, Cons<T15, End>>>>>>>>>>>>>>> {
    type Tuple = (T1, T2, T3, T4, T5, T6, T7, T8, T9, T10, T11, T12, T13, T14, T15);
}


impl<T1, T2, T3, T4, T5, T6, T7, T8, T9, T10, T11, T12, T13, T14, T15, T16> TypeSet for (T1, T2, T3, T4, T5, T6, T7, T8, T9, T10, T11, T12, T13, T14, T15, T16) {
    type Sum = Coprod<T1, Coprod<T2, Coprod<T3, Coprod<T4, Coprod<T5, Coprod<T6, Coprod<T7, Coprod<T8, Coprod<T9, Coprod<T10, Coprod<T11, Coprod<T12, Coprod<T13, Coprod<T14, Coprod<T15, Coprod<T16, E0>>>>>>>>>>>>>>>>;
    type Variants = Cons<T1, Cons<T2, Cons<T3, Cons<T4, Cons<T5, Cons<T6, Cons<T7, Cons<T8, Cons<T9, Cons<T10, Cons<T11, Cons<T12, Cons<T13, Cons<T14, Cons<T15, Cons<T16, End>>>>>>>>>>>>>>>>;
    type Enum = E16<T1, T2, T3, T4, T5, T6, T7, T8, T9, T10, T11, T12, T13, T14, T15, T16>;

    open spec fn spec_to_enum(s: <Self::Variants as TypeList>::Sum) -> E16<T1, T2, T3, T4, T5, T6, T7, T8, T9, T10, T11, T12, T13, T14, T15, T16> {
        match s {
            Coprod::Here(v) => E16::T1(v),
            Coprod::There(Coprod::Here(v)) => E16::T2(v),
            Coprod::There(Coprod::There(Coprod::Here(v))) => E16::T3(v),
            Coprod::There(Coprod::There(Coprod::There(Coprod::Here(v)))) => E16::T4(v),
            Coprod::There(Coprod::There(Coprod::There(Coprod::There(Coprod::Here(v))))) => E16::T5(v),
            Coprod::There(Coprod::There(Coprod::There(Coprod::There(Coprod::There(Coprod::Here(v)))))) => E16::T6(v),
            Coprod::There(Coprod::There(Coprod::There(Coprod::There(Coprod::There(Coprod::There(Coprod::Here(v))))))) => E16::T7(v),
            Coprod::There(Coprod::There(Coprod::There(Coprod::There(Coprod::There(Coprod::There(Coprod::There(Coprod::Here(v)))))))) => E16::T8(v),
            Coprod::There(Coprod::There(Coprod::There(Coprod::There(Coprod::There(Coprod::There(Coprod::There(Coprod::There(Coprod::Here(v))))))))) => E16::T9(v),
            Coprod::There(Coprod::There(Coprod::There(Coprod::There(Coprod::There(Coprod::There(Coprod::There(Coprod::There(Coprod::There(Coprod::Here(v)))))))))) => E16::T10(v),
            Coprod::There(Coprod::There(Coprod::There(Coprod::There(Coprod::There(Coprod::There(Coprod::There(Coprod::There(Coprod::There(Coprod::There(Coprod::Here(v))))))))))) => E16::T11(v),
            Coprod::There(Coprod::There(Coprod::There(Coprod::There(Coprod::There(Coprod::There(Coprod::There(Coprod::There(Coprod::There(Coprod::There(Coprod::There(Coprod::Here(v)))))))))))) => E16::T12(v),
            Coprod::There(Coprod::There(Coprod::There(Coprod::There(Coprod::There(Coprod::There(Coprod::There(Coprod::There(Coprod::There(Coprod::There(Coprod::There(Coprod::There(Coprod::Here(v))))))))))))) => E16::T13(v),
            Coprod::There(Coprod::There(Coprod::There(Coprod::There(Coprod::There(Coprod::There(Coprod::There(Coprod::There(Coprod::There(Coprod::There(Coprod::There(Coprod::There(Coprod::There(Coprod::Here(v)))))))))))))) => E16::T14(v),
            Coprod::There(Coprod::There(Coprod::There(Coprod::There(Coprod::There(Coprod::There(Coprod::There(Coprod::There(Coprod::There(Coprod::There(Coprod::There(Coprod::There(Coprod::There(Coprod::There(Coprod::Here(v))))))))))))))) => E16::T15(v),
            Coprod::There(Coprod::There(Coprod::There(Coprod::There(Coprod::There(Coprod::There(Coprod::There(Coprod::There(Coprod::There(Coprod::There(Coprod::There(Coprod::There(Coprod::There(Coprod::There(Coprod::There(Coprod::Here(v)))))))))))))))) => E16::T16(v),
            Coprod::There(Coprod::There(Coprod::There(Coprod::There(Coprod::There(Coprod::There(Coprod::There(Coprod::There(Coprod::There(Coprod::There(Coprod::There(Coprod::There(Coprod::There(Coprod::There(Coprod::There(Coprod::There(_)))))))))))))))) => arbitrary(),
        }
    }

    open spec fn enum_tag(e: E16<T1, T2, T3, T4, T5, T6, T7, T8, T9, T10, T11, T12, T13, T14, T15, T16>) -> nat {
        match e {
            E16::T1(_) => 0,
            E16::T2(_) => 1,
            E16::T3(_) => 2,
            E16::T4(_) => 3,
            E16::T5(_) => 4,
            E16::T6(_) => 5,
            E16::T7(_) => 6,
            E16::T8(_) => 7,
            E16::T9(_) => 8,
            E16::T10(_) => 9,
            E16::T11(_) => 10,
            E16::T12(_) => 11,
            E16::T13(_) => 12,
            E16::T14(_) => 13,
            E16::T15(_) => 14,
            E16::T16(_) => 15,
        }
    }

    fn to_enum(s: <Self::Variants as TypeList>::Sum) -> (e: E16<T1, T2, T3, T4, T5, T6, T7, T8, T9, T10, T11, T12, T13, T14, T15, T16>) {
        match s {
            Coprod::Here(v) => E16::T1(v),
            Coprod::There(Coprod::Here(v)) => E16::T2(v),
            Coprod::There(Coprod::There(Coprod::Here(v))) => E16::T3(v),
            Coprod::There(Coprod::There(Coprod::There(Coprod::Here(v)))) => E16::T4(v),
            Coprod::There(Coprod::There(Coprod::There(Coprod::There(Coprod::Here(v))))) => E16::T5(v),
            Coprod::There(Coprod::There(Coprod::There(Coprod::There(Coprod::There(Coprod::Here(v)))))) => E16::T6(v),
            Coprod::There(Coprod::There(Coprod::There(Coprod::There(Coprod::There(Coprod::There(Coprod::Here(v))))))) => E16::T7(v),
            Coprod::There(Coprod::There(Coprod::There(Coprod::There(Coprod::There(Coprod::There(Coprod::There(Coprod::Here(v)))))))) => E16::T8(v),
            Coprod::There(Coprod::There(Coprod::There(Coprod::There(Coprod::There(Coprod::There(Coprod::There(Coprod::There(Coprod::Here(v))))))))) => E16::T9(v),
            Coprod::There(Coprod::There(Coprod::There(Coprod::There(Coprod::There(Coprod::There(Coprod::There(Coprod::There(Coprod::There(Coprod::Here(v)))))))))) => E16::T10(v),
            Coprod::There(Coprod::There(Coprod::There(Coprod::There(Coprod::There(Coprod::There(Coprod::There(Coprod::There(Coprod::There(Coprod::There(Coprod::Here(v))))))))))) => E16::T11(v),
            Coprod::There(Coprod::There(Coprod::There(Coprod::There(Coprod::There(Coprod::There(Coprod::There(Coprod::There(Coprod::There(Coprod::There(Coprod::There(Coprod::Here(v)))))))))))) => E16::T12(v),
            Coprod::There(Coprod::There(Coprod::There(Coprod::There(Coprod::There(Coprod::There(Coprod::There(Coprod::There(Coprod::There(Coprod::There(Coprod::There(Coprod::There(Coprod::Here(v))))))))))))) => E16::T13(v),
            Coprod::There(Coprod::There(Coprod::There(Coprod::There(Coprod::There(Coprod::There(Coprod::There(Coprod::There(Coprod::There(Coprod::There(Coprod::There(Coprod::There(Coprod::There(Coprod::Here(v)))))))))))))) => E16::T14(v),
            Coprod::There(Coprod::There(Coprod::There(Coprod::There(Coprod::There(Coprod::There(Coprod::There(Coprod::There(Coprod::There(Coprod::There(Coprod::There(Coprod::There(Coprod::There(Coprod::There(Coprod::Here(v))))))))))))))) => E16::T15(v),
            Coprod::There(Coprod::There(Coprod::There(Coprod::There(Coprod::There(Coprod::There(Coprod::There(Coprod::There(Coprod::There(Coprod::There(Coprod::There(Coprod::There(Coprod::There(Coprod::There(Coprod::There(Coprod::Here(v)))))))))))))))) => E16::T16(v),
            Coprod::There(Coprod::There(Coprod::There(Coprod::There(Coprod::There(Coprod::There(Coprod::There(Coprod::There(Coprod::There(Coprod::There(Coprod::There(Coprod::There(Coprod::There(Coprod::There(Coprod::There(Coprod::There(_)))))))))))))))) => unreached(),
        }
    }

}

impl<'a, T1: 'a, T2: 'a, T3: 'a, T4: 'a, T5: 'a, T6: 'a, T7: 'a, T8: 'a, T9: 'a, T10: 'a, T11: 'a, T12: 'a, T13: 'a, T14: 'a, T15: 'a, T16: 'a> EnumRef<'a> for (T1, T2, T3, T4, T5, T6, T7, T8, T9, T10, T11, T12, T13, T14, T15, T16) {
    type EnumRef = E16<&'a T1, &'a T2, &'a T3, &'a T4, &'a T5, &'a T6, &'a T7, &'a T8, &'a T9, &'a T10, &'a T11, &'a T12, &'a T13, &'a T14, &'a T15, &'a T16>;

    open spec fn spec_as_enum(s: &'a <Self::Variants as TypeList>::Sum) -> E16<&'a T1, &'a T2, &'a T3, &'a T4, &'a T5, &'a T6, &'a T7, &'a T8, &'a T9, &'a T10, &'a T11, &'a T12, &'a T13, &'a T14, &'a T15, &'a T16> {
        match s {
            Coprod::Here(v) => E16::T1(v),
            Coprod::There(Coprod::Here(v)) => E16::T2(v),
            Coprod::There(Coprod::There(Coprod::Here(v))) => E16::T3(v),
            Coprod::There(Coprod::There(Coprod::There(Coprod::Here(v)))) => E16::T4(v),
            Coprod::There(Coprod::There(Coprod::There(Coprod::There(Coprod::Here(v))))) => E16::T5(v),
            Coprod::There(Coprod::There(Coprod::There(Coprod::There(Coprod::There(Coprod::Here(v)))))) => E16::T6(v),
            Coprod::There(Coprod::There(Coprod::There(Coprod::There(Coprod::There(Coprod::There(Coprod::Here(v))))))) => E16::T7(v),
            Coprod::There(Coprod::There(Coprod::There(Coprod::There(Coprod::There(Coprod::There(Coprod::There(Coprod::Here(v)))))))) => E16::T8(v),
            Coprod::There(Coprod::There(Coprod::There(Coprod::There(Coprod::There(Coprod::There(Coprod::There(Coprod::There(Coprod::Here(v))))))))) => E16::T9(v),
            Coprod::There(Coprod::There(Coprod::There(Coprod::There(Coprod::There(Coprod::There(Coprod::There(Coprod::There(Coprod::There(Coprod::Here(v)))))))))) => E16::T10(v),
            Coprod::There(Coprod::There(Coprod::There(Coprod::There(Coprod::There(Coprod::There(Coprod::There(Coprod::There(Coprod::There(Coprod::There(Coprod::Here(v))))))))))) => E16::T11(v),
            Coprod::There(Coprod::There(Coprod::There(Coprod::There(Coprod::There(Coprod::There(Coprod::There(Coprod::There(Coprod::There(Coprod::There(Coprod::There(Coprod::Here(v)))))))))))) => E16::T12(v),
            Coprod::There(Coprod::There(Coprod::There(Coprod::There(Coprod::There(Coprod::There(Coprod::There(Coprod::There(Coprod::There(Coprod::There(Coprod::There(Coprod::There(Coprod::Here(v))))))))))))) => E16::T13(v),
            Coprod::There(Coprod::There(Coprod::There(Coprod::There(Coprod::There(Coprod::There(Coprod::There(Coprod::There(Coprod::There(Coprod::There(Coprod::There(Coprod::There(Coprod::There(Coprod::Here(v)))))))))))))) => E16::T14(v),
            Coprod::There(Coprod::There(Coprod::There(Coprod::There(Coprod::There(Coprod::There(Coprod::There(Coprod::There(Coprod::There(Coprod::There(Coprod::There(Coprod::There(Coprod::There(Coprod::There(Coprod::Here(v))))))))))))))) => E16::T15(v),
            Coprod::There(Coprod::There(Coprod::There(Coprod::There(Coprod::There(Coprod::There(Coprod::There(Coprod::There(Coprod::There(Coprod::There(Coprod::There(Coprod::There(Coprod::There(Coprod::There(Coprod::There(Coprod::Here(v)))))))))))))))) => E16::T16(v),
            Coprod::There(Coprod::There(Coprod::There(Coprod::There(Coprod::There(Coprod::There(Coprod::There(Coprod::There(Coprod::There(Coprod::There(Coprod::There(Coprod::There(Coprod::There(Coprod::There(Coprod::There(Coprod::There(_)))))))))))))))) => arbitrary(),
        }
    }

    fn as_enum(s: &'a <Self::Variants as TypeList>::Sum) -> (e: E16<&'a T1, &'a T2, &'a T3, &'a T4, &'a T5, &'a T6, &'a T7, &'a T8, &'a T9, &'a T10, &'a T11, &'a T12, &'a T13, &'a T14, &'a T15, &'a T16>) {
        match s {
            Coprod::Here(v) => E16::T1(v),
            Coprod::There(Coprod::Here(v)) => E16::T2(v),
            Coprod::There(Coprod::There(Coprod::Here(v))) => E16::T3(v),
            Coprod::There(Coprod::There(Coprod::There(Coprod::Here(v)))) => E16::T4(v),
            Coprod::There(Coprod::There(Coprod::There(Coprod::There(Coprod::Here(v))))) => E16::T5(v),
            Coprod::There(Coprod::There(Coprod::There(Coprod::There(Coprod::There(Coprod::Here(v)))))) => E16::T6(v),
            Coprod::There(Coprod::There(Coprod::There(Coprod::There(Coprod::There(Coprod::There(Coprod::Here(v))))))) => E16::T7(v),
            Coprod::There(Coprod::There(Coprod::There(Coprod::There(Coprod::There(Coprod::There(Coprod::There(Coprod::Here(v)))))))) => E16::T8(v),
            Coprod::There(Coprod::There(Coprod::There(Coprod::There(Coprod::There(Coprod::There(Coprod::There(Coprod::There(Coprod::Here(v))))))))) => E16::T9(v),
            Coprod::There(Coprod::There(Coprod::There(Coprod::There(Coprod::There(Coprod::There(Coprod::There(Coprod::There(Coprod::There(Coprod::Here(v)))))))))) => E16::T10(v),
            Coprod::There(Coprod::There(Coprod::There(Coprod::There(Coprod::There(Coprod::There(Coprod::There(Coprod::There(Coprod::There(Coprod::There(Coprod::Here(v))))))))))) => E16::T11(v),
            Coprod::There(Coprod::There(Coprod::There(Coprod::There(Coprod::There(Coprod::There(Coprod::There(Coprod::There(Coprod::There(Coprod::There(Coprod::There(Coprod::Here(v)))))))))))) => E16::T12(v),
            Coprod::There(Coprod::There(Coprod::There(Coprod::There(Coprod::There(Coprod::There(Coprod::There(Coprod::There(Coprod::There(Coprod::There(Coprod::There(Coprod::There(Coprod::Here(v))))))))))))) => E16::T13(v),
            Coprod::There(Coprod::There(Coprod::There(Coprod::There(Coprod::There(Coprod::There(Coprod::There(Coprod::There(Coprod::There(Coprod::There(Coprod::There(Coprod::There(Coprod::There(Coprod::Here(v)))))))))))))) => E16::T14(v),
            Coprod::There(Coprod::There(Coprod::There(Coprod::There(Coprod::There(Coprod::There(Coprod::There(Coprod::There(Coprod::There(Coprod::There(Coprod::There(Coprod::There(Coprod::There(Coprod::There(Coprod::Here(v))))))))))))))) => E16::T15(v),
            Coprod::There(Coprod::There(Coprod::There(Coprod::There(Coprod::There(Coprod::There(Coprod::There(Coprod::There(Coprod::There(Coprod::There(Coprod::There(Coprod::There(Coprod::There(Coprod::There(Coprod::There(Coprod::Here(v)))))))))))))))) => E16::T16(v),
            Coprod::There(Coprod::There(Coprod::There(Coprod::There(Coprod::There(Coprod::There(Coprod::There(Coprod::There(Coprod::There(Coprod::There(Coprod::There(Coprod::There(Coprod::There(Coprod::There(Coprod::There(Coprod::There(_)))))))))))))))) => unreached(),
        }
    }
}

impl<T1, T2, T3, T4, T5, T6, T7, T8, T9, T10, T11, T12, T13, T14, T15, T16> EnumRuntime for (T1, T2, T3, T4, T5, T6, T7, T8, T9, T10, T11, T12, T13, T14, T15, T16) {
    open spec fn spec_from_enum(e: E16<T1, T2, T3, T4, T5, T6, T7, T8, T9, T10, T11, T12, T13, T14, T15, T16>) -> <Self::Variants as TypeList>::Sum {
        match e {
            E16::T1(v) => Coprod::Here(v),
            E16::T2(v) => Coprod::There(Coprod::Here(v)),
            E16::T3(v) => Coprod::There(Coprod::There(Coprod::Here(v))),
            E16::T4(v) => Coprod::There(Coprod::There(Coprod::There(Coprod::Here(v)))),
            E16::T5(v) => Coprod::There(Coprod::There(Coprod::There(Coprod::There(Coprod::Here(v))))),
            E16::T6(v) => Coprod::There(Coprod::There(Coprod::There(Coprod::There(Coprod::There(Coprod::Here(v)))))),
            E16::T7(v) => Coprod::There(Coprod::There(Coprod::There(Coprod::There(Coprod::There(Coprod::There(Coprod::Here(v))))))),
            E16::T8(v) => Coprod::There(Coprod::There(Coprod::There(Coprod::There(Coprod::There(Coprod::There(Coprod::There(Coprod::Here(v)))))))),
            E16::T9(v) => Coprod::There(Coprod::There(Coprod::There(Coprod::There(Coprod::There(Coprod::There(Coprod::There(Coprod::There(Coprod::Here(v))))))))),
            E16::T10(v) => Coprod::There(Coprod::There(Coprod::There(Coprod::There(Coprod::There(Coprod::There(Coprod::There(Coprod::There(Coprod::There(Coprod::Here(v)))))))))),
            E16::T11(v) => Coprod::There(Coprod::There(Coprod::There(Coprod::There(Coprod::There(Coprod::There(Coprod::There(Coprod::There(Coprod::There(Coprod::There(Coprod::Here(v))))))))))),
            E16::T12(v) => Coprod::There(Coprod::There(Coprod::There(Coprod::There(Coprod::There(Coprod::There(Coprod::There(Coprod::There(Coprod::There(Coprod::There(Coprod::There(Coprod::Here(v)))))))))))),
            E16::T13(v) => Coprod::There(Coprod::There(Coprod::There(Coprod::There(Coprod::There(Coprod::There(Coprod::There(Coprod::There(Coprod::There(Coprod::There(Coprod::There(Coprod::There(Coprod::Here(v))))))))))))),
            E16::T14(v) => Coprod::There(Coprod::There(Coprod::There(Coprod::There(Coprod::There(Coprod::There(Coprod::There(Coprod::There(Coprod::There(Coprod::There(Coprod::There(Coprod::There(Coprod::There(Coprod::Here(v)))))))))))))),
            E16::T15(v) => Coprod::There(Coprod::There(Coprod::There(Coprod::There(Coprod::There(Coprod::There(Coprod::There(Coprod::There(Coprod::There(Coprod::There(Coprod::There(Coprod::There(Coprod::There(Coprod::There(Coprod::Here(v))))))))))))))),
            E16::T16(v) => Coprod::There(Coprod::There(Coprod::There(Coprod::There(Coprod::There(Coprod::There(Coprod::There(Coprod::There(Coprod::There(Coprod::There(Coprod::There(Coprod::There(Coprod::There(Coprod::There(Coprod::There(Coprod::Here(v)))))))))))))))),
        }
    }

    fn from_enum(e: E16<T1, T2, T3, T4, T5, T6, T7, T8, T9, T10, T11, T12, T13, T14, T15, T16>) -> (s: <Self::Variants as TypeList>::Sum) {
        match e {
            E16::T1(v) => Coprod::Here(v),
            E16::T2(v) => Coprod::There(Coprod::Here(v)),
            E16::T3(v) => Coprod::There(Coprod::There(Coprod::Here(v))),
            E16::T4(v) => Coprod::There(Coprod::There(Coprod::There(Coprod::Here(v)))),
            E16::T5(v) => Coprod::There(Coprod::There(Coprod::There(Coprod::There(Coprod::Here(v))))),
            E16::T6(v) => Coprod::There(Coprod::There(Coprod::There(Coprod::There(Coprod::There(Coprod::Here(v)))))),
            E16::T7(v) => Coprod::There(Coprod::There(Coprod::There(Coprod::There(Coprod::There(Coprod::There(Coprod::Here(v))))))),
            E16::T8(v) => Coprod::There(Coprod::There(Coprod::There(Coprod::There(Coprod::There(Coprod::There(Coprod::There(Coprod::Here(v)))))))),
            E16::T9(v) => Coprod::There(Coprod::There(Coprod::There(Coprod::There(Coprod::There(Coprod::There(Coprod::There(Coprod::There(Coprod::Here(v))))))))),
            E16::T10(v) => Coprod::There(Coprod::There(Coprod::There(Coprod::There(Coprod::There(Coprod::There(Coprod::There(Coprod::There(Coprod::There(Coprod::Here(v)))))))))),
            E16::T11(v) => Coprod::There(Coprod::There(Coprod::There(Coprod::There(Coprod::There(Coprod::There(Coprod::There(Coprod::There(Coprod::There(Coprod::There(Coprod::Here(v))))))))))),
            E16::T12(v) => Coprod::There(Coprod::There(Coprod::There(Coprod::There(Coprod::There(Coprod::There(Coprod::There(Coprod::There(Coprod::There(Coprod::There(Coprod::There(Coprod::Here(v)))))))))))),
            E16::T13(v) => Coprod::There(Coprod::There(Coprod::There(Coprod::There(Coprod::There(Coprod::There(Coprod::There(Coprod::There(Coprod::There(Coprod::There(Coprod::There(Coprod::There(Coprod::Here(v))))))))))))),
            E16::T14(v) => Coprod::There(Coprod::There(Coprod::There(Coprod::There(Coprod::There(Coprod::There(Coprod::There(Coprod::There(Coprod::There(Coprod::There(Coprod::There(Coprod::There(Coprod::There(Coprod::Here(v)))))))))))))),
            E16::T15(v) => Coprod::There(Coprod::There(Coprod::There(Coprod::There(Coprod::There(Coprod::There(Coprod::There(Coprod::There(Coprod::There(Coprod::There(Coprod::There(Coprod::There(Coprod::There(Coprod::There(Coprod::Here(v))))))))))))))),
            E16::T16(v) => Coprod::There(Coprod::There(Coprod::There(Coprod::There(Coprod::There(Coprod::There(Coprod::There(Coprod::There(Coprod::There(Coprod::There(Coprod::There(Coprod::There(Coprod::There(Coprod::There(Coprod::There(Coprod::Here(v)))))))))))))))),
        }
    }

    proof fn lemma_from_to_enum(s: <Self::Variants as TypeList>::Sum) {
    }

    proof fn lemma_to_from_enum(e: E16<T1, T2, T3, T4, T5, T6, T7, T8, T9, T10, T11, T12, T13, T14, T15, T16>) {
    }
}

impl<T1, T2, T3, T4, T5, T6, T7, T8, T9, T10, T11, T12, T13, T14, T15, T16> TupleForm for Cons<T1, Cons<T2, Cons<T3, Cons<T4, Cons<T5, Cons<T6, Cons<T7, Cons<T8, Cons<T9, Cons<T10, Cons<T11, Cons<T12, Cons<T13, Cons<T14, Cons<T15, Cons<T16, End>>>>>>>>>>>>>>>> {
    type Tuple = (T1, T2, T3, T4, T5, T6, T7, T8, T9, T10, T11, T12, T13, T14, T15, T16);
}

} // verus!
