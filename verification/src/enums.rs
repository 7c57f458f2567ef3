//! The enums that a `OneOf` hands out for pattern matching: `Ek` has one
//! variant `Ti` for each of its `k` type parameters, in order.

use vstd::prelude::*;

verus! {

/// The enum of the empty type set: it has no values.
pub type E0 = core::convert::Infallible;


/// One value out of 1 possible types, the variant `Ti` holding a `Ti`.
#[derive(Debug, Clone, PartialEq, Eq)]
pub enum E1<T1> {
    T1(T1),
}

/// One value out of 2 possible types, the variant `Ti` holding a `Ti`.
#[derive(Debug, Clone, PartialEq, Eq)]
pub enum E2<T1, T2> {
    T1(T1),
    T2(T2),
}

/// One value out of 3 possible types, the variant `Ti` holding a `Ti`.
#[derive(Debug, Clone, PartialEq, Eq)]
pub enum E3<T1, T2, T3> {
    T1(T1),
    T2(T2),
    T3(T3),
}

/// One value out of 4 possible types, the variant `Ti` holding a `Ti`.
#[derive(Debug, Clone, PartialEq, Eq)]
pub enum E4<T1, T2, T3, T4> {
    T1(T1),
    T2(T2),
    T3(T3),
    T4(T4),
}

/// One value out of 5 possible types, the variant `Ti` holding a `Ti`.
#[derive(Debug, Clone, PartialEq, Eq)]
pub enum E5<T1, T2, T3, T4, T5> {
    T1(T1),
    T2(T2),
    T3(T3),
    T4(T4),
    T5(T5),
}

/// One value out of 6 possible types, the variant `Ti` holding a `Ti`.
#[derive(Debug, Clone, PartialEq, Eq)]
pub enum E6<T1, T2, T3, T4, T5, T6> {
    T1(T1),
    T2(T2),
    T3(T3),
    T4(T4),
    T5(T5),
    T6(T6),
}

/// One value out of 7 possible types, the variant `Ti` holding a `Ti`.
#[derive(Debug, Clone, PartialEq, Eq)]
pub enum E7<T1, T2, T3, T4, T5, T6, T7> {
    T1(T1),
    T2(T2),
    T3(T3),
    T4(T4),
    T5(T5),
    T6(T6),
    T7(T7),
}

/// One value out of 8 possible types, the variant `Ti` holding a `Ti`.
#[derive(Debug, Clone, PartialEq, Eq)]
pub enum E8<T1, T2, T3, T4, T5, T6, T7, T8> {
    T1(T1),
    T2(T2),
    T3(T3),
    T4(T4),
    T5(T5),
    T6(T6),
    T7(T7),
    T8(T8),
}

/// One value out of 9 possible types, the variant `Ti` holding a `Ti`.
#[derive(Debug, Clone, PartialEq, Eq)]
pub enum E9<T1, T2, T3, T4, T5, T6, T7, T8, T9> {
    T1(T1),
    T2(T2),
    T3(T3),
    T4(T4),
    T5(T5),
    T6(T6),
    T7(T7),
    T8(T8),
    T9(T9),
}

/// One value out of 10 possible types, the variant `Ti` holding a `Ti`.
#[derive(Debug, Clone, PartialEq, Eq)]
pub enum E10<T1, T2, T3, T4, T5, T6, T7, T8, T9, T10> {
    T1(T1),
    T2(T2),
    T3(T3),
    T4(T4),
    T5(T5),
    T6(T6),
    T7(T7),
    T8(T8),
    T9(T9),
    T10(T10),
}

/// One value out of 11 possible types, the variant `Ti` holding a `Ti`.
#[derive(Debug, Clone, PartialEq, Eq)]
pub enum E11<T1, T2, T3, T4, T5, T6, T7, T8, T9, T10, T11> {
    T1(T1),
    T2(T2),
    T3(T3),
    T4(T4),
    T5(T5),
    T6(T6),
    T7(T7),
    T8(T8),
    T9(T9),
    T10(T10),
    T11(T11),
}

/// One value out of 12 possible types, the variant `Ti` holding a `Ti`.
#[derive(Debug, Clone, PartialEq, Eq)]
pub enum E12<T1, T2, T3, T4, T5, T6, T7, T8, T9, T10, T11, T12> {
    T1(T1),
    T2(T2),
    T3(T3),
    T4(T4),
    T5(T5),
    T6(T6),
    T7(T7),
    T8(T8),
    T9(T9),
    T10(T10),
    T11(T11),
    T12(T12),
}

/// One value out of 13 possible types, the variant `Ti` holding a `Ti`.
#[derive(Debug, Clone, PartialEq, Eq)]
pub enum E13<T1, T2, T3, T4, T5, T6, T7, T8, T9, T10, T11, T12, T13> {
    T1(T1),
    T2(T2),
    T3(T3),
    T4(T4),
    T5(T5),
    T6(T6),
    T7(T7),
    T8(T8),
    T9(T9),
    T10(T10),
    T11(T11),
    T12(T12),
    T13(T13),
}

/// One value out of 14 possible types, the variant `Ti` holding a `Ti`.
#[derive(Debug, Clone, PartialEq, Eq)]
pub enum E14<T1, T2, T3, T4, T5, T6, T7, T8, T9, T10, T11, T12, T13, T14> {
    T1(T1),
    T2(T2),
    T3(T3),
    T4(T4),
    T5(T5),
    T6(T6),
    T7(T7),
    T8(T8),
    T9(T9),
    T10(T10),
    T11(T11),
    T12(T12),
    T13(T13),
    T14(T14),
}

/// One value out of 15 possible types, the variant `Ti` holding a `Ti`.
#[derive(Debug, Clone, PartialEq, Eq)]
pub enum E15<T1, T2, T3, T4, T5, T6, T7, T8, T9, T10, T11, T12, T13, T14, T15> {
    T1(T1),
    T2(T2),
    T3(T3),
    T4(T4),
    T5(T5),
    T6(T6),
    T7(T7),
    T8(T8),
    T9(T9),
    T10(T10),
    T11(T11),
    T12(T12),
    T13(T13),
    T14(T14),
    T15(T15),
}

/// One value out of 16 possible types, the variant `Ti` holding a `Ti`.
#[derive(Debug, Clone, PartialEq, Eq)]
pub enum E16<T1, T2, T3, T4, T5, T6, T7, T8, T9, T10, T11, T12, T13, T14, T15, T16> {
    T1(T1),
    T2(T2),
    T3(T3),
    T4(T4),
    T5(T5),
    T6(T6),
    T7(T7),
    T8(T8),
    T9(T9),
    T10(T10),
    T11(T11),
    T12(T12),
    T13(T13),
    T14(T14),
    T15(T15),
    T16(T16),
}

} // verus!
