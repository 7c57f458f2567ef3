//! Concrete checks of the library's laws and of its compile-time set relations.

use terrors::{
    Broaden, Cons, End, Narrow, OneOf, SubsetErr, SupersetOf, TypeSet, E1, E16, E2, E3,
};

fn can_narrow<Types, Target, Remainder, Index>()
where
    Types: Narrow<Target, Index, Remainder = Remainder>,
{
}

fn is_superset<S1, S2, Remainder, Index>()
where
    S1: SupersetOf<S2, Index, Remainder = Remainder>,
    S2: terrors::TypeList,
{
}

type N0 = <(u32, &'static str) as TypeSet>::Variants;

type T0 = <(u32,) as TypeSet>::Variants;
type T1A = <(u32, &'static str) as TypeSet>::Variants;
type T1B = <(&'static str, u32) as TypeSet>::Variants;
type T2 = <(&'static str, i32, u32) as TypeSet>::Variants;
type T3 = <((), (), u32, f32, &'static str, f64, i32) as TypeSet>::Variants;
type T5sup = <(u8, u16, u32, u64, u128) as TypeSet>::Variants;
type T5sub = <(u8, u128) as TypeSet>::Variants;
type T5rem = <(u16, u32, u64) as TypeSet>::Variants;

fn assert_send_sync<T: Send + Sync>() {}

#[test]
fn one_of_is_send_and_sync() {
    assert_send_sync::<OneOf<()>>();
    assert_send_sync::<OneOf<(u8, String)>>();
}

#[test]
fn narrow_relations() {
    can_narrow::<N0, u32, _, _>();
    can_narrow::<N0, &'static str, Cons<u32, End>, _>();
}

#[test]
fn superset_relations() {
    is_superset::<T0, T0, _, _>();
    is_superset::<T1A, T1A, _, _>();
    is_superset::<T1A, T1B, _, _>();
    is_superset::<T1B, T1A, _, _>();
    is_superset::<T2, T2, _, _>();
    is_superset::<T1A, T0, _, _>();
    is_superset::<T1B, T0, _, _>();
    is_superset::<T2, T0, <(&'static str, i32) as TypeSet>::Variants, _>();
    is_superset::<T2, T1A, <(i32,) as TypeSet>::Variants, _>();
    is_superset::<T2, T1B, <(i32,) as TypeSet>::Variants, _>();
    is_superset::<T3, T1A, <((), (), f32, f64, i32) as TypeSet>::Variants, _>();
    is_superset::<T3, T1B, _, _>();
    is_superset::<T3, T0, _, _>();
    is_superset::<T3, T2, _, _>();
    is_superset::<T5sup, T5sub, T5rem, _>();
}

#[test]
fn narrow_gives_back_what_new_wrapped() {
    let o: OneOf<(u8, u16, u32)> = OneOf::new(1_u8);
    assert_eq!(o.narrow::<u8, _>().unwrap(), 1);

    let o: OneOf<(u8, u16, u32)> = OneOf::new(70_000_u32);
    assert_eq!(o.narrow::<u32, _>().unwrap(), 70_000);
}

#[test]
fn narrow_keeps_other_values_in_the_remainder() {
    let o: OneOf<(u8, u16, u32)> = OneOf::new(2_u16);
    let rest: OneOf<(u16, u32)> = o.narrow::<u8, _>().unwrap_err();
    assert_eq!(rest.narrow::<u16, _>().unwrap(), 2);

    let o: OneOf<(u8, u16, u32)> = OneOf::new(3_u32);
    let rest: OneOf<(u8, u32)> = o.narrow::<u16, _>().unwrap_err();
    match rest.to_enum() {
        E2::T2(v) => assert_eq!(v, 3),
        E2::T1(_) => panic!("the remainder moved the value to the wrong variant"),
    }
}

#[test]
fn subset_gives_back_what_broaden_moved() {
    let o: OneOf<(u8, u16)> = OneOf::new(5_u16);
    let wide: OneOf<(u32, u16, u8)> = o.broaden();
    match wide.as_enum() {
        E3::T2(v) => assert_eq!(*v, 5),
        _ => panic!("broaden moved the value to the wrong variant"),
    }
    let back: OneOf<(u8, u16)> = wide.subset().unwrap();
    match back.to_enum() {
        E2::T2(v) => assert_eq!(v, 5),
        E2::T1(_) => panic!("subset moved the value to the wrong variant"),
    }
}

#[test]
fn subset_keeps_values_outside_the_subset_in_the_remainder() {
    let o: OneOf<(u8, u16, u32)> = OneOf::new(9_u32);
    let rest: OneOf<(u32,)> = o.subset::<(u8, u16), _>().unwrap_err();
    assert_eq!(rest.take(), 9);

    let o: OneOf<(u8, u16, u32)> = OneOf::new(4_u8);
    let inside: OneOf<(u16, u8)> = o.subset::<(u16, u8), _>().unwrap();
    match inside.to_enum() {
        E2::T2(v) => assert_eq!(v, 4),
        E2::T1(_) => panic!("subset moved the value to the wrong variant"),
    }
}

#[test]
fn broaden_to_a_reordering_and_back() {
    let o: OneOf<(u8, &'static str, u16)> = OneOf::new("x");
    let r: OneOf<(u16, u8, &'static str)> = o.broaden();
    let back: OneOf<(u8, &'static str, u16)> = r.broaden();
    assert_eq!(back.narrow::<&'static str, _>().unwrap(), "x");
}

#[test]
fn to_enum_and_as_enum_use_the_position_of_the_type() {
    let o: OneOf<(u8, u16, u32)> = OneOf::new(6_u16);
    match o.as_enum() {
        E3::T2(v) => assert_eq!(*v, 6),
        _ => panic!("as_enum used the wrong variant"),
    }
    match o.to_enum() {
        E3::T2(v) => assert_eq!(v, 6),
        _ => panic!("to_enum used the wrong variant"),
    }
}

#[test]
fn take_single_variant() {
    let o: OneOf<(String,)> = OneOf::new(String::from("only"));
    assert_eq!(o.take(), "only");
}

#[test]
fn from_and_deref_single_variant() {
    let o: OneOf<(String,)> = String::from("abc").into();
    assert_eq!(o.len(), 3);
    let o2: OneOf<(u8,)> = OneOf::from(8_u8);
    assert_eq!(*o2, 8);
    match o2.to_enum() {
        E1::T1(v) => assert_eq!(v, 8),
    }
}

#[test]
fn clone_keeps_the_value_and_its_variant() {
    let o: OneOf<(u8, String)> = OneOf::new(String::from("kept"));
    let c = o.clone();
    assert_eq!(o.narrow::<String, _>().unwrap(), "kept");
    assert_eq!(c.narrow::<String, _>().unwrap(), "kept");
}

#[test]
fn debug_format_shows_the_value() {
    let o: OneOf<(u32, &'static str)> = OneOf::new(5_u32);
    let text = format!("{:?}", o);
    assert!(text.contains('5'));
}

#[test]
fn broaden_option_none_and_result_ok_pass_through() {
    let n: Option<OneOf<(u8,)>> = None;
    let b: Option<OneOf<(u16, u8)>> = n.broaden();
    assert!(b.is_none());

    let r: Result<u32, OneOf<(u8,)>> = Ok(11);
    let b: Result<u32, OneOf<(u16, u8)>> = Broaden::broaden(r);
    assert_eq!(b.unwrap(), 11);
}

#[test]
fn result_subset_error_in_subset_goes_to_err() {
    let r: Result<u32, OneOf<(u8, u16, u32)>> = Err(OneOf::new(12_u16));
    let split: Result<Result<u32, OneOf<(u8, u32)>>, OneOf<(u16,)>> = SubsetErr::subset(r);
    assert_eq!(split.unwrap_err().take(), 12);
}

#[test]
fn into_converts_with_the_held_variant() {
    let o: OneOf<(u8, u16, u32)> = OneOf::new(65_535_u16);
    let wide: u64 = o.into();
    assert_eq!(wide, 65_535);
}

#[test]
fn sixteen_variants() {
    type Big = (u8, u16, u32, u64, u128, i8, i16, i32, i64, i128, bool, char, (), String, usize, isize);
    let o: OneOf<Big> = OneOf::new(-3_isize);
    match o.as_enum() {
        E16::T16(v) => assert_eq!(*v, -3),
        _ => panic!("as_enum used the wrong variant"),
    }
    let rest = match o.narrow::<char, _>() {
        Ok(_) => panic!("narrow found a char in an isize"),
        Err(rest) => rest,
    };
    assert_eq!(rest.narrow::<isize, _>().ok(), Some(-3));

    let c: OneOf<Big> = OneOf::new('z');
    assert_eq!(c.narrow::<char, _>().ok(), Some('z'));
}

#[test]
fn broaden_to_the_same_set_keeps_the_value() {
    let o: OneOf<(u8, u16, u32)> = OneOf::new(300_u16);
    let same: OneOf<(u8, u16, u32)> = o.broaden();
    match same.to_enum() {
        E3::T2(v) => assert_eq!(v, 300),
        _ => panic!("broadening to the same set moved the value"),
    }
}

#[test]
fn into_with_the_identity_conversion() {
    let o: OneOf<(u32,)> = OneOf::new(77_u32);
    let same: u32 = o.into();
    assert_eq!(same, 77);
}

#[test]
fn subset_then_broaden_gives_the_value_back_on_both_arms() {
    let inside: OneOf<(u8, u16, u32)> = OneOf::new(1_u16);
    let back: OneOf<(u8, u16, u32)> = match inside.subset::<(u16,), _>() {
        Ok(p) => p.broaden(),
        Err(r) => r.broaden(),
    };
    assert_eq!(back.narrow::<u16, _>().unwrap(), 1);

    let outside: OneOf<(u8, u16, u32)> = OneOf::new(2_u32);
    let back: OneOf<(u8, u16, u32)> = match outside.subset::<(u16,), _>() {
        Ok(p) => p.broaden(),
        Err(r) => r.broaden(),
    };
    assert_eq!(back.narrow::<u32, _>().unwrap(), 2);
}

#[test]
fn two_broadenings_equal_one() {
    let o: OneOf<(u8, u16)> = OneOf::new(9_u8);
    let mid: OneOf<(u32, u8, u16)> = o.broaden();
    let two: OneOf<(u16, u64, u8, u32)> = mid.broaden();
    let o2: OneOf<(u8, u16)> = OneOf::new(9_u8);
    let one: OneOf<(u16, u64, u8, u32)> = o2.broaden();
    assert_eq!(two.narrow::<u8, _>().unwrap(), one.narrow::<u8, _>().unwrap());
}

fn has_complement<L, O, I>()
where
    O: terrors::TypeList,
    L: terrors::SubsetComplement<O, I>,
    L: SupersetOf<
        <L as SupersetOf<O, I>>::Remainder,
        <L as terrors::SubsetComplement<O, I>>::Complement,
    >,
{
}

fn composes<G, F, J1, X, J0>()
where
    F: terrors::TypeList + SupersetOf<X, J0>,
    X: terrors::TypeList,
    G: terrors::Compose<F, J1, X, J0>,
    G: SupersetOf<X, <G as terrors::Compose<F, J1, X, J0>>::Composed>,
{
}

#[test]
fn complement_and_composition_relations() {
    has_complement::<T5sup, T5sub, _>();
    has_complement::<T3, T2, _>();
    composes::<T3, T2, _, T1A, _>();
    composes::<T5sup, T5sup, _, T5rem, _>();
}
