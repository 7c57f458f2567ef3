# terrors

Open sum types (`OneOf<(T1, T2, ...)>`) for precise error handling, written in
Verus.

- `src/type_set.rs`: the type-level lists (`Cons`/`End`), the runtime sums over
  them (`Coprod`), and the set relations `Contains`, `Narrow` and `SupersetOf`
  with the moves between sums that they select and their proofs, and the laws
  that relate several positions or several supersets (`NarrowOther`,
  `NarrowBack`, `NarrowSwap`, `Lift`, `SupersetOfSelf`, `SubsetComplement`,
  `EmbedWiden`, `Compose`).
- `src/tuples.rs`, `src/enums.rs`: the tuples of 0 to 16 types as type sets, and
  the enums `E0`..`E16` that a `OneOf` hands out for matching.
- `src/one_of.rs`: `OneOf` and its operations (`new`, `narrow`, `take`, `into`,
  `to_enum`, `as_enum`, `Clone`, `From`, `Deref`).
- `src/broaden.rs`, `src/subset.rs`: broadening to a superset and splitting off
  a subset, for `OneOf` and the `Option`/`Result` values that hold one.
