# euclid points

Typed points in two and three dimensions (`Point2D<T, U>`, `Point3D<T, U>`),
generic over the coordinate type `T` and tagged with a unit `U`, together with
the vectors, sizes, lengths and scale factors they are combined with.

The library under `src/` is written in Verus and verified:

- `point.rs` — the point types and all their operations: constructors, swizzling,
  unit casts, conversions to and from arrays, tuples and `mint` points, linear
  interpolation, componentwise min/max/clamp, arithmetic with vectors, sizes,
  scalars and scale factors, rounding, fallible numeric casts, approximate
  equality.
- `laws.rs` — proved properties relating these operations. The round trips
  (vector/point, units, arrays, tuples, `extend`/`xy`) hold for every coordinate
  type. The arithmetic ones (add/sub and mul/div inverses, `to_vector` is
  subtracting the origin, interpolation at 0 and 1) hold for coordinate types with
  the integer identities of `num.rs`, which every primitive integer type has
  (`lemma_i32_integer_identities` and the like). The order laws (min/max bounds,
  clamp bounds and fixed points) hold where the ordering obeys vstd's laws of a
  partial order and the values compared are comparable (no NaN); min and max
  commute where `==` is equality of values. The round trip through mint points
  is stated by `From<mint::Point2>`'s own contract.
- `vector.rs`, `size.rs`, `length.rs`, `scale.rs` — the companion types.
- `num.rs` — `Zero`, `One`, `Round`, `Floor`, `Ceil` for the integer types, and
  the specification of linear interpolation.
- `approxord.rs`, `approxeq.rs` — `min`/`max` over `PartialOrd`, and the
  `ApproxEq` trait.

Arithmetic contracts follow vstd's operator specifications: each operation
requires that every coordinate operation is in the domain of `T`'s operator (for
the integer types, that nothing overflows), and states the result through
`T`'s `add_spec`, `sub_spec`, `mul_spec`, `div_spec`.

`app/` holds what is not verified: the panicking numeric casts (`cast`, `to_f32`,
`to_i32`, ...), `origin`, `lerp`, rounding and the like for float (and other
num_traits) coordinates, text formatting, and serde support.
