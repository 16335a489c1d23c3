# algea

Fixed-size vectors, row-major and column-major matrices and lane masks over
`i32`, `i64`, `u32` and `u64` lanes, verified with Verus.

Every lane-wise operation wraps on overflow as Rust's `wrapping_*` operations
do; division rounds toward zero; shifts take the count modulo the lane width;
casts follow Rust's `as`. Each public function states its result in its
`ensures` over the sequence of lanes (`v@`), the sequence of rows or columns
(`m@`) or the sequence of booleans of a mask.

Layout:

- `src/marker.rs`: the lane model (`Lane`, `MaskPrimitive`, `CastFrom`, the
  signedness traits) with the wrapping arithmetic of each integer type.
- `src/kernels.rs`: the lane-wise and row-wise meanings and the array kernels
  that every type is built on.
- `src/vector.rs`, `src/mask.rs`, `src/row_major.rs`, `src/column_major.rs`:
  the public types and their operators.
- `src/swizzle.rs`, `src/named_swizzles.rs`, `src/internal.rs`: lane
  selection (by index and by component names such as `zyx`), unit axes and
  concatenation.
- `src/laws.rs`: properties that relate several operations.
- `app/lib.rs`: the floating-point operations (norms, rounding,
  comparisons, matrix products, inverses and determinants) on plain arrays, outside the verified
  library.
