//! Numeric traits that the geometric types are generic over.

use core::ops::{Add, Div, Mul, Sub};
use vstd::prelude::*;
use vstd::std_specs::ops::{AddSpec, DivSpec, MulSpec, SubSpec};

verus! {

/// Types with an additive identity.
pub trait Zero: Sized {
    /// The additive identity of the type.
    spec fn zero_spec() -> Self;

    fn zero() -> (r: Self)
        ensures
            r == Self::zero_spec(),
    ;
}

/// Types with a multiplicative identity.
pub trait One: Sized {
    /// The multiplicative identity of the type.
    spec fn one_spec() -> Self;

    fn one() -> (r: Self)
        ensures
            r == Self::one_spec(),
    ;
}

/// Rounding to the nearest integer value.
pub trait Round: Copy {
    spec fn round_spec(self) -> Self;

    fn round(self) -> (r: Self)
        ensures
            r == self.round_spec(),
    ;
}

/// Rounding towards negative infinity.
pub trait Floor: Copy {
    spec fn floor_spec(self) -> Self;

    fn floor(self) -> (r: Self)
        ensures
            r == self.floor_spec(),
    ;
}

/// Rounding towards positive infinity.
pub trait Ceil: Copy {
    spec fn ceil_spec(self) -> Self;

    fn ceil(self) -> (r: Self)
        ensures
            r == self.ceil_spec(),
    ;
}

/// `(1 - t) * a + t * b`, the linear interpolation between `a` and `b` at `t`,
/// computed with the operators of `T`.
pub open spec fn lerp_scalar<T: One + Sub<Output = T> + Mul<Output = T> + Add<Output = T>>(
    a: T,
    b: T,
    t: T,
) -> T {
    let one_t = T::one_spec().sub_spec(t);
    one_t.mul_spec(a).add_spec(t.mul_spec(b))
}

/// Each operator application of `lerp_scalar(a, b, t)` is within the domain of `T`'s
/// operator (for the integer types: nothing overflows).
pub open spec fn lerp_scalar_req<T: One + Sub<Output = T> + Mul<Output = T> + Add<Output = T>>(
    a: T,
    b: T,
    t: T,
) -> bool {
    let one_t = T::one_spec().sub_spec(t);
    &&& T::one_spec().sub_req(t)
    &&& one_t.mul_req(a)
    &&& t.mul_req(b)
    &&& one_t.mul_spec(a).add_req(t.mul_spec(b))
}

/// Subtracting zero is always defined and leaves every value unchanged.
pub open spec fn sub_zero_is_identity<T: Zero + Sub<Output = T>>() -> bool {
    &&& forall|x: T| #[trigger] x.sub_req(T::zero_spec())
    &&& forall|x: T| #[trigger] x.sub_spec(T::zero_spec()) == x
}

/// The identities that interpolating at zero and at one rests on: `1 - 0 = 1`,
/// `1 - 1 = 0`, `1 * x = x`, `0 * x = 0`, `x + 0 = x`, `0 + x = x`, each defined.
pub open spec fn lerp_identities<
    T: Zero + One + Sub<Output = T> + Mul<Output = T> + Add<Output = T>,
>() -> bool {
    &&& T::one_spec().sub_req(T::zero_spec())
    &&& T::one_spec().sub_spec(T::zero_spec()) == T::one_spec()
    &&& T::one_spec().sub_req(T::one_spec())
    &&& T::one_spec().sub_spec(T::one_spec()) == T::zero_spec()
    &&& forall|x: T| #[trigger] T::one_spec().mul_req(x)
    &&& forall|x: T| #[trigger] T::one_spec().mul_spec(x) == x
    &&& forall|x: T| #[trigger] T::zero_spec().mul_req(x)
    &&& forall|x: T| #[trigger] T::zero_spec().mul_spec(x) == T::zero_spec()
    &&& forall|x: T| #[trigger] x.add_req(T::zero_spec())
    &&& forall|x: T| #[trigger] x.add_spec(T::zero_spec()) == x
    &&& forall|x: T| #[trigger] T::zero_spec().add_req(x)
    &&& forall|x: T| #[trigger] T::zero_spec().add_spec(x) == x
}

/// Adding `y` and subtracting it again gives `x` back, and `y + (x - y)` is `x`,
/// wherever the first operation is defined.
pub open spec fn add_sub_inverse<T: Add<Output = T> + Sub<Output = T>>() -> bool {
    &&& forall|x: T, y: T|
        #[trigger] x.add_req(y) ==> x.add_spec(y).sub_req(y) && x.add_spec(y).sub_spec(y) == x
    &&& forall|x: T, y: T|
        #[trigger] x.sub_req(y) ==> y.add_req(x.sub_spec(y)) && y.add_spec(x.sub_spec(y)) == x
}

/// Multiplying by a non-zero `s` and dividing by it again gives `x` back, wherever
/// the multiplication is defined.
pub open spec fn mul_div_inverse<T: Zero + Mul<Output = T> + Div<Output = T>>() -> bool {
    forall|x: T, s: T|
        s != T::zero_spec() && #[trigger] x.mul_req(s) ==> x.mul_spec(s).div_req(s)
            && x.mul_spec(s).div_spec(s) == x
}

proof fn lemma_exact_division(a: int, s: int)
    requires
        s != 0,
    ensures
        (a * s) / s == a,
        (-(a * s)) / s == -a,
        s == -1 ==> a * s == -a,
{
    let m: int = a * s;
    assert(m / s == a) by (nonlinear_arith)
        requires
            s != 0,
            m == a * s,
    ;
    assert((-m) / s == -a) by (nonlinear_arith)
        requires
            s != 0,
            m == a * s,
    ;
    assert(s == -1 ==> m == -a) by (nonlinear_arith)
        requires
            m == a * s,
    ;
}

impl Zero for i8 {
    open spec fn zero_spec() -> Self {
        0
    }

    fn zero() -> (r: Self) {
        0
    }
}

impl One for i8 {
    open spec fn one_spec() -> Self {
        1
    }

    fn one() -> (r: Self) {
        1
    }
}

impl Zero for i16 {
    open spec fn zero_spec() -> Self {
        0
    }

    fn zero() -> (r: Self) {
        0
    }
}

impl One for i16 {
    open spec fn one_spec() -> Self {
        1
    }

    fn one() -> (r: Self) {
        1
    }
}

impl Zero for i32 {
    open spec fn zero_spec() -> Self {
        0
    }

    fn zero() -> (r: Self) {
        0
    }
}

impl One for i32 {
    open spec fn one_spec() -> Self {
        1
    }

    fn one() -> (r: Self) {
        1
    }
}

impl Zero for i64 {
    open spec fn zero_spec() -> Self {
        0
    }

    fn zero() -> (r: Self) {
        0
    }
}

impl One for i64 {
    open spec fn one_spec() -> Self {
        1
    }

    fn one() -> (r: Self) {
        1
    }
}

impl Zero for i128 {
    open spec fn zero_spec() -> Self {
        0
    }

    fn zero() -> (r: Self) {
        0
    }
}

impl One for i128 {
    open spec fn one_spec() -> Self {
        1
    }

    fn one() -> (r: Self) {
        1
    }
}

impl Zero for isize {
    open spec fn zero_spec() -> Self {
        0
    }

    fn zero() -> (r: Self) {
        0
    }
}

impl One for isize {
    open spec fn one_spec() -> Self {
        1
    }

    fn one() -> (r: Self) {
        1
    }
}

impl Zero for u8 {
    open spec fn zero_spec() -> Self {
        0
    }

    fn zero() -> (r: Self) {
        0
    }
}

impl One for u8 {
    open spec fn one_spec() -> Self {
        1
    }

    fn one() -> (r: Self) {
        1
    }
}

impl Zero for u16 {
    open spec fn zero_spec() -> Self {
        0
    }

    fn zero() -> (r: Self) {
        0
    }
}

impl One for u16 {
    open spec fn one_spec() -> Self {
        1
    }

    fn one() -> (r: Self) {
        1
    }
}

impl Zero for u32 {
    open spec fn zero_spec() -> Self {
        0
    }

    fn zero() -> (r: Self) {
        0
    }
}

impl One for u32 {
    open spec fn one_spec() -> Self {
        1
    }

    fn one() -> (r: Self) {
        1
    }
}

impl Zero for u64 {
    open spec fn zero_spec() -> Self {
        0
    }

    fn zero() -> (r: Self) {
        0
    }
}

impl One for u64 {
    open spec fn one_spec() -> Self {
        1
    }

    fn one() -> (r: Self) {
        1
    }
}

impl Zero for u128 {
    open spec fn zero_spec() -> Self {
        0
    }

    fn zero() -> (r: Self) {
        0
    }
}

impl One for u128 {
    open spec fn one_spec() -> Self {
        1
    }

    fn one() -> (r: Self) {
        1
    }
}

impl Zero for usize {
    open spec fn zero_spec() -> Self {
        0
    }

    fn zero() -> (r: Self) {
        0
    }
}

impl One for usize {
    open spec fn one_spec() -> Self {
        1
    }

    fn one() -> (r: Self) {
        1
    }
}

impl Round for i16 {
    open spec fn round_spec(self) -> Self {
        self
    }

    fn round(self) -> (r: Self)
        ensures
            r == self,
    {
        self
    }
}

impl Floor for i16 {
    open spec fn floor_spec(self) -> Self {
        self
    }

    fn floor(self) -> (r: Self)
        ensures
            r == self,
    {
        self
    }
}

impl Ceil for i16 {
    open spec fn ceil_spec(self) -> Self {
        self
    }

    fn ceil(self) -> (r: Self)
        ensures
            r == self,
    {
        self
    }
}

impl Round for u16 {
    open spec fn round_spec(self) -> Self {
        self
    }

    fn round(self) -> (r: Self)
        ensures
            r == self,
    {
        self
    }
}

impl Floor for u16 {
    open spec fn floor_spec(self) -> Self {
        self
    }

    fn floor(self) -> (r: Self)
        ensures
            r == self,
    {
        self
    }
}

impl Ceil for u16 {
    open spec fn ceil_spec(self) -> Self {
        self
    }

    fn ceil(self) -> (r: Self)
        ensures
            r == self,
    {
        self
    }
}

impl Round for i32 {
    open spec fn round_spec(self) -> Self {
        self
    }

    fn round(self) -> (r: Self)
        ensures
            r == self,
    {
        self
    }
}

impl Floor for i32 {
    open spec fn floor_spec(self) -> Self {
        self
    }

    fn floor(self) -> (r: Self)
        ensures
            r == self,
    {
        self
    }
}

impl Ceil for i32 {
    open spec fn ceil_spec(self) -> Self {
        self
    }

    fn ceil(self) -> (r: Self)
        ensures
            r == self,
    {
        self
    }
}

impl Round for u32 {
    open spec fn round_spec(self) -> Self {
        self
    }

    fn round(self) -> (r: Self)
        ensures
            r == self,
    {
        self
    }
}

impl Floor for u32 {
    open spec fn floor_spec(self) -> Self {
        self
    }

    fn floor(self) -> (r: Self)
        ensures
            r == self,
    {
        self
    }
}

impl Ceil for u32 {
    open spec fn ceil_spec(self) -> Self {
        self
    }

    fn ceil(self) -> (r: Self)
        ensures
            r == self,
    {
        self
    }
}

impl Round for i64 {
    open spec fn round_spec(self) -> Self {
        self
    }

    fn round(self) -> (r: Self)
        ensures
            r == self,
    {
        self
    }
}

impl Floor for i64 {
    open spec fn floor_spec(self) -> Self {
        self
    }

    fn floor(self) -> (r: Self)
        ensures
            r == self,
    {
        self
    }
}

impl Ceil for i64 {
    open spec fn ceil_spec(self) -> Self {
        self
    }

    fn ceil(self) -> (r: Self)
        ensures
            r == self,
    {
        self
    }
}

impl Round for u64 {
    open spec fn round_spec(self) -> Self {
        self
    }

    fn round(self) -> (r: Self)
        ensures
            r == self,
    {
        self
    }
}

impl Floor for u64 {
    open spec fn floor_spec(self) -> Self {
        self
    }

    fn floor(self) -> (r: Self)
        ensures
            r == self,
    {
        self
    }
}

impl Ceil for u64 {
    open spec fn ceil_spec(self) -> Self {
        self
    }

    fn ceil(self) -> (r: Self)
        ensures
            r == self,
    {
        self
    }
}

impl Round for isize {
    open spec fn round_spec(self) -> Self {
        self
    }

    fn round(self) -> (r: Self)
        ensures
            r == self,
    {
        self
    }
}

impl Floor for isize {
    open spec fn floor_spec(self) -> Self {
        self
    }

    fn floor(self) -> (r: Self)
        ensures
            r == self,
    {
        self
    }
}

impl Ceil for isize {
    open spec fn ceil_spec(self) -> Self {
        self
    }

    fn ceil(self) -> (r: Self)
        ensures
            r == self,
    {
        self
    }
}

impl Round for usize {
    open spec fn round_spec(self) -> Self {
        self
    }

    fn round(self) -> (r: Self)
        ensures
            r == self,
    {
        self
    }
}

impl Floor for usize {
    open spec fn floor_spec(self) -> Self {
        self
    }

    fn floor(self) -> (r: Self)
        ensures
            r == self,
    {
        self
    }
}

impl Ceil for usize {
    open spec fn ceil_spec(self) -> Self {
        self
    }

    fn ceil(self) -> (r: Self)
        ensures
            r == self,
    {
        self
    }
}

/// `i8` has the integer identities that the laws on point arithmetic rest on.
pub proof fn lemma_i8_integer_identities()
    ensures
        sub_zero_is_identity::<i8>(),
        lerp_identities::<i8>(),
        add_sub_inverse::<i8>(),
        mul_div_inverse::<i8>(),
{
    assert forall|x: i8| #[trigger] (1 as i8).mul_spec(x) == x && (0 as i8).mul_spec(x) == 0 by {
        assert(1 * x == x);
        assert(0 * x == 0);
    }
    assert forall|x: i8, s: i8|
        s != 0 && #[trigger] x.mul_req(s) implies x.mul_spec(s).div_req(s)
            && x.mul_spec(s).div_spec(s) == x by {
        lemma_exact_division(x as int, s as int);
    }
}

/// `i16` has the integer identities that the laws on point arithmetic rest on.
pub proof fn lemma_i16_integer_identities()
    ensures
        sub_zero_is_identity::<i16>(),
        lerp_identities::<i16>(),
        add_sub_inverse::<i16>(),
        mul_div_inverse::<i16>(),
{
    assert forall|x: i16| #[trigger] (1 as i16).mul_spec(x) == x && (0 as i16).mul_spec(x) == 0 by {
        assert(1 * x == x);
        assert(0 * x == 0);
    }
    assert forall|x: i16, s: i16|
        s != 0 && #[trigger] x.mul_req(s) implies x.mul_spec(s).div_req(s)
            && x.mul_spec(s).div_spec(s) == x by {
        lemma_exact_division(x as int, s as int);
    }
}

/// `i32` has the integer identities that the laws on point arithmetic rest on.
pub proof fn lemma_i32_integer_identities()
    ensures
        sub_zero_is_identity::<i32>(),
        lerp_identities::<i32>(),
        add_sub_inverse::<i32>(),
        mul_div_inverse::<i32>(),
{
    assert forall|x: i32| #[trigger] (1 as i32).mul_spec(x) == x && (0 as i32).mul_spec(x) == 0 by {
        assert(1 * x == x);
        assert(0 * x == 0);
    }
    assert forall|x: i32, s: i32|
        s != 0 && #[trigger] x.mul_req(s) implies x.mul_spec(s).div_req(s)
            && x.mul_spec(s).div_spec(s) == x by {
        lemma_exact_division(x as int, s as int);
    }
}

/// `i64` has the integer identities that the laws on point arithmetic rest on.
pub proof fn lemma_i64_integer_identities()
    ensures
        sub_zero_is_identity::<i64>(),
        lerp_identities::<i64>(),
        add_sub_inverse::<i64>(),
        mul_div_inverse::<i64>(),
{
    assert forall|x: i64| #[trigger] (1 as i64).mul_spec(x) == x && (0 as i64).mul_spec(x) == 0 by {
        assert(1 * x == x);
        assert(0 * x == 0);
    }
    assert forall|x: i64, s: i64|
        s != 0 && #[trigger] x.mul_req(s) implies x.mul_spec(s).div_req(s)
            && x.mul_spec(s).div_spec(s) == x by {
        lemma_exact_division(x as int, s as int);
    }
}

/// `i128` has the integer identities that the laws on point arithmetic rest on.
pub proof fn lemma_i128_integer_identities()
    ensures
        sub_zero_is_identity::<i128>(),
        lerp_identities::<i128>(),
        add_sub_inverse::<i128>(),
        mul_div_inverse::<i128>(),
{
    assert forall|x: i128| #[trigger] (1 as i128).mul_spec(x) == x && (0 as i128).mul_spec(x) == 0 by {
        assert(1 * x == x);
        assert(0 * x == 0);
    }
    assert forall|x: i128, s: i128|
        s != 0 && #[trigger] x.mul_req(s) implies x.mul_spec(s).div_req(s)
            && x.mul_spec(s).div_spec(s) == x by {
        lemma_exact_division(x as int, s as int);
    }
}

/// `isize` has the integer identities that the laws on point arithmetic rest on.
pub proof fn lemma_isize_integer_identities()
    ensures
        sub_zero_is_identity::<isize>(),
        lerp_identities::<isize>(),
        add_sub_inverse::<isize>(),
        mul_div_inverse::<isize>(),
{
    assert forall|x: isize| #[trigger] (1 as isize).mul_spec(x) == x && (0 as isize).mul_spec(x) == 0 by {
        assert(1 * x == x);
        assert(0 * x == 0);
    }
    assert forall|x: isize, s: isize|
        s != 0 && #[trigger] x.mul_req(s) implies x.mul_spec(s).div_req(s)
            && x.mul_spec(s).div_spec(s) == x by {
        lemma_exact_division(x as int, s as int);
    }
}

/// `u8` has the integer identities that the laws on point arithmetic rest on.
pub proof fn lemma_u8_integer_identities()
    ensures
        sub_zero_is_identity::<u8>(),
        lerp_identities::<u8>(),
        add_sub_inverse::<u8>(),
        mul_div_inverse::<u8>(),
{
    assert forall|x: u8| #[trigger] (1 as u8).mul_spec(x) == x && (0 as u8).mul_spec(x) == 0 by {
        assert(1 * x == x);
        assert(0 * x == 0);
    }
    assert forall|x: u8, s: u8|
        s != 0 && #[trigger] x.mul_req(s) implies x.mul_spec(s).div_req(s)
            && x.mul_spec(s).div_spec(s) == x by {
        lemma_exact_division(x as int, s as int);
    }
}

/// `u16` has the integer identities that the laws on point arithmetic rest on.
pub proof fn lemma_u16_integer_identities()
    ensures
        sub_zero_is_identity::<u16>(),
        lerp_identities::<u16>(),
        add_sub_inverse::<u16>(),
        mul_div_inverse::<u16>(),
{
    assert forall|x: u16| #[trigger] (1 as u16).mul_spec(x) == x && (0 as u16).mul_spec(x) == 0 by {
        assert(1 * x == x);
        assert(0 * x == 0);
    }
    assert forall|x: u16, s: u16|
        s != 0 && #[trigger] x.mul_req(s) implies x.mul_spec(s).div_req(s)
            && x.mul_spec(s).div_spec(s) == x by {
        lemma_exact_division(x as int, s as int);
    }
}

/// `u32` has the integer identities that the laws on point arithmetic rest on.
pub proof fn lemma_u32_integer_identities()
    ensures
        sub_zero_is_identity::<u32>(),
        lerp_identities::<u32>(),
        add_sub_inverse::<u32>(),
        mul_div_inverse::<u32>(),
{
    assert forall|x: u32| #[trigger] (1 as u32).mul_spec(x) == x && (0 as u32).mul_spec(x) == 0 by {
        assert(1 * x == x);
        assert(0 * x == 0);
    }
    assert forall|x: u32, s: u32|
        s != 0 && #[trigger] x.mul_req(s) implies x.mul_spec(s).div_req(s)
            && x.mul_spec(s).div_spec(s) == x by {
        lemma_exact_division(x as int, s as int);
    }
}

/// `u64` has the integer identities that the laws on point arithmetic rest on.
pub proof fn lemma_u64_integer_identities()
    ensures
        sub_zero_is_identity::<u64>(),
        lerp_identities::<u64>(),
        add_sub_inverse::<u64>(),
        mul_div_inverse::<u64>(),
{
    assert forall|x: u64| #[trigger] (1 as u64).mul_spec(x) == x && (0 as u64).mul_spec(x) == 0 by {
        assert(1 * x == x);
        assert(0 * x == 0);
    }
    assert forall|x: u64, s: u64|
        s != 0 && #[trigger] x.mul_req(s) implies x.mul_spec(s).div_req(s)
            && x.mul_spec(s).div_spec(s) == x by {
        lemma_exact_division(x as int, s as int);
    }
}

/// `u128` has the integer identities that the laws on point arithmetic rest on.
pub proof fn lemma_u128_integer_identities()
    ensures
        sub_zero_is_identity::<u128>(),
        lerp_identities::<u128>(),
        add_sub_inverse::<u128>(),
        mul_div_inverse::<u128>(),
{
    assert forall|x: u128| #[trigger] (1 as u128).mul_spec(x) == x && (0 as u128).mul_spec(x) == 0 by {
        assert(1 * x == x);
        assert(0 * x == 0);
    }
    assert forall|x: u128, s: u128|
        s != 0 && #[trigger] x.mul_req(s) implies x.mul_spec(s).div_req(s)
            && x.mul_spec(s).div_spec(s) == x by {
        lemma_exact_division(x as int, s as int);
    }
}

/// `usize` has the integer identities that the laws on point arithmetic rest on.
pub proof fn lemma_usize_integer_identities()
    ensures
        sub_zero_is_identity::<usize>(),
        lerp_identities::<usize>(),
        add_sub_inverse::<usize>(),
        mul_div_inverse::<usize>(),
{
    assert forall|x: usize| #[trigger] (1 as usize).mul_spec(x) == x && (0 as usize).mul_spec(x) == 0 by {
        assert(1 * x == x);
        assert(0 * x == 0);
    }
    assert forall|x: usize, s: usize|
        s != 0 && #[trigger] x.mul_req(s) implies x.mul_spec(s).div_req(s)
            && x.mul_spec(s).div_spec(s) == x by {
        lemma_exact_division(x as int, s as int);
    }
}

/// An `i16` is already an integer: it is its own nearest integer, the smallest
/// integer at or above it, and the biggest integer at or below it.
pub proof fn lemma_i16_rounding_keeps_integers()
    ensures
        forall|x: i16| #[trigger] x.round_spec() == x,
        forall|x: i16| #[trigger] x.ceil_spec() == x,
        forall|x: i16| #[trigger] x.floor_spec() == x,
{
}

/// An `u16` is already an integer: it is its own nearest integer, the smallest
/// integer at or above it, and the biggest integer at or below it.
pub proof fn lemma_u16_rounding_keeps_integers()
    ensures
        forall|x: u16| #[trigger] x.round_spec() == x,
        forall|x: u16| #[trigger] x.ceil_spec() == x,
        forall|x: u16| #[trigger] x.floor_spec() == x,
{
}

/// An `i32` is already an integer: it is its own nearest integer, the smallest
/// integer at or above it, and the biggest integer at or below it.
pub proof fn lemma_i32_rounding_keeps_integers()
    ensures
        forall|x: i32| #[trigger] x.round_spec() == x,
        forall|x: i32| #[trigger] x.ceil_spec() == x,
        forall|x: i32| #[trigger] x.floor_spec() == x,
{
}

/// An `u32` is already an integer: it is its own nearest integer, the smallest
/// integer at or above it, and the biggest integer at or below it.
pub proof fn lemma_u32_rounding_keeps_integers()
    ensures
        forall|x: u32| #[trigger] x.round_spec() == x,
        forall|x: u32| #[trigger] x.ceil_spec() == x,
        forall|x: u32| #[trigger] x.floor_spec() == x,
{
}

/// An `i64` is already an integer: it is its own nearest integer, the smallest
/// integer at or above it, and the biggest integer at or below it.
pub proof fn lemma_i64_rounding_keeps_integers()
    ensures
        forall|x: i64| #[trigger] x.round_spec() == x,
        forall|x: i64| #[trigger] x.ceil_spec() == x,
        forall|x: i64| #[trigger] x.floor_spec() == x,
{
}

/// An `u64` is already an integer: it is its own nearest integer, the smallest
/// integer at or above it, and the biggest integer at or below it.
pub proof fn lemma_u64_rounding_keeps_integers()
    ensures
        forall|x: u64| #[trigger] x.round_spec() == x,
        forall|x: u64| #[trigger] x.ceil_spec() == x,
        forall|x: u64| #[trigger] x.floor_spec() == x,
{
}

/// An `isize` is already an integer: it is its own nearest integer, the smallest
/// integer at or above it, and the biggest integer at or below it.
pub proof fn lemma_isize_rounding_keeps_integers()
    ensures
        forall|x: isize| #[trigger] x.round_spec() == x,
        forall|x: isize| #[trigger] x.ceil_spec() == x,
        forall|x: isize| #[trigger] x.floor_spec() == x,
{
}

/// An `usize` is already an integer: it is its own nearest integer, the smallest
/// integer at or above it, and the biggest integer at or below it.
pub proof fn lemma_usize_rounding_keeps_integers()
    ensures
        forall|x: usize| #[trigger] x.round_spec() == x,
        forall|x: usize| #[trigger] x.ceil_spec() == x,
        forall|x: usize| #[trigger] x.floor_spec() == x,
{
}

} // verus!
