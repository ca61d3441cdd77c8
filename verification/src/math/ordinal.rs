use vstd::prelude::*;

verus! {

/// The sign bit of a binary64 bit pattern; by itself, negative zero.
pub const SIGN: u64 = 0x8000_0000_0000_0000;

/// The bit pattern of positive infinity: the largest magnitude that is a
/// number. Every larger magnitude is a NaN.
pub const INFINITY: u64 = 0x7ff0_0000_0000_0000;

/// The bit pattern of one.
pub const ONE: u64 = 0x3ff0_0000_0000_0000;

/// The bit pattern of the machine epsilon, two to the power of minus 52:
/// the threshold below which a quantity is taken for zero.
pub const EPSILON: u64 = 0x3cb0_0000_0000_0000;

/// Is the sign bit set?
pub open spec fn is_negative(bits: u64) -> bool {
    bits >= SIGN
}

/// The pattern without its sign bit. A larger magnitude is a number further
/// from zero.
pub open spec fn magnitude(bits: u64) -> int {
    if is_negative(bits) {
        bits - SIGN
    } else {
        bits as int
    }
}

/// Is the pattern that of a NaN?
pub open spec fn is_nan(bits: u64) -> bool {
    magnitude(bits) > INFINITY
}

/// The pattern with its sign bit turned over: that of the negated number.
pub open spec fn negated(bits: u64) -> u64 {
    if is_negative(bits) {
        (bits - SIGN) as u64
    } else {
        (bits + SIGN) as u64
    }
}

/// The ordinal of a pattern. For a number it is the magnitude, counted
/// downward from zero where the sign bit is set: numbers are less, equal or
/// greater as their ordinals are, and the two zeros, equal as numbers,
/// share the ordinal zero. For a NaN, which compares with nothing, it is
/// the least integer, below the ordinal of every number.
pub open spec fn ordinal_of(bits: u64) -> int {
    if is_nan(bits) {
        i64::MIN as int
    } else if is_negative(bits) {
        -magnitude(bits)
    } else {
        magnitude(bits)
    }
}

/// The ordinal of a binary64 bit pattern: an integer by which numbers can
/// be compared as integers.
pub fn ordinal(bits: u64) -> (k: i64)
    ensures
        k == ordinal_of(bits),
{
    if bits >= SIGN {
        let m: u64 = bits - SIGN;
        if m > INFINITY {
            i64::MIN
        } else {
            -(m as i64)
        }
    } else if bits > INFINITY {
        i64::MIN
    } else {
        bits as i64
    }
}

/// The bit pattern of a NaN: the one that `pattern` gives for an ordinal
/// that no number has.
pub const NAN: u64 = 0x7ff8_0000_0000_0000;

/// Is `k` the ordinal of a number?
pub open spec fn is_number(k: int) -> bool {
    -(INFINITY as int) <= k <= INFINITY as int
}

/// The pattern that an ordinal stands for: that of the number with this
/// ordinal, of positive zero for zero, and of a NaN for an ordinal that no
/// number has.
pub open spec fn pattern_of(k: int) -> u64 {
    if !is_number(k) {
        NAN
    } else if k < 0 {
        (SIGN + (-k)) as u64
    } else {
        k as u64
    }
}

/// The bit pattern that an ordinal stands for: the way back from a rule's
/// answer to a number.
pub fn pattern(k: i64) -> (bits: u64)
    ensures
        bits == pattern_of(k as int),
{
    if k > INFINITY as i64 || k < -(INFINITY as i64) {
        NAN
    } else if k < 0 {
        SIGN + ((-k) as u64)
    } else {
        k as u64
    }
}

/// Is the quantity within epsilon of zero, the bounds left out?
pub open spec fn is_near_zero(x: i64) -> bool {
    -ordinal_of(EPSILON) < x < ordinal_of(EPSILON)
}

/// Is the quantity within epsilon of zero? So is the difference of two
/// numbers that count as equal, the cosine between a ray and a plane it
/// runs along, and the determinant of a triangle without area.
pub fn near_zero(x: i64) -> (b: bool)
    ensures
        b == is_near_zero(x),
{
    let eps = ordinal(EPSILON);
    -eps < x && x < eps
}

/// Is the quantity further than epsilon from zero, the bounds left out?
pub open spec fn is_beyond_epsilon(x: i64) -> bool {
    x < -ordinal_of(EPSILON) || x > ordinal_of(EPSILON)
}

/// Is the quantity further than epsilon from zero? So is the difference of
/// two numbers that count as different. A difference of just epsilon is
/// neither near zero nor beyond it.
pub fn beyond_epsilon(x: i64) -> (b: bool)
    ensures
        b == is_beyond_epsilon(x),
{
    let eps = ordinal(EPSILON);
    x < -eps || x > eps
}

/// An ordinal and its pattern undo each other: the pattern of a number's
/// ordinal is the number's own, but that negative zero comes back as
/// positive zero; and the ordinal of a pattern made from a number's
/// ordinal is that ordinal. An ordinal that no number has gives a NaN.
pub proof fn lemma_pattern_undoes_ordinal(bits: u64, k: int)
    ensures
        !is_nan(bits) && bits != SIGN ==> pattern_of(ordinal_of(bits)) == bits,
        pattern_of(ordinal_of(SIGN)) == 0,
        is_number(k) ==> !is_nan(pattern_of(k)) && ordinal_of(pattern_of(k)) == k,
        !is_number(k) ==> is_nan(pattern_of(k)),
        is_nan(bits) ==> is_nan(pattern_of(ordinal_of(bits))),
{
}

/// Numbers have the same ordinal exactly when their patterns are the same
/// or both are zeros.
pub proof fn lemma_same_ordinal(a: u64, b: u64)
    requires
        !is_nan(a),
        !is_nan(b),
    ensures
        ordinal_of(a) == ordinal_of(b) <==> a == b || (magnitude(a) == 0 && magnitude(b) == 0),
{
}

/// Negating a number negates its ordinal.
pub proof fn lemma_ordinal_of_negated(bits: u64)
    requires
        !is_nan(bits),
    ensures
        !is_nan(negated(bits)),
        ordinal_of(negated(bits)) == -ordinal_of(bits),
{
}

/// Every number lies between the two infinities, and a NaN below them all:
/// no range of ordinals that starts at a number holds a NaN.
pub proof fn lemma_nan_is_below_all(nan: u64, number: u64)
    requires
        is_nan(nan),
        !is_nan(number),
    ensures
        -ordinal_of(INFINITY) <= ordinal_of(number) <= ordinal_of(INFINITY),
        ordinal_of(nan) < ordinal_of(number),
{
}

} // verus!
