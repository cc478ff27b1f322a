//! Volume scalars and the range they are held to.
//!
//! A volume scalar is a single-precision binary number between zero and one,
//! zero for silence and one for full volume. It is carried here as its 32-bit
//! pattern: one sign bit, eight exponent bits, twenty-three fraction bits. The
//! functions of this module say what such a pattern denotes, in whole numbers
//! of the format's smallest step, and decide on the pattern alone whether the
//! number lies in range.
use vstd::prelude::*;
use vstd::arithmetic::power2::{
    lemma2_to64, lemma_pow2_adds, lemma_pow2_pos, lemma_pow2_strictly_increases, pow2,
};

verus! {

/// The pattern of the scalar one: full volume.
pub const FULL: u32 = 0x3F80_0000;

/// The pattern of zero with the sign bit set.
pub const NEGATIVE_ZERO: u32 = 0x8000_0000;

/// Whether the sign bit of a pattern is set.
pub open spec fn negative(bits: u32) -> bool {
    bits >= 0x8000_0000
}

/// The exponent field of a pattern, 0 to 255.
pub open spec fn exponent(bits: u32) -> nat {
    (bits as nat / 0x80_0000) % 0x100
}

/// The fraction field of a pattern, below 2^23.
pub open spec fn fraction(bits: u32) -> nat {
    bits as nat % 0x80_0000
}

/// Whether a pattern denotes a number: the exponent field 255 is kept for the
/// infinities and for what is not a number.
pub open spec fn finite(bits: u32) -> bool {
    exponent(bits) != 0xFF
}

/// The absolute value that a pattern denotes, counted in steps of 2^-149.
///
/// With the exponent field 0 the fraction counts the steps itself. Otherwise
/// the fraction gains a leading one and each further exponent doubles it.
pub open spec fn magnitude(bits: u32) -> nat {
    if exponent(bits) == 0 {
        fraction(bits)
    } else {
        (0x80_0000 + fraction(bits)) * pow2((exponent(bits) - 1) as nat)
    }
}

/// The value that a finite pattern denotes, counted in steps of 2^-149.
pub open spec fn value(bits: u32) -> int {
    if negative(bits) {
        -(magnitude(bits) as int)
    } else {
        magnitude(bits) as int
    }
}

/// The scalar one, counted in steps of 2^-149.
pub open spec fn one() -> int {
    pow2(149) as int
}

/// Whether a pattern denotes a number from zero to one, both ends included.
/// Both zeros are in; an infinity or what is not a number is out.
pub open spec fn in_unit_interval(bits: u32) -> bool {
    finite(bits) && 0 <= value(bits) <= one()
}

/// Setting the sign bit changes neither the exponent nor the fraction.
proof fn lemma_fields_without_sign(bits: u32)
    requires
        negative(bits),
    ensures
        exponent(bits) == exponent((bits - 0x8000_0000) as u32),
        fraction(bits) == fraction((bits - 0x8000_0000) as u32),
        magnitude(bits) == magnitude((bits - 0x8000_0000) as u32),
{
}

/// The product of a count with a power of two grows with the count.
proof fn lemma_scaled_order(small: nat, large: nat, e: nat)
    requires
        small < large,
    ensures
        small * pow2(e) < large * pow2(e),
{
    lemma_pow2_pos(e);
    assert(small * pow2(e) < large * pow2(e)) by (nonlinear_arith)
        requires
            small < large,
            pow2(e) > 0,
    ;
}

/// Powers of two grow with the exponent.
proof fn lemma_pow2_order(low: nat, high: nat)
    requires
        low <= high,
    ensures
        pow2(low) <= pow2(high),
{
    if low < high {
        lemma_pow2_strictly_increases(low, high);
    }
}

/// Among the patterns without a sign bit, the larger pattern denotes the
/// larger magnitude: such patterns can be compared as the integers they are.
pub proof fn lemma_magnitude_order(a: u32, b: u32)
    requires
        a < b,
        !negative(b),
    ensures
        magnitude(a) < magnitude(b),
{
    lemma2_to64();
    let ea = exponent(a);
    let eb = exponent(b);
    let fa = fraction(a);
    let fb = fraction(b);
    assert(a == ea * 0x80_0000 + fa);
    assert(b == eb * 0x80_0000 + fb);
    if ea == eb {
        if ea != 0 {
            lemma_scaled_order(0x80_0000 + fa, 0x80_0000 + fb, (ea - 1) as nat);
        }
    } else {
        assert(ea < eb);
        let kb = (eb - 1) as nat;
        lemma_pow2_pos(kb);
        assert(0x80_0000 * pow2(kb) <= (0x80_0000 + fb) * pow2(kb)) by (nonlinear_arith)
            requires
                pow2(kb) > 0,
        ;
        if ea == 0 {
            assert(0x80_0000 <= 0x80_0000 * pow2(kb)) by (nonlinear_arith)
                requires
                    pow2(kb) > 0,
            ;
        } else {
            let ka = (ea - 1) as nat;
            lemma_scaled_order(0x80_0000 + fa, 0x100_0000, ka);
            lemma_pow2_adds(1, ka);
            lemma_pow2_order(ea, kb);
            assert(0x100_0000 * pow2(ka) == 0x80_0000 * pow2(ea)) by (nonlinear_arith)
                requires
                    pow2(ea) == 2 * pow2(ka),
            ;
            assert(0x80_0000 * pow2(ea) <= 0x80_0000 * pow2(kb)) by (nonlinear_arith)
                requires
                    pow2(ea) <= pow2(kb),
            ;
        }
    }
}

/// The pattern `FULL` denotes one.
pub proof fn lemma_full_is_one()
    ensures
        finite(FULL),
        value(FULL) == one(),
{
    lemma2_to64();
    lemma_pow2_adds(23, 126);
    assert(exponent(FULL) == 127);
    assert(fraction(FULL) == 0);
}

/// Both zeros denote zero, and no other pattern does.
pub proof fn lemma_zero(bits: u32)
    ensures
        magnitude(bits) == 0 <==> (bits == 0 || bits == NEGATIVE_ZERO),
{
    if negative(bits) {
        lemma_fields_without_sign(bits);
        let low = (bits - 0x8000_0000) as u32;
        if low != 0 {
            lemma_magnitude_order(0, low);
        }
    } else if bits != 0 {
        lemma_magnitude_order(0, bits);
    }
}

/// The patterns in range are those from zero up to `FULL`, and
/// `NEGATIVE_ZERO`.
pub proof fn lemma_unit_interval(bits: u32)
    ensures
        in_unit_interval(bits) <==> (bits <= FULL || bits == NEGATIVE_ZERO),
{
    lemma_full_is_one();
    lemma_zero(bits);
    if bits < FULL {
        lemma_magnitude_order(bits, FULL);
        assert(exponent(bits) <= 127);
    } else if !negative(bits) && bits > FULL {
        lemma_magnitude_order(FULL, bits);
    }
}

/// Decides whether a pattern denotes a number from zero to one.
pub fn is_unit_scalar(bits: u32) -> (inside: bool)
    ensures
        inside == in_unit_interval(bits),
{
    proof {
        lemma_unit_interval(bits);
    }
    bits <= FULL || bits == NEGATIVE_ZERO
}

/// What is to be done with a requested scalar.
#[derive(Clone, Copy, Debug, PartialEq, Eq, Structural)]
pub enum Verdict {
    /// The volume word was no number: print the usage text, change nothing.
    Usage,
    /// The scalar is out of range: say so, change nothing.
    Refuse,
    /// Set the endpoint to the scalar with this pattern.
    Apply(u32),
}

/// The verdict on a request: `None` where the volume word could not be read
/// as a number, else the pattern of the scalar asked for.
pub open spec fn verdict_of(requested: Option<u32>) -> Verdict {
    match requested {
        None => Verdict::Usage,
        Some(bits) => if in_unit_interval(bits) {
            Verdict::Apply(bits)
        } else {
            Verdict::Refuse
        },
    }
}

/// Passes a request on to the endpoint only if it names a scalar in range.
pub fn settle(requested: Option<u32>) -> (verdict: Verdict)
    ensures
        verdict == verdict_of(requested),
{
    match requested {
        None => Verdict::Usage,
        Some(bits) => if is_unit_scalar(bits) {
            Verdict::Apply(bits)
        } else {
            Verdict::Refuse
        },
    }
}

} // verus!
