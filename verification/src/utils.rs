//! Human-readable byte counts.
//!
//! A byte count is shown in the largest binary unit that it reaches, with two
//! decimal places, or as a plain number of bytes below one kibibyte. The
//! scaled figure is the one a double-precision quotient shows when printed
//! with two decimals: the count is first kept to 53 significant binary digits
//! and the quotient is then rounded to the nearest hundredth, ties going to
//! the even hundredth. All of it is computed on integers.

use crate::decimal::{decimal, padded, push_decimal, push_padded};
use vstd::arithmetic::div_mod::*;
use vstd::arithmetic::mul::*;
use vstd::prelude::*;
use vstd::string::*;

verus! {

/// Bytes in a kibibyte.
pub const KIB: u64 = 1_024;

/// Bytes in a mebibyte.
pub const MIB: u64 = 1_048_576;

/// Bytes in a gibibyte.
pub const GIB: u64 = 1_073_741_824;

/// The first count that needs more than 53 binary digits.
pub const PRECISION_LIMIT: u64 = 9_007_199_254_740_992;

/// The quotient `a / b` rounded to the nearest integer; a quotient that lies
/// exactly between two integers goes to the even one.
pub open spec fn round_half_even(a: nat, b: nat) -> nat
    recommends
        b > 0,
{
    let q = a / b;
    let r = a % b;
    if 2 * r > b || (2 * r == b && q % 2 == 1) {
        q + 1
    } else {
        q
    }
}

/// The weight of the last of the 53 leading binary digits of `n`: one while
/// `n` has at most 53 digits, and doubled for each digit beyond that.
pub open spec fn precision_step(n: nat) -> nat
    decreases n,
{
    if n < PRECISION_LIMIT {
        1
    } else {
        2 * precision_step(n / 2)
    }
}

/// `n` kept to 53 significant binary digits: the nearest multiple of
/// `precision_step(n)`, ties going to the even multiple.
pub open spec fn to_precision(n: nat) -> nat {
    round_half_even(n, precision_step(n)) * precision_step(n)
}

/// `bytes` measured in `unit`, in hundredths of the unit.
pub open spec fn hundredths(bytes: nat, unit: nat) -> nat
    recommends
        unit > 0,
{
    round_half_even(to_precision(bytes) * 100, unit)
}

/// The figure `bytes / unit` with two decimal places.
pub open spec fn scaled_text(bytes: nat, unit: nat) -> Seq<char>
    recommends
        unit > 0,
{
    let h = hundredths(bytes, unit);
    decimal(h / 100) + seq!['.'] + padded(h % 100, 2)
}

/// The text shown for a size of `bytes` bytes.
pub open spec fn size_text(bytes: nat) -> Seq<char> {
    if bytes >= GIB {
        scaled_text(bytes, GIB as nat) + seq![' ', 'G', 'B']
    } else if bytes >= MIB {
        scaled_text(bytes, MIB as nat) + seq![' ', 'M', 'B']
    } else if bytes >= KIB {
        scaled_text(bytes, KIB as nat) + seq![' ', 'K', 'B']
    } else {
        decimal(bytes) + seq![' ', 'B']
    }
}

/// Rounding a quotient moves it by less than one, and never past the
/// dividend's own bound.
pub proof fn lemma_round_half_even_bounds(a: nat, b: nat)
    requires
        b > 0,
    ensures
        a / b <= round_half_even(a, b) <= a / b + 1,
        round_half_even(a, b) * b <= a + b,
        a % b == 0 ==> round_half_even(a, b) == a / b,
{
    lemma_fundamental_div_mod(a as int, b as int);
    assert((a / b + 1) * b == (a / b) * b + b) by (nonlinear_arith);
    assert((a / b) * b == b * (a / b)) by (nonlinear_arith);
}

/// A count of at most 53 binary digits is kept as it is, so that its figure
/// is the exact quotient rounded to hundredths.
pub proof fn lemma_small_counts_are_exact(bytes: nat, unit: nat)
    requires
        bytes < PRECISION_LIMIT,
        unit > 0,
    ensures
        to_precision(bytes) == bytes,
        hundredths(bytes, unit) == round_half_even(bytes * 100, unit),
{
    assert(precision_step(bytes) == 1);
    assert(bytes / 1 == bytes && bytes % 1 == 0);
    assert(round_half_even(bytes, 1) == bytes);
}

/// Rounds `a / b` to the nearest integer, ties to even.
pub fn round_half_even_div(a: u128, b: u128) -> (q: u128)
    requires
        b > 0,
        a < u128::MAX,
    ensures
        q == round_half_even(a as nat, b as nat),
{
    let q = a / b;
    let r = a % b;
    proof {
        lemma_fundamental_div_mod(a as int, b as int);
        assert(q <= a) by (nonlinear_arith)
            requires
                a == b * q + r,
                b >= 1,
                r >= 0,
                q >= 0,
        ;
    }
    if r > b - r || (r == b - r && q % 2 == 1) {
        q + 1
    } else {
        q
    }
}

/// The weight of the last of the 53 leading binary digits of `n`.
pub fn precision_step_of(n: u64) -> (step: u64)
    ensures
        step == precision_step(n as nat),
        1 <= step <= 4_096,
{
    let mut step: u64 = 1;
    let mut top: u64 = n;
    while top >= PRECISION_LIMIT
        invariant
            1 <= step <= 4_096,
            step * precision_step(top as nat) == precision_step(n as nat),
            top as nat * step as nat <= n as nat,
        decreases top,
    {
        proof {
            assert((top / 2) as nat * (step * 2) as nat <= top as nat * step as nat)
                by (nonlinear_arith)
                requires
                    (top / 2) * 2 <= top,
            ;
            assert(step * (2 * precision_step((top / 2) as nat)) == (step * 2)
                * precision_step((top / 2) as nat)) by (nonlinear_arith);
            assert(step < 2_048) by (nonlinear_arith)
                requires
                    top as nat * step as nat <= n as nat,
                    top >= 9_007_199_254_740_992,
                    n <= 0xffff_ffff_ffff_ffff,
            ;
        }
        top = top / 2;
        step = step * 2;
    }
    assert(precision_step(top as nat) == 1);
    assert(step * 1 == step) by (nonlinear_arith);
    step
}

/// Appends the figure `size / unit` with two decimal places to `out`.
fn push_scaled(out: &mut String, size: u64, unit: u64)
    requires
        unit == KIB || unit == MIB || unit == GIB,
    ensures
        final(out)@ == old(out)@ + scaled_text(size as nat, unit as nat),
{
    let step = precision_step_of(size);
    proof {
        lemma_round_half_even_bounds(size as nat, step as nat);
    }
    let kept = round_half_even_div(size as u128, step as u128);
    let whole: u128 = kept * (step as u128);
    assert(whole == to_precision(size as nat));
    let scaled: u128 = whole * 100;
    proof {
        lemma_round_half_even_bounds(scaled as nat, unit as nat);
        lemma_div_is_ordered_by_denominator(scaled as int, 1_024, unit as int);
    }
    let h = round_half_even_div(scaled, unit as u128);
    let h: u64 = h as u64;
    assert(h == hundredths(size as nat, unit as nat));
    push_decimal(out, h / 100);
    proof {
        reveal_strlit(".");
    }
    out.append(".");
    push_padded(out, h % 100, 2);
    assert(out@ =~= old(out)@ + scaled_text(size as nat, unit as nat));
}

/// Renders a byte count for display: gibibytes, mebibytes or kibibytes with
/// two decimal places once the count reaches the unit, plain bytes below one
/// kibibyte.
pub fn human_readable_size(size: u64) -> (text: String)
    ensures
        text@ == size_text(size as nat),
{
    let mut out = String::new();
    if size >= GIB {
        push_scaled(&mut out, size, GIB);
        proof {
            reveal_strlit(" GB");
        }
        out.append(" GB");
        assert(out@ =~= scaled_text(size as nat, GIB as nat) + seq![' ', 'G', 'B']);
    } else if size >= MIB {
        push_scaled(&mut out, size, MIB);
        proof {
            reveal_strlit(" MB");
        }
        out.append(" MB");
        assert(out@ =~= scaled_text(size as nat, MIB as nat) + seq![' ', 'M', 'B']);
    } else if size >= KIB {
        push_scaled(&mut out, size, KIB);
        proof {
            reveal_strlit(" KB");
        }
        out.append(" KB");
        assert(out@ =~= scaled_text(size as nat, KIB as nat) + seq![' ', 'K', 'B']);
    } else {
        push_decimal(&mut out, size);
        proof {
            reveal_strlit(" B");
        }
        out.append(" B");
        assert(out@ =~= decimal(size as nat) + seq![' ', 'B']);
    }
    out
}

} // verus!
