//! Human-readable rendering of byte counts.
//!
//! Sizes below ten gibibytes are shown in whole mebibytes. Larger sizes are
//! shown in gibibytes with two decimals; the quotient is the one that
//! binary64 arithmetic yields, rendered to the nearest hundredth with ties
//! going to the even neighbour. Everything here is integer arithmetic.

use vstd::prelude::*;

verus! {

/// Number of bytes in one mebibyte.
pub const MIB: u64 = 1048576;

/// Number of bytes in one gibibyte.
pub const GIB: u64 = 1073741824;

/// Smallest size that is shown in gibibytes.
pub const GIB_THRESHOLD: u64 = 10737418240;

/// Every natural number below this bound is a binary64 value.
pub const BINARY64_EXACT: u64 = 9007199254740992;

/// The character that stands for the decimal digit `d`.
pub open spec fn digit_char(d: nat) -> char {
    if d == 0 {
        '0'
    } else if d == 1 {
        '1'
    } else if d == 2 {
        '2'
    } else if d == 3 {
        '3'
    } else if d == 4 {
        '4'
    } else if d == 5 {
        '5'
    } else if d == 6 {
        '6'
    } else if d == 7 {
        '7'
    } else if d == 8 {
        '8'
    } else {
        '9'
    }
}

/// Decimal notation of `n`, most significant digit first, without leading
/// zeros (zero itself is "0").
pub open spec fn decimal(n: nat) -> Seq<char>
    decreases n,
{
    if n < 10 {
        seq![digit_char(n)]
    } else {
        decimal(n / 10).push(digit_char(n % 10))
    }
}

/// The quotient `num / den` rounded to the nearest integer; a quotient that
/// lies exactly halfway between two integers goes to the even one.
pub open spec fn round_half_even(num: nat, den: nat) -> nat
    recommends
        den > 0,
{
    let q = num / den;
    let r = num % den;
    if 2 * r < den {
        q
    } else if 2 * r > den {
        q + 1
    } else if q % 2 == 0 {
        q
    } else {
        q + 1
    }
}

/// Distance between neighbouring binary64 values around `n`: the power of
/// two that leaves `n` with 53 significant bits.
pub open spec fn binary64_step(n: nat) -> nat
    decreases n,
{
    if n < BINARY64_EXACT {
        1
    } else {
        2 * binary64_step(n / 2)
    }
}

/// The binary64 value nearest to `n`, ties going to the even significand.
pub open spec fn nearest_binary64(n: nat) -> nat {
    round_half_even(n, binary64_step(n)) * binary64_step(n)
}

/// Hundredths of a gibibyte shown for `bytes`.
pub open spec fn gib_hundredths(bytes: nat) -> nat {
    round_half_even(nearest_binary64(bytes) * 100, GIB as nat)
}

/// The text shown for a size of `bytes` bytes.
pub open spec fn memory_size_text(bytes: u64) -> Seq<char> {
    if bytes >= GIB_THRESHOLD {
        let h = gib_hundredths(bytes as nat);
        decimal(h / 100) + seq!['.', digit_char(h / 10 % 10), digit_char(h % 10), 'G', 'B']
    } else {
        decimal((bytes / MIB) as nat) + seq!['M', 'B']
    }
}

/// A byte count below 2^53 is a binary64 value, so the hundredths shown are
/// those of the exact quotient.
pub proof fn lemma_small_counts_are_exact(bytes: nat)
    requires
        bytes < BINARY64_EXACT,
    ensures
        nearest_binary64(bytes) == bytes,
        gib_hundredths(bytes) == round_half_even(bytes * 100, GIB as nat),
{
    assert(binary64_step(bytes) == 1);
    assert(bytes / 1 == bytes && bytes % 1 == 0);
}

/// A whole number of gibibytes below 2^53 bytes is shown with ".00".
pub proof fn lemma_whole_gibibytes(k: nat)
    requires
        k * GIB < BINARY64_EXACT,
    ensures
        gib_hundredths(k * (GIB as nat)) == 100 * k,
{
    let g = GIB as nat;
    let bytes = k * g;
    lemma_small_counts_are_exact(bytes);
    let num = bytes * 100;
    let want = 100 * k;
    assert(num == want * g) by (nonlinear_arith)
        requires
            num == (k * g) * 100,
            want == 100 * k,
    ;
    assert(num / g == want && num % g == 0) by (nonlinear_arith)
        requires
            num == want * g,
            g > 0,
    ;
}

/// Appends the digit `d` to `text`.
fn push_digit(text: &mut String, d: u64)
    requires
        d < 10,
    ensures
        final(text)@ == old(text)@.push(digit_char(d as nat)),
{
    proof {
        reveal_strlit("0");
        reveal_strlit("1");
        reveal_strlit("2");
        reveal_strlit("3");
        reveal_strlit("4");
        reveal_strlit("5");
        reveal_strlit("6");
        reveal_strlit("7");
        reveal_strlit("8");
        reveal_strlit("9");
    }
    let glyph = if d == 0 {
        "0"
    } else if d == 1 {
        "1"
    } else if d == 2 {
        "2"
    } else if d == 3 {
        "3"
    } else if d == 4 {
        "4"
    } else if d == 5 {
        "5"
    } else if d == 6 {
        "6"
    } else if d == 7 {
        "7"
    } else if d == 8 {
        "8"
    } else {
        "9"
    };
    assert(glyph@ =~= seq![digit_char(d as nat)]);
    text.append(glyph);
    assert(text@ =~= old(text)@.push(digit_char(d as nat)));
}

/// Appends the decimal notation of `n` to `text`.
pub fn push_decimal(text: &mut String, n: u64)
    ensures
        final(text)@ == old(text)@ + decimal(n as nat),
    decreases n,
{
    if n >= 10 {
        push_decimal(text, n / 10);
    }
    push_digit(text, n % 10);
    assert(text@ =~= old(text)@ + decimal(n as nat));
}

/// The decimal notation of `n` as an owned string.
pub fn decimal_string(n: u64) -> (text: String)
    ensures
        text@ == decimal(n as nat),
{
    let mut text = String::new();
    push_decimal(&mut text, n);
    assert(text@ =~= decimal(n as nat));
    text
}

/// Computes `round_half_even(num, den)`.
fn rounded_quotient(num: u128, den: u128) -> (q: u128)
    requires
        0 < den <= u64::MAX,
        num / den < u64::MAX,
    ensures
        q == round_half_even(num as nat, den as nat),
{
    let q: u128 = num / den;
    let r: u128 = num % den;
    if 2 * r < den {
        q
    } else if 2 * r > den {
        q + 1
    } else if q % 2 == 0 {
        q
    } else {
        q + 1
    }
}

/// Computes `binary64_step(n)`.
fn step_of(n: u64) -> (step: u64)
    ensures
        step == binary64_step(n as nat),
        1 <= step <= 4096,
        n / step < BINARY64_EXACT,
{
    let mut step: u64 = 1;
    let mut rest: u64 = n;
    while rest >= BINARY64_EXACT
        invariant
            1 <= step <= 4096,
            rest as nat * step as nat <= n as nat,
            rest as nat == n as nat / step as nat,
            binary64_step(n as nat) == step as nat * binary64_step(rest as nat),
        decreases rest,
    {
        proof {
            let r = rest as nat;
            let s = step as nat;
            let m = n as nat;
            let inner = binary64_step(r / 2);
            assert(s <= 2047) by (nonlinear_arith)
                requires
                    r * s <= m,
                    r >= 9007199254740992,
                    m < 18446744073709551616,
            ;
            assert(binary64_step(r) == 2 * inner);
            assert(s * (2 * inner) == (2 * s) * inner) by (nonlinear_arith);
            assert((r / 2) * (2 * s) <= m) by (nonlinear_arith)
                requires
                    r * s <= m,
            ;
            assert(r / 2 == m / (2 * s)) by (nonlinear_arith)
                requires
                    r == m / s,
                    s > 0,
            ;
        }
        rest = rest / 2;
        step = step * 2;
    }
    proof {
        assert(binary64_step(rest as nat) == 1);
        assert(step as nat * 1 == step as nat);
    }
    step
}

/// Renders `bytes` for display: whole mebibytes below ten gibibytes,
/// gibibytes with two decimals from there on.
pub fn format_memory_size(bytes: u64) -> (text: String)
    ensures
        text@ == memory_size_text(bytes),
{
    let mut text = String::new();
    if bytes >= GIB_THRESHOLD {
        let step = step_of(bytes);
        let significand: u128 = rounded_quotient(bytes as u128, step as u128);
        assert(significand <= 9007199254740992);
        assert(significand * (step as u128) <= 36893488147419103232) by (nonlinear_arith)
            requires
                significand <= 9007199254740992,
                step <= 4096,
        ;
        let nearest: u128 = significand * (step as u128);
        assert(nearest == nearest_binary64(bytes as nat));
        let h: u128 = rounded_quotient(nearest * 100, GIB as u128);
        assert(h == gib_hundredths(bytes as nat));
        let hundredths: u64 = h as u64;
        push_decimal(&mut text, hundredths / 100);
        text.append(".");
        push_digit(&mut text, hundredths / 10 % 10);
        push_digit(&mut text, hundredths % 10);
        text.append("GB");
        proof {
            reveal_strlit(".");
            reveal_strlit("GB");
            assert(text@ =~= memory_size_text(bytes));
        }
    } else {
        push_decimal(&mut text, bytes / MIB);
        text.append("MB");
        proof {
            reveal_strlit("MB");
            assert(text@ =~= memory_size_text(bytes));
        }
    }
    text
}

} // verus!
