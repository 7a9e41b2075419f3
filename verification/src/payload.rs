//! Decimal rendering of a micro-unit value for the publish payload.
//!
//! The payload is plain ASCII decimal text: the whole units, then — only when
//! the value has a fractional part — a decimal point and the fractional
//! digits with trailing zeros dropped. `2_500_000` micro-units render as
//! `2.5`, `10_000_000` as `10`, `3_141_590` as `3.14159`. The rendering is
//! pinned character by character by the spec functions below, so the payload
//! determines the value exactly as far as six fractional digits carry it.
use vstd::prelude::*;

verus! {

/// Micro-units per whole unit of signal: payloads carry six fractional
/// digits at most.
pub const MICROS_PER_UNIT: u64 = 1_000_000;

/// The decimal digit character for `d` (meaningful for `0 <= d <= 9`).
pub open spec fn digit_char(d: int) -> char {
    if d == 0 { '0' }
    else if d == 1 { '1' }
    else if d == 2 { '2' }
    else if d == 3 { '3' }
    else if d == 4 { '4' }
    else if d == 5 { '5' }
    else if d == 6 { '6' }
    else if d == 7 { '7' }
    else if d == 8 { '8' }
    else { '9' }
}

/// The usual decimal digits of `n`, most significant first, no leading
/// zeros (a single `0` for zero).
pub open spec fn spec_decimal(n: nat) -> Seq<char>
    decreases n,
{
    if n < 10 {
        seq![digit_char(n as int)]
    } else {
        spec_decimal(n / 10) + seq![digit_char((n % 10) as int)]
    }
}

/// The decimal digits of `n` zero-padded on the left to exactly `width`
/// digits (only the lowest `width` digits of `n` appear).
pub open spec fn spec_padded(n: nat, width: nat) -> Seq<char>
    decreases width,
{
    if width == 0 {
        Seq::empty()
    } else {
        spec_padded(n / 10, (width - 1) as nat) + seq![digit_char((n % 10) as int)]
    }
}

/// The fractional digits of `n` taken as a `width`-digit fraction, with the
/// trailing zeros dropped.
pub open spec fn spec_fraction(n: nat, width: nat) -> Seq<char>
    decreases width,
{
    if width <= 1 {
        seq![digit_char((n % 10) as int)]
    } else if n % 10 == 0 {
        spec_fraction(n / 10, (width - 1) as nat)
    } else {
        spec_padded(n, width)
    }
}

/// The full payload text for `v` micro-units.
pub open spec fn spec_payload(v: nat) -> Seq<char> {
    let whole = v / (MICROS_PER_UNIT as nat);
    let frac = v % (MICROS_PER_UNIT as nat);
    if frac == 0 {
        spec_decimal(whole)
    } else {
        spec_decimal(whole) + seq!['.'] + spec_fraction(frac, 6)
    }
}

/// The one-character string for the decimal digit `d`.
fn digit_str(d: u64) -> (r: &'static str)
    requires
        d < 10,
    ensures
        r@ =~= seq![digit_char(d as int)],
{
    proof {
        reveal_strlit("0");
        reveal_strlit("1");
        reveal_strlit("2");
        reveal_strlit("3");
        reveal_strlit("4");
        reveal_strlit("5");
        reveal_strlit("6");
        reveal_strlit("7");
        reveal_strlit("8");
        reveal_strlit("9");
    }
    if d == 0 { "0" }
    else if d == 1 { "1" }
    else if d == 2 { "2" }
    else if d == 3 { "3" }
    else if d == 4 { "4" }
    else if d == 5 { "5" }
    else if d == 6 { "6" }
    else if d == 7 { "7" }
    else if d == 8 { "8" }
    else { "9" }
}

/// Renders `n` as its usual decimal digits.
pub fn render_decimal(n: u64) -> (s: String)
    ensures
        s@ == spec_decimal(n as nat),
    decreases n,
{
    if n < 10 {
        String::from_str(digit_str(n))
    } else {
        proof {
            assert(n / 10 < n) by (nonlinear_arith)
                requires
                    n >= 10,
            ;
        }
        let mut s = render_decimal(n / 10);
        s.append(digit_str(n % 10));
        s
    }
}

/// Renders the lowest `width` decimal digits of `n`, zero-padded.
pub fn render_padded(n: u64, width: u64) -> (s: String)
    ensures
        s@ == spec_padded(n as nat, width as nat),
    decreases width,
{
    if width == 0 {
        String::new()
    } else {
        let mut s = render_padded(n / 10, width - 1);
        s.append(digit_str(n % 10));
        s
    }
}

/// Renders `n` as a `width`-digit fraction with trailing zeros dropped.
pub fn render_fraction(n: u64, width: u64) -> (s: String)
    requires
        width >= 1,
    ensures
        s@ == spec_fraction(n as nat, width as nat),
    decreases width,
{
    if width == 1 {
        String::from_str(digit_str(n % 10))
    } else if n % 10 == 0 {
        render_fraction(n / 10, width - 1)
    } else {
        render_padded(n, width)
    }
}

/// Renders `v` micro-units as the publish payload text.
pub fn render_micros(v: u64) -> (s: String)
    ensures
        s@ == spec_payload(v as nat),
{
    let whole = v / MICROS_PER_UNIT;
    let frac = v % MICROS_PER_UNIT;
    if frac == 0 {
        render_decimal(whole)
    } else {
        proof {
            reveal_strlit(".");
        }
        let mut s = render_decimal(whole);
        s.append(".");
        let f = render_fraction(frac, 6);
        s.append(f.as_str());
        s
    }
}

} // verus!
