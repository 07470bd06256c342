//! Decimal and scientific text for fixed-point values, with exact
//! character-sequence specifications.

use vstd::prelude::*;
use vstd::string::StringExecFns;
use crate::fixed::{Fixed, FX_MAX, int_abs, tz_div};

verus! {

/// The character for one decimal digit.
pub open spec fn digit_char(d: int) -> char {
    if d == 0 {
        '0'
    } else if d == 1 {
        '1'
    } else if d == 2 {
        '2'
    } else if d == 3 {
        '3'
    } else if d == 4 {
        '4'
    } else if d == 5 {
        '5'
    } else if d == 6 {
        '6'
    } else if d == 7 {
        '7'
    } else if d == 8 {
        '8'
    } else {
        '9'
    }
}

/// The decimal digits of a number, most significant first, no sign.
pub open spec fn dec_digits(n: nat) -> Seq<char>
    decreases n,
{
    if n < 10 {
        seq![digit_char(n as int)]
    } else {
        dec_digits(n / 10) + seq![digit_char((n % 10) as int)]
    }
}

/// The `width` low decimal digits of a number, zero-padded on the left.
pub open spec fn pad_digits(n: nat, width: nat) -> Seq<char>
    decreases width,
{
    if width == 0 {
        Seq::empty()
    } else {
        pad_digits(n / 10, (width - 1) as nat) + seq![digit_char((n % 10) as int)]
    }
}

/// Remove every trailing `'0'`.
pub open spec fn strip_zeros(s: Seq<char>) -> Seq<char>
    decreases s.len(),
{
    if s.len() > 0 && s.last() == '0' {
        strip_zeros(s.drop_last())
    } else {
        s
    }
}

/// A fraction part: a dot followed by the `width` low digits of `n` with
/// trailing zeros removed, or nothing when those digits are all zero.
pub open spec fn dot_frac(n: nat, width: nat) -> Seq<char> {
    let f = strip_zeros(pad_digits(n, width));
    if f.len() == 0 {
        Seq::empty()
    } else {
        seq!['.'] + f
    }
}

/// Ten to the power `e`.
pub open spec fn pow10(e: nat) -> nat
    decreases e,
{
    if e == 0 {
        1nat
    } else {
        10 * pow10((e - 1) as nat)
    }
}

/// The floor of the base-ten logarithm (zero for inputs below ten).
pub open spec fn log10(m: nat) -> nat
    decreases m,
{
    if m < 10 {
        0nat
    } else {
        1 + log10(m / 10)
    }
}

/// What a signed whole number looks like in scientific notation with a
/// leading sign, one mantissa digit, a fraction without trailing zeros,
/// and a plain exponent: `+1.23e4`, `-5e0`, `+0e0`.
pub open spec fn sci_text(n: int) -> Seq<char> {
    let sign: Seq<char> = if n < 0 {
        seq!['-']
    } else {
        seq!['+']
    };
    let mag = int_abs(n) as nat;
    let e = log10(mag);
    let first = mag / pow10(e);
    let rest = mag % pow10(e);
    sign + seq![digit_char(first as int)] + dot_frac(rest, e) + seq!['e'] + dec_digits(e)
}

/// Scientific text for a signed value of magnitude exactly one in the
/// `d`-th decimal place: `+1e-5`, `-1e-2`, `+1e0`.
pub open spec fn tiny_sci_text(negative: bool, d: nat) -> Seq<char> {
    let sign: Seq<char> = if negative {
        seq!['-']
    } else {
        seq!['+']
    };
    if d == 0 {
        sign + seq!['1', 'e', '0']
    } else {
        sign + seq!['1', 'e', '-'] + dec_digits(d)
    }
}

/// Plain decimal text of a fixed-point value given in micro-units:
/// optional minus sign, whole part, fraction without trailing zeros.
pub open spec fn fixed_text(m: int) -> Seq<char> {
    let sign: Seq<char> = if m < 0 {
        seq!['-']
    } else {
        Seq::empty()
    };
    let mag = int_abs(m) as nat;
    sign + dec_digits(mag / 1_000_000) + dot_frac(mag % 1_000_000, 6)
}

/// The magnitude in micro-units rounded to `d` decimal places,
/// half away from zero.
pub open spec fn round_mag(mag: nat, d: nat) -> nat {
    if d >= 6 {
        mag
    } else {
        let unit = pow10((6 - d) as nat);
        ((mag + unit / 2) / unit) * unit
    }
}

/// A micro-unit value rounded to `d` decimal places, half away from zero.
pub open spec fn round_micros(m: int, d: nat) -> int {
    if m < 0 {
        -(round_mag((-m) as nat, d) as int)
    } else {
        round_mag(m as nat, d) as int
    }
}

/// Scientific text of a value whose rounding ended at zero: the zero keeps
/// the sign of the value it came from.
pub open spec fn zero_sci_text(negative: bool) -> Seq<char> {
    if negative {
        seq!['-', '0', 'e', '0']
    } else {
        seq!['+', '0', 'e', '0']
    }
}

/// What the default tick formatter prints for a value of `m` micro-units
/// with at most `d` digits: scientific notation for magnitudes above
/// `10^d`, scientific notation of the rounded value for non-zero
/// magnitudes below `10^-d`, and otherwise the value rounded to `d`
/// decimal places in plain decimal.
pub open spec fn default_format_text(m: int, d: nat) -> Seq<char> {
    let mag = int_abs(m) as nat;
    if mag > pow10(d + 6) {
        sci_text(tz_div(m, 1_000_000))
    } else {
        let r = round_micros(m, d);
        if mag * pow10(d) < 1_000_000 && m != 0 {
            if r == 0 {
                zero_sci_text(m < 0)
            } else {
                tiny_sci_text(m < 0, d)
            }
        } else {
            fixed_text(r)
        }
    }
}

proof fn lemma_pow10_pos(e: nat)
    ensures
        pow10(e) >= 1,
    decreases e,
{
    if e > 0 {
        lemma_pow10_pos((e - 1) as nat);
    }
}

proof fn lemma_pow10_mono(a: nat, b: nat)
    requires
        a <= b,
    ensures
        pow10(a) <= pow10(b),
    decreases b,
{
    if a < b {
        lemma_pow10_mono(a, (b - 1) as nat);
        lemma_pow10_pos((b - 1) as nat);
    }
}

proof fn lemma_pow10_vals()
    ensures
        pow10(6) == 1_000_000,
        pow10(9) == 1_000_000_000,
        pow10(15) == 1_000_000_000_000_000,
{
    reveal_with_fuel(pow10, 16);
}

proof fn lemma_pad_len(n: nat, w: nat)
    ensures
        pad_digits(n, w).len() == w,
    decreases w,
{
    if w > 0 {
        lemma_pad_len(n / 10, (w - 1) as nat);
    }
}

proof fn lemma_strip_pad_step(n: nat, w: nat)
    requires
        w >= 1,
        n % 10 == 0,
    ensures
        strip_zeros(pad_digits(n, w)) == strip_zeros(pad_digits(n / 10, (w - 1) as nat)),
{
    let s = pad_digits(n / 10, (w - 1) as nat);
    assert(pad_digits(n, w) == s + seq![digit_char(0)]);
    assert((s + seq!['0']).last() == '0');
    assert((s + seq!['0']).drop_last() =~= s);
}

proof fn lemma_strip_pad_done(n: nat, w: nat)
    requires
        w >= 1,
        n % 10 != 0,
    ensures
        strip_zeros(pad_digits(n, w)) == pad_digits(n, w),
        pad_digits(n, w).len() == w,
{
    lemma_pad_len(n, w);
    let s = pad_digits(n / 10, (w - 1) as nat);
    assert(pad_digits(n, w) == s + seq![digit_char((n % 10) as int)]);
    assert(pad_digits(n, w).last() == digit_char((n % 10) as int));
    assert(digit_char((n % 10) as int) != '0');
}

fn digit_str(d: u64) -> (r: &'static str)
    requires
        d < 10,
    ensures
        r@ =~= seq![digit_char(d as int)],
{
    proof {
        reveal_strlit("0");
        reveal_strlit("1");
        reveal_strlit("2");
        reveal_strlit("3");
        reveal_strlit("4");
        reveal_strlit("5");
        reveal_strlit("6");
        reveal_strlit("7");
        reveal_strlit("8");
        reveal_strlit("9");
    }
    match d {
        0 => "0",
        1 => "1",
        2 => "2",
        3 => "3",
        4 => "4",
        5 => "5",
        6 => "6",
        7 => "7",
        8 => "8",
        _ => "9",
    }
}

fn push_dec(s: &mut String, n: u64)
    ensures
        final(s)@ == old(s)@ + dec_digits(n as nat),
    decreases n,
{
    if n < 10 {
        s.append(digit_str(n));
    } else {
        let ghost before = s@;
        push_dec(s, n / 10);
        s.append(digit_str(n % 10));
        proof {
            assert(final(s)@ =~= before + dec_digits(n as nat));
        }
    }
}

fn push_pad(s: &mut String, n: u64, width: u64)
    ensures
        final(s)@ == old(s)@ + pad_digits(n as nat, width as nat),
    decreases width,
{
    if width == 0 {
        proof {
            assert(old(s)@ + pad_digits(n as nat, 0) =~= old(s)@);
        }
    } else {
        let ghost before = s@;
        push_pad(s, n / 10, width - 1);
        s.append(digit_str(n % 10));
        proof {
            assert(final(s)@ =~= before + pad_digits(n as nat, width as nat));
        }
    }
}

/// A whole number written out in decimal.
pub fn dec_string(n: u64) -> (r: String)
    ensures
        r@ == dec_digits(n as nat),
{
    let mut out = String::new();
    push_dec(&mut out, n);
    out
}

fn frac_part(n: u64, width: u64) -> (r: String)
    ensures
        r@ == dot_frac(n as nat, width as nat),
{
    let mut m = n;
    let mut w = width;
    while w > 0 && m % 10 == 0
        invariant
            strip_zeros(pad_digits(n as nat, width as nat)) == strip_zeros(
                pad_digits(m as nat, w as nat),
            ),
        decreases w,
    {
        proof {
            lemma_strip_pad_step(m as nat, w as nat);
        }
        m = m / 10;
        w = w - 1;
    }
    if w == 0 {
        proof {
            assert(pad_digits(m as nat, 0) =~= Seq::<char>::empty());
            assert(strip_zeros(Seq::<char>::empty()) =~= Seq::<char>::empty());
        }
        String::new()
    } else {
        proof {
            lemma_strip_pad_done(m as nat, w as nat);
            reveal_strlit(".");
        }
        let mut out = String::from_str(".");
        push_pad(&mut out, m, w);
        proof {
            assert(out@ =~= dot_frac(n as nat, width as nat));
        }
        out
    }
}

fn sign_str(negative: bool) -> (r: &'static str)
    ensures
        negative ==> r@ =~= seq!['-'],
        !negative ==> r@ =~= seq!['+'],
{
    proof {
        reveal_strlit("-");
        reveal_strlit("+");
    }
    if negative {
        "-"
    } else {
        "+"
    }
}

fn sci_string(negative: bool, mag: u64) -> (r: String)
    requires
        1 <= mag <= 1_000_000_000,
    ensures
        r@ == sci_text(
            if negative {
                -(mag as int)
            } else {
                mag as int
            },
        ),
{
    let mut e: u64 = 0;
    let mut p: u64 = 1;
    while p * 10 <= mag
        invariant
            p as nat == pow10(e as nat),
            1 <= p <= mag,
            mag <= 1_000_000_000,
            e <= 9,
        decreases mag - p,
    {
        proof {
            lemma_pow10_vals();
            if e == 9 {
                assert(p == 1_000_000_000);
                assert(false);
            }
        }
        p = p * 10;
        e = e + 1;
    }
    proof {
        lemma_log10_unique(mag as nat, e as nat);
    }
    let first = mag / p;
    let rest = mag % p;
    proof {
        assert(first < 10) by (nonlinear_arith)
            requires
                first == mag as int / p as int && mag < 10 * p && p >= 1,
        ;
    }
    let mut out = String::from_str(sign_str(negative));
    out.append(digit_str(first));
    let frac = frac_part(rest, e);
    out.append(frac.as_str());
    proof {
        reveal_strlit("e");
    }
    out.append("e");
    push_dec(&mut out, e);
    proof {
        let n: int = if negative {
            -(mag as int)
        } else {
            mag as int
        };
        assert(int_abs(n) == mag as int);
        assert(out@ =~= sci_text(n));
    }
    out
}

proof fn lemma_log10_unique(mag: nat, e: nat)
    requires
        pow10(e) <= mag,
        mag < 10 * pow10(e),
    ensures
        log10(mag) == e,
    decreases e,
{
    lemma_pow10_pos(e);
    if e == 0 {
        assert(mag < 10);
    } else {
        assert(pow10(e) == 10 * pow10((e - 1) as nat));
        assert(mag >= 10);
        assert(pow10((e - 1) as nat) <= mag / 10 && mag / 10 < 10 * pow10((e - 1) as nat))
            by (nonlinear_arith)
            requires
                10 * pow10((e - 1) as nat) <= mag,
                mag < 10 * (10 * pow10((e - 1) as nat)),
                pow10((e - 1) as nat) >= 1,
        ;
        lemma_log10_unique(mag / 10, (e - 1) as nat);
    }
}

fn tiny_sci_string(negative: bool, d: u64) -> (r: String)
    ensures
        r@ == tiny_sci_text(negative, d as nat),
{
    let mut out = String::from_str(sign_str(negative));
    if d == 0 {
        proof {
            reveal_strlit("1e0");
        }
        out.append("1e0");
        proof {
            assert("1e0"@ =~= seq!['1', 'e', '0']);
            assert(out@ =~= tiny_sci_text(negative, 0));
        }
    } else {
        proof {
            reveal_strlit("1e-");
        }
        out.append("1e-");
        push_dec(&mut out, d);
        proof {
            assert("1e-"@ =~= seq!['1', 'e', '-']);
            assert(out@ =~= tiny_sci_text(negative, d as nat));
        }
    }
    out
}

fn decimal_string(negative: bool, mag: u64) -> (r: String)
    ensures
        r@ == fixed_text(
            if negative {
                -(mag as int)
            } else {
                mag as int
            },
        ),
{
    let mut out = String::new();
    if negative && mag > 0 {
        proof {
            reveal_strlit("-");
        }
        out.append("-");
    }
    push_dec(&mut out, mag / 1_000_000);
    let frac = frac_part(mag % 1_000_000, 6);
    out.append(frac.as_str());
    proof {
        let m: int = if negative {
            -(mag as int)
        } else {
            mag as int
        };
        assert(int_abs(m) == mag as int);
        assert(out@ =~= fixed_text(m));
    }
    out
}

fn pow10_exec(e: u64) -> (r: u64)
    requires
        e <= 15,
    ensures
        r as nat == pow10(e as nat),
        r >= 1,
{
    proof {
        lemma_pow10_vals();
    }
    let mut i: u64 = 0;
    let mut p: u64 = 1;
    while i < e
        invariant
            i <= e <= 15,
            p as nat == pow10(i as nat),
        decreases e - i,
    {
        proof {
            lemma_pow10_vals();
            lemma_pow10_mono(i as nat, 14);
            assert(pow10(15) == 10 * pow10(14));
        }
        p = p * 10;
        i = i + 1;
    }
    proof {
        lemma_pow10_pos(e as nat);
    }
    p
}

fn round_mag_exec(mag: u64, d: u64) -> (r: u64)
    requires
        mag <= FX_MAX,
    ensures
        r as nat == round_mag(mag as nat, d as nat),
        r <= mag + 1_000_000,
{
    if d >= 6 {
        mag
    } else {
        let unit = pow10_exec(6 - d);
        proof {
            lemma_pow10_vals();
            lemma_pow10_mono((6 - d) as nat, 6);
            assert(((mag + unit / 2) as int / unit as int) * unit as int <= mag as int + unit as int
                / 2) by (nonlinear_arith)
                requires
                    unit >= 1,
            ;
        }
        ((mag + unit / 2) / unit) * unit
    }
}

/// The default tick formatter on the fixed-point model: scientific
/// notation outside `10^-d ..= 10^d`, otherwise rounded to `d` decimals.
pub fn format_default(tick: Fixed, max_digits: usize) -> (r: String)
    ensures
        r@ == default_format_text(tick.as_micros(), max_digits as nat),
{
    proof {
        lemma_pow10_vals();
    }
    let m = tick.micros();
    let negative = m < 0;
    let mag: u64 = if negative {
        (-(m as i128)) as u64
    } else {
        m as u64
    };
    let du: u64 = if max_digits > 15 {
        15
    } else {
        max_digits as u64
    };
    let ghost d: nat = max_digits as nat;
    proof {
        assert(mag as int == int_abs(tick.as_micros()));
    }
    let high: bool = if du <= 8 {
        mag > pow10_exec(du + 6)
    } else {
        false
    };
    proof {
        if du > 8 {
            lemma_pow10_mono(15, d + 6);
            assert(pow10(d + 6) >= pow10(15));
        }
        assert(high == (int_abs(tick.as_micros()) > pow10(d + 6)));
    }
    if high {
        proof {
            lemma_pow10_mono(6, d + 6);
            assert(mag > 1_000_000);
        }
        let units = mag / 1_000_000;
        proof {
            assert(mag as int / 1_000_000 >= 1 && mag as int / 1_000_000 <= 1_000_000_000)
                by (nonlinear_arith)
                requires
                    1_000_000 < mag <= 1_000_000_000_000_000,
            ;
            assert(tz_div(tick.as_micros(), 1_000_000) == if negative {
                -(units as int)
            } else {
                units as int
            });
        }
        return sci_string(negative, units);
    }
    let rmag = round_mag_exec(mag, du);
    proof {
        if du >= 6 {
            assert(round_mag(mag as nat, d) == mag as nat);
        }
        assert(rmag as nat == round_mag(mag as nat, d));
    }
    let tiny: bool = mag != 0 && du < 6 && mag < pow10_exec(6 - du);
    proof {
        lemma_tiny_cond(mag as nat, d);
        if du < 6 {
            assert((mag as nat) * pow10(d) < 1_000_000 <==> (mag as nat) < pow10((6 - d) as nat))
                by {
                lemma_tiny_cond(mag as nat, d);
            }
        }
        assert(tiny == ((int_abs(tick.as_micros()) as nat) * pow10(d) < 1_000_000 && tick.as_micros()
            != 0));
    }
    if tiny {
        proof {
            assert(round_micros(tick.as_micros(), d) == if negative {
                -(rmag as int)
            } else {
                rmag as int
            });
        }
        if rmag == 0 {
            proof {
                reveal_strlit("+0e0");
                reveal_strlit("-0e0");
            }
            let out = if negative {
                String::from_str("-0e0")
            } else {
                String::from_str("+0e0")
            };
            proof {
                assert(out@ =~= zero_sci_text(negative));
            }
            return out;
        } else {
            return tiny_sci_string(negative, du);
        }
    }
    proof {
        assert(round_micros(tick.as_micros(), d) == if negative {
            -(rmag as int)
        } else {
            rmag as int
        });
    }
    decimal_string(negative, rmag)
}

proof fn lemma_pow10_mul(a: nat, b: nat)
    ensures
        pow10(a + b) == pow10(a) * pow10(b),
    decreases a,
{
    if a == 0 {
        assert(pow10(0 + b) == 1 * pow10(b)) by (nonlinear_arith)
            requires
                pow10(0 + b) == pow10(b),
        ;
    } else {
        lemma_pow10_mul((a - 1) as nat, b);
        assert((a - 1) as nat + b == (a + b - 1) as nat);
        assert(pow10(a + b) == 10 * pow10((a + b - 1) as nat));
        assert(10 * (pow10((a - 1) as nat) * pow10(b)) == (10 * pow10((a - 1) as nat)) * pow10(b))
            by (nonlinear_arith);
    }
}

proof fn lemma_tiny_cond(mag: nat, d: nat)
    ensures
        d < 6 ==> ((mag * pow10(d) < 1_000_000) <==> (mag < pow10((6 - d) as nat))),
        d >= 6 && mag >= 1 ==> mag * pow10(d) >= 1_000_000,
{
    lemma_pow10_vals();
    lemma_pow10_pos(d);
    if d < 6 {
        lemma_pow10_mul(d, (6 - d) as nat);
        assert(pow10(d) * pow10((6 - d) as nat) == 1_000_000);
        assert((mag * pow10(d) < pow10(d) * pow10((6 - d) as nat)) <==> (mag < pow10(
            (6 - d) as nat,
        ))) by (nonlinear_arith)
            requires
                pow10(d) >= 1,
        ;
        assert(mag * pow10(d) == pow10(d) * mag) by (nonlinear_arith);
    } else {
        lemma_pow10_mono(6, d);
        if mag >= 1 {
            assert(mag * pow10(d) >= 1 * pow10(d)) by (nonlinear_arith)
                requires
                    mag >= 1,
        ;
        }
    }
}

} // verus!
