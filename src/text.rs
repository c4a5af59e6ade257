//! Decimal rendering of integers and fixed-point amounts.
use vstd::prelude::*;

verus! {

/// An amount `v` stands for the decimal value `v / AMOUNT_SCALE`.
pub const AMOUNT_SCALE: i64 = 10000;

/// The character sequences of a list of strings.
pub open spec fn texts(v: Seq<String>) -> Seq<Seq<char>> {
    v.map_values(|s: String| s@)
}

/// The character sequences of a list of string slices.
pub open spec fn str_texts(v: Seq<&str>) -> Seq<Seq<char>> {
    v.map_values(|s: &str| s@)
}

/// Owned copies of the given strings, in order.
pub fn strings(v: &[&str]) -> (r: Vec<String>)
    ensures
        texts(r@) == str_texts(v@),
{
    let mut r: Vec<String> = Vec::new();
    let mut i: usize = 0;
    while i < v.len()
        invariant
            i <= v@.len(),
            texts(r@) == str_texts(v@.take(i as int)),
        decreases v@.len() - i,
    {
        let s = String::from_str(v[i]);
        let ghost before = r@;
        r.push(s);
        proof {
            assert(v@.take(i + 1) =~= v@.take(i as int).push(v@[i as int]));
            assert(r@ =~= before.push(s));
            assert(texts(r@) =~= texts(before).push(s@));
            assert(str_texts(v@.take(i + 1)) =~= str_texts(v@.take(i as int)).push(v@[i as int]@));
        }
        i = i + 1;
    }
    assert(v@.take(v@.len() as int) =~= v@);
    r
}

/// The text of one decimal digit.
pub open spec fn digit_text(d: nat) -> Seq<char> {
    if d == 0 {
        "0"@
    } else if d == 1 {
        "1"@
    } else if d == 2 {
        "2"@
    } else if d == 3 {
        "3"@
    } else if d == 4 {
        "4"@
    } else if d == 5 {
        "5"@
    } else if d == 6 {
        "6"@
    } else if d == 7 {
        "7"@
    } else if d == 8 {
        "8"@
    } else {
        "9"@
    }
}

/// Decimal digits of `n`, most significant first, without leading zeros.
pub open spec fn nat_text(n: nat) -> Seq<char>
    decreases n,
{
    if n < 10 {
        digit_text(n)
    } else {
        nat_text(n / 10) + digit_text(n % 10)
    }
}

/// The last `width` decimal digits of `n`, padded with leading zeros.
pub open spec fn padded_text(n: nat, width: nat) -> Seq<char>
    decreases width,
{
    if width == 0 {
        Seq::empty()
    } else {
        padded_text(n / 10, (width - 1) as nat) + digit_text(n % 10)
    }
}

/// The fractional digits `f` of a `width`-digit fraction, without trailing zeros.
pub open spec fn short_fraction_text(f: nat, width: nat) -> Seq<char>
    decreases width,
{
    if width > 0 && f % 10 == 0 {
        short_fraction_text(f / 10, (width - 1) as nat)
    } else {
        padded_text(f, width)
    }
}

pub open spec fn abs(v: int) -> nat {
    if v < 0 {
        (-v) as nat
    } else {
        v as nat
    }
}

pub open spec fn sign_text(v: int) -> Seq<char> {
    if v < 0 {
        "-"@
    } else {
        ""@
    }
}

/// Shortest decimal text of the amount `v` (that is, of `v / 10^4`): no
/// trailing fractional zeros, and no decimal point for whole values.
pub open spec fn amount_text(v: int) -> Seq<char> {
    let m = abs(v);
    let whole = m / 10000;
    let frac = m % 10000;
    sign_text(v) + nat_text(whole) + if frac == 0 {
        ""@
    } else {
        "."@ + short_fraction_text(frac, 4)
    }
}

/// Decimal text of an integer, with a leading `-` when negative.
pub open spec fn int_text(v: int) -> Seq<char> {
    sign_text(v) + nat_text(abs(v))
}

/// `s` with every double quote doubled.
pub open spec fn escape_quotes(s: Seq<char>) -> Seq<char>
    decreases s.len(),
{
    if s.len() == 0 {
        Seq::empty()
    } else {
        escape_quotes(s.drop_last()) + if s.last() == '"' {
            "\"\""@
        } else {
            seq![s.last()]
        }
    }
}

/// `v` divided by `d`, rounded to the nearest integer, halves away from zero.
pub open spec fn rounded_div(v: int, d: nat) -> int
    recommends
        d > 0,
{
    if v < 0 {
        -((abs(v) + d / 2) as int / d as int)
    } else {
        (v + d / 2) / (d as int)
    }
}

/// Text of `c` hundredths with exactly two fractional digits.
pub open spec fn cents_text(c: int) -> Seq<char> {
    sign_text(c) + nat_text(abs(c) / 100) + "."@ + padded_text(abs(c) % 100, 2)
}

fn digit_str(d: u128) -> (r: &'static str)
    requires
        d < 10,
    ensures
        r@ == digit_text(d as nat),
{
    if d == 0 {
        "0"
    } else if d == 1 {
        "1"
    } else if d == 2 {
        "2"
    } else if d == 3 {
        "3"
    } else if d == 4 {
        "4"
    } else if d == 5 {
        "5"
    } else if d == 6 {
        "6"
    } else if d == 7 {
        "7"
    } else if d == 8 {
        "8"
    } else {
        "9"
    }
}

/// Appends the decimal digits of `n`.
pub fn push_nat(out: &mut String, n: u128)
    ensures
        final(out)@ == old(out)@ + nat_text(n as nat),
    decreases n,
{
    if n >= 10 {
        push_nat(out, n / 10);
        out.append(digit_str(n % 10));
        proof {
            assert(final(out)@ =~= old(out)@ + nat_text(n as nat));
        }
    } else {
        out.append(digit_str(n));
    }
}

/// Appends the last `width` digits of `n`, zero-padded.
fn push_padded(out: &mut String, n: u128, width: u32)
    ensures
        final(out)@ == old(out)@ + padded_text(n as nat, width as nat),
    decreases width,
{
    if width == 0 {
        assert(old(out)@ + padded_text(n as nat, 0) =~= old(out)@);
    } else {
        push_padded(out, n / 10, width - 1);
        out.append(digit_str(n % 10));
        assert(final(out)@ =~= old(out)@ + padded_text(n as nat, width as nat));
    }
}

fn push_short_fraction(out: &mut String, f: u128, width: u32)
    ensures
        final(out)@ == old(out)@ + short_fraction_text(f as nat, width as nat),
    decreases width,
{
    if width > 0 && f % 10 == 0 {
        push_short_fraction(out, f / 10, width - 1);
    } else {
        push_padded(out, f, width);
    }
}

fn push_sign(out: &mut String, negative: bool)
    ensures
        final(out)@ == old(out)@ + (if negative { "-"@ } else { ""@ }),
{
    if negative {
        out.append("-");
    } else {
        out.append("");
    }
}

fn magnitude(v: i128) -> (r: u128)
    ensures
        r as nat == abs(v as int),
{
    if v < 0 {
        if v == i128::MIN {
            (i128::MAX as u128) + 1
        } else {
            (-v) as u128
        }
    } else {
        v as u128
    }
}

/// Appends the shortest decimal text of the amount `v`.
pub fn push_amount(out: &mut String, v: i64)
    ensures
        final(out)@ == old(out)@ + amount_text(v as int),
{
    let m = magnitude(v as i128);
    push_sign(out, v < 0);
    push_nat(out, m / 10000);
    let frac = m % 10000;
    if frac != 0 {
        out.append(".");
        push_short_fraction(out, frac, 4);
    } else {
        out.append("");
    }
    assert(final(out)@ =~= old(out)@ + amount_text(v as int));
}

/// Rounds `v / d` to the nearest integer, halves away from zero.
pub fn round_div(v: i128, d: u64) -> (r: i128)
    requires
        d > 0,
        v > i128::MIN,
    ensures
        r as int == rounded_div(v as int, d as nat),
        r > i128::MIN,
{
    let m = magnitude(v);
    let q = (m + (d as u128) / 2) / (d as u128);
    assert(q <= m) by (nonlinear_arith)
        requires
            q as int == (m as int + d as int / 2) / (d as int),
            d > 0,
    ;
    if v < 0 {
        -(q as i128)
    } else {
        q as i128
    }
}

/// Appends the decimal text of `v`.
pub fn push_int(out: &mut String, v: i64)
    ensures
        final(out)@ == old(out)@ + int_text(v as int),
{
    let m = magnitude(v as i128);
    push_sign(out, v < 0);
    push_nat(out, m);
    assert(final(out)@ =~= old(out)@ + int_text(v as int));
}

/// Appends `s` with every double quote doubled.
pub fn push_escaped(out: &mut String, s: &str)
    ensures
        final(out)@ == old(out)@ + escape_quotes(s@),
{
    let n = s.unicode_len();
    let mut i: usize = 0;
    assert(escape_quotes(s@.take(0)) =~= Seq::<char>::empty());
    assert(out@ =~= old(out)@ + escape_quotes(s@.take(0)));
    while i < n
        invariant
            n == s@.len(),
            i <= n,
            out@ == old(out)@ + escape_quotes(s@.take(i as int)),
        decreases n - i,
    {
        let c = s.get_char(i);
        let ghost before = out@;
        if c == '"' {
            out.append("\"\"");
        } else {
            let one = s.substring_char(i, i + 1);
            assert(one@ =~= seq![c]);
            out.append(one);
        }
        proof {
            let t = s@.take(i + 1);
            assert(t.drop_last() =~= s@.take(i as int));
            assert(t.last() == c);
            assert(out@ =~= old(out)@ + escape_quotes(t));
        }
        i = i + 1;
    }
    assert(s@.take(n as int) =~= s@);
}

/// Appends `c` hundredths with exactly two fractional digits.
pub fn push_cents(out: &mut String, c: i128)
    requires
        c > i128::MIN,
    ensures
        final(out)@ == old(out)@ + cents_text(c as int),
{
    let m = magnitude(c);
    push_sign(out, c < 0);
    push_nat(out, m / 100);
    out.append(".");
    push_padded(out, m % 100, 2);
    assert(final(out)@ =~= old(out)@ + cents_text(c as int));
}

} // verus!
