use vstd::prelude::*;
use vstd::string::StringExecFns;

verus! {

/// The character of a decimal digit `d` in `0..10`.
pub open spec fn digit_char(d: int) -> char {
    seq!['0', '1', '2', '3', '4', '5', '6', '7', '8', '9'][d]
}

/// The decimal numeral of `n`, without sign or leading zeros.
pub open spec fn decimal(n: nat) -> Seq<char>
    decreases n,
{
    if n < 10 {
        seq![digit_char(n as int)]
    } else {
        decimal(n / 10).push(digit_char((n % 10) as int))
    }
}

/// `|v|` rounded to whole hundredths of a penny, halves away from zero.
pub open spec fn hundredths(v: int) -> nat {
    let a = if v < 0 { -v } else { v };
    ((a + 5000) / 10000) as nat
}

/// A price of `v` millionths of a penny with two decimals and a `p`, as `15.50p`.
/// A minus sign stands before a negative price that does not round to zero.
pub open spec fn price_text(v: int) -> Seq<char> {
    let h = hundredths(v);
    let sign = if v < 0 && h > 0 { "-"@ } else { ""@ };
    sign + decimal(h / 100) + "."@ + seq![digit_char(((h % 100) / 10) as int), digit_char((h % 10) as int)]
        + "p"@
}

/// A range of prices, as `15.50p - 20.30p`.
pub open spec fn price_range_text(lo: int, hi: int) -> Seq<char> {
    price_text(lo) + " - "@ + price_text(hi)
}

fn digit_str(d: u64) -> (r: &'static str)
    requires
        d < 10,
    ensures
        r@ == seq![digit_char(d as int)],
{
    proof {
        reveal_strlit("0");
        reveal_strlit("1");
        reveal_strlit("2");
        reveal_strlit("3");
        reveal_strlit("4");
        reveal_strlit("5");
        reveal_strlit("6");
        reveal_strlit("7");
        reveal_strlit("8");
        reveal_strlit("9");
    }
    let r = if d == 0 {
        "0"
    } else if d == 1 {
        "1"
    } else if d == 2 {
        "2"
    } else if d == 3 {
        "3"
    } else if d == 4 {
        "4"
    } else if d == 5 {
        "5"
    } else if d == 6 {
        "6"
    } else if d == 7 {
        "7"
    } else if d == 8 {
        "8"
    } else {
        "9"
    };
    assert(r@ =~= seq![digit_char(d as int)]);
    r
}

/// Appends the decimal numeral of `n` to `out`.
pub fn push_decimal(out: &mut String, n: u64)
    ensures
        final(out)@ == old(out)@ + decimal(n as nat),
    decreases n,
{
    if n >= 10 {
        push_decimal(out, n / 10);
        out.append(digit_str(n % 10));
        assert(final(out)@ =~= old(out)@ + decimal(n as nat));
    } else {
        out.append(digit_str(n));
    }
}

/// Appends `price_text(v)` to `out`.
pub fn push_price(out: &mut String, v: i64)
    ensures
        final(out)@ == old(out)@ + price_text(v as int),
{
    let a: i128 = if v < 0 { -(v as i128) } else { v as i128 };
    let h: u64 = ((a + 5000) / 10000) as u64;
    assert(h == hundredths(v as int));
    let ghost start = out@;
    if v < 0 && h > 0 {
        out.append("-");
    } else {
        out.append("");
    }
    push_decimal(out, h / 100);
    out.append(".");
    out.append(digit_str((h % 100) / 10));
    out.append(digit_str(h % 10));
    out.append("p");
    assert(out@ =~= start + price_text(v as int));
}

/// `price_range_text(lo, hi)`, as `15.50p - 20.30p`.
pub fn price_range(lo: i64, hi: i64) -> (r: String)
    ensures
        r@ == price_range_text(lo as int, hi as int),
{
    let mut out = String::new();
    push_price(&mut out, lo);
    out.append(" - ");
    push_price(&mut out, hi);
    assert(out@ =~= price_range_text(lo as int, hi as int));
    out
}

} // verus!
