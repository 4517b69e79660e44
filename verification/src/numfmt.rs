//! Decimal rendering of unsigned integers: plain digit strings,
//! zero-padded digit strings, and quotients shown with two decimals.
use vstd::prelude::*;

verus! {

/// The decimal digit character for a value below ten.
pub open spec fn digit_char(d: int) -> char {
    if d == 0 {
        '0'
    } else if d == 1 {
        '1'
    } else if d == 2 {
        '2'
    } else if d == 3 {
        '3'
    } else if d == 4 {
        '4'
    } else if d == 5 {
        '5'
    } else if d == 6 {
        '6'
    } else if d == 7 {
        '7'
    } else if d == 8 {
        '8'
    } else {
        '9'
    }
}

/// The decimal digits of `n`, most significant first, with no sign and
/// no leading zeros (a single `'0'` for zero).
pub open spec fn dec_digits(n: nat) -> Seq<char>
    decreases n,
{
    if n < 10 {
        seq![digit_char(n as int)]
    } else {
        dec_digits(n / 10).push(digit_char((n % 10) as int))
    }
}

/// The last `width` decimal digits of `n`, zero-padded on the left.
pub open spec fn dec_digits_padded(n: nat, width: nat) -> Seq<char>
    decreases width,
{
    if width == 0 {
        Seq::empty()
    } else {
        dec_digits_padded(n / 10, (width - 1) as nat).push(digit_char((n % 10) as int))
    }
}

/// `100 * n / d`, rounded to the nearest integer, ties to even:
/// the whole number of hundredths in the quotient `n / d`.
pub open spec fn round_hundredths(n: nat, d: nat) -> nat
    recommends
        d > 0,
{
    let q = (100 * n) / d;
    let r = (100 * n) % d;
    if 2 * r > d {
        q + 1
    } else if 2 * r < d {
        q
    } else if q % 2 == 0 {
        q
    } else {
        q + 1
    }
}

/// The quotient `n / d` rendered with exactly two decimal places.
pub open spec fn two_dec(n: nat, d: nat) -> Seq<char>
    recommends
        d > 0,
{
    let t = round_hundredths(n, d);
    dec_digits(t / 100) + "."@ + dec_digits_padded(t % 100, 2)
}

fn digit_str(d: u64) -> (r: &'static str)
    requires
        d < 10,
    ensures
        r@ == seq![digit_char(d as int)],
{
    let r: &'static str = if d == 0 {
        "0"
    } else if d == 1 {
        "1"
    } else if d == 2 {
        "2"
    } else if d == 3 {
        "3"
    } else if d == 4 {
        "4"
    } else if d == 5 {
        "5"
    } else if d == 6 {
        "6"
    } else if d == 7 {
        "7"
    } else if d == 8 {
        "8"
    } else {
        "9"
    };
    proof {
        reveal_strlit("0");
        reveal_strlit("1");
        reveal_strlit("2");
        reveal_strlit("3");
        reveal_strlit("4");
        reveal_strlit("5");
        reveal_strlit("6");
        reveal_strlit("7");
        reveal_strlit("8");
        reveal_strlit("9");
        assert(r@ =~= seq![digit_char(d as int)]);
    }
    r
}

/// Renders `n` in decimal.
pub fn u64_to_dec(n: u64) -> (r: String)
    ensures
        r@ == dec_digits(n as nat),
    decreases n,
{
    if n < 10 {
        digit_str(n).to_owned()
    } else {
        let mut s = u64_to_dec(n / 10);
        s.append(digit_str(n % 10));
        proof {
            assert(s@ =~= dec_digits(n as nat));
        }
        s
    }
}

/// Renders the last `width` decimal digits of `n`, zero-padded.
pub fn u64_to_dec_padded(n: u64, width: u64) -> (r: String)
    ensures
        r@ == dec_digits_padded(n as nat, width as nat),
    decreases width,
{
    if width == 0 {
        String::new()
    } else {
        let mut s = u64_to_dec_padded(n / 10, width - 1);
        s.append(digit_str(n % 10));
        proof {
            assert(s@ =~= dec_digits_padded(n as nat, width as nat));
        }
        s
    }
}

/// Renders `n / d` with exactly two decimal places.
pub fn two_dec_string(n: u64, d: u64) -> (r: String)
    requires
        1 <= d <= 1125899906842624,
        n < 11258999068426240,
    ensures
        r@ == two_dec(n as nat, d as nat),
{
    let num = n * 100;
    let q = num / d;
    let rm = num % d;
    let t: u64 = if 2 * rm > d {
        q + 1
    } else if 2 * rm < d {
        q
    } else if q % 2 == 0 {
        q
    } else {
        q + 1
    };
    let mut s = u64_to_dec(t / 100);
    s.append(".");
    let frac = u64_to_dec_padded(t % 100, 2);
    s.append(frac.as_str());
    proof {
        assert(s@ =~= two_dec(n as nat, d as nat));
    }
    s
}

} // verus!
