//! Building message text: decimal rendering of integers and character pushes.
use vstd::prelude::*;
use vstd::string::*;

verus! {

/// The ASCII character of a decimal digit.
pub open spec fn digit_char(d: nat) -> char {
    (d + 48) as char
}

/// The decimal digits of a natural number, most significant first, with no
/// leading zeros (zero itself is `"0"`).
pub open spec fn decimal_digits(n: nat) -> Seq<char>
    decreases n,
{
    if n < 10 {
        seq![digit_char(n)]
    } else {
        decimal_digits(n / 10).push(digit_char(n % 10))
    }
}

/// The decimal rendering of an integer: a `-` before the digits of its
/// magnitude when it is negative.
pub open spec fn decimal(n: int) -> Seq<char> {
    if n < 0 {
        seq!['-'] + decimal_digits((-n) as nat)
    } else {
        decimal_digits(n as nat)
    }
}

/// Appends one character to a string (`String::push`).
#[verifier::external_body]
pub(crate) fn push_char(s: &mut String, c: char)
    ensures
        final(s)@ == old(s)@.push(c),
{
    s.push(c);
}

fn digit(d: u8) -> (c: char)
    requires
        d < 10,
    ensures
        c == digit_char(d as nat),
{
    (d + 48) as char
}

/// The decimal digits of `m`, as a vector of characters.
fn digits_of(m: u128) -> (v: Vec<char>)
    ensures
        v@ == decimal_digits(m as nat),
{
    let mut k: u128 = m;
    let mut tail: Vec<char> = Vec::new();
    while k >= 10
        invariant
            decimal_digits(m as nat) == decimal_digits(k as nat) + tail@,
        decreases k,
    {
        let c = digit((k % 10) as u8);
        let ghost old_tail = tail@;
        tail.insert(0, c);
        proof {
            assert(decimal_digits(k as nat) == decimal_digits((k / 10) as nat).push(c));
            assert(decimal_digits((k / 10) as nat) + tail@ =~= decimal_digits(
                (k / 10) as nat,
            ).push(c) + old_tail);
        }
        k = k / 10;
    }
    let c = digit(k as u8);
    tail.insert(0, c);
    assert(tail@ =~= decimal_digits(k as nat) + tail@.drop_first());
    tail
}

/// Appends the characters of `v` to `s`, in order.
fn append_chars(s: &mut String, v: &Vec<char>)
    ensures
        final(s)@ == old(s)@ + v@,
{
    let ghost prefix = s@;
    let len: usize = v.len();
    for i in 0..len
        invariant
            len == v@.len(),
            s@ == prefix + v@.take(i as int),
    {
        push_char(s, v[i]);
        assert(v@.take(i + 1) =~= v@.take(i as int).push(v@[i as int]));
    }
    assert(v@.take(len as int) =~= v@);
}

/// Renders an `i64` in decimal, as `Display` does.
pub fn i64_decimal(n: i64) -> (s: String)
    ensures
        s@ == decimal(n as int),
{
    let negative = n < 0;
    let wide: i128 = n as i128;
    let magnitude: u128 = if negative { (0 - wide) as u128 } else { wide as u128 };
    let mut s = if negative { String::from_str("-") } else { String::new() };
    proof {
        reveal_strlit("-");
    }
    append_chars(&mut s, &digits_of(magnitude));
    s
}

/// Renders a `usize` in decimal, as `Display` does.
pub fn usize_decimal(n: usize) -> (s: String)
    ensures
        s@ == decimal(n as int),
{
    let mut s = String::new();
    append_chars(&mut s, &digits_of(n as u128));
    s
}

} // verus!
