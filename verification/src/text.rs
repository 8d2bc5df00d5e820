//! Building blocks for the texts this library produces: joining, replacing
//! spaces, and writing integers in decimal.

use vstd::prelude::*;

verus! {

/// Appends one character to `s`.
///
/// Trusted: `String::push` adds the given character at the end and leaves the
/// rest of the string as it was.
#[verifier::external_body]
fn push_char(s: &mut String, c: char)
    ensures
        final(s)@ == old(s)@.push(c),
{
    s.push(c)
}

/// The text with every space turned into an underscore.
pub open spec fn underscored(s: Seq<char>) -> Seq<char> {
    Seq::new(s.len(), |i: int| if s[i] == ' ' { '_' } else { s[i] })
}

/// Replaces each space of `s` by an underscore and keeps every other
/// character where it is.
pub fn replace_spaces(s: &str) -> (r: String)
    ensures
        r@ == underscored(s@),
{
    let mut r = String::new();
    for c in it: s.chars()
        invariant
            it.seq() == s@,
            r@ == underscored(s@.take(it.index())),
    {
        let d = if c == ' ' { '_' } else { c };
        push_char(&mut r, d);
    }
    r
}

/// The parts written one after another with `sep` between neighbours: nothing
/// before the first part and nothing after the last.
pub open spec fn joined(parts: Seq<Seq<char>>, sep: Seq<char>) -> Seq<char>
    decreases parts.len(),
{
    if parts.len() == 0 {
        Seq::empty()
    } else if parts.len() == 1 {
        parts[0]
    } else {
        joined(parts.drop_last(), sep) + sep + parts.last()
    }
}

/// Joins `parts` with `sep` between neighbours.
pub fn join(parts: &Vec<String>, sep: &str) -> (r: String)
    ensures
        r@ == joined(parts.deep_view(), sep@),
{
    let mut r = String::new();
    let mut i: usize = 0;
    while i < parts.len()
        invariant
            i <= parts.len(),
            r@ == joined(parts.deep_view().take(i as int), sep@),
        decreases parts.len() - i,
    {
        proof {
            let before = parts.deep_view().take(i as int);
            let after = parts.deep_view().take(i + 1);
            assert(after.drop_last() == before);
            assert(after.last() == parts[i as int]@);
            if i > 0 {
                assert(joined(after, sep@) == joined(before, sep@) + sep@ + parts[i as int]@);
            } else {
                assert(joined(after, sep@) == parts[i as int]@);
            }
        }
        if i > 0 {
            r.append(sep);
        }
        r.append(parts[i].as_str());
        i = i + 1;
    }
    assert(parts.deep_view().take(parts.len() as int) == parts.deep_view());
    r
}

/// The character that shows the digit `d`, for `d` from 0 to 9.
pub open spec fn digit(d: int) -> char {
    (48 + d) as u8 as char
}

/// The digits of `n` in base ten, most significant first, without leading
/// zeros; zero is the single digit `0`.
pub open spec fn digits(n: nat) -> Seq<char>
    decreases n,
{
    if n < 10 {
        seq![digit(n as int)]
    } else {
        digits(n / 10).push(digit((n % 10) as int))
    }
}

/// The integer `n` written in decimal: its digits, after a minus sign if it
/// is negative.
pub open spec fn decimal(n: int) -> Seq<char> {
    if n < 0 {
        seq!['-'] + digits((-n) as nat)
    } else {
        digits(n as nat)
    }
}

fn digit_char(d: u64) -> (c: char)
    requires
        d < 10,
    ensures
        c == digit(d as int),
{
    (48 + d as u8) as char
}

/// Writes `n` in decimal.
pub fn decimal_string(n: i64) -> (r: String)
    ensures
        r@ == decimal(n as int),
{
    let magnitude: u64 = if n < 0 {
        (-(n + 1)) as u64 + 1
    } else {
        n as u64
    };
    let mut low_first: Vec<char> = Vec::new();
    let mut rest: u64 = magnitude;
    while rest >= 10
        invariant
            digits(magnitude as nat) == digits(rest as nat) + low_first@.reverse(),
        decreases rest,
    {
        let d = digit_char(rest % 10);
        proof {
            assert(low_first@.push(d).reverse() == seq![d] + low_first@.reverse());
            assert(digits(rest as nat) == digits((rest / 10) as nat).push(d));
        }
        low_first.push(d);
        rest = rest / 10;
    }
    let d = digit_char(rest);
    proof {
        assert(low_first@.push(d).reverse() == seq![d] + low_first@.reverse());
    }
    low_first.push(d);
    assert(low_first@.reverse() == digits(magnitude as nat));

    let mut r = String::new();
    if n < 0 {
        push_char(&mut r, '-');
    }
    let ghost sign = r@;
    let mut i: usize = low_first.len();
    while i > 0
        invariant
            i <= low_first.len(),
            r@ == sign + low_first@.reverse().take(low_first.len() - i),
        decreases i,
    {
        i = i - 1;
        push_char(&mut r, low_first[i]);
        assert(low_first@.reverse().take(low_first.len() - i) == low_first@.reverse().take(
            low_first.len() - i - 1,
        ).push(low_first@[i as int]));
    }
    assert(low_first@.reverse().take(low_first.len() as int) == low_first@.reverse());
    r
}

} // verus!
