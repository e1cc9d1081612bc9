//! Text building blocks shared by the rest of the library.

use vstd::prelude::*;
use vstd::string::*;

verus! {

/// The lines joined by `sep`, laid out as `[a, b, c].join(sep)` lays them out.
pub open spec fn joined(lines: Seq<Seq<char>>, sep: Seq<char>) -> Seq<char>
    decreases lines.len(),
{
    if lines.len() == 0 {
        Seq::empty()
    } else if lines.len() == 1 {
        lines[0]
    } else {
        joined(lines.drop_last(), sep) + sep + lines.last()
    }
}

/// Whether two texts are the same sequence of characters.
pub fn same_text(a: &str, b: &str) -> (same: bool)
    ensures
        same == (a@ == b@),
{
    let x = a.to_owned();
    let y = b.to_owned();
    x == y
}

/// `a` followed by `b`, as a new string.
pub fn concat2(a: &str, b: &str) -> (s: String)
    ensures
        s@ == a@ + b@,
{
    let mut s = a.to_owned();
    s.append(b);
    s
}

/// `a`, `b` and `c` one after the other, as a new string.
pub fn concat3(a: &str, b: &str, c: &str) -> (s: String)
    ensures
        s@ == a@ + b@ + c@,
{
    let mut s = a.to_owned();
    s.append(b);
    s.append(c);
    s
}

/// The lines joined by `sep`.
pub fn join_lines(lines: &Vec<String>, sep: &str) -> (s: String)
    ensures
        s@ == joined(lines.deep_view(), sep@),
{
    let mut s = String::new();
    let ghost all = lines.deep_view();
    let n = lines.len();
    let mut i: usize = 0;
    while i < n
        invariant
            n == lines.len(),
            all == lines.deep_view(),
            all.len() == n,
            i <= n,
            s@ == joined(all.take(i as int), sep@),
        decreases n - i,
    {
        assert(all.take(i + 1).drop_last() =~= all.take(i as int));
        assert(all.take(i + 1).last() == lines[i as int]@);
        if i != 0 {
            s.append(sep);
        }
        s.append(lines[i].as_str());
        i = i + 1;
    }
    assert(all.take(n as int) =~= all);
    s
}

/// The decimal digits as one text; the digit `d` is the character at `d`.
pub open spec fn digit_chars() -> Seq<char> {
    "0123456789"@
}

/// The decimal numeral of `n`, without sign or leading zeros.
pub open spec fn decimal(n: nat) -> Seq<char>
    decreases n,
{
    if n < 10 {
        digit_chars().subrange(n as int, n + 1int)
    } else {
        decimal(n / 10) + digit_chars().subrange((n % 10) as int, (n % 10) + 1int)
    }
}

fn digit_text(d: u32) -> (s: &'static str)
    requires
        d < 10,
    ensures
        s@ == digit_chars().subrange(d as int, d + 1),
{
    let digits = "0123456789";
    proof {
        reveal_strlit("0123456789");
    }
    digits.substring_char(d as usize, (d + 1) as usize)
}

/// The decimal numeral of `n`, as `n.to_string()` writes it.
pub fn decimal_text(n: u32) -> (s: String)
    ensures
        s@ == decimal(n as nat),
{
    let mut m = n;
    let mut s = String::new();
    while m >= 10
        invariant
            decimal(n as nat) == decimal(m as nat) + s@,
        decreases m,
    {
        let d = m % 10;
        let q = m / 10;
        let t = concat2(digit_text(d), s.as_str());
        assert(decimal(m as nat) == decimal(q as nat) + digit_chars().subrange(d as int, d + 1));
        assert(decimal(n as nat) =~= decimal(q as nat) + t@);
        s = t;
        m = q;
    }
    concat2(digit_text(m), s.as_str())
}

} // verus!

verus! {

/// The value of a decimal digit character (`'0'` to `'9'`).
pub open spec fn digit_value(c: char) -> int {
    if c == '0' { 0 }
    else if c == '1' { 1 }
    else if c == '2' { 2 }
    else if c == '3' { 3 }
    else if c == '4' { 4 }
    else if c == '5' { 5 }
    else if c == '6' { 6 }
    else if c == '7' { 7 }
    else if c == '8' { 8 }
    else { 9 }
}

/// Whether `c` is a decimal digit character.
pub open spec fn is_digit(c: char) -> bool {
    '0' <= c && c <= '9'
}

/// The number that a string of decimal digits denotes, read positionally:
/// each digit is worth ten times the one after it.
pub open spec fn numeral_value(s: Seq<char>) -> int
    decreases s.len(),
{
    if s.len() == 0 {
        0
    } else {
        numeral_value(s.drop_last()) * 10 + digit_value(s.last())
    }
}

proof fn digit_char_facts(d: int)
    requires
        0 <= d < 10,
    ensures
        digit_chars().len() == 10,
        digit_chars().subrange(d, d + 1).len() == 1,
        digit_chars().subrange(d, d + 1)[0] == digit_chars()[d],
        is_digit(digit_chars()[d]),
        digit_value(digit_chars()[d]) == d,
        digit_chars()[d] == '0' <==> d == 0,
{
    reveal_strlit("0123456789");
    assert(digit_chars().len() == 10);
    let c = digit_chars()[d];
    if d == 0 { assert(c == '0'); }
    else if d == 1 { assert(c == '1'); }
    else if d == 2 { assert(c == '2'); }
    else if d == 3 { assert(c == '3'); }
    else if d == 4 { assert(c == '4'); }
    else if d == 5 { assert(c == '5'); }
    else if d == 6 { assert(c == '6'); }
    else if d == 7 { assert(c == '7'); }
    else if d == 8 { assert(c == '8'); }
    else { assert(c == '9'); }
}

/// The numeral of `n` denotes `n`: it is made of decimal digits only, the
/// positional value of those digits is `n`, and it starts with a zero only
/// when it is `0` itself.
pub proof fn decimal_denotes(n: nat)
    ensures
        decimal(n).len() > 0,
        forall|i: int| 0 <= i < decimal(n).len() ==> is_digit(#[trigger] decimal(n)[i]),
        numeral_value(decimal(n)) == n,
        decimal(n)[0] == '0' ==> n == 0,
    decreases n,
{
    if n < 10 {
        digit_char_facts(n as int);
        let s = decimal(n);
        assert(s[0] == digit_chars()[n as int]);
        assert(s.drop_last().len() == 0);
        assert(numeral_value(s.drop_last()) == 0);
    } else {
        let q = n / 10;
        let d = n % 10;
        decimal_denotes(q);
        digit_char_facts(d as int);
        let head = decimal(q);
        let tail = digit_chars().subrange(d as int, d + 1int);
        let s = decimal(n);
        assert(s == head + tail);
        assert(s.drop_last() =~= head);
        assert(s.last() == digit_chars()[d as int]);
        assert(numeral_value(s) == q * 10 + d);
        assert(s[0] == head[0]);
        assert forall|i: int| 0 <= i < s.len() implies is_digit(#[trigger] s[i]) by {
            if i < head.len() {
                assert(s[i] == head[i]);
            } else {
                assert(s[i] == digit_chars()[d as int]);
            }
        }
    }
}

} // verus!
