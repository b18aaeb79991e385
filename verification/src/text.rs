//! Small helpers on strings and their views.

use vstd::prelude::*;
use vstd::std_specs::iter::IteratorSpec;

verus! {

/// The views of a sequence of strings, in order.
pub open spec fn texts(v: Seq<String>) -> Seq<Seq<char>> {
    Seq::new(v.len(), |i: int| v[i]@)
}

/// The view of an optional string.
pub open spec fn opt_text(s: Option<String>) -> Option<Seq<char>> {
    match s {
        Some(t) => Some(t@),
        None => None,
    }
}

/// The text of an optional string, empty where there is none.
pub open spec fn text_or_empty(s: Option<String>) -> Seq<char> {
    match s {
        Some(t) => t@,
        None => Seq::empty(),
    }
}

/// The character is white space, as Unicode defines it.
pub open spec fn is_white_space(c: char) -> bool {
    let n = c as u32;
    (0x09 <= n <= 0x0D) || n == 0x20 || n == 0x85 || n == 0xA0 || n == 0x1680 || (0x2000 <= n
        <= 0x200A) || n == 0x2028 || n == 0x2029 || n == 0x202F || n == 0x205F || n == 0x3000
}

/// The text holds nothing but white space.
pub open spec fn blank(s: Seq<char>) -> bool {
    forall|i: int| 0 <= i < s.len() ==> is_white_space(#[trigger] s[i])
}

/// The character for one decimal digit.
pub open spec fn digit_char(d: nat) -> char {
    if d == 0 {
        '0'
    } else if d == 1 {
        '1'
    } else if d == 2 {
        '2'
    } else if d == 3 {
        '3'
    } else if d == 4 {
        '4'
    } else if d == 5 {
        '5'
    } else if d == 6 {
        '6'
    } else if d == 7 {
        '7'
    } else if d == 8 {
        '8'
    } else {
        '9'
    }
}

/// The digit that a character stands for; zero for any other character.
pub open spec fn digit_value(c: char) -> nat {
    if c == '1' {
        1
    } else if c == '2' {
        2
    } else if c == '3' {
        3
    } else if c == '4' {
        4
    } else if c == '5' {
        5
    } else if c == '6' {
        6
    } else if c == '7' {
        7
    } else if c == '8' {
        8
    } else if c == '9' {
        9
    } else {
        0
    }
}

/// The decimal digits of a natural number, most significant first.
pub open spec fn digits(n: nat) -> Seq<char>
    decreases n,
{
    if n < 10 {
        seq![digit_char(n)]
    } else {
        digits(n / 10).push(digit_char(n % 10))
    }
}

/// The number that a row of digits stands for.
pub open spec fn number(s: Seq<char>) -> nat
    decreases s.len(),
{
    if s.len() == 0 {
        0
    } else {
        number(s.drop_last()) * 10 + digit_value(s.last())
    }
}

/// An integer in decimal: its digits, after a minus sign below zero.
pub open spec fn decimal_text(n: int) -> Seq<char> {
    if n < 0 {
        seq!['-'] + digits((-n) as nat)
    } else {
        digits(n as nat)
    }
}

/// Whether the character is white space.
pub fn white_space(c: char) -> (r: bool)
    ensures
        r == is_white_space(c),
{
    let n: u32 = c as u32;
    (0x09 <= n && n <= 0x0D) || n == 0x20 || n == 0x85 || n == 0xA0 || n == 0x1680 || (0x2000 <= n
        && n <= 0x200A) || n == 0x2028 || n == 0x2029 || n == 0x202F || n == 0x205F || n == 0x3000
}

/// Whether the text holds nothing but white space.
pub fn is_blank(s: &str) -> (r: bool)
    ensures
        r == blank(s@),
{
    let mut all = true;
    for c in it: s.chars()
        invariant
            it.seq() == s@,
            all == (forall|i: int| 0 <= i < it.index() ==> is_white_space(#[trigger] s@[i])),
    {
        if !white_space(c) {
            all = false;
        }
    }
    all
}

/// One decimal digit as text.
fn digit(d: u8) -> (r: &'static str)
    requires
        d < 10,
    ensures
        r@ == seq![digit_char(d as nat)],
{
    proof {
        reveal_strlit("0");
        reveal_strlit("1");
        reveal_strlit("2");
        reveal_strlit("3");
        reveal_strlit("4");
        reveal_strlit("5");
        reveal_strlit("6");
        reveal_strlit("7");
        reveal_strlit("8");
        reveal_strlit("9");
    }
    let r = if d == 0 {
        "0"
    } else if d == 1 {
        "1"
    } else if d == 2 {
        "2"
    } else if d == 3 {
        "3"
    } else if d == 4 {
        "4"
    } else if d == 5 {
        "5"
    } else if d == 6 {
        "6"
    } else if d == 7 {
        "7"
    } else if d == 8 {
        "8"
    } else {
        "9"
    };
    assert(r@ =~= seq![digit_char(d as nat)]);
    r
}

/// The decimal digits of a natural number.
fn magnitude(m: u128) -> (r: String)
    ensures
        r@ == digits(m as nat),
    decreases m,
{
    if m < 10 {
        digit(m as u8).to_owned()
    } else {
        let mut r = magnitude(m / 10);
        r.append(digit((m % 10) as u8));
        assert(r@ =~= digits((m / 10) as nat).push(digit_char((m % 10) as nat)));
        r
    }
}

/// An integer in decimal.
pub fn decimal(n: i128) -> (r: String)
    ensures
        r@ == decimal_text(n as int),
{
    if n < 0 {
        let m: u128 = (-(n + 1)) as u128 + 1;
        let d = magnitude(m);
        proof {
            reveal_strlit("-");
            assert("-"@ =~= seq!['-']);
        }
        joined("-", d.as_str())
    } else {
        magnitude(n as u128)
    }
}

/// A row of digits stands for the number it was written from; it is not
/// empty and does not begin with a minus sign.
pub proof fn lemma_number_of_digits(n: nat)
    ensures
        number(digits(n)) == n,
        digits(n).len() >= 1,
        digits(n)[0] != '-',
    decreases n,
{
    if n < 10 {
        assert(digits(n).drop_last() =~= Seq::<char>::empty());
        assert(number(digits(n).drop_last()) == 0);
    } else {
        lemma_number_of_digits(n / 10);
        assert(digits(n).drop_last() =~= digits(n / 10));
        assert(digits(n).last() == digit_char(n % 10));
        assert(digits(n)[0] == digits(n / 10)[0]);
    }
}

/// Two integers with the same decimal text are the same integer.
pub proof fn lemma_decimal_injective(a: int, b: int)
    requires
        decimal_text(a) == decimal_text(b),
    ensures
        a == b,
{
    let ma = if a < 0 { (-a) as nat } else { a as nat };
    let mb = if b < 0 { (-b) as nat } else { b as nat };
    lemma_number_of_digits(ma);
    lemma_number_of_digits(mb);
    if a < 0 {
        assert(decimal_text(a)[0] == '-');
        assert(decimal_text(a).subrange(1, decimal_text(a).len() as int) =~= digits(ma));
    }
    if b < 0 {
        assert(decimal_text(b)[0] == '-');
        assert(decimal_text(b).subrange(1, decimal_text(b).len() as int) =~= digits(mb));
    }
}

/// Concatenates two string slices into a new string.
pub fn joined(a: &str, b: &str) -> (r: String)
    ensures
        r@ == a@ + b@,
{
    let mut r = a.to_owned();
    r.append(b);
    r
}

/// A copy of an optional string, empty where there is none.
pub fn or_empty(s: &Option<String>) -> (r: String)
    ensures
        r@ == text_or_empty(*s),
{
    match s {
        Some(t) => t.clone(),
        None => String::new(),
    }
}

} // verus!
