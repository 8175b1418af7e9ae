//! Decimal text of integers: formatting and parsing.
use vstd::prelude::*;

verus! {

broadcast use vstd::string::group_string_axioms;

/// Collects the characters of a string slice.
pub fn chars_of(s: &str) -> (v: Vec<char>)
    ensures
        v@ == s@,
{
    let mut v: Vec<char> = Vec::new();
    for c in it: s.chars()
        invariant
            v@ == it.seq().take(it.index() as int),
            it.seq() == s@,
    {
        v.push(c);
    }
    v
}

} // verus!

verus! {

/// The character of a decimal digit.
pub open spec fn digit_char(d: int) -> char {
    (48 + d) as char
}

/// Whether a character is an ASCII decimal digit.
pub open spec fn is_digit(c: char) -> bool {
    '0' <= c <= '9'
}

/// The value of an ASCII decimal digit.
pub open spec fn digit_value(c: char) -> int {
    (c as int) - 48
}

/// The decimal text of a natural number, without sign or leading zeros.
pub open spec fn decimal_text(n: nat) -> Seq<char>
    decreases n,
{
    if n < 10 {
        seq![digit_char(n as int)]
    } else {
        decimal_text(n / 10).push(digit_char((n % 10) as int))
    }
}

/// The decimal text of an integer, with a leading `-` when it is negative.
pub open spec fn signed_decimal_text(n: int) -> Seq<char> {
    if n < 0 {
        seq!['-'] + decimal_text((-n) as nat)
    } else {
        decimal_text(n as nat)
    }
}

/// Whether every character of a sequence is a decimal digit.
pub open spec fn all_digits(s: Seq<char>) -> bool {
    forall|i: int| 0 <= i < s.len() ==> is_digit(#[trigger] s[i])
}

/// The value of a sequence of decimal digits, most significant first.
pub open spec fn digits_value(s: Seq<char>) -> nat
    decreases s.len(),
{
    if s.len() == 0 {
        0
    } else {
        (digits_value(s.drop_last()) * 10 + digit_value(s.last())) as nat
    }
}

/// What `str::parse` gives for an unsigned integer type whose largest value is
/// `max`: an optional `+`, then at least one digit, and a value within range.
pub open spec fn parse_unsigned_spec(s: Seq<char>, max: int) -> Option<int> {
    let body = if s.len() > 0 && s[0] == '+' { s.drop_first() } else { s };
    if body.len() > 0 && all_digits(body) && digits_value(body) <= max {
        Some(digits_value(body) as int)
    } else {
        None
    }
}

/// What `str::parse` gives for a signed integer type with range `min..=max`:
/// an optional `+` or `-`, then at least one digit, and a value within range.
pub open spec fn parse_signed_spec(s: Seq<char>, min: int, max: int) -> Option<int> {
    let negative = s.len() > 0 && s[0] == '-';
    let body = if s.len() > 0 && (s[0] == '+' || s[0] == '-') { s.drop_first() } else { s };
    let v: int = if negative { -digits_value(body) } else { digits_value(body) as int };
    if body.len() > 0 && all_digits(body) && min <= v <= max {
        Some(v)
    } else {
        None
    }
}

/// The one-character text of a decimal digit.
fn digit_str(d: u128) -> (r: &'static str)
    requires
        d < 10,
    ensures
        r@ == seq![digit_char(d as int)],
{
    proof {
        reveal_strlit("0");
        reveal_strlit("1");
        reveal_strlit("2");
        reveal_strlit("3");
        reveal_strlit("4");
        reveal_strlit("5");
        reveal_strlit("6");
        reveal_strlit("7");
        reveal_strlit("8");
        reveal_strlit("9");
    }
    if d == 0 {
        "0"
    } else if d == 1 {
        "1"
    } else if d == 2 {
        "2"
    } else if d == 3 {
        "3"
    } else if d == 4 {
        "4"
    } else if d == 5 {
        "5"
    } else if d == 6 {
        "6"
    } else if d == 7 {
        "7"
    } else if d == 8 {
        "8"
    } else {
        "9"
    }
}

/// Formats an unsigned integer as decimal text.
pub fn format_u128(n: u128) -> (s: String)
    ensures
        s@ == decimal_text(n as nat),
    decreases n,
{
    if n < 10 {
        String::from_str(digit_str(n))
    } else {
        let mut s = format_u128(n / 10);
        s.append(digit_str(n % 10));
        s
    }
}

/// Formats a signed integer as decimal text.
pub fn format_i128(n: i128) -> (s: String)
    ensures
        s@ == signed_decimal_text(n as int),
{
    if n < 0 {
        let magnitude: u128 = ((-(n + 1)) as u128) + 1;
        let digits = format_u128(magnitude);
        let mut s = String::from_str("-");
        proof {
            reveal_strlit("-");
        }
        s.append(digits.as_str());
        s
    } else {
        format_u128(n as u128)
    }
}

} // verus!

verus! {

proof fn lemma_digits_value_step(s: Seq<char>, i: int)
    requires
        0 <= i < s.len(),
        is_digit(s[i]),
    ensures
        digits_value(s.take(i + 1)) == digits_value(s.take(i)) * 10 + digit_value(s[i]),
{
    assert(s.take(i + 1).drop_last() =~= s.take(i));
}

proof fn lemma_digits_value_monotone(s: Seq<char>, j: int, k: int)
    requires
        all_digits(s),
        0 <= j <= k <= s.len(),
    ensures
        digits_value(s.take(j)) <= digits_value(s.take(k)),
    decreases k - j,
{
    if j < k {
        lemma_digits_value_monotone(s, j, k - 1);
        assert(is_digit(s[k - 1]));
        lemma_digits_value_step(s, k - 1);
    }
}

/// Parses the digits `cs[start..]` as a decimal number; `None` when that part
/// is empty, holds a non-digit, or exceeds the range of `u128`.
fn parse_digits(cs: &Vec<char>, start: usize) -> (r: Option<u128>)
    requires
        start <= cs@.len(),
    ensures
        ({
            let body = cs@.skip(start as int);
            match r {
                Some(v) => body.len() > 0 && all_digits(body) && v == digits_value(body),
                None => !(body.len() > 0 && all_digits(body) && digits_value(body) <= u128::MAX),
            }
        }),
{
    let ghost body = cs@.skip(start as int);
    if start == cs.len() {
        return None;
    }
    let mut acc: u128 = 0;
    let mut i = start;
    assert(body.take(0) =~= Seq::<char>::empty());
    while i < cs.len()
        invariant
            start <= i <= cs@.len(),
            body == cs@.skip(start as int),
            all_digits(body.take((i - start) as int)),
            acc == digits_value(body.take((i - start) as int)),
        decreases cs@.len() - i,
    {
        let c = cs[i];
        let ghost k = (i - start) as int;
        assert(body[k] == c);
        if !('0' <= c && c <= '9') {
            assert(!is_digit(body[k]));
            return None;
        }
        let d = (c as u32 - 48) as u128;
        proof {
            assert(is_digit(body[k]));
            lemma_digits_value_step(body, k);
        }
        assert(body.take(k + 1) =~= body.take(k).push(c));
        match acc.checked_mul(10) {
            Some(m) => match m.checked_add(d) {
                Some(n) => {
                    acc = n;
                },
                None => {
                    proof {
                        if all_digits(body) {
                            lemma_digits_value_monotone(body, k + 1, body.len() as int);
                            assert(body.take(body.len() as int) =~= body);
                        }
                    }
                    return None;
                },
            },
            None => {
                proof {
                    if all_digits(body) {
                        lemma_digits_value_monotone(body, k + 1, body.len() as int);
                        assert(body.take(body.len() as int) =~= body);
                    }
                }
                return None;
            },
        }
        i = i + 1;
    }
    assert(body.take((i - start) as int) =~= body);
    Some(acc)
}

/// Parses decimal text the way `str::parse` does for an unsigned integer type
/// whose largest value is `max`.
pub fn parse_unsigned(s: &str, max: u128) -> (r: Option<u128>)
    ensures
        match r {
            Some(v) => parse_unsigned_spec(s@, max as int) == Some(v as int),
            None => parse_unsigned_spec(s@, max as int) is None,
        },
{
    let cs = chars_of(s);
    let start: usize = if cs.len() > 0 && cs[0] == '+' { 1 } else { 0 };
    assert(cs@.skip(start as int) =~= (if s@.len() > 0 && s@[0] == '+' { s@.drop_first() } else { s@ }));
    match parse_digits(&cs, start) {
        Some(v) => if v <= max { Some(v) } else { None },
        None => None,
    }
}

/// Parses decimal text the way `str::parse` does for a signed integer type
/// with range `-max - 1 ..= max`.
pub fn parse_signed(s: &str, max: i128) -> (r: Option<i128>)
    requires
        max >= 0,
    ensures
        match r {
            Some(v) => parse_signed_spec(s@, -max - 1, max as int) == Some(v as int),
            None => parse_signed_spec(s@, -max - 1, max as int) is None,
        },
{
    let cs = chars_of(s);
    let signed = cs.len() > 0 && (cs[0] == '+' || cs[0] == '-');
    let negative = cs.len() > 0 && cs[0] == '-';
    let start: usize = if signed { 1 } else { 0 };
    assert(cs@.skip(start as int) =~= (if s@.len() > 0 && (s@[0] == '+' || s@[0] == '-') { s@.drop_first() } else { s@ }));
    match parse_digits(&cs, start) {
        Some(m) => {
            let limit: u128 = max as u128;
            if negative {
                if m <= limit {
                    Some(-(m as i128))
                } else if m == limit + 1 {
                    Some(-max - 1)
                } else {
                    None
                }
            } else {
                if m <= limit { Some(m as i128) } else { None }
            }
        },
        None => None,
    }
}

/// The decimal text of a natural number is a nonempty run of digits whose
/// value is the number.
pub proof fn lemma_decimal_text_value(n: nat)
    ensures
        decimal_text(n).len() > 0,
        all_digits(decimal_text(n)),
        digits_value(decimal_text(n)) == n,
    decreases n,
{
    if n < 10 {
        let t = decimal_text(n);
        assert(t == seq![digit_char(n as int)]);
        assert(t.drop_last() =~= Seq::<char>::empty());
        assert(digit_value(digit_char(n as int)) == n);
        assert(digits_value(t) == digits_value(t.drop_last()) * 10 + digit_value(t.last()));
    } else {
        lemma_decimal_text_value(n / 10);
        let t = decimal_text(n);
        let d = (n % 10) as int;
        assert(t == decimal_text(n / 10).push(digit_char(d)));
        assert(t.drop_last() =~= decimal_text(n / 10));
        assert(digit_value(digit_char(d)) == d);
        assert(t.last() == digit_char(d));
        assert(digits_value(t) == digits_value(t.drop_last()) * 10 + digit_value(t.last()));
        assert(n == (n / 10) * 10 + d);
        assert forall|i: int| 0 <= i < t.len() implies is_digit(#[trigger] t[i]) by {
            if i < t.len() - 1 {
                assert(t[i] == decimal_text(n / 10)[i]);
            }
        }
    }
}

/// Decimal text parses back to its number, for any unsigned target type
/// large enough to hold it.
pub proof fn lemma_parse_unsigned_decimal(n: nat, max: int)
    requires
        n <= max,
    ensures
        parse_unsigned_spec(decimal_text(n), max) == Some(n as int),
{
    lemma_decimal_text_value(n);
    assert(is_digit(decimal_text(n)[0]));
}

/// Signed decimal text parses back to its number, for any signed target type
/// whose range holds it.
pub proof fn lemma_parse_signed_decimal(x: int, min: int, max: int)
    requires
        min <= x <= max,
    ensures
        parse_signed_spec(signed_decimal_text(x), min, max) == Some(x),
{
    if x < 0 {
        let m = (-x) as nat;
        lemma_decimal_text_value(m);
        let t = signed_decimal_text(x);
        assert(t == seq!['-'] + decimal_text(m));
        assert(t.drop_first() =~= decimal_text(m));
    } else {
        lemma_decimal_text_value(x as nat);
        assert(is_digit(decimal_text(x as nat)[0]));
    }
}

} // verus!
