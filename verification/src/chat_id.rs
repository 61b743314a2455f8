//! Conversation identifiers and their canonical decimal text.
//!
//! A conversation is identified by a signed 64-bit number. On the bus it travels as
//! text in the `sender` field of an envelope, so the relay renders it on the way
//! in and parses it on the way out.

use vstd::prelude::*;
use vstd::std_specs::iter::IteratorSpec;

verus! {

/// The character for a single decimal digit `0..=9`.
pub open spec fn digit_char(d: int) -> char {
    if d == 0 {
        '0'
    } else if d == 1 {
        '1'
    } else if d == 2 {
        '2'
    } else if d == 3 {
        '3'
    } else if d == 4 {
        '4'
    } else if d == 5 {
        '5'
    } else if d == 6 {
        '6'
    } else if d == 7 {
        '7'
    } else if d == 8 {
        '8'
    } else {
        '9'
    }
}

/// Whether `c` is one of the ASCII digits.
pub open spec fn is_digit(c: char) -> bool {
    '0' <= c && c <= '9'
}

/// The value of an ASCII digit.
pub open spec fn digit_value(c: char) -> int {
    c as int - '0' as int
}

/// The decimal digits of `n`, most significant first, without leading zeros
/// (`0` is the single digit `0`).
pub open spec fn decimal_digits(n: nat) -> Seq<char>
    decreases n,
{
    if n < 10 {
        seq![digit_char(n as int)]
    } else {
        decimal_digits(n / 10).push(digit_char((n % 10) as int))
    }
}

/// The canonical text of a conversation identifier: its decimal digits, with a
/// leading `-` when it is negative.
pub open spec fn render_spec(id: int) -> Seq<char> {
    if id < 0 {
        seq!['-'] + decimal_digits((-id) as nat)
    } else {
        decimal_digits(id as nat)
    }
}

/// Whether every character of `s` is an ASCII digit.
pub open spec fn all_digits(s: Seq<char>) -> bool {
    forall|i: int| 0 <= i < s.len() ==> is_digit(#[trigger] s[i])
}

/// The number that a run of decimal digits denotes; leading zeros are allowed.
pub open spec fn decimal_value(s: Seq<char>) -> nat
    decreases s.len(),
{
    if s.len() == 0 {
        0
    } else {
        (decimal_value(s.drop_last()) * 10 + digit_value(s.last())) as nat
    }
}

/// The text of `s` after an optional leading sign.
pub open spec fn unsigned_part(s: Seq<char>) -> Seq<char> {
    if s.len() > 0 && (s[0] == '-' || s[0] == '+') {
        s.subrange(1, s.len() as int)
    } else {
        s
    }
}

/// The signed number that `s` denotes, when `s` is an optional sign followed by at
/// least one decimal digit and nothing else.
pub open spec fn signed_value(s: Seq<char>) -> Option<int> {
    let body = unsigned_part(s);
    if body.len() == 0 || !all_digits(body) {
        None
    } else if s[0] == '-' {
        Some(-(decimal_value(body) as int))
    } else {
        Some(decimal_value(body) as int)
    }
}

/// The conversation identifier that `s` denotes: `s` must be an optional `+` or `-`
/// followed by one or more ASCII digits, and the number must fit in 64 bits.
pub open spec fn parse_spec(s: Seq<char>) -> Option<i64> {
    match signed_value(s) {
        Some(v) => if i64::MIN <= v <= i64::MAX {
            Some(v as i64)
        } else {
            None
        },
        None => None,
    }
}

/// Each decimal digit of a number is an ASCII digit, and the digits denote the
/// number they were made from.
pub proof fn lemma_decimal_digits(n: nat)
    ensures
        decimal_digits(n).len() >= 1,
        all_digits(decimal_digits(n)),
        decimal_value(decimal_digits(n)) == n,
    decreases n,
{
    reveal_with_fuel(decimal_value, 2);
    if n < 10 {
        let s = decimal_digits(n);
        assert(s.drop_last() =~= Seq::<char>::empty());
    } else {
        lemma_decimal_digits(n / 10);
        let head = decimal_digits(n / 10);
        let s = decimal_digits(n);
        assert(s.drop_last() =~= head);
        assert(s.last() == digit_char((n % 10) as int));
    }
}

/// Extending a run of digits never makes the number it denotes smaller.
pub proof fn lemma_decimal_value_prefix(s: Seq<char>, k: int)
    requires
        0 <= k <= s.len(),
        all_digits(s),
    ensures
        decimal_value(s.subrange(0, k)) <= decimal_value(s),
    decreases s.len() - k,
{
    if k == s.len() {
        assert(s.subrange(0, k) =~= s);
    } else {
        lemma_decimal_value_prefix(s.drop_last(), k);
        assert(s.drop_last().subrange(0, k) =~= s.subrange(0, k));
        assert(is_digit(s[s.len() - 1]));
    }
}

/// Rendering a conversation identifier and parsing the text gives the identifier
/// back: what the relay writes into `sender` can always be read again.
pub proof fn lemma_render_then_parse(id: i64)
    ensures
        parse_spec(render_spec(id as int)) == Some(id),
{
    if id < 0 {
        let digits = decimal_digits((-id) as nat);
        lemma_decimal_digits((-id) as nat);
        let text = render_spec(id as int);
        assert(text[0] == '-');
        assert(unsigned_part(text) =~= digits);
    } else {
        let digits = decimal_digits(id as nat);
        lemma_decimal_digits(id as nat);
        assert(is_digit(digits[0]));
        assert(unsigned_part(digits) == digits);
    }
}

/// The text of one decimal digit.
fn digit_text(d: u64) -> (r: &'static str)
    requires
        d < 10,
    ensures
        r@ == seq![digit_char(d as int)],
{
    proof {
        reveal_strlit("0");
        reveal_strlit("1");
        reveal_strlit("2");
        reveal_strlit("3");
        reveal_strlit("4");
        reveal_strlit("5");
        reveal_strlit("6");
        reveal_strlit("7");
        reveal_strlit("8");
        reveal_strlit("9");
    }
    let r = if d == 0 {
        "0"
    } else if d == 1 {
        "1"
    } else if d == 2 {
        "2"
    } else if d == 3 {
        "3"
    } else if d == 4 {
        "4"
    } else if d == 5 {
        "5"
    } else if d == 6 {
        "6"
    } else if d == 7 {
        "7"
    } else if d == 8 {
        "8"
    } else {
        "9"
    };
    assert(r@ =~= seq![digit_char(d as int)]);
    r
}

/// Appends the decimal digits of `n` to `out`.
fn push_decimal(out: &mut String, n: u64)
    ensures
        final(out)@ == old(out)@ + decimal_digits(n as nat),
    decreases n,
{
    if n >= 10 {
        push_decimal(out, n / 10);
    }
    out.append(digit_text(n % 10));
    assert(out@ =~= old(out)@ + decimal_digits(n as nat));
}

/// The magnitude of `id` as an unsigned number.
fn magnitude(id: i64) -> (m: u64)
    ensures
        m == if id < 0 {
            -(id as int)
        } else {
            id as int
        },
{
    if id >= 0 {
        id as u64
    } else {
        // `-id` overflows for the smallest value, so step away from it first.
        (-(id + 1)) as u64 + 1
    }
}

/// Renders a conversation identifier as its canonical decimal text.
pub fn render_chat_id(id: i64) -> (text: String)
    ensures
        text@ == render_spec(id as int),
{
    let mut text = String::new();
    if id < 0 {
        text.append("-");
        proof {
            reveal_strlit("-");
            assert(text@ =~= seq!['-']);
        }
    }
    push_decimal(&mut text, magnitude(id));
    assert(text@ =~= render_spec(id as int));
    text
}

/// The largest magnitude a conversation identifier can have: that of the
/// smallest negative value.
pub const MAX_MAGNITUDE: u64 = 0x8000_0000_0000_0000;

/// Parses the text of a conversation identifier.
///
/// Accepts an optional `+` or `-` followed by one or more ASCII digits whose value
/// fits in 64 bits; everything else is `None`.
pub fn parse_chat_id(s: &str) -> (id: Option<i64>)
    ensures
        id == parse_spec(s@),
{
    let mut chars = s.chars();
    let mut negative = false;
    let mut acc: u64 = 0;
    let mut any_digit = false;
    let ghost body = unsigned_part(s@);
    let ghost mut seen: Seq<char> = Seq::empty();
    match chars.next() {
        None => {
            return None;
        },
        Some(c) => {
            if c == '-' {
                negative = true;
            } else if c == '+' {
            } else if '0' <= c && c <= '9' {
                acc = (c as u32 - '0' as u32) as u64;
                any_digit = true;
                proof {
                    seen = seq![c];
                    reveal_with_fuel(decimal_value, 2);
                    assert(seen.drop_last() =~= Seq::<char>::empty());
                }
            } else {
                assert(!is_digit(body[0]));
                return None;
            }
        },
    }
    assert(body =~= seen + chars.remaining());
    loop
        invariant
            chars.obeys_prophetic_iter_laws(),
            chars.decrease() is Some,
            body == unsigned_part(s@),
            body == seen + chars.remaining(),
            all_digits(seen),
            any_digit == (seen.len() > 0),
            acc == decimal_value(seen),
            acc <= MAX_MAGNITUDE,
            negative == (s@.len() > 0 && s@[0] == '-'),
        ensures
            chars.remaining().len() == 0,
        decreases chars.decrease()->0,
    {
        match chars.next() {
            None => {
                break ;
            },
            Some(c) => {
                if !('0' <= c && c <= '9') {
                    assert(body[seen.len() as int] == c);
                    return None;
                }
                let d: u64 = (c as u32 - '0' as u32) as u64;
                let ghost longer = seen.push(c);
                proof {
                    assert(longer.drop_last() =~= seen);
                    assert(body =~= longer + chars.remaining());
                    assert(body.subrange(0, longer.len() as int) =~= longer);
                }
                if acc > (MAX_MAGNITUDE - d) / 10 {
                    proof {
                        if all_digits(body) {
                            lemma_decimal_value_prefix(body, longer.len() as int);
                        }
                    }
                    return None;
                }
                acc = acc * 10 + d;
                any_digit = true;
                proof {
                    seen = longer;
                }
            },
        }
    }
    assert(body =~= seen);
    if !any_digit {
        None
    } else if negative {
        if acc == MAX_MAGNITUDE {
            Some(i64::MIN)
        } else {
            Some(-(acc as i64))
        }
    } else if acc == MAX_MAGNITUDE {
        None
    } else {
        Some(acc as i64)
    }
}

} // verus!
