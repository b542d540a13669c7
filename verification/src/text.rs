//! Decimal numbers as text: how a number is written out, and which texts
//! stand for a 16-bit number.

use vstd::prelude::*;
use vstd::string::*;

verus! {

/// The character of a decimal digit.
pub open spec fn digit_char(d: nat) -> char
    recommends
        d < 10,
{
    ('0' as nat + d) as char
}

/// A number written out in decimal: its digits, most significant first,
/// with no sign and no leading zero.
pub open spec fn decimal(n: nat) -> Seq<char>
    decreases n,
{
    if n < 10 {
        seq![digit_char(n)]
    } else {
        decimal(n / 10).push(digit_char(n % 10))
    }
}

/// Whether a character is one of `0` to `9`.
pub open spec fn is_digit(c: char) -> bool {
    '0' <= c && c <= '9'
}

/// The value of a digit character.
pub open spec fn digit_value(c: char) -> nat
    recommends
        is_digit(c),
{
    (c as nat - '0' as nat) as nat
}

/// Whether a text is made of digits alone.
pub open spec fn all_digits(s: Seq<char>) -> bool {
    forall|i: int| 0 <= i < s.len() ==> is_digit(#[trigger] s[i])
}

/// The number that a run of digits stands for, read in base ten.
pub open spec fn digits_value(s: Seq<char>) -> nat
    decreases s.len(),
{
    if s.len() == 0 {
        0
    } else {
        digits_value(s.drop_last()) * 10 + digit_value(s.last())
    }
}

/// A text without the one `+` that may lead it.
pub open spec fn unsigned_part(s: Seq<char>) -> Seq<char> {
    if s.len() > 0 && s[0] == '+' {
        s.drop_first()
    } else {
        s
    }
}

/// Whether a text stands for a 16-bit unsigned number: an optional `+`, then
/// one or more digits and nothing else, whose value is at most 65535.
/// Leading zeros are accepted.
pub open spec fn is_u16_text(s: Seq<char>) -> bool {
    let digits = unsigned_part(s);
    &&& digits.len() > 0
    &&& all_digits(digits)
    &&& digits_value(digits) <= u16::MAX
}

/// The number that a text stands for, if it stands for a 16-bit unsigned
/// number.
pub open spec fn u16_of_text(s: Seq<char>) -> Option<u16> {
    if is_u16_text(s) {
        Some(digits_value(unsigned_part(s)) as u16)
    } else {
        None
    }
}

fn digit_str(d: u32) -> (s: &'static str)
    requires
        d < 10,
    ensures
        s@ == seq![digit_char(d as nat)],
{
    proof {
        reveal_strlit("0");
        reveal_strlit("1");
        reveal_strlit("2");
        reveal_strlit("3");
        reveal_strlit("4");
        reveal_strlit("5");
        reveal_strlit("6");
        reveal_strlit("7");
        reveal_strlit("8");
        reveal_strlit("9");
    }
    let s = match d {
        0 => "0",
        1 => "1",
        2 => "2",
        3 => "3",
        4 => "4",
        5 => "5",
        6 => "6",
        7 => "7",
        8 => "8",
        _ => "9",
    };
    assert(s@ =~= seq![digit_char(d as nat)]);
    s
}

/// Writes a number out in decimal.
pub fn decimal_string(n: u32) -> (s: String)
    ensures
        s@ == decimal(n as nat),
    decreases n,
{
    if n < 10 {
        String::from_str(digit_str(n))
    } else {
        let mut s = decimal_string(n / 10);
        s.append(digit_str(n % 10));
        assert(s@ =~= decimal((n / 10) as nat).push(digit_char((n % 10) as nat)));
        s
    }
}

/// A run of digits is worth at least as much as any of its prefixes.
pub proof fn lemma_value_grows(s: Seq<char>, k: int)
    requires
        0 <= k <= s.len(),
    ensures
        digits_value(s.take(k)) <= digits_value(s),
    decreases s.len(),
{
    if k == s.len() {
        assert(s.take(k) =~= s);
    } else {
        assert(s.drop_last().take(k) =~= s.take(k));
        lemma_value_grows(s.drop_last(), k);
    }
}

/// Reads a text as a 16-bit unsigned number, if it stands for one.
pub fn parse_u16(text: &str) -> (number: Option<u16>)
    ensures
        number == u16_of_text(text@),
{
    broadcast use vstd::string::group_string_axioms;

    let mut value: u32 = 0;
    let mut any: bool = false;
    let mut signed: bool = false;
    let chars = text.chars();
    for c in it: chars
        invariant
            it.seq() == text@,
            signed ==> text@.len() > 0 && text@[0] == '+',
            ({
                let start: int = if signed {
                    1
                } else {
                    0
                };
                &&& start <= it.index()
                &&& any <==> it.index() > start
                &&& !signed && it.index() > 0 ==> text@[0] != '+'
                &&& all_digits(text@.subrange(start, it.index()))
                &&& value == digits_value(text@.subrange(start, it.index()))
                &&& value <= u16::MAX
            }),
    {
        let ghost read = it.index();
        let ghost start: int = if signed {
            1
        } else {
            0
        };
        assert(c == text@[read]);
        if !any && !signed && c == '+' {
            signed = true;
            assert(text@.subrange(1, 1) =~= Seq::<char>::empty());
        } else if '0' <= c && c <= '9' {
            let digit: u32 = c as u32 - '0' as u32;
            let ghost digits = text@.subrange(start, read + 1);
            assert(digits.drop_last() =~= text@.subrange(start, read));
            assert(digits.last() == c);
            if value * 10 + digit > 65535 {
                proof {
                    let whole = unsigned_part(text@);
                    if all_digits(whole) {
                        assert(whole.take(read + 1 - start) =~= digits);
                        lemma_value_grows(whole, read + 1 - start);
                    }
                }
                return None;
            }
            value = value * 10 + digit;
            any = true;
        } else {
            proof {
                let whole = unsigned_part(text@);
                assert(whole[read - start] == c);
            }
            return None;
        }
    }
    proof {
        let whole = unsigned_part(text@);
        let start: int = if signed {
            1
        } else {
            0
        };
        assert(whole =~= text@.subrange(start, text@.len() as int));
    }
    if any {
        Some(value as u16)
    } else {
        None
    }
}

} // verus!
