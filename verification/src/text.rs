//! Small text-building blocks shared by the URL, JSON and address builders:
//! appending single characters, decimal and hexadecimal digits, and parsing
//! decimal numbers.

use vstd::prelude::*;

verus! {

/// Relies on std's `String::push`: appends exactly the one given character.
#[verifier::external_body]
pub(crate) fn push_char(s: &mut String, c: char)
    ensures
        final(s)@ == old(s)@.push(c),
{
    s.push(c);
}

/// The character for one decimal digit.
pub open spec fn decimal_char(d: nat) -> char
    recommends
        d < 10,
{
    if d == 0 {
        '0'
    } else if d == 1 {
        '1'
    } else if d == 2 {
        '2'
    } else if d == 3 {
        '3'
    } else if d == 4 {
        '4'
    } else if d == 5 {
        '5'
    } else if d == 6 {
        '6'
    } else if d == 7 {
        '7'
    } else if d == 8 {
        '8'
    } else {
        '9'
    }
}

/// The uppercase character for one hexadecimal digit.
pub open spec fn hex_char(d: nat) -> char
    recommends
        d < 16,
{
    if d < 10 {
        decimal_char(d)
    } else if d == 10 {
        'A'
    } else if d == 11 {
        'B'
    } else if d == 12 {
        'C'
    } else if d == 13 {
        'D'
    } else if d == 14 {
        'E'
    } else {
        'F'
    }
}

fn decimal_char_exec(d: u8) -> (c: char)
    requires
        d < 10,
    ensures
        c == decimal_char(d as nat),
{
    match d {
        0 => '0',
        1 => '1',
        2 => '2',
        3 => '3',
        4 => '4',
        5 => '5',
        6 => '6',
        7 => '7',
        8 => '8',
        _ => '9',
    }
}

pub fn hex_char_exec(d: u8) -> (c: char)
    requires
        d < 16,
    ensures
        c == hex_char(d as nat),
{
    if d < 10 {
        decimal_char_exec(d)
    } else {
        match d {
            10 => 'A',
            11 => 'B',
            12 => 'C',
            13 => 'D',
            14 => 'E',
            _ => 'F',
        }
    }
}

/// The usual decimal rendering of a number: no sign, no leading zero except
/// for the number zero itself.
pub open spec fn decimal_of(n: nat) -> Seq<char>
    decreases n,
{
    if n < 10 {
        seq![decimal_char(n)]
    } else {
        decimal_of(n / 10) + seq![decimal_char(n % 10)]
    }
}

/// Appends the decimal rendering of `n` to `s`.
pub fn push_decimal_u16(s: &mut String, n: u16)
    ensures
        final(s)@ == old(s)@ + decimal_of(n as nat),
    decreases n,
{
    if n < 10 {
        push_char(s, decimal_char_exec(n as u8));
        assert(s@ =~= old(s)@ + decimal_of(n as nat));
    } else {
        push_decimal_u16(s, n / 10);
        push_char(s, decimal_char_exec((n % 10) as u8));
        assert(s@ =~= old(s)@ + decimal_of(n as nat));
    }
}

pub open spec fn is_decimal_digit(c: char) -> bool {
    '0' <= c && c <= '9'
}

pub open spec fn decimal_digit_value(c: char) -> nat
    recommends
        is_decimal_digit(c),
{
    (c as int - '0' as int) as nat
}

pub open spec fn all_decimal_digits(s: Seq<char>) -> bool {
    forall|i: int| 0 <= i < s.len() ==> is_decimal_digit(#[trigger] s[i])
}

/// The numeric value of a string of decimal digits.
pub open spec fn decimal_value(s: Seq<char>) -> nat
    decreases s.len(),
{
    if s.len() == 0 {
        0
    } else {
        decimal_value(s.drop_last()) * 10 + decimal_digit_value(s.last())
    }
}

/// The value of a digit string is at least the value of any of its prefixes.
proof fn lemma_decimal_value_prefix_le(s: Seq<char>, i: int)
    requires
        0 <= i <= s.len(),
    ensures
        decimal_value(s.subrange(0, i)) <= decimal_value(s),
    decreases s.len() - i,
{
    if i < s.len() {
        assert(s.subrange(0, i + 1).drop_last() =~= s.subrange(0, i));
        assert(s.subrange(0, i + 1).last() == s[i]);
        assert(decimal_value(s.subrange(0, i)) <= decimal_value(s.subrange(0, i + 1)));
        lemma_decimal_value_prefix_le(s, i + 1);
    } else {
        assert(s.subrange(0, i) =~= s);
    }
}

/// The digit part of a number string: the string with one optional leading
/// `'+'` removed.
pub open spec fn digits_part(s: Seq<char>) -> Seq<char> {
    if s.len() > 0 && s[0] == '+' {
        s.drop_first()
    } else {
        s
    }
}

/// Parses a string as an unsigned decimal number: one optional leading `'+'`,
/// then decimal digits.
///
/// Returns `Some` exactly when the digit part is nonempty, holds decimal
/// digits only, and its value fits in a `u16`; the returned number is that
/// value.
pub fn parse_u16(s: &str) -> (r: Option<u16>)
    ensures
        r is Some <==> digits_part(s@).len() > 0 && all_decimal_digits(digits_part(s@))
            && decimal_value(digits_part(s@)) <= u16::MAX,
        r is Some ==> r->0 as nat == decimal_value(digits_part(s@)),
{
    let len = s.unicode_len();
    let start: usize = if len > 0 && s.get_char(0) == '+' {
        1
    } else {
        0
    };
    let ghost digits = digits_part(s@);
    proof {
        assert(digits =~= s@.subrange(start as int, len as int));
    }
    if start >= len {
        return None;
    }
    let mut acc: u32 = 0;
    let mut i: usize = start;
    while i < len
        invariant
            start <= i <= len,
            len == s@.len(),
            digits == digits_part(s@),
            digits == s@.subrange(start as int, len as int),
            acc <= u16::MAX,
            acc as nat == decimal_value(s@.subrange(start as int, i as int)),
            all_decimal_digits(s@.subrange(start as int, i as int)),
        decreases len - i,
    {
        let c = s.get_char(i);
        let u = c as u32;
        if u < 48 || u > 57 {
            proof {
                assert(!is_decimal_digit(s@[i as int]));
                assert(digits[i - start] == s@[i as int]);
                assert(!all_decimal_digits(digits));
            }
            return None;
        }
        let d = u - 48;
        proof {
            assert(s@.subrange(start as int, i + 1).drop_last() =~= s@.subrange(
                start as int,
                i as int,
            ));
            assert(s@.subrange(start as int, i + 1).last() == s@[i as int]);
        }
        acc = acc * 10 + d;
        i = i + 1;
        if acc > u16::MAX as u32 {
            proof {
                assert(s@.subrange(start as int, i as int) =~= digits.subrange(0, i - start));
                lemma_decimal_value_prefix_le(digits, i - start);
                assert(decimal_value(digits) >= acc);
            }
            return None;
        }
    }
    proof {
        assert(s@.subrange(start as int, len as int) =~= digits);
    }
    Some(acc as u16)
}

} // verus!
