//! Query-parameter value encoding, following the
//! `application/x-www-form-urlencoded` byte serializer: a value's UTF-8 bytes
//! are copied unchanged where unreserved, a space becomes `'+'`, and every
//! other byte becomes a percent escape with two uppercase hexadecimal digits.

use vstd::prelude::*;
use crate::text::{hex_char, hex_char_exec, push_char};

verus! {

/// Bytes the serializer passes through unchanged: ASCII alphanumerics and
/// `'*'`, `'-'`, `'.'`, `'_'`.
pub open spec fn is_unreserved_byte(b: u8) -> bool {
    ||| 0x30 <= b <= 0x39  // '0' ..= '9'
    ||| 0x41 <= b <= 0x5a  // 'A' ..= 'Z'
    ||| 0x61 <= b <= 0x7a  // 'a' ..= 'z'
    ||| b == 0x2a  // '*'
    ||| b == 0x2d  // '-'
    ||| b == 0x2e  // '.'
    ||| b == 0x5f  // '_'
}

/// The characters one byte serializes to.
pub open spec fn byte_encoding(b: u8) -> Seq<char> {
    if is_unreserved_byte(b) {
        seq![b as char]
    } else if b == 0x20 {
        seq!['+']
    } else {
        seq!['%', hex_char((b / 16) as nat), hex_char((b % 16) as nat)]
    }
}

/// The serialization of a whole byte sequence.
pub open spec fn bytes_encoding(bs: Seq<u8>) -> Seq<char>
    decreases bs.len(),
{
    if bs.len() == 0 {
        seq![]
    } else {
        bytes_encoding(bs.drop_last()) + byte_encoding(bs.last())
    }
}

/// The encoding of a string: the serialization of its UTF-8 bytes.
pub open spec fn form_encoded(s: Seq<char>) -> Seq<char> {
    bytes_encoding(vstd::utf8::encode_utf8(s))
}

fn is_unreserved_byte_exec(b: u8) -> (r: bool)
    ensures
        r == is_unreserved_byte(b),
{
    (0x30 <= b && b <= 0x39) || (0x41 <= b && b <= 0x5a) || (0x61 <= b && b <= 0x7a) || b == 0x2a
        || b == 0x2d || b == 0x2e || b == 0x5f
}

/// Appends the form-urlencoded serialization of `s` to `out`.
pub fn append_form_encoded(out: &mut String, s: &str)
    ensures
        final(out)@ == old(out)@ + form_encoded(s@),
{
    let bs = s.as_bytes();
    let n = bs.len();
    let mut i: usize = 0;
    while i < n
        invariant
            0 <= i <= n,
            n == bs@.len(),
            bs@ == vstd::utf8::encode_utf8(s@),
            out@ == old(out)@ + bytes_encoding(bs@.subrange(0, i as int)),
        decreases n - i,
    {
        let b = bs[i];
        if is_unreserved_byte_exec(b) {
            push_char(out, b as char);
        } else if b == 0x20 {
            push_char(out, '+');
        } else {
            push_char(out, '%');
            push_char(out, hex_char_exec(b / 16));
            push_char(out, hex_char_exec(b % 16));
        }
        proof {
            assert(bs@.subrange(0, i + 1).drop_last() =~= bs@.subrange(0, i as int));
            assert(bs@.subrange(0, i + 1).last() == bs@[i as int]);
            assert(out@ =~= old(out)@ + bytes_encoding(bs@.subrange(0, i + 1)));
        }
        i = i + 1;
    }
    proof {
        assert(bs@.subrange(0, n as int) =~= bs@);
    }
}

} // verus!
