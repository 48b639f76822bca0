//! Percent-encoding of query parameter values.

use vstd::prelude::*;
use crate::text::push_char;
use vstd::string::StringSliceAdditionalSpecFns;

verus! {

/// The bytes that stand for themselves in an encoded query value: ASCII
/// letters, digits, and `-`, `_`, `.`, `~`.
pub open spec fn is_unreserved(b: u8) -> bool {
    ||| 65 <= b <= 90
    ||| 97 <= b <= 122
    ||| 48 <= b <= 57
    ||| b == 45
    ||| b == 95
    ||| b == 46
    ||| b == 126
}

/// The upper-case hexadecimal digit of `d` (below 16).
pub open spec fn hex_digit(d: nat) -> char {
    if d < 10 {
        (d + 48) as char
    } else {
        (d + 55) as char
    }
}

/// The encoding of one byte: itself when it is unreserved, otherwise `%`
/// followed by its two upper-case hexadecimal digits.
pub open spec fn encode_byte(b: u8) -> Seq<char> {
    if is_unreserved(b) {
        seq![b as char]
    } else {
        seq!['%', hex_digit((b / 16) as nat), hex_digit((b % 16) as nat)]
    }
}

/// The encoding of a byte sequence, byte by byte.
pub open spec fn url_encoded(bytes: Seq<u8>) -> Seq<char>
    decreases bytes.len(),
{
    if bytes.len() == 0 {
        Seq::empty()
    } else {
        encode_byte(bytes[0]) + url_encoded(bytes.drop_first())
    }
}

/// Encoding a sequence with one more byte appends that byte's encoding.
pub proof fn lemma_url_encoded_push(bytes: Seq<u8>, b: u8)
    ensures
        url_encoded(bytes.push(b)) == url_encoded(bytes) + encode_byte(b),
    decreases bytes.len(),
{
    if bytes.len() == 0 {
        assert(bytes.push(b).drop_first() =~= Seq::<u8>::empty());
        assert(url_encoded(Seq::<u8>::empty()) =~= Seq::<char>::empty());
        assert(bytes.push(b)[0] == b);
        assert(url_encoded(bytes.push(b)) =~= encode_byte(b) + Seq::<char>::empty());
    } else {
        assert(bytes.push(b).drop_first() =~= bytes.drop_first().push(b));
        lemma_url_encoded_push(bytes.drop_first(), b);
        assert(url_encoded(bytes.push(b)) =~= url_encoded(bytes) + encode_byte(b));
    }
}

fn hex_char(d: u8) -> (c: char)
    requires
        d < 16,
    ensures
        c == hex_digit(d as nat),
{
    if d < 10 {
        (d + 48) as char
    } else {
        (d + 55) as char
    }
}

/// Percent-encodes the UTF-8 bytes of `s` for use as a query parameter value.
pub fn urlencoding(s: &str) -> (r: String)
    ensures
        r@ == url_encoded(s.spec_bytes()),
{
    let bytes = s.as_bytes();
    let n = bytes.len();
    let mut out = String::new();
    let mut i: usize = 0;
    assert(bytes@.take(0) =~= Seq::<u8>::empty());
    while i < n
        invariant
            n == bytes@.len(),
            bytes@ == s.spec_bytes(),
            i <= n,
            out@ == url_encoded(bytes@.take(i as int)),
        decreases n - i,
    {
        let b = bytes[i];
        proof {
            assert(bytes@.take(i as int + 1) =~= bytes@.take(i as int).push(b));
            lemma_url_encoded_push(bytes@.take(i as int), b);
        }
        if (65 <= b && b <= 90) || (97 <= b && b <= 122) || (48 <= b && b <= 57) || b == 45
            || b == 95 || b == 46 || b == 126 {
            push_char(&mut out, b as char);
            assert(out@ =~= url_encoded(bytes@.take(i as int)) + encode_byte(b));
        } else {
            push_char(&mut out, '%');
            push_char(&mut out, hex_char(b / 16));
            push_char(&mut out, hex_char(b % 16));
            assert(out@ =~= url_encoded(bytes@.take(i as int)) + encode_byte(b));
        }
        i = i + 1;
    }
    assert(bytes@.take(n as int) =~= bytes@);
    out
}


/// A byte stands for itself in an encoded value exactly when it is an ASCII
/// letter or digit or one of `-`, `_`, `.`, `~`; any other byte becomes `%`
/// and two upper-case hexadecimal digits.
pub proof fn law_which_bytes_are_escaped(b: u8)
    ensures
        (url_encoded(seq![b]) == seq![b as char]) <==> ('A' <= b as char <= 'Z' || 'a' <= b as char
            <= 'z' || '0' <= b as char <= '9' || b as char == '-' || b as char == '_' || b as char
            == '.' || b as char == '~'),
        !(url_encoded(seq![b]) == seq![b as char]) ==> {
            let e = url_encoded(seq![b]);
            &&& e.len() == 3
            &&& e[0] == '%'
            &&& forall|i: int|
                1 <= i < 3 ==> ('0' <= #[trigger] e[i] <= '9' || 'A' <= e[i] <= 'F')
            &&& (if e[1] <= '9' { e[1] as int - 48 } else { e[1] as int - 55 }) * 16 + (if e[2]
                <= '9' {
                e[2] as int - 48
            } else {
                e[2] as int - 55
            }) == b as int
        },
{
    assert(seq![b].drop_first() =~= Seq::<u8>::empty());
    assert(url_encoded(Seq::<u8>::empty()) =~= Seq::<char>::empty());
    assert(url_encoded(seq![b]) =~= encode_byte(b));
    if !is_unreserved(b) {
        assert(encode_byte(b).len() == 3);
    }
}

/// The characters an encoded query value is made of: ASCII letters and
/// digits, `-`, `_`, `.`, `~` and `%`.
pub open spec fn is_query_safe(c: char) -> bool {
    ||| 'A' <= c <= 'Z'
    ||| 'a' <= c <= 'z'
    ||| '0' <= c <= '9'
    ||| c == '-'
    ||| c == '_'
    ||| c == '.'
    ||| c == '~'
    ||| c == '%'
}

/// Every character of an encoded value is safe in a query string: no `&`,
/// `=`, `#`, `+`, space or other character that would change the query.
pub proof fn law_url_encoded_is_query_safe(bytes: Seq<u8>)
    ensures
        forall|i: int| 0 <= i < url_encoded(bytes).len() ==> is_query_safe(#[trigger] url_encoded(bytes)[i]),
    decreases bytes.len(),
{
    if bytes.len() > 0 {
        law_url_encoded_is_query_safe(bytes.drop_first());
        let head = encode_byte(bytes[0]);
        let tail = url_encoded(bytes.drop_first());
        assert forall|i: int| 0 <= i < url_encoded(bytes).len() implies is_query_safe(#[trigger] url_encoded(bytes)[i]) by {
            if i < head.len() {
                assert(url_encoded(bytes)[i] == head[i]);
            } else {
                assert(url_encoded(bytes)[i] == tail[i - head.len()]);
            }
        }
    }
}

/// The value of an upper-case hexadecimal digit.
pub open spec fn hex_value(c: char) -> nat {
    if '0' <= c <= '9' {
        (c as nat - 48) as nat
    } else if 'A' <= c <= 'F' {
        (c as nat - 55) as nat
    } else {
        0
    }
}

/// Percent-decoding: `%` and two hexadecimal digits stand for one byte, any
/// other character for its own code.
pub open spec fn url_decoded(s: Seq<char>) -> Seq<u8>
    decreases s.len(),
{
    if s.len() == 0 {
        Seq::empty()
    } else if s[0] == '%' && s.len() >= 3 {
        seq![(hex_value(s[1]) * 16 + hex_value(s[2])) as u8] + url_decoded(s.skip(3))
    } else {
        seq![s[0] as u8] + url_decoded(s.drop_first())
    }
}

proof fn lemma_decode_one(b: u8, rest: Seq<char>)
    ensures
        url_decoded(encode_byte(b) + rest) == seq![b] + url_decoded(rest),
{
    let s = encode_byte(b) + rest;
    if is_unreserved(b) {
        assert(s[0] == b as char);
        assert((b as char) as u8 == b);
        assert(s.drop_first() =~= rest);
    } else {
        let hi = (b / 16) as nat;
        let lo = (b % 16) as nat;
        assert(s[0] == '%');
        assert(s[1] == hex_digit(hi));
        assert(s[2] == hex_digit(lo));
        assert(hex_value(hex_digit(hi)) == hi);
        assert(hex_value(hex_digit(lo)) == lo);
        assert(s.skip(3) =~= rest);
    }
}

/// Decoding an encoded value gives back the bytes that were encoded: the
/// server reads exactly the query that was sent.
pub proof fn law_url_decoded_inverts_encoded(bytes: Seq<u8>)
    ensures
        url_decoded(url_encoded(bytes)) == bytes,
    decreases bytes.len(),
{
    if bytes.len() == 0 {
        assert(url_decoded(url_encoded(bytes)) =~= bytes);
    } else {
        law_url_decoded_inverts_encoded(bytes.drop_first());
        lemma_decode_one(bytes[0], url_encoded(bytes.drop_first()));
        assert(url_decoded(url_encoded(bytes)) =~= bytes);
    }
}

/// Two values with the same encoding are the same value.
pub proof fn law_url_encoded_injective(a: Seq<u8>, b: Seq<u8>)
    requires
        url_encoded(a) == url_encoded(b),
    ensures
        a == b,
{
    law_url_decoded_inverts_encoded(a);
    law_url_decoded_inverts_encoded(b);
}

} // verus!
