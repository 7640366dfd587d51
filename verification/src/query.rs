//! The query fragment that carries a session's identity upstream.

use vstd::prelude::*;
use vstd::string::*;
use vstd::utf8::*;
use crate::text::push_char;
use crate::token::SessionClaims;

verus! {

/// Bytes that stand for themselves in a query value: ASCII letters and
/// digits, and `-`, `.`, `_`, `~`.
pub open spec fn is_unreserved(b: u8) -> bool {
    ||| 0x30 <= b <= 0x39
    ||| 0x41 <= b <= 0x5a
    ||| 0x61 <= b <= 0x7a
    ||| b == 0x2d
    ||| b == 0x2e
    ||| b == 0x5f
    ||| b == 0x7e
}

/// The upper-case hexadecimal digit for a value below sixteen.
pub open spec fn hex_digit(n: u8) -> char
    recommends
        n < 16,
{
    if n < 10 {
        (0x30 + n) as u8 as char
    } else {
        (0x37 + n) as u8 as char
    }
}

/// One byte, percent-encoded.
pub open spec fn encoded_byte(b: u8) -> Seq<char> {
    if is_unreserved(b) {
        seq![b as char]
    } else {
        seq!['%', hex_digit(b / 16), hex_digit(b % 16)]
    }
}

/// A byte string, percent-encoded byte by byte.
pub open spec fn percent_encoded(bytes: Seq<u8>) -> Seq<char>
    decreases bytes.len(),
{
    if bytes.len() == 0 {
        Seq::<char>::empty()
    } else {
        percent_encoded(bytes.drop_last()) + encoded_byte(bytes.last())
    }
}

/// The fragment `name=<subject>`, the subject's UTF-8 bytes percent-encoded.
pub open spec fn query_fragment(subject: Seq<char>) -> Seq<char> {
    seq!['n', 'a', 'm', 'e', '='] + percent_encoded(encode_utf8(subject))
}

/// A text made of unreserved ASCII characters only.
pub open spec fn is_plain(s: Seq<char>) -> bool {
    forall|i: int|
        0 <= i < s.len() ==> '\0' <= #[trigger] s[i] <= '\u{7f}' && is_unreserved(s[i] as u8)
}

fn unreserved(b: u8) -> (r: bool)
    ensures
        r == is_unreserved(b),
{
    (0x30 <= b && b <= 0x39) || (0x41 <= b && b <= 0x5a) || (0x61 <= b && b <= 0x7a) || b == 0x2d
        || b == 0x2e || b == 0x5f || b == 0x7e
}

fn hex_char(n: u8) -> (c: char)
    requires
        n < 16,
    ensures
        c == hex_digit(n),
{
    if n < 10 {
        (0x30 + n) as char
    } else {
        (0x37 + n) as char
    }
}

/// Percent-encodes the UTF-8 bytes of `text`.
pub fn percent_encode(text: &str) -> (r: String)
    ensures
        r@ == percent_encoded(encode_utf8(text@)),
{
    let bytes = text.as_bytes_vec();
    let mut out = String::new();
    let mut i: usize = 0;
    while i < bytes.len()
        invariant
            i <= bytes.len(),
            out@ == percent_encoded(bytes@.take(i as int)),
        decreases bytes.len() - i,
    {
        let b: u8 = bytes[i];
        proof {
            assert(bytes@.take(i + 1).drop_last() == bytes@.take(i as int));
        }
        if unreserved(b) {
            push_char(&mut out, b as char);
        } else {
            push_char(&mut out, '%');
            push_char(&mut out, hex_char(b / 16));
            push_char(&mut out, hex_char(b % 16));
        }
        i += 1;
    }
    proof {
        assert(bytes@.take(i as int) == bytes@);
    }
    out
}

/// The query fragment for a verified session.
pub fn to_query_fragment(claims: &SessionClaims) -> (r: String)
    ensures
        r@ == query_fragment(claims.subject@),
{
    let mut out = String::from_str("name=");
    proof {
        reveal_strlit("name=");
        assert(out@ == seq!['n', 'a', 'm', 'e', '=']);
    }
    let encoded = percent_encode(claims.subject.as_str());
    out.append(encoded.as_str());
    out
}

/// Percent-encoding leaves a plain byte string as it is, byte for
/// character.
pub proof fn lemma_plain_bytes_unchanged(bytes: Seq<u8>)
    requires
        forall|i: int| 0 <= i < bytes.len() ==> is_unreserved(#[trigger] bytes[i]),
    ensures
        percent_encoded(bytes) == Seq::new(bytes.len(), |i: int| bytes[i] as char),
    decreases bytes.len(),
{
    if bytes.len() > 0 {
        lemma_plain_bytes_unchanged(bytes.drop_last());
    }
    assert(percent_encoded(bytes) =~= Seq::new(bytes.len(), |i: int| bytes[i] as char));
}

/// A subject of unreserved ASCII characters appears in the fragment as it
/// is: the fragment is `name=` followed by the subject.
pub proof fn lemma_plain_subject_fragment(subject: Seq<char>)
    requires
        is_plain(subject),
    ensures
        query_fragment(subject) == seq!['n', 'a', 'm', 'e', '='] + subject,
{
    assert(is_ascii_chars(subject)) by {
        assert forall|i: int| 0 <= i < subject.len() implies '\0' <= #[trigger] subject[i]
            <= '\u{7f}' by {
        }
    }
    is_ascii_chars_encode_utf8(subject);
    let bytes = encode_utf8(subject);
    assert forall|i: int| 0 <= i < bytes.len() implies is_unreserved(#[trigger] bytes[i]) by {
        assert(subject[i] as u8 == bytes[i]);
    }
    lemma_plain_bytes_unchanged(bytes);
    assert(Seq::new(bytes.len(), |i: int| bytes[i] as char) =~= subject) by {
        assert forall|i: int| 0 <= i < subject.len() implies bytes[i] as char == subject[i] by {
            assert(subject[i] as u8 == bytes[i]);
            assert('\0' <= subject[i] <= '\u{7f}');
        }
    }
}

} // verus!
