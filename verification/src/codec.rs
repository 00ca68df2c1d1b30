//! Text encodings of byte strings: the base64 form in which passwords are
//! stored, and the upper-case hexadecimal form in which key material is shown.
use vstd::prelude::*;

verus! {

/// The character of the standard base64 alphabet for a value below 64:
/// `A`-`Z`, `a`-`z`, `0`-`9`, `+`, `/`.
pub open spec fn base64_char(v: int) -> char {
    if v < 26 {
        (65 + v) as char
    } else if v < 52 {
        (97 + (v - 26)) as char
    } else if v < 62 {
        (48 + (v - 52)) as char
    } else if v == 62 {
        '+'
    } else {
        '/'
    }
}

/// The standard base64 text of the bytes, padded with `=`: each group of
/// three bytes (24 bits) gives four characters of six bits each, high bits
/// first; a last group of one or two bytes is filled with zero bits and
/// padded to four characters.
pub open spec fn base64_standard(bytes: Seq<u8>) -> Seq<char>
    decreases bytes.len(),
{
    if bytes.len() == 0 {
        Seq::empty()
    } else if bytes.len() == 1 {
        let b0 = bytes[0] as int;
        seq![base64_char(b0 / 4), base64_char((b0 % 4) * 16), '=', '=']
    } else if bytes.len() == 2 {
        let b0 = bytes[0] as int;
        let b1 = bytes[1] as int;
        seq![base64_char(b0 / 4), base64_char((b0 % 4) * 16 + b1 / 16), base64_char((b1 % 16) * 4), '=']
    } else {
        let b0 = bytes[0] as int;
        let b1 = bytes[1] as int;
        let b2 = bytes[2] as int;
        seq![
            base64_char(b0 / 4),
            base64_char((b0 % 4) * 16 + b1 / 16),
            base64_char((b1 % 16) * 4 + b2 / 64),
            base64_char(b2 % 64),
        ] + base64_standard(bytes.skip(3))
    }
}

/// The base64 text has 4 characters for every started group of 3 bytes.
pub proof fn lemma_base64_len(bytes: Seq<u8>)
    ensures
        base64_standard(bytes).len() == 4 * ((bytes.len() + 2) / 3),
    decreases bytes.len(),
{
    if bytes.len() >= 3 {
        lemma_base64_len(bytes.skip(3));
    }
}

/// The value of a character of the standard base64 alphabet (-1 for any
/// other character).
pub open spec fn base64_value(c: char) -> int {
    let x = c as int;
    if 65 <= x < 91 {
        x - 65
    } else if 97 <= x < 123 {
        x - 71
    } else if 48 <= x < 58 {
        x + 4
    } else if x == 43 {
        62
    } else if x == 47 {
        63
    } else {
        -1
    }
}

/// Reads standard padded base64 text back into bytes: each group of four
/// characters gives three bytes, or fewer where the group ends in `=`.
pub open spec fn base64_decode(text: Seq<char>) -> Seq<u8>
    decreases text.len(),
{
    if text.len() < 4 {
        Seq::empty()
    } else {
        let v0 = base64_value(text[0]);
        let v1 = base64_value(text[1]);
        let v2 = base64_value(text[2]);
        let v3 = base64_value(text[3]);
        let b0 = (v0 * 4 + v1 / 16) as u8;
        let b1 = ((v1 % 16) * 16 + v2 / 4) as u8;
        let b2 = ((v2 % 4) * 64 + v3) as u8;
        let group = if text[2] == '=' {
            seq![b0]
        } else if text[3] == '=' {
            seq![b0, b1]
        } else {
            seq![b0, b1, b2]
        };
        group + base64_decode(text.skip(4))
    }
}

/// Each character of the alphabet reads back as its value, and none is the
/// padding character.
pub proof fn lemma_base64_char_value(v: int)
    requires
        0 <= v < 64,
    ensures
        base64_value(base64_char(v)) == v,
        base64_char(v) != '=',
{
}

/// Base64 loses nothing: reading the base64 text of any bytes gives back
/// exactly those bytes. So two different byte strings never have the same
/// base64 text.
pub proof fn base64_decode_inverts_encode(bytes: Seq<u8>)
    ensures
        base64_decode(base64_standard(bytes)) == bytes,
    decreases bytes.len(),
{
    let t = base64_standard(bytes);
    if bytes.len() == 0 {
    } else if bytes.len() == 1 {
        let b0 = bytes[0] as int;
        lemma_base64_char_value(b0 / 4);
        lemma_base64_char_value((b0 % 4) * 16);
        assert(t.skip(4) =~= Seq::<char>::empty());
        assert(base64_decode(t.skip(4)) =~= Seq::<u8>::empty());
        assert(t[2] == '=');
        assert(base64_value(t[0]) * 4 + base64_value(t[1]) / 16 == b0);
        assert(base64_decode(t) =~= seq![bytes[0]]);
        assert(base64_decode(t) =~= bytes);
    } else if bytes.len() == 2 {
        let b0 = bytes[0] as int;
        let b1 = bytes[1] as int;
        lemma_base64_char_value(b0 / 4);
        lemma_base64_char_value((b0 % 4) * 16 + b1 / 16);
        lemma_base64_char_value((b1 % 16) * 4);
        assert(t.skip(4) =~= Seq::<char>::empty());
        assert(base64_decode(t.skip(4)) =~= Seq::<u8>::empty());
        assert(t[2] != '=' && t[3] == '=');
        assert(base64_value(t[0]) * 4 + base64_value(t[1]) / 16 == b0);
        assert((base64_value(t[1]) % 16) * 16 + base64_value(t[2]) / 4 == b1);
        assert(base64_decode(t) =~= seq![bytes[0], bytes[1]]);
        assert(base64_decode(t) =~= bytes);
    } else {
        let b0 = bytes[0] as int;
        let b1 = bytes[1] as int;
        let b2 = bytes[2] as int;
        lemma_base64_char_value(b0 / 4);
        lemma_base64_char_value((b0 % 4) * 16 + b1 / 16);
        lemma_base64_char_value((b1 % 16) * 4 + b2 / 64);
        lemma_base64_char_value(b2 % 64);
        let rest = base64_standard(bytes.skip(3));
        assert(t.skip(4) =~= rest);
        base64_decode_inverts_encode(bytes.skip(3));
        assert(base64_decode(t) =~= seq![bytes[0], bytes[1], bytes[2]] + bytes.skip(3));
        assert(seq![bytes[0], bytes[1], bytes[2]] + bytes.skip(3) =~= bytes);
    }
}

/// Two byte strings with the same base64 text are the same.
pub proof fn base64_standard_injective(a: Seq<u8>, b: Seq<u8>)
    requires
        base64_standard(a) == base64_standard(b),
    ensures
        a == b,
{
    base64_decode_inverts_encode(a);
    base64_decode_inverts_encode(b);
}

/// The UTF-8 bytes of a string, `str::as_bytes`.
///
/// Claimed of the std function: the bytes are the UTF-8 encoding of the
/// string, and there are at most `isize::MAX` of them (no Rust value, a
/// string's bytes included, is larger than `isize::MAX` bytes: the limit
/// that `std::slice::from_raw_parts` documents for every slice).
#[verifier::external_body]
pub(crate) fn utf8_bytes(text: &str) -> (bytes: &[u8])
    ensures
        bytes@ == vstd::utf8::encode_utf8(text@),
        bytes@.len() <= isize::MAX,
{
    text.as_bytes()
}

/// Encodes bytes with `base64::encode` (the `STANDARD` engine of the
/// `base64` crate: standard alphabet, padded).
///
/// Claimed of the outside function: the result is the standard padded
/// base64 text of the bytes. The function panics only when the length of
/// that text overflows `usize`, which `requires` rules out.
#[verifier::external_body]
pub(crate) fn base64_encode(bytes: &[u8]) -> (text: String)
    requires
        bytes@.len() <= isize::MAX,
    ensures
        text@ == base64_standard(bytes@),
{
    #[allow(deprecated)]
    base64::encode(bytes)
}

/// The upper-case hexadecimal digit for a value below 16.
pub open spec fn hex_digit(v: int) -> char {
    if v < 10 {
        (48 + v) as char
    } else {
        (55 + v) as char
    }
}

/// Upper-case hexadecimal text of the bytes: two digits per byte, the high
/// half first.
pub open spec fn hex_upper(bytes: Seq<u8>) -> Seq<char>
    decreases bytes.len(),
{
    if bytes.len() == 0 {
        Seq::empty()
    } else {
        hex_upper(bytes.drop_last()) + seq![
            hex_digit(bytes.last() as int / 16),
            hex_digit(bytes.last() as int % 16),
        ]
    }
}

/// Encodes bytes with `data_encoding::HEXUPPER.encode`.
///
/// Claimed of the outside function: it writes each byte as two upper-case
/// hexadecimal digits, high half first, with no separator; it panics only
/// for inputs longer than `usize::MAX / 512`, which `requires` rules out.
#[verifier::external_body]
fn hexupper_encode(bytes: &[u8]) -> (text: String)
    requires
        bytes@.len() <= usize::MAX / 512,
    ensures
        text@ == hex_upper(bytes@),
{
    data_encoding::HEXUPPER.encode(bytes)
}

/// Upper-case hexadecimal text of `bytes`.
pub fn to_hex_upper(bytes: &[u8]) -> (text: String)
    requires
        bytes@.len() <= usize::MAX / 512,
    ensures
        text@ == hex_upper(bytes@),
        text@.len() == 2 * bytes@.len(),
{
    let text = hexupper_encode(bytes);
    proof {
        lemma_hex_upper_len(bytes@);
    }
    text
}

/// The hexadecimal text is twice as long as the bytes.
pub proof fn lemma_hex_upper_len(bytes: Seq<u8>)
    ensures
        hex_upper(bytes).len() == 2 * bytes.len(),
    decreases bytes.len(),
{
    if bytes.len() > 0 {
        lemma_hex_upper_len(bytes.drop_last());
    }
}

} // verus!
