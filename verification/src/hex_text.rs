//! Hexadecimal text: what the `hex` crate writes and reads, and the same
//! text as ASCII bytes.

use vstd::prelude::*;

verus! {

/// The lower-case hexadecimal digit for a value below sixteen.
pub open spec fn hex_digit(n: int) -> char {
    if n == 0 {
        '0'
    } else if n == 1 {
        '1'
    } else if n == 2 {
        '2'
    } else if n == 3 {
        '3'
    } else if n == 4 {
        '4'
    } else if n == 5 {
        '5'
    } else if n == 6 {
        '6'
    } else if n == 7 {
        '7'
    } else if n == 8 {
        '8'
    } else if n == 9 {
        '9'
    } else if n == 10 {
        'a'
    } else if n == 11 {
        'b'
    } else if n == 12 {
        'c'
    } else if n == 13 {
        'd'
    } else if n == 14 {
        'e'
    } else {
        'f'
    }
}

/// The value of a hexadecimal digit of either case; other characters have
/// none.
pub open spec fn hex_value(c: char) -> Option<int> {
    if '0' <= c && c <= '9' {
        Some(c as int - '0' as int)
    } else if 'a' <= c && c <= 'f' {
        Some(c as int - 'a' as int + 10)
    } else if 'A' <= c && c <= 'F' {
        Some(c as int - 'A' as int + 10)
    } else {
        None
    }
}

/// Two lower-case digits for each byte, the high half first.
pub open spec fn hex_text(data: Seq<u8>) -> Seq<char> {
    Seq::new(
        2 * data.len(),
        |i: int|
            if i % 2 == 0 {
                hex_digit(data[i / 2] as int / 16)
            } else {
                hex_digit(data[i / 2] as int % 16)
            },
    )
}

/// Text of even length made of hexadecimal digits only.
pub open spec fn is_hex_text(text: Seq<char>) -> bool {
    &&& text.len() % 2 == 0
    &&& forall|i: int| 0 <= i < text.len() ==> (#[trigger] hex_value(text[i])) is Some
}

/// The bytes that hexadecimal text stands for, one for each pair of digits.
pub open spec fn hex_bytes(text: Seq<char>) -> Seq<u8> {
    Seq::new(
        text.len() / 2,
        |i: int| (hex_value(text[2 * i]).unwrap() * 16 + hex_value(text[2 * i + 1]).unwrap()) as u8,
    )
}

/// What decoding gives: the bytes of hexadecimal text, nothing for other text.
pub open spec fn hex_decoded(text: Seq<char>) -> Option<Seq<u8>> {
    if is_hex_text(text) {
        Some(hex_bytes(text))
    } else {
        None
    }
}

/// The error of `hex::decode`, carried through and never looked into.
#[verifier::external_type_specification]
#[verifier::external_body]
pub struct ExFromHexError(hex::FromHexError);

/// Calls `hex::encode`. Trusted: every byte becomes two lower-case digits,
/// the high half first, in the order of the input.
#[verifier::external_body]
pub(crate) fn hex_encode(data: &[u8]) -> (text: String)
    ensures
        text@ == hex_text(data@),
{
    hex::encode(data)
}

/// Calls `hex::decode`. Trusted: it succeeds exactly on text of even length
/// whose characters are all hexadecimal digits of either case, and then
/// each pair of digits gives one byte, the high half first.
#[verifier::external_body]
pub(crate) fn hex_decode(text: &str) -> (r: Result<Vec<u8>, hex::FromHexError>)
    ensures
        r is Ok <==> is_hex_text(text@),
        r matches Ok(bytes) ==> bytes@ == hex_bytes(text@),
{
    hex::decode(text)
}

/// Reads hexadecimal text; `None` for text that is none.
pub fn from_hex(text: &str) -> (r: Option<Vec<u8>>)
    ensures
        match r {
            Some(bytes) => hex_decoded(text@) == Some(bytes@),
            None => hex_decoded(text@) is None,
        },
{
    match hex_decode(text) {
        Ok(bytes) => Some(bytes),
        Err(_) => None,
    }
}

/// Each digit that encoding writes has the value it was written for.
pub proof fn lemma_hex_digit_value(n: int)
    requires
        0 <= n < 16,
    ensures
        hex_value(hex_digit(n)) == Some(n),
{
}

/// Decoding what encoding wrote gives the bytes back.
pub proof fn lemma_hex_round_trip(data: Seq<u8>)
    ensures
        is_hex_text(hex_text(data)),
        hex_bytes(hex_text(data)) == data,
        hex_decoded(hex_text(data)) == Some(data),
{
    let text = hex_text(data);
    assert forall|i: int| 0 <= i < text.len() implies (#[trigger] hex_value(text[i])) is Some by {
        if i % 2 == 0 {
            lemma_hex_digit_value(data[i / 2] as int / 16);
        } else {
            lemma_hex_digit_value(data[i / 2] as int % 16);
        }
    }
    assert forall|k: int| 0 <= k < data.len() implies #[trigger] hex_bytes(text)[k] == data[k] by {
        let hi = data[k] as int / 16;
        let lo = data[k] as int % 16;
        lemma_hex_digit_value(hi);
        lemma_hex_digit_value(lo);
        assert((2 * k) % 2 == 0);
        assert((2 * k) / 2 == k);
        assert((2 * k + 1) % 2 == 1);
        assert((2 * k + 1) / 2 == k);
        assert(text[2 * k] == hex_digit(hi));
        assert(text[2 * k + 1] == hex_digit(lo));
        assert(hi * 16 + lo == data[k] as int);
    }
    assert(hex_bytes(text) =~= data);
}

/// Hexadecimal text as the bytes of its characters: two ASCII bytes for
/// each byte of `data`.
pub open spec fn hex_ascii(data: Seq<u8>) -> Seq<u8> {
    Seq::new(2 * data.len(), |i: int| hex_text(data)[i] as u8)
}

/// The value of a byte that is a lower-case hexadecimal digit in ASCII.
pub open spec fn lower_hex_value(b: u8) -> Option<int> {
    if 48 <= b <= 57 {
        Some(b - 48)
    } else if 97 <= b <= 102 {
        Some(b - 87)
    } else {
        None
    }
}

/// The ASCII byte of each lower-case digit has that digit's value, and no
/// other byte has.
pub proof fn lemma_lower_hex_digit(n: int)
    requires
        0 <= n < 16,
    ensures
        lower_hex_value(hex_digit(n) as u8) == Some(n),
        forall|b: u8| lower_hex_value(b) == Some(n) ==> b == hex_digit(n) as u8,
        '\0' <= hex_digit(n) <= '\u{7f}',
{
}

/// Hexadecimal text is ASCII, so its bytes are its characters.
pub proof fn lemma_hex_text_is_ascii(data: Seq<u8>)
    ensures
        vstd::utf8::is_ascii_chars(hex_text(data)),
{
    let text = hex_text(data);
    assert forall|i: int| 0 <= i < text.len() implies '\0' <= #[trigger] text[i] <= '\u{7f}' by {
        if i % 2 == 0 {
            lemma_lower_hex_digit(data[i / 2] as int / 16);
        } else {
            lemma_lower_hex_digit(data[i / 2] as int % 16);
        }
    }
}

/// Reads the value of one lower-case hexadecimal digit in ASCII.
fn lower_hex_digit(b: u8) -> (r: Option<u8>)
    ensures
        match r {
            Some(v) => lower_hex_value(b) == Some(v as int),
            None => lower_hex_value(b) is None,
        },
{
    if 48 <= b && b <= 57 {
        Some(b - 48)
    } else if 97 <= b && b <= 102 {
        Some(b - 87)
    } else {
        None
    }
}

/// Writes bytes as the ASCII bytes of their lower-case hexadecimal text.
pub fn to_hex_ascii(data: &[u8]) -> (r: Vec<u8>)
    ensures
        r@ == hex_ascii(data@),
{
    let text = hex_encode(data);
    let key = text.as_str();
    proof {
        lemma_hex_text_is_ascii(data@);
        vstd::string::is_ascii_spec_bytes(key);
    }
    let r = key.as_bytes_vec();
    assert(r@ =~= hex_ascii(data@));
    r
}

/// Holds of the ASCII bytes of lower-case hexadecimal text of even length.
pub open spec fn is_hex_ascii(bytes: Seq<u8>) -> bool {
    &&& bytes.len() % 2 == 0
    &&& forall|i: int| 0 <= i < bytes.len() ==> (#[trigger] lower_hex_value(bytes[i])) is Some
}

/// The bytes that such text stands for; nothing for other input.
pub open spec fn hex_ascii_decoded(bytes: Seq<u8>) -> Option<Seq<u8>> {
    if is_hex_ascii(bytes) {
        Some(
            Seq::new(
                bytes.len() / 2,
                |i: int|
                    (lower_hex_value(bytes[2 * i]).unwrap() * 16 + lower_hex_value(
                        bytes[2 * i + 1],
                    ).unwrap()) as u8,
            ),
        )
    } else {
        None
    }
}

/// Reads bytes back from the ASCII bytes of lower-case hexadecimal text;
/// `None` where `bytes` is no such text.
pub fn from_hex_ascii(bytes: &[u8]) -> (r: Option<Vec<u8>>)
    ensures
        match r {
            Some(data) => hex_ascii_decoded(bytes@) == Some(data@),
            None => hex_ascii_decoded(bytes@) is None,
        },
{
    let n = bytes.len();
    if n % 2 != 0 {
        return None;
    }
    let ghost want = hex_ascii_decoded(bytes@);
    let mut data: Vec<u8> = Vec::new();
    let mut i: usize = 0;
    while i < n / 2
        invariant
            n == bytes@.len(),
            n % 2 == 0,
            i <= n / 2,
            data@.len() == i,
            forall|k: int| 0 <= k < 2 * i ==> (#[trigger] lower_hex_value(bytes@[k])) is Some,
            forall|k: int|
                0 <= k < i ==> #[trigger] data@[k] == (lower_hex_value(bytes@[2 * k]).unwrap() * 16
                    + lower_hex_value(bytes@[2 * k + 1]).unwrap()) as u8,
        decreases n / 2 - i,
    {
        let hi = lower_hex_digit(bytes[2 * i]);
        let lo = lower_hex_digit(bytes[2 * i + 1]);
        match (hi, lo) {
            (Some(h), Some(l)) => {
                data.push(h * 16 + l);
            },
            _ => {
                assert(!is_hex_ascii(bytes@));
                return None;
            },
        }
        i += 1;
    }
    assert(is_hex_ascii(bytes@));
    assert(data@ =~= hex_ascii_decoded(bytes@).unwrap());
    Some(data)
}

/// Reading what was written gives the bytes back.
pub proof fn lemma_hex_ascii_round_trip(data: Seq<u8>)
    ensures
        hex_ascii_decoded(hex_ascii(data)) == Some(data),
{
    let bytes = hex_ascii(data);
    assert forall|i: int| 0 <= i < bytes.len() implies (#[trigger] lower_hex_value(bytes[i]))
        is Some by {
        lemma_lower_hex_digit(data[i / 2] as int / 16);
        lemma_lower_hex_digit(data[i / 2] as int % 16);
    }
    let back = hex_ascii_decoded(bytes).unwrap();
    assert forall|k: int| 0 <= k < data.len() implies back[k] == data[k] by {
        lemma_lower_hex_digit(data[k] as int / 16);
        lemma_lower_hex_digit(data[k] as int % 16);
        assert((2 * k) / 2 == k && (2 * k) % 2 == 0);
        assert((2 * k + 1) / 2 == k && (2 * k + 1) % 2 == 1);
        assert(bytes[2 * k] == hex_digit(data[k] as int / 16) as u8);
        assert(bytes[2 * k + 1] == hex_digit(data[k] as int % 16) as u8);
    }
    assert(back =~= data);
}

/// Only what writing gives can be read: the text of bytes is unique.
pub proof fn lemma_hex_ascii_canonical(bytes: Seq<u8>)
    requires
        is_hex_ascii(bytes),
    ensures
        hex_ascii(hex_ascii_decoded(bytes).unwrap()) == bytes,
{
    let data = hex_ascii_decoded(bytes).unwrap();
    let again = hex_ascii(data);
    assert forall|i: int| 0 <= i < bytes.len() implies again[i] == bytes[i] by {
        let k = i / 2;
        let hi = lower_hex_value(bytes[2 * k]).unwrap();
        let lo = lower_hex_value(bytes[2 * k + 1]).unwrap();
        assert(lower_hex_value(bytes[2 * k]) is Some);
        assert(lower_hex_value(bytes[2 * k + 1]) is Some);
        lemma_lower_hex_digit(hi);
        lemma_lower_hex_digit(lo);
        assert(data[k] as int == hi * 16 + lo);
        assert(data[k] as int / 16 == hi);
        assert(data[k] as int % 16 == lo);
    }
    assert(again =~= bytes);
}

} // verus!
