//! Lower-case hexadecimal text for opaque bytes.
//!
//! Ciphertext travels as text. The encoding is canonical: every byte string
//! has exactly one text form, and a text that is not that form of some byte
//! string does not decode at all.

use vstd::prelude::*;

verus! {

/// The digit that stands for a value below sixteen.
pub open spec fn hex_digit(v: u8) -> char {
    if v < 10 {
        (48 + v) as char
    } else {
        (87 + v) as char
    }
}

/// The value of a lower-case hexadecimal digit, `None` for any other character.
pub open spec fn hex_value(c: char) -> Option<u8> {
    let v = c as u32;
    if 48 <= v <= 57 {
        Some((v - 48) as u8)
    } else if 97 <= v <= 102 {
        Some((v - 87) as u8)
    } else {
        None
    }
}

/// Two digits per byte, the high half first.
pub open spec fn hex_encode(bytes: Seq<u8>) -> Seq<char> {
    Seq::new(
        2 * bytes.len(),
        |i: int|
            if i % 2 == 0 {
                hex_digit(bytes[i / 2] / 16)
            } else {
                hex_digit(bytes[i / 2] % 16)
            },
    )
}

/// An even number of lower-case hexadecimal digits.
pub open spec fn is_hex(text: Seq<char>) -> bool {
    &&& text.len() % 2 == 0
    &&& forall|i: int| 0 <= i < text.len() ==> hex_value(#[trigger] text[i]) is Some
}

/// The byte that a pair of digits stands for.
pub open spec fn hex_pair(high: char, low: char) -> u8 {
    (hex_value(high).unwrap() * 16 + hex_value(low).unwrap()) as u8
}

/// The bytes that a text stands for, `None` unless the text is hexadecimal.
pub open spec fn hex_decode(text: Seq<char>) -> Option<Seq<u8>> {
    if is_hex(text) {
        Some(Seq::new(text.len() / 2, |i: int| hex_pair(text[2 * i], text[2 * i + 1])))
    } else {
        None
    }
}

/// A digit decodes to the value it was made from.
pub proof fn lemma_hex_digit_value(v: u8)
    requires
        v < 16,
    ensures
        hex_value(hex_digit(v)) == Some(v),
{
}

/// A character that decodes is the digit of its value.
pub proof fn lemma_hex_value_digit(c: char)
    requires
        hex_value(c) is Some,
    ensures
        hex_value(c).unwrap() < 16,
        hex_digit(hex_value(c).unwrap()) == c,
        '\0' <= c <= '\u{7f}',
{
}

/// Decoding undoes encoding.
pub proof fn lemma_hex_round_trip(bytes: Seq<u8>)
    ensures
        hex_decode(hex_encode(bytes)) == Some(bytes),
{
    let text = hex_encode(bytes);
    assert forall|i: int| 0 <= i < text.len() implies hex_value(#[trigger] text[i]) is Some by {
        lemma_hex_digit_value(bytes[i / 2] / 16);
        lemma_hex_digit_value(bytes[i / 2] % 16);
    }
    let back = hex_decode(text).unwrap();
    assert forall|i: int| 0 <= i < bytes.len() implies back[i] == bytes[i] by {
        lemma_hex_digit_value(bytes[i] / 16);
        lemma_hex_digit_value(bytes[i] % 16);
    }
}

/// A text that decodes is the encoding of what it decodes to.
pub proof fn lemma_hex_canonical(text: Seq<char>)
    requires
        hex_decode(text) is Some,
    ensures
        hex_encode(hex_decode(text).unwrap()) == text,
{
    let bytes = hex_decode(text).unwrap();
    let again = hex_encode(bytes);
    assert forall|i: int| 0 <= i < text.len() implies again[i] == text[i] by {
        let k = i / 2;
        lemma_hex_value_digit(text[2 * k]);
        lemma_hex_value_digit(text[2 * k + 1]);
    }
}

/// Two texts that decode to the same bytes are the same text: no change to a
/// text leaves its bytes as they were.
pub proof fn lemma_hex_decode_injective(a: Seq<char>, b: Seq<char>)
    requires
        hex_decode(a) is Some,
        hex_decode(a) == hex_decode(b),
    ensures
        a == b,
{
    lemma_hex_canonical(a);
    lemma_hex_canonical(b);
}

/// The digit of a value below sixteen, as text of length one.
fn digit_text(v: u8) -> (s: &'static str)
    requires
        v < 16,
    ensures
        s@ == seq![hex_digit(v)],
{
    proof {
        reveal_strlit("0");
        reveal_strlit("1");
        reveal_strlit("2");
        reveal_strlit("3");
        reveal_strlit("4");
        reveal_strlit("5");
        reveal_strlit("6");
        reveal_strlit("7");
        reveal_strlit("8");
        reveal_strlit("9");
        reveal_strlit("a");
        reveal_strlit("b");
        reveal_strlit("c");
        reveal_strlit("d");
        reveal_strlit("e");
        reveal_strlit("f");
    }
    match v {
        0 => "0",
        1 => "1",
        2 => "2",
        3 => "3",
        4 => "4",
        5 => "5",
        6 => "6",
        7 => "7",
        8 => "8",
        9 => "9",
        10 => "a",
        11 => "b",
        12 => "c",
        13 => "d",
        14 => "e",
        _ => "f",
    }
}

/// Writes bytes as lower-case hexadecimal text.
pub fn encode_hex(bytes: &[u8]) -> (text: String)
    ensures
        text@ == hex_encode(bytes@),
{
    let mut text = String::new();
    let mut i: usize = 0;
    while i < bytes.len()
        invariant
            i <= bytes.len(),
            text@ == hex_encode(bytes@.take(i as int)),
        decreases bytes.len() - i,
    {
        let b: u8 = bytes[i];
        text.append(digit_text(b / 16));
        text.append(digit_text(b % 16));
        assert(text@ =~= hex_encode(bytes@.take(i + 1)));
        i += 1;
    }
    assert(bytes@.take(i as int) =~= bytes@);
    text
}

/// The value of a lower-case hexadecimal digit given as a byte.
fn digit_value(b: u8) -> (r: Option<u8>)
    ensures
        r == hex_value(b as char),
{
    if 48 <= b && b <= 57 {
        Some(b - 48)
    } else if 97 <= b && b <= 102 {
        Some(b - 87)
    } else {
        None
    }
}

/// Reads lower-case hexadecimal text back into bytes.
///
/// Upper-case digits, an odd length and any other character are refused.
pub fn decode_hex(text: &str) -> (r: Option<Vec<u8>>)
    ensures
        r matches Some(bytes) ==> hex_decode(text@) == Some(bytes@),
        r is None ==> hex_decode(text@) is None,
{
    if !text.is_ascii() {
        proof {
            if is_hex(text@) {
                assert forall|i: int| 0 <= i < text@.len() implies '\0' <= #[trigger] text@[i]
                    <= '\u{7f}' by {
                    lemma_hex_value_digit(text@[i]);
                }
            }
        }
        return None;
    }
    let raw = text.as_bytes();
    proof {
        vstd::utf8::is_ascii_chars_encode_utf8(text@);
    }
    let n: usize = raw.len();
    if n % 2 != 0 {
        return None;
    }
    let mut bytes: Vec<u8> = Vec::new();
    let mut i: usize = 0;
    while i < n / 2
        invariant
            n == raw@.len(),
            raw@.len() == text@.len(),
            n % 2 == 0,
            i <= n / 2,
            vstd::utf8::is_ascii_chars(text@),
            forall|j: int| 0 <= j < text@.len() ==> text@[j] as u8 == #[trigger] raw@[j],
            bytes@.len() == i,
            forall|j: int| 0 <= j < 2 * i ==> hex_value(#[trigger] text@[j]) is Some,
            forall|k: int|
                0 <= k < i ==> #[trigger] bytes@[k] == hex_pair(text@[2 * k], text@[2 * k + 1]),
        decreases n / 2 - i,
    {
        let high = digit_value(raw[2 * i]);
        let low = digit_value(raw[2 * i + 1]);
        assert(raw@[2 * i] as char == text@[2 * i]);
        assert(raw@[2 * i + 1] as char == text@[2 * i + 1]);
        match (high, low) {
            (Some(h), Some(l)) => {
                bytes.push(h * 16 + l);
            },
            _ => {
                return None;
            },
        }
        i += 1;
    }
    assert(bytes@ =~= hex_decode(text@).unwrap());
    Some(bytes)
}

} // verus!
