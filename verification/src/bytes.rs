//! Hexadecimal encoding of byte strings (lower-case digits on output,
//! either case on input).

use crate::text::push_char;
use vstd::prelude::*;

verus! {

/// The lower-case hexadecimal digit of `v < 16`.
pub open spec fn hex_digit(v: nat) -> char {
    if v < 10 {
        (48 + v) as char
    } else {
        (87 + v) as char
    }
}

/// The two lower-case hexadecimal digits of one byte, high nibble first.
pub open spec fn byte_hex(b: u8) -> Seq<char> {
    seq![hex_digit((b / 16) as nat), hex_digit((b % 16) as nat)]
}

/// The lower-case hexadecimal text of a byte string, two digits per byte.
pub open spec fn hex_encode(bytes: Seq<u8>) -> Seq<char>
    decreases bytes.len(),
{
    if bytes.len() == 0 {
        Seq::empty()
    } else {
        hex_encode(bytes.drop_last()) + byte_hex(bytes.last())
    }
}

/// The value of a hexadecimal digit of either case.
pub open spec fn hex_value(c: char) -> Option<nat> {
    if '0' <= c && c <= '9' {
        Some((c as int - 48) as nat)
    } else if 'a' <= c && c <= 'f' {
        Some((c as int - 87) as nat)
    } else if 'A' <= c && c <= 'F' {
        Some((c as int - 55) as nat)
    } else {
        None
    }
}

/// The bytes that a hexadecimal text denotes: `None` unless it has an even
/// number of characters that are all hexadecimal digits.
pub open spec fn hex_decode(text: Seq<char>) -> Option<Seq<u8>>
    decreases text.len(),
{
    if text.len() == 0 {
        Some(Seq::empty())
    } else if text.len() == 1 {
        None
    } else {
        let n = text.len();
        match (hex_decode(text.subrange(0, n - 2)), hex_value(text[n - 2]), hex_value(text[n - 1])) {
            (Some(prefix), Some(high), Some(low)) => Some(prefix.push((high * 16 + low) as u8)),
            _ => None,
        }
    }
}

/// Why a text is not hexadecimal.
#[derive(Debug, Clone, Copy, PartialEq, Eq, Structural)]
pub enum HexError {
    /// The text has an odd number of characters.
    OddLength,
    /// The character at `index` (the first such) is not a hexadecimal digit.
    InvalidHexCharacter { c: char, index: usize },
}

/// The result `hex_to_bytes` gives on a text.
pub open spec fn hex_to_bytes_result(text: Seq<char>) -> Result<Seq<u8>, HexError> {
    if text.len() % 2 == 1 {
        Err(HexError::OddLength)
    } else if exists|i: int| 0 <= i < text.len() && hex_value(#[trigger] text[i]) is None {
        let i = choose|i: int|
            0 <= i < text.len() && hex_value(#[trigger] text[i]) is None && forall|j: int|
                0 <= j < i ==> hex_value(#[trigger] text[j]) is Some;
        Err(HexError::InvalidHexCharacter { c: text[i], index: i as usize })
    } else {
        Ok(hex_decode(text).unwrap())
    }
}

fn hex_digit_exec(v: u8) -> (c: char)
    requires
        v < 16,
    ensures
        c == hex_digit(v as nat),
{
    if v < 10 {
        (48 + v) as char
    } else {
        (87 + v) as char
    }
}

/// Renders bytes as lower-case hexadecimal.
pub fn bytes_to_hex(bytes: &[u8]) -> (text: String)
    ensures
        text@ == hex_encode(bytes@),
{
    let mut text = String::new();
    let n = bytes.len();
    for i in 0..n
        invariant
            n == bytes@.len(),
            text@ == hex_encode(bytes@.take(i as int)),
    {
        let b = bytes[i];
        push_char(&mut text, hex_digit_exec(b / 16));
        push_char(&mut text, hex_digit_exec(b % 16));
        assert(bytes@.take(i + 1).drop_last() =~= bytes@.take(i as int));
        assert(text@ =~= hex_encode(bytes@.take(i + 1)));
    }
    assert(bytes@.take(n as int) =~= bytes@);
    text
}

fn hex_value_exec(c: char) -> (v: Option<u8>)
    ensures
        match hex_value(c) {
            Some(x) => v == Some(x as u8),
            None => v is None,
        },
{
    if '0' <= c && c <= '9' {
        Some(((c as u32) - 48) as u8)
    } else if 'a' <= c && c <= 'f' {
        Some(((c as u32) - 87) as u8)
    } else if 'A' <= c && c <= 'F' {
        Some(((c as u32) - 55) as u8)
    } else {
        None
    }
}

/// The characters of a string, one by one.
pub fn chars_of(s: &str) -> (chars: Vec<char>)
    ensures
        chars@ == s@,
{
    let n = s.unicode_len();
    let mut chars: Vec<char> = Vec::new();
    for i in 0..n
        invariant
            n == s@.len(),
            chars@ == s@.take(i as int),
    {
        chars.push(s.get_char(i));
        assert(chars@ =~= s@.take(i + 1));
    }
    assert(s@.take(n as int) =~= s@);
    chars
}

/// A hexadecimal text decodes exactly when it has even length and every
/// character is a hexadecimal digit.
pub proof fn lemma_hex_decode_some(text: Seq<char>)
    ensures
        hex_decode(text) is Some <==> (text.len() % 2 == 0 && forall|i: int|
            0 <= i < text.len() ==> hex_value(#[trigger] text[i]) is Some),
        hex_decode(text) is Some ==> hex_decode(text).unwrap().len() * 2 == text.len(),
    decreases text.len(),
{
    if text.len() >= 2 {
        let n = text.len();
        let pre = text.subrange(0, n - 2);
        lemma_hex_decode_some(pre);
        if (text.len() % 2 == 0 && forall|i: int| 0 <= i < text.len() ==> hex_value(#[trigger] text[i]) is Some) {
            assert forall|i: int| 0 <= i < pre.len() implies hex_value(#[trigger] pre[i]) is Some by {
                assert(pre[i] == text[i]);
            }
        }
        if hex_decode(text) is Some {
            assert forall|i: int| 0 <= i < text.len() implies hex_value(#[trigger] text[i]) is Some by {
                if i < n - 2 {
                    assert(pre[i] == text[i]);
                }
            }
        }
    }
}

/// Decodes hexadecimal text (either case) into bytes.
pub fn hex_to_bytes(text: &str) -> (res: Result<Vec<u8>, HexError>)
    ensures
        match (res, hex_to_bytes_result(text@)) {
            (Ok(bytes), Ok(expected)) => bytes@ == expected,
            (Err(e), Err(expected)) => e == expected,
            _ => false,
        },
{
    let chars = chars_of(text);
    let n = chars.len();
    proof {
        lemma_hex_decode_some(text@);
    }
    if n % 2 == 1 {
        return Err(HexError::OddLength);
    }
    let mut i: usize = 0;
    while i < n
        invariant
            n == chars@.len(),
            chars@ == text@,
            n % 2 == 0,
            i <= n,
            forall|j: int| 0 <= j < i ==> hex_value(#[trigger] text@[j]) is Some,
        decreases n - i,
    {
        if hex_value_exec(chars[i]).is_none() {
            proof {
                let w = i as int;
                assert(0 <= w < text@.len() && hex_value(text@[w]) is None);
                assert(text@.len() % 2 == 0);
                assert(0 <= w < text@.len() && hex_value(text@[w]) is None && forall|j: int|
                    0 <= j < w ==> hex_value(#[trigger] text@[j]) is Some);
                let k = choose|k: int|
                    0 <= k < text@.len() && hex_value(#[trigger] text@[k]) is None && forall|j: int|
                        0 <= j < k ==> hex_value(#[trigger] text@[j]) is Some;
                assert(k == w) by {
                    if k < w {
                        assert(hex_value(text@[k]) is Some);
                    }
                    if w < k {
                        assert(hex_value(text@[w]) is Some);
                    }
                }
            }
            return Err(HexError::InvalidHexCharacter { c: chars[i], index: i });
        }
        i = i + 1;
    }
    let mut bytes: Vec<u8> = Vec::new();
    let mut k: usize = 0;
    while k < n
        invariant
            n == chars@.len(),
            chars@ == text@,
            n % 2 == 0,
            k % 2 == 0,
            k <= n,
            forall|j: int| 0 <= j < n ==> hex_value(#[trigger] text@[j]) is Some,
            hex_decode(text@.take(k as int)) == Some(bytes@),
        decreases n - k,
    {
        let high = hex_value_exec(chars[k]).unwrap();
        let low = hex_value_exec(chars[k + 1]).unwrap();
        bytes.push(high * 16 + low);
        proof {
            let t = text@.take(k + 2);
            assert(t.subrange(0, t.len() - 2) =~= text@.take(k as int));
            assert(t[t.len() - 2] == text@[k as int]);
            assert(t[t.len() - 1] == text@[k + 1]);
        }
        k = k + 2;
    }
    assert(text@.take(n as int) =~= text@);
    proof {
        assert(!exists|i: int| 0 <= i < text@.len() && hex_value(#[trigger] text@[i]) is None);
    }
    Ok(bytes)
}

/// The ASCII lower-case form of a character (other characters unchanged).
pub open spec fn ascii_lowercase(c: char) -> char {
    if 'A' <= c && c <= 'Z' {
        ((c as int) + 32) as char
    } else {
        c
    }
}

/// The ASCII upper-case form of a character (other characters unchanged).
pub open spec fn ascii_uppercase(c: char) -> char {
    if 'a' <= c && c <= 'z' {
        ((c as int) - 32) as char
    } else {
        c
    }
}

proof fn lemma_hex_value_case(c: char)
    ensures
        hex_value(ascii_lowercase(c)) == hex_value(c),
        hex_value(ascii_uppercase(c)) == hex_value(c),
{
}

/// Decoding a text whose characters are mapped one by one by `f`, where `f`
/// keeps the value of every character, gives the same result.
proof fn lemma_hex_decode_map(text: Seq<char>, mapped: Seq<char>)
    requires
        mapped.len() == text.len(),
        forall|i: int| 0 <= i < text.len() ==> hex_value(#[trigger] mapped[i]) == hex_value(text[i]),
    ensures
        hex_decode(mapped) == hex_decode(text),
    decreases text.len(),
{
    if text.len() >= 2 {
        let n = text.len();
        lemma_hex_decode_map(text.subrange(0, n - 2), mapped.subrange(0, n - 2));
    }
}

/// Hexadecimal decoding ignores case: a text and its lower-case form denote
/// the same bytes (or both denote none).
pub proof fn lemma_hex_decode_case_insensitive(text: Seq<char>)
    ensures
        hex_decode(text.map_values(|c: char| ascii_lowercase(c))) == hex_decode(text),
        hex_decode(text.map_values(|c: char| ascii_uppercase(c))) == hex_decode(text),
{
    let lower = text.map_values(|c: char| ascii_lowercase(c));
    let upper = text.map_values(|c: char| ascii_uppercase(c));
    assert forall|i: int| 0 <= i < text.len() implies hex_value(#[trigger] lower[i]) == hex_value(text[i]) by {
        lemma_hex_value_case(text[i]);
    }
    assert forall|i: int| 0 <= i < text.len() implies hex_value(#[trigger] upper[i]) == hex_value(text[i]) by {
        lemma_hex_value_case(text[i]);
    }
    lemma_hex_decode_map(text, lower);
    lemma_hex_decode_map(text, upper);
}

/// Each hexadecimal digit has its value in either case: `0`–`9` are 0–9,
/// `a`–`f` and `A`–`F` are 10–15, and nothing else is a digit.
pub proof fn lemma_hex_digit_values(c: char)
    ensures
        ('0' <= c && c <= '9') ==> hex_value(c) == Some((c as int - '0' as int) as nat),
        ('a' <= c && c <= 'f') ==> hex_value(c) == Some((c as int - 'a' as int + 10) as nat),
        ('A' <= c && c <= 'F') ==> hex_value(c) == Some((c as int - 'A' as int + 10) as nat),
        hex_value(c) is Some <==> (('0' <= c && c <= '9') || ('a' <= c && c <= 'f') || ('A' <= c && c <= 'F')),
{
}

/// Hexadecimal text made by `bytes_to_hex` decodes back to the same bytes.
pub proof fn lemma_hex_round_trip(bytes: Seq<u8>)
    ensures
        hex_decode(hex_encode(bytes)) == Some(bytes),
    decreases bytes.len(),
{
    if bytes.len() > 0 {
        let pre = bytes.drop_last();
        let b = bytes.last();
        lemma_hex_round_trip(pre);
        let t = hex_encode(bytes);
        lemma_hex_encode_len(pre);
        assert(t.subrange(0, t.len() - 2) =~= hex_encode(pre));
        assert(t[t.len() - 2] == hex_digit((b / 16) as nat));
        assert(t[t.len() - 1] == hex_digit((b % 16) as nat));
        assert(pre.push(b) =~= bytes);
    }
}

/// Two hexadecimal digits per byte.
pub proof fn lemma_hex_encode_len(bytes: Seq<u8>)
    ensures
        hex_encode(bytes).len() == 2 * bytes.len(),
    decreases bytes.len(),
{
    if bytes.len() > 0 {
        lemma_hex_encode_len(bytes.drop_last());
    }
}

} // verus!
