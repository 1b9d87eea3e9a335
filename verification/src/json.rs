//! JSON text for the request bodies and stamps this library signs: string
//! literals, written by serde_json, and the laws of their escaping.

use crate::bytes::hex_digit;
use vstd::prelude::*;

verus! {

/// How one character is written inside a JSON string literal: `"` and `\`
/// are backslash-escaped, the control characters below U+0020 use their short
/// escape (`\b`, `\t`, `\n`, `\f`, `\r`) or `\u00XX` with lower-case hex digits,
/// and every other character stands for itself.
pub open spec fn json_escape_char(c: char) -> Seq<char> {
    if c == '"' {
        seq!['\\', '"']
    } else if c == '\\' {
        seq!['\\', '\\']
    } else if c == '\x08' {
        seq!['\\', 'b']
    } else if c == '\t' {
        seq!['\\', 't']
    } else if c == '\n' {
        seq!['\\', 'n']
    } else if c == '\x0c' {
        seq!['\\', 'f']
    } else if c == '\r' {
        seq!['\\', 'r']
    } else if (c as int) < 0x20 {
        seq!['\\', 'u', '0', '0', hex_digit((c as nat) / 16), hex_digit((c as nat) % 16)]
    } else {
        seq![c]
    }
}

/// The escaped body of a JSON string literal.
pub open spec fn json_escape(s: Seq<char>) -> Seq<char>
    decreases s.len(),
{
    if s.len() == 0 {
        Seq::empty()
    } else {
        json_escape(s.drop_last()) + json_escape_char(s.last())
    }
}

/// A JSON string literal: the escaped text between double quotes.
pub open spec fn json_string(s: Seq<char>) -> Seq<char> {
    seq!['"'] + json_escape(s) + seq!['"']
}

/// Escaping distributes over concatenation.
pub proof fn lemma_json_escape_concat(a: Seq<char>, b: Seq<char>)
    ensures
        json_escape(a + b) == json_escape(a) + json_escape(b),
    decreases b.len(),
{
    if b.len() == 0 {
        assert(a + b =~= a);
        assert(json_escape(a) + json_escape(b) =~= json_escape(a));
    } else {
        lemma_json_escape_concat(a, b.drop_last());
        assert((a + b).drop_last() =~= a + b.drop_last());
        assert((a + b).last() == b.last());
        assert(json_escape(a + b) =~= json_escape(a) + json_escape(b));
    }
}

proof fn lemma_hex_digit_injective(x: nat, y: nat)
    requires
        x < 16,
        y < 16,
        hex_digit(x) == hex_digit(y),
    ensures
        x == y,
{
    assert(hex_digit(x) as int == if x < 10 { 48 + x } else { 87 + x });
    assert(hex_digit(y) as int == if y < 10 { 48 + y } else { 87 + y });
}

/// Whether a character is written as an escape sequence.
pub open spec fn is_escaped(c: char) -> bool {
    c == '"' || c == '\\' || (c as int) < 0x20
}

/// The escape of one character is recognized at the start of any text: two
/// texts that start with the escapes of two characters and are equal start
/// with the same escape.
proof fn lemma_escape_char_prefix(c: char, d: char, x: Seq<char>, y: Seq<char>)
    requires
        json_escape_char(c) + x == json_escape_char(d) + y,
    ensures
        c == d,
        x == y,
{
    let cc = json_escape_char(c);
    let dd = json_escape_char(d);
    let l = cc + x;
    let r = dd + y;
    assert(l[0] == cc[0]);
    assert(r[0] == dd[0]);
    if !is_escaped(c) || !is_escaped(d) {
        assert(cc.len() == 1 || cc[0] == '\\');
        assert(dd.len() == 1 || dd[0] == '\\');
        assert(c == d);
    } else {
        assert(l[1] == cc[1]);
        assert(r[1] == dd[1]);
        if cc[1] == 'u' {
            assert(dd[1] == 'u');
            assert(l[4] == cc[4] && r[4] == dd[4]);
            assert(l[5] == cc[5] && r[5] == dd[5]);
            lemma_hex_digit_injective((c as nat) / 16, (d as nat) / 16);
            lemma_hex_digit_injective((c as nat) % 16, (d as nat) % 16);
            assert(c as nat == d as nat);
        }
        assert(c == d);
    }
    assert(cc == dd);
    assert(x =~= l.subrange(cc.len() as int, l.len() as int));
    assert(y =~= r.subrange(dd.len() as int, r.len() as int));
}

proof fn lemma_json_escape_single(c: char)
    ensures
        json_escape(seq![c]) == json_escape_char(c),
{
    let one = seq![c];
    assert(one.drop_last() =~= Seq::<char>::empty());
    assert(one.last() == c);
    assert(json_escape(Seq::<char>::empty()) == Seq::<char>::empty());
    assert(json_escape(one) == json_escape(one.drop_last()) + json_escape_char(c));
    assert(json_escape(one) =~= json_escape_char(c));
}

/// Escaping loses nothing: distinct texts have distinct escapes.
pub proof fn lemma_json_escape_injective(a: Seq<char>, b: Seq<char>)
    requires
        json_escape(a) == json_escape(b),
    ensures
        a == b,
    decreases a.len() + b.len(),
{
    if a.len() == 0 || b.len() == 0 {
        if a.len() > 0 {
            lemma_json_escape_concat(seq![a[0]], a.subrange(1, a.len() as int));
            assert(seq![a[0]] + a.subrange(1, a.len() as int) =~= a);
            lemma_json_escape_single(a[0]);
        }
        if b.len() > 0 {
            lemma_json_escape_concat(seq![b[0]], b.subrange(1, b.len() as int));
            assert(seq![b[0]] + b.subrange(1, b.len() as int) =~= b);
            lemma_json_escape_single(b[0]);
        }
        assert(a =~= b);
    } else {
        let a1 = a.subrange(1, a.len() as int);
        let b1 = b.subrange(1, b.len() as int);
        lemma_json_escape_concat(seq![a[0]], a1);
        lemma_json_escape_concat(seq![b[0]], b1);
        assert(seq![a[0]] + a1 =~= a);
        assert(seq![b[0]] + b1 =~= b);
        lemma_json_escape_single(a[0]);
        lemma_json_escape_single(b[0]);
        lemma_escape_char_prefix(a[0], b[0], json_escape(a1), json_escape(b1));
        lemma_json_escape_injective(a1, b1);
        assert(a =~= b);
    }
}

/// A JSON string literal denotes exactly one text.
pub proof fn lemma_json_string_injective(a: Seq<char>, b: Seq<char>)
    requires
        json_string(a) == json_string(b),
    ensures
        a == b,
{
    let ja = json_string(a);
    let jb = json_string(b);
    assert(json_escape(a) =~= ja.subrange(1, ja.len() - 1));
    assert(json_escape(b) =~= jb.subrange(1, jb.len() - 1));
    lemma_json_escape_injective(a, b);
}

/// The serde_json serialisation error.
#[verifier::external_type_specification]
#[verifier::external_body]
pub struct ExJsonError(serde_json::Error);

/// `serde_json::to_string` on a `&str`: the string as a JSON string literal.
/// Claimed: it succeeds (serialising a `str` into memory cannot fail) and
/// gives the quoted text with `"` and `\` backslash-escaped, the control
/// characters below U+0020 escaped as `\b \t \n \f \r` or `\u00XX`
/// (lower-case hex), and every other character unchanged.
#[verifier::external_body]
fn json_string_literal(s: &str) -> (res: Result<String, serde_json::Error>)
    ensures
        res is Ok,
        res matches Ok(json) ==> json@ == json_string(s@),
{
    serde_json::to_string(s)
}

/// Appends `s` as a JSON string literal (quotes included) to `out`.
pub fn push_json_string(out: &mut String, s: &str)
    ensures
        final(out)@ == old(out)@ + json_string(s@),
{
    if let Ok(json) = json_string_literal(s) {
        out.append(json.as_str());
    }
}

} // verus!
