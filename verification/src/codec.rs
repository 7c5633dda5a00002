//! How values travel to the directory: a password in quotes, as UTF-16 with
//! the low byte first, and for one of its two call sites as Base64 text of
//! that; a number as its decimal digits.

use base64::Engine;
use vstd::prelude::*;

verus! {

/// The two bytes of one UTF-16 code unit, low byte first.
pub open spec fn unit_bytes(unit: int) -> Seq<u8> {
    seq![(unit % 256) as u8, (unit / 256) as u8]
}

/// One character in UTF-16, low byte first: one code unit below U+10000,
/// else a high and a low surrogate.
pub open spec fn char_utf16le(c: char) -> Seq<u8> {
    let n = c as int;
    if n < 0x10000 {
        unit_bytes(n)
    } else {
        unit_bytes(0xD800 + (n - 0x10000) / 0x400) + unit_bytes(0xDC00 + (n - 0x10000) % 0x400)
    }
}

/// A text in UTF-16, low byte first.
pub open spec fn utf16le(text: Seq<char>) -> Seq<u8>
    decreases text.len(),
{
    if text.len() == 0 {
        Seq::empty()
    } else {
        utf16le(text.drop_last()) + char_utf16le(text.last())
    }
}

/// Reads UTF-16 with the low byte first back into text; `None` where the
/// bytes are no such encoding (an odd length, a surrogate out of place).
pub open spec fn utf16le_decode(bytes: Seq<u8>) -> Option<Seq<char>>
    decreases bytes.len(),
{
    if bytes.len() == 0 {
        Some(Seq::empty())
    } else if bytes.len() < 2 {
        None
    } else {
        let unit = bytes[0] as int + 256 * (bytes[1] as int);
        if unit < 0xD800 || 0xE000 <= unit {
            match utf16le_decode(bytes.skip(2)) {
                Some(rest) => Some(seq![unit as char] + rest),
                None => None,
            }
        } else if unit < 0xDC00 && bytes.len() >= 4 {
            let low = bytes[2] as int + 256 * (bytes[3] as int);
            if 0xDC00 <= low < 0xE000 {
                match utf16le_decode(bytes.skip(4)) {
                    Some(rest) => Some(
                        seq![(0x10000 + (unit - 0xD800) * 0x400 + (low - 0xDC00)) as char] + rest,
                    ),
                    None => None,
                }
            } else {
                None
            }
        } else {
            None
        }
    }
}

/// A text between two double quotes.
pub open spec fn quoted(text: Seq<char>) -> Seq<char> {
    seq!['"'] + text + seq!['"']
}

/// The value to write into the password attribute by a modify operation:
/// the password in double quotes, in UTF-16 with the low byte first.
pub open spec fn password_bytes(password: Seq<char>) -> Seq<u8> {
    utf16le(quoted(password))
}

/// How long the Base64 text of `len` bytes is, padding included: four
/// characters for every three bytes or part of three.
pub open spec fn base64_len(len: nat) -> nat {
    4 * ((len + 2) / 3)
}

/// The decimal digits of a number as ASCII bytes, without leading zeros.
pub open spec fn decimal(n: nat) -> Seq<u8>
    decreases n,
{
    if n < 10 {
        seq![(48 + n) as u8]
    } else {
        decimal(n / 10) + seq![(48 + n % 10) as u8]
    }
}

/// Encoding two texts one after the other encodes their concatenation.
pub proof fn lemma_utf16le_concat(left: Seq<char>, right: Seq<char>)
    ensures
        utf16le(left + right) == utf16le(left) + utf16le(right),
    decreases right.len(),
{
    if right.len() > 0 {
        lemma_utf16le_concat(left, right.drop_last());
        assert((left + right).drop_last() =~= left + right.drop_last());
    }
}

/// A text of one character is encoded as that character.
pub proof fn lemma_utf16le_single(c: char)
    ensures
        utf16le(seq![c]) == char_utf16le(c),
{
    assert(utf16le(seq![c].drop_last()) =~= Seq::<u8>::empty());
}

/// Every character takes two or four bytes.
pub proof fn lemma_utf16le_len(text: Seq<char>)
    ensures
        2 * text.len() <= utf16le(text).len() <= 4 * text.len(),
    decreases text.len(),
{
    if text.len() > 0 {
        lemma_utf16le_len(text.drop_last());
    }
}

/// A password of `n` characters travels as at least `2n + 4` and at most
/// `4n + 4` bytes: two for each quote, two or four for each character.
pub proof fn lemma_password_bytes_len(password: Seq<char>)
    ensures
        2 * password.len() + 4 <= password_bytes(password).len() <= 4 * password.len() + 4,
{
    let quote = seq!['"'];
    lemma_utf16le_single('"');
    lemma_utf16le_concat(quote, password);
    lemma_utf16le_concat(quote + password, quote);
    lemma_utf16le_len(password);
}

/// Decoding takes one encoded character off the front of the bytes.
pub proof fn lemma_utf16le_decode_char(c: char, rest: Seq<u8>)
    ensures
        utf16le_decode(char_utf16le(c) + rest) == match utf16le_decode(rest) {
            Some(text) => Some(seq![c] + text),
            None => None,
        },
{
    let n = c as int;
    let head = char_utf16le(c);
    let bytes = head + rest;
    if n < 0x10000 {
        assert(bytes.skip(2) =~= rest);
    } else {
        let high = 0xD800 + (n - 0x10000) / 0x400;
        let low = 0xDC00 + (n - 0x10000) % 0x400;
        assert(head =~= seq![
            (high % 256) as u8,
            (high / 256) as u8,
            (low % 256) as u8,
            (low / 256) as u8,
        ]);
        assert(bytes[0] == head[0] && bytes[1] == head[1] && bytes[2] == head[2] && bytes[3]
            == head[3]);
        assert(bytes.skip(4) =~= rest);
    }
}

/// Decoding undoes encoding: the bytes of a text read back as that text.
pub proof fn lemma_utf16le_round_trip(text: Seq<char>)
    ensures
        utf16le_decode(utf16le(text)) == Some(text),
    decreases text.len(),
{
    if text.len() > 0 {
        let first = text[0];
        let rest = text.drop_first();
        assert(text =~= seq![first] + rest);
        lemma_utf16le_concat(seq![first], rest);
        lemma_utf16le_single(first);
        lemma_utf16le_round_trip(rest);
        lemma_utf16le_decode_char(first, utf16le(rest));
    }
}

/// What the directory receives as a password by a modify operation reads
/// back, as UTF-16 with the low byte first, as the password in double
/// quotes. This holds of every password, printable or not.
pub proof fn lemma_password_bytes_read_back_quoted(password: Seq<char>)
    ensures
        utf16le_decode(password_bytes(password)) == Some(quoted(password)),
{
    lemma_utf16le_round_trip(quoted(password));
}

/// Appends one character in UTF-16, low byte first.
fn push_char_utf16le(out: &mut Vec<u8>, c: char)
    ensures
        final(out)@ == old(out)@ + char_utf16le(c),
{
    let n: u32 = c as u32;
    if n < 0x10000 {
        out.push((n % 256) as u8);
        out.push((n / 256) as u8);
    } else {
        let high: u32 = 0xD800 + (n - 0x10000) / 0x400;
        let low: u32 = 0xDC00 + (n - 0x10000) % 0x400;
        out.push((high % 256) as u8);
        out.push((high / 256) as u8);
        out.push((low % 256) as u8);
        out.push((low / 256) as u8);
    }
}

/// Appends a text in UTF-16, low byte first.
fn push_utf16le(out: &mut Vec<u8>, text: &str)
    ensures
        final(out)@ == old(out)@ + utf16le(text@),
{
    broadcast use vstd::string::group_string_axioms;

    for c in it: text.chars()
        invariant
            it.seq() == text@,
            out@ == old(out)@ + utf16le(text@.take(it.index() as int)),
    {
        assert(text@.take(it.index() + 1).drop_last() == text@.take(it.index() as int));
        push_char_utf16le(out, c);
    }
    assert(text@.take(text@.len() as int) == text@);
}

/// Encodes a text in UTF-16, low byte first.
pub fn encode_utf16le(text: &str) -> (bytes: Vec<u8>)
    ensures
        bytes@ == utf16le(text@),
{
    let mut bytes: Vec<u8> = Vec::new();
    push_utf16le(&mut bytes, text);
    bytes
}

/// The password as a modify operation on the password attribute wants it:
/// in double quotes, in UTF-16 with the low byte first, and nothing more.
pub fn encode_password_for_modify(password: &str) -> (bytes: Vec<u8>)
    ensures
        bytes@ == password_bytes(password@),
{
    let mut bytes: Vec<u8> = Vec::new();
    push_char_utf16le(&mut bytes, '"');
    push_utf16le(&mut bytes, password);
    push_char_utf16le(&mut bytes, '"');
    proof {
        let open = seq!['"'];
        lemma_utf16le_single('"');
        lemma_utf16le_concat(open, password@);
        lemma_utf16le_concat(open + password@, open);
    }
    bytes
}

/// The Base64 text, standard alphabet and padded, of a byte sequence.
pub uninterp spec fn base64_standard(bytes: Seq<u8>) -> Seq<char>;

/// Calls `Engine::encode` of the `base64` crate on its `STANDARD` engine.
/// Claimed: the text depends on the bytes alone. The call panics when the
/// length of the text does not fit in `usize`, so that is required.
#[verifier::external_body]
fn base64_encode(bytes: &Vec<u8>) -> (text: String)
    requires
        base64_len(bytes@.len()) <= usize::MAX,
    ensures
        text@ == base64_standard(bytes@),
{
    base64::engine::general_purpose::STANDARD.encode(bytes)
}

/// The password as the account-creation call site encodes it: the bytes of
/// [`encode_password_for_modify`], written as Base64 text. The directory
/// takes a password only as those raw bytes in a modify operation; this
/// form is kept apart for the callers that send it as text.
///
/// The text must fit in memory; [`lemma_password_bytes_len`] bounds the
/// bytes by the length of the password.
pub fn encode_password_for_add(password: &str) -> (text: String)
    requires
        base64_len(password_bytes(password@).len()) <= usize::MAX,
    ensures
        text@ == base64_standard(password_bytes(password@)),
{
    let bytes = encode_password_for_modify(password);
    base64_encode(&bytes)
}

/// Appends the decimal digits of `n`.
fn push_decimal(out: &mut Vec<u8>, n: u32)
    ensures
        final(out)@ == old(out)@ + decimal(n as nat),
    decreases n,
{
    if n >= 10 {
        push_decimal(out, n / 10);
    }
    out.push(48 + (n % 10) as u8);
}

/// The decimal digits of `n` as ASCII bytes, without leading zeros.
pub fn encode_decimal(n: u32) -> (digits: Vec<u8>)
    ensures
        digits@ == decimal(n as nat),
{
    let mut digits: Vec<u8> = Vec::new();
    push_decimal(&mut digits, n);
    digits
}

} // verus!
