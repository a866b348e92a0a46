//! Text as the standard library reads and folds it.
use vstd::prelude::*;

verus! {

/// What `String::from_utf8_lossy` makes of `bytes`.
pub uninterp spec fn utf8_lossy(bytes: Seq<u8>) -> Seq<char>;

/// What `str::to_lowercase` makes of `text`.
pub uninterp spec fn lowercase(text: Seq<char>) -> Seq<char>;

/// `c` with `'A'` to `'Z'` mapped to `'a'` to `'z'`.
pub open spec fn ascii_lower_char(c: char) -> char {
    if 'A' <= c && c <= 'Z' {
        (c as u32 + 32) as char
    } else {
        c
    }
}

/// `text` with `'A'` to `'Z'` mapped to `'a'` to `'z'`.
pub open spec fn ascii_lower(text: Seq<char>) -> Seq<char> {
    Seq::new(text.len(), |i: int| ascii_lower_char(text[i]))
}

/// Every byte stands for an ASCII character.
pub open spec fn is_ascii_bytes(bytes: Seq<u8>) -> bool {
    forall|i: int| 0 <= i < bytes.len() ==> bytes[i] < 128
}

/// The ASCII characters that `bytes` stand for.
pub open spec fn ascii_chars(bytes: Seq<u8>) -> Seq<char> {
    Seq::new(bytes.len(), |i: int| bytes[i] as char)
}

/// Calls `String::from_utf8_lossy`, whose result depends on the bytes alone:
/// valid UTF-8 is decoded as it stands. What replaces an invalid sequence is left
/// to the name `utf8_lossy`.
#[verifier::external_body]
pub(crate) fn from_utf8_lossy(bytes: &[u8]) -> (text: String)
    ensures
        text@ == utf8_lossy(bytes@),
        vstd::utf8::valid_utf8(bytes@) ==> text@ == vstd::utf8::decode_utf8(bytes@),
{
    String::from_utf8_lossy(bytes).into_owned()
}

/// Calls `str::to_lowercase`, whose result depends on the text alone: of a text
/// that is all ASCII it maps the letters `'A'` to `'Z'` and nothing else. What it
/// makes of other letters is left to the name `lowercase`.
#[verifier::external_body]
pub(crate) fn to_lowercase(text: &str) -> (folded: String)
    ensures
        folded@ == lowercase(text@),
        vstd::utf8::is_ascii_chars(text@) ==> folded@ == ascii_lower(text@),
{
    text.to_lowercase()
}

/// Bytes that stand for ASCII characters are valid UTF-8 of those characters.
pub(crate) proof fn lemma_ascii_decodes(bytes: Seq<u8>)
    requires
        is_ascii_bytes(bytes),
    ensures
        vstd::utf8::is_ascii_chars(ascii_chars(bytes)),
        vstd::utf8::valid_utf8(bytes),
        vstd::utf8::decode_utf8(bytes) == ascii_chars(bytes),
{
    let chars = ascii_chars(bytes);
    assert(vstd::utf8::is_ascii_chars(chars));
    vstd::utf8::is_ascii_chars_encode_utf8(chars);
    assert(vstd::utf8::encode_utf8(chars) =~= bytes);
    vstd::utf8::encode_utf8_valid_utf8(chars);
    vstd::utf8::encode_utf8_decode_utf8(chars);
}

/// Folding ASCII text keeps its length and moves each capital letter, and nothing else,
/// by the distance between the two alphabets.
pub proof fn law_ascii_folding_moves_capitals_only(text: Seq<char>, i: int)
    requires
        0 <= i < text.len(),
    ensures
        ascii_lower(text).len() == text.len(),
        65 <= text[i] as u32 <= 90 ==> ascii_lower(text)[i] as u32 == text[i] as u32 + 32,
        !(65 <= text[i] as u32 <= 90) ==> ascii_lower(text)[i] == text[i],
{
}

/// ASCII characters are the bytes that stand for them, one for one.
pub proof fn law_ascii_bytes_are_characters(bytes: Seq<u8>)
    ensures
        is_ascii_bytes(bytes) <==> forall|i: int|
            0 <= i < bytes.len() ==> (#[trigger] bytes[i]) as int <= 127,
        ascii_chars(bytes).len() == bytes.len(),
        forall|i: int|
            0 <= i < bytes.len() ==> (#[trigger] ascii_chars(bytes)[i]) as u32 == bytes[i] as u32,
{
}

} // verus!
