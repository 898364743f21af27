//! Encodings that outside code computes: base64, UTF-8 and JSON.

use vstd::prelude::*;
use vstd::string::*;
use vstd::utf8::{decode_utf8, valid_utf8};
use base64::Engine;

verus! {

/// The base64 text of `bytes`, in the standard alphabet and with padding.
pub uninterp spec fn base64_text(bytes: Seq<u8>) -> Seq<char>;

/// What decoding the base64 `text` gives: the bytes, or the reason why it is not
/// the base64 text of any.
pub uninterp spec fn base64_decoding(text: Seq<char>) -> Result<Seq<u8>, Seq<char>>;

/// The number of base64 symbols that stand for `len` bytes.
pub open spec fn base64_len(len: nat) -> nat {
    4 * ((len + 2) / 3)
}

/// The symbols of the standard base64 alphabet, and the padding symbol.
pub open spec fn base64_symbol(c: char) -> bool {
    ||| 'A' <= c <= 'Z'
    ||| 'a' <= c <= 'z'
    ||| '0' <= c <= '9'
    ||| c == '+'
    ||| c == '/'
    ||| c == '='
}

/// `Engine::encode` of base64's `STANDARD` engine writes every byte sequence as
/// text of the standard alphabet, padded to a multiple of four symbols, and
/// decoding that text gives the same bytes again. It fails where the text would
/// not fit in memory.
#[verifier::external_body]
pub(crate) fn base64_encode(bytes: &[u8]) -> (text: String)
    requires
        base64_len(bytes@.len()) <= isize::MAX,
    ensures
        text@ == base64_text(bytes@),
        text@.len() == base64_len(bytes@.len()),
        forall|i: int| 0 <= i < text@.len() ==> base64_symbol(#[trigger] text@[i]),
        base64_decoding(text@) is Ok,
        base64_decoding(text@)->Ok_0 == bytes@,
{
    base64::engine::general_purpose::STANDARD.encode(bytes)
}

/// `Engine::decode` of base64's `STANDARD` engine gives the bytes that the text
/// stands for, or an error that describes why it stands for none.
#[verifier::external_body]
pub(crate) fn base64_decode(text: &str) -> (decoded: Result<Vec<u8>, String>)
    ensures
        decoded is Ok <==> base64_decoding(text@) is Ok,
        decoded matches Ok(bytes) ==> base64_decoding(text@)->Ok_0 == bytes@,
        decoded matches Err(reason) ==> base64_decoding(text@)->Err_0 == reason@,
{
    match base64::engine::general_purpose::STANDARD.decode(text) {
        Ok(bytes) => Ok(bytes),
        Err(error) => Err(error.to_string()),
    }
}

/// How the error of `String::from_utf8` on `bytes` reads.
pub uninterp spec fn utf8_error_text(bytes: Seq<u8>) -> Seq<char>;

/// `String::from_utf8` gives the text that `bytes` encode where they are valid
/// UTF-8, and an error that tells where they are not.
#[verifier::external_body]
pub(crate) fn utf8_decode(bytes: Vec<u8>) -> (decoded: Result<String, String>)
    ensures
        decoded is Ok <==> valid_utf8(bytes@),
        decoded matches Ok(text) ==> text@ == decode_utf8(bytes@),
        decoded matches Err(reason) ==> reason@ == utf8_error_text(bytes@),
{
    match String::from_utf8(bytes) {
        Ok(text) => Ok(text),
        Err(error) => Err(error.to_string()),
    }
}

/// A member of a JSON object: a string, or an object of strings.
#[derive(Debug)]
pub enum JsonMember {
    Text(String),
    Group(Vec<(String, String)>),
}

/// What a `JsonMember` holds.
pub enum JsonMemberView {
    Text(Seq<char>),
    Group(Seq<(Seq<char>, Seq<char>)>),
}

/// The names and values of `pairs`.
pub open spec fn pair_views(pairs: Seq<(String, String)>) -> Seq<(Seq<char>, Seq<char>)> {
    pairs.map_values(|pair: (String, String)| (pair.0@, pair.1@))
}

impl View for JsonMember {
    type V = JsonMemberView;

    open spec fn view(&self) -> JsonMemberView {
        match self {
            JsonMember::Text(text) => JsonMemberView::Text(text@),
            JsonMember::Group(pairs) => JsonMemberView::Group(pair_views(pairs@)),
        }
    }
}

/// The names and members of `members`.
pub open spec fn member_views(members: Seq<(String, JsonMember)>) -> Seq<
    (Seq<char>, JsonMemberView),
> {
    members.map_values(|member: (String, JsonMember)| (member.0@, member.1@))
}

/// The compact JSON text of the object with the given members, inserted in the
/// given order.
pub uninterp spec fn json_object_text(members: Seq<(Seq<char>, JsonMemberView)>) -> Seq<char>;

/// `Display` of a `serde_json::Value` writes an object as compact JSON: it starts
/// with a brace, and line breaks stand in it as escapes only.
#[verifier::external_body]
pub(crate) fn json_object(members: Vec<(String, JsonMember)>) -> (text: String)
    ensures
        text@ == json_object_text(member_views(members@)),
        text@.len() > 0,
        text@.first() == '{',
        !text@.contains('\n'),
{
    let mut object = serde_json::Map::new();
    for (name, member) in members {
        let value = match member {
            JsonMember::Text(text) => serde_json::Value::from(text),
            JsonMember::Group(pairs) => serde_json::Value::from_iter(pairs),
        };
        object.insert(name, value);
    }
    serde_json::Value::from(object).to_string()
}

/// Base64 takes four symbols for every three bytes, rounded up.
pub proof fn law_four_symbols_for_three_bytes(len: nat)
    ensures
        base64_len(len) % 4 == 0,
        3 * base64_len(len) >= 4 * len,
        3 * base64_len(len) < 4 * len + 12,
{
}

} // verus!
