//! Replies over HTTP: the status of a reply and the JSON value in its body.

use vstd::prelude::*;
use vstd::utf8::*;
use crate::json::json_of_bytes;
use crate::json::obj;
use crate::json::Json;
use crate::json::JsonTree;
use crate::text::begins_with;
use crate::text::decimal;
use crate::text::decimal_text;
use crate::text::opt_text;

verus! {

/// Whether a status stands for success.
pub open spec fn success(status: u16) -> bool {
    200 <= status < 300
}

/// What came of a request.
#[derive(Debug, Clone, PartialEq, Eq)]
pub enum Exchange {
    /// The request was answered. A body that could not be read to its end is absent.
    Reply { status: u16, body: Option<Vec<u8>> },
    /// The request did not get through.
    Unreachable { error: String },
}

/// The bytes of a body, or none where it could not be read.
pub open spec fn bytes_or_none(body: Option<Vec<u8>>) -> Seq<u8> {
    match body {
        Some(bytes) => bytes@,
        None => Seq::empty(),
    }
}

/// What `String::from_utf8_lossy` makes of some bytes.
pub uninterp spec fn lossy_text(bytes: Seq<u8>) -> Seq<char>;

/// How `reqwest::StatusCode` writes a status: the code and its reason.
pub uninterp spec fn status_line(status: u16) -> Option<Seq<char>>;

/// `String::from_utf8_lossy`: the text that the bytes write in UTF-8; where they write none, its
/// result is only named.
#[verifier::external_body]
fn lossy(bytes: &[u8]) -> (r: String)
    ensures
        r@ == lossy_text(bytes@),
        valid_utf8(bytes@) ==> r@ == decode_utf8(bytes@),
{
    String::from_utf8_lossy(bytes).into_owned()
}

/// `reqwest::StatusCode`'s text for a code: none outside 100 to 999, else the code in decimal, a
/// space and a reason that is only named.
#[verifier::external_body]
fn status_code_text(status: u16) -> (r: Option<String>)
    ensures
        opt_text(r) == status_line(status),
        r is Some <==> 100 <= status <= 999,
        r matches Some(t) ==> begins_with(t@, decimal(status as nat) + seq![' ']),
{
    reqwest::StatusCode::from_u16(status).ok().map(|code| code.to_string())
}

/// How a status is written in a message.
pub open spec fn status_words(status: u16) -> Seq<char> {
    match status_line(status) {
        Some(line) => line,
        None => decimal(status as nat),
    }
}

/// The value in the body of a reply: the JSON that it holds, or its text under `raw`.
pub open spec fn body_tree(bytes: Seq<u8>) -> JsonTree {
    match json_of_bytes(bytes) {
        Ok(tree) => tree,
        Err(_) => obj().put("raw"@, JsonTree::Text(lossy_text(bytes))),
    }
}

/// Whether a status stands for success.
pub fn is_success(status: u16) -> (r: bool)
    ensures
        r == success(status),
{
    200 <= status && status < 300
}

/// How a status is written in a message.
pub fn status_text(status: u16) -> (r: String)
    ensures
        r@ == status_words(status),
        begins_with(r@, decimal(status as nat)),
{
    match status_code_text(status) {
        Some(text) => {
            proof {
                let d = decimal(status as nat);
                assert((d + seq![' ']).subrange(0, d.len() as int) =~= d);
                assert(text@.subrange(0, d.len() as int) =~= text@.subrange(
                    0,
                    (d + seq![' ']).len() as int,
                ).subrange(0, d.len() as int));
            }
            text
        },
        None => {
            proof {
                let d = decimal(status as nat);
                assert(d.subrange(0, d.len() as int) =~= d);
            }
            decimal_text(status as u64)
        },
    }
}

/// The value in the body of a reply. A body that is text but not JSON comes back whole.
pub fn body_value(bytes: &[u8]) -> (r: Json)
    ensures
        r.tree() == body_tree(bytes@),
        valid_utf8(bytes@) && json_of_bytes(bytes@) is Err ==> r.tree() == obj().put(
            "raw"@,
            JsonTree::Text(decode_utf8(bytes@)),
        ),
{
    match Json::from_bytes(bytes) {
        Ok(value) => value,
        Err(_) => {
            let text: String = lossy(bytes);
            Json::object().with("raw", Json::text(text.as_str()))
        },
    }
}

/// The value in the body of a reply, where a body that could not be read counts as empty.
pub fn body_or_empty(body: &Option<Vec<u8>>) -> (r: Json)
    ensures
        r.tree() == body_tree(bytes_or_none(*body)),
{
    match body {
        Some(bytes) => body_value(bytes.as_slice()),
        None => {
            let empty: Vec<u8> = Vec::new();
            body_value(empty.as_slice())
        },
    }
}

/// Success is the two hundreds.
pub proof fn law_success_is_the_two_hundreds(status: u16)
    ensures
        success(status) <==> status / 100 == 2,
{
}

/// A body that is JSON is its value; any other is kept as text under `raw`, and under nothing else.
pub proof fn law_no_body_is_lost(bytes: Seq<u8>)
    ensures
        json_of_bytes(bytes) matches Ok(tree) ==> body_tree(bytes) == tree,
        json_of_bytes(bytes) is Err ==> body_tree(bytes) is Object && forall|name: Seq<char>|
            #[trigger] body_tree(bytes).field(name) == (if name == "raw"@ {
                Some(JsonTree::Text(lossy_text(bytes)))
            } else {
                None
            }),
{
}

/// A status is told by its line where there is one, and by its number where there is none.
pub proof fn law_statuses_are_told_by_their_line(status: u16)
    ensures
        status_line(status) matches Some(line) ==> status_words(status) == line,
        status_line(status) is None ==> status_words(status) == decimal(status as nat),
{
}

} // verus!
