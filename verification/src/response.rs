use vstd::prelude::*;

use crate::messages;

verus! {

// The wire format of the two collaborators is JSON whose shape this library
// does not model. Parsing and field extraction run through serde_json and
// depend on the body text alone, so each extraction chain's result bears a
// name; the decisions taken on top of the names are verified exactly.

/// What the speech-to-text response body yields: the characters of its
/// top-level `text` field, when the body is one JSON document whose `text`
/// field is a string; nothing otherwise.
pub uninterp spec fn transcript_of(body: Seq<char>) -> Option<Seq<char>>;

/// What the chat response body yields. The outer option is `None` when the
/// body is not one JSON document; the inner option carries the characters of
/// the first choice's message `content` when that path exists and is a
/// string.
pub uninterp spec fn chat_extraction_of(body: Seq<char>) -> Option<Option<Seq<char>>>;

/// Relies on serde_json::from_str::<Value>, Value::get and Value::as_str:
/// parses the body and reads its top-level `text` field. The whole chain
/// depends on the body text alone.
#[verifier::external_body]
fn extract_transcript(body: &str) -> (r: Option<String>)
    ensures
        r is Some <==> transcript_of(body@) is Some,
        (r matches Some(t) ==> transcript_of(body@) == Some(t@)),
{
    match serde_json::from_str::<serde_json::Value>(body) {
        Ok(v) => match v.get("text") {
            Some(t) => match t.as_str() {
                Some(s) => Some(s.to_string()),
                None => None,
            },
            None => None,
        },
        Err(_) => None,
    }
}

/// Relies on serde_json::from_str::<Value>, Value::get and Value::as_str:
/// parses the body (outer option) and reads the first choice's message
/// `content` (inner option). The whole chain depends on the body text alone.
#[verifier::external_body]
fn extract_chat_content(body: &str) -> (r: Option<Option<String>>)
    ensures
        r is Some <==> chat_extraction_of(body@) is Some,
        (r matches Some(c) ==> (match c {
            Some(t) => chat_extraction_of(body@) == Some(Some(t@)),
            None => chat_extraction_of(body@) == Some(None::<Seq<char>>),
        })),
{
    match serde_json::from_str::<serde_json::Value>(body) {
        Ok(v) => {
            let content = v
                .get("choices")
                .and_then(|c| c.get(0))
                .and_then(|f| f.get("message"))
                .and_then(|m| m.get("content"))
                .and_then(|c| c.as_str())
                .map(|s| s.to_string());
            Some(content)
        },
        Err(_) => None,
    }
}

/// The transcript carried by a speech-to-text response body: its top-level
/// `text` field. `None` when the body is not such a document — a missing or
/// non-string field counts as transcription failure, and the pipeline then
/// publishes the fixed transcription-failure reply.
pub fn transcript_of_body(body: &str) -> (r: Option<String>)
    ensures
        r is Some <==> transcript_of(body@) is Some,
        (r matches Some(t) ==> transcript_of(body@) == Some(t@)),
{
    extract_transcript(body)
}

/// The reply a chat response body yields: the generated text; the fixed
/// placeholder when the document parses but carries no text; `None` exactly
/// when the body is not JSON at all, upon which the pipeline publishes the
/// fixed no-response reply.
pub fn chat_reply_of_body(body: &str) -> (r: Option<String>)
    ensures
        r is None <==> chat_extraction_of(body@) is None,
        (chat_extraction_of(body@) matches Some(c) ==> (match c {
            Some(t) => (r matches Some(u) && u@ == t),
            None => (r matches Some(u) && u@ == messages::silence_text()),
        })),
{
    match extract_chat_content(body) {
        Some(c) => match c {
            Some(t) => Some(t),
            None => Some(messages::silence_message()),
        },
        None => None,
    }
}

} // verus!
