use vstd::prelude::*;

use crate::error::{text_result, Failure, OverlayError};
use crate::text::{trim, trimmed};

verus! {

/// What `serde_json` finds at the JSON pointer `pointer` in the text `body`: its error
/// message where `body` is not JSON, and otherwise the string at the pointer, or `None`
/// where the pointer reaches nothing or something that is not a string.
pub uninterp spec fn json_lookup(body: Seq<char>, pointer: Seq<char>) -> Result<
    Option<Seq<char>>,
    Seq<char>,
>;

/// The JSON string literal that `serde_json` writes for `s`, quotes and escapes included.
pub uninterp spec fn json_quoted(s: Seq<char>) -> Seq<char>;

/// Relies on `serde_json::from_str` into a `Value` (its error shown by `Display`), then
/// `Value::pointer` and `Value::as_str`.
#[verifier::external_body]
fn string_at(body: &str, pointer: &str) -> (r: Result<Option<String>, String>)
    ensures
        match (r, json_lookup(body@, pointer@)) {
            (Ok(o), Ok(found)) => o.deep_view() == found,
            (Err(e), Err(message)) => e@ == message,
            _ => false,
        },
{
    match serde_json::from_str::<serde_json::Value>(body) {
        Ok(v) => Ok(v.pointer(pointer).and_then(|x| x.as_str()).map(String::from)),
        Err(e) => Err(e.to_string()),
    }
}

/// Relies on `serde_json::to_string`, which does not fail on a string.
#[verifier::external_body]
fn quote(s: &str) -> (r: String)
    ensures
        r@ == json_quoted(s@),
{
    serde_json::to_string(s).unwrap_or_default()
}

/// Where a chat-completions reply holds its answer.
pub open spec fn openai_pointer() -> Seq<char> {
    "/choices/0/message/content"@
}

/// Where a generative-AI reply holds its answer.
pub open spec fn gemini_pointer() -> Seq<char> {
    "/candidates/0/content/parts/0/text"@
}

/// Where the other shape of generative-AI reply holds its answer.
pub open spec fn gemini_fallback_pointer() -> Seq<char> {
    "/response/text"@
}

/// The answer in a string that a reply holds: the string trimmed, unless that is blank.
pub open spec fn answer_from(found: Seq<char>) -> Result<Seq<char>, Failure> {
    if trim(found).len() == 0 {
        Err(Failure::EmptyAnswer)
    } else {
        Ok(trim(found))
    }
}

/// The answer in a chat-completions reply.
pub open spec fn openai_answer(body: Seq<char>) -> Result<Seq<char>, Failure> {
    match json_lookup(body, openai_pointer()) {
        Err(message) => Err(Failure::MalformedResponse(message)),
        Ok(None) => Err(Failure::UnexpectedShape(body)),
        Ok(Some(found)) => answer_from(found),
    }
}

/// The answer in a generative-AI reply, read from its usual place or else from the other
/// shape's.
pub open spec fn gemini_answer(body: Seq<char>) -> Result<Seq<char>, Failure> {
    match json_lookup(body, gemini_pointer()) {
        Err(message) => Err(Failure::MalformedResponse(message)),
        Ok(Some(found)) => answer_from(found),
        Ok(None) => match json_lookup(body, gemini_fallback_pointer()) {
            Ok(Some(found)) => answer_from(found),
            _ => Err(Failure::UnexpectedShape(body)),
        },
    }
}

fn answer_of(found: String) -> (r: Result<String, OverlayError>)
    ensures
        text_result(r) == answer_from(found@),
{
    let t = trimmed(found.as_str());
    if t.as_str().is_empty() {
        Err(OverlayError::EmptyAnswer)
    } else {
        Ok(t)
    }
}

/// Reads the answer out of the body of a chat-completions reply.
pub fn read_openai_reply(body: &str) -> (r: Result<String, OverlayError>)
    ensures
        text_result(r) == openai_answer(body@),
{
    match string_at(body, "/choices/0/message/content") {
        Err(message) => Err(OverlayError::MalformedResponse(message)),
        Ok(None) => Err(OverlayError::UnexpectedShape(body.to_string())),
        Ok(Some(found)) => answer_of(found),
    }
}

/// Reads the answer out of the body of a generative-AI reply.
pub fn read_gemini_reply(body: &str) -> (r: Result<String, OverlayError>)
    ensures
        text_result(r) == gemini_answer(body@),
{
    match string_at(body, "/candidates/0/content/parts/0/text") {
        Err(message) => Err(OverlayError::MalformedResponse(message)),
        Ok(Some(found)) => answer_of(found),
        Ok(None) => match string_at(body, "/response/text") {
            Ok(Some(found)) => answer_of(found),
            _ => Err(OverlayError::UnexpectedShape(body.to_string())),
        },
    }
}

/// The body of a chat-completions request: the model, the instruction as the system
/// message and the selection as the user message.
pub open spec fn openai_body_text(model: Seq<char>, prompt: Seq<char>, selection: Seq<char>) -> Seq<
    char,
> {
    "{\"model\":"@ + json_quoted(model) + ",\"messages\":[{\"role\":\"system\",\"content\":"@
        + json_quoted(prompt) + "},{\"role\":\"user\",\"content\":"@ + json_quoted(selection)
        + "}]}"@
}

/// The body of a generative-AI request: the selection as the content, the instruction as
/// the system instruction, and the search tool where `search` holds.
pub open spec fn gemini_body_text(prompt: Seq<char>, selection: Seq<char>, search: bool) -> Seq<
    char,
> {
    "{\"contents\":[{\"parts\":[{\"text\":"@ + json_quoted(selection)
        + "}]}],\"systemInstruction\":{\"parts\":[{\"text\":"@ + json_quoted(prompt) + "}]}"@
        + (if search {
        ",\"tools\":[{\"google_search\":{}}]"@
    } else {
        Seq::empty()
    }) + "}"@
}

/// Builds the JSON body of a chat-completions request.
pub fn openai_body(model: &str, prompt: &str, selection: &str) -> (r: String)
    ensures
        r@ == openai_body_text(model@, prompt@, selection@),
{
    let mut out = "{\"model\":".to_string();
    out.append(quote(model).as_str());
    out.append(",\"messages\":[{\"role\":\"system\",\"content\":");
    out.append(quote(prompt).as_str());
    out.append("},{\"role\":\"user\",\"content\":");
    out.append(quote(selection).as_str());
    out.append("}]}");
    out
}

/// Builds the JSON body of a generative-AI request.
pub fn gemini_body(prompt: &str, selection: &str, search: bool) -> (r: String)
    ensures
        r@ == gemini_body_text(prompt@, selection@, search),
{
    let mut out = "{\"contents\":[{\"parts\":[{\"text\":".to_string();
    out.append(quote(selection).as_str());
    out.append("}]}],\"systemInstruction\":{\"parts\":[{\"text\":");
    out.append(quote(prompt).as_str());
    out.append("}]}");
    let ghost before = out@;
    if search {
        out.append(",\"tools\":[{\"google_search\":{}}]");
    }
    assert(out@ == before + (if search {
        ",\"tools\":[{\"google_search\":{}}]"@
    } else {
        Seq::empty()
    })) by {
        if !search {
            assert(out@ =~= before + Seq::<char>::empty());
        }
    }
    out.append("}");
    out
}

} // verus!
