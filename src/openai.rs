//! The transcription and normalization clients: what is sent, and how a
//! reply is read. The transport itself lies outside.

use vstd::prelude::*;
use vstd::string::StringExecFns;

verus! {

/// Why a remote call failed.
#[derive(Debug)]
pub enum ClientError {
    /// The request did not complete (DNS, timeout, connection reset).
    Transport(String),
    /// The service answered with a non-success status; the body, verbatim.
    Status(String),
    /// A success reply whose body could not be read.
    BadBody(String),
}

/// One role-tagged message of a normalization request.
#[derive(Debug)]
pub struct Message {
    pub role: String,
    pub content: String,
}

/// A normalization request: the model and the message list.
#[derive(Debug)]
pub struct ResponsesRequest {
    pub model: String,
    pub input: Vec<Message>,
}

/// The message part of a chat-style choice.
#[derive(Debug)]
pub struct MessageContent {
    pub content: Option<String>,
}

/// One chat-style choice.
#[derive(Debug)]
pub struct Choice {
    pub message: Option<MessageContent>,
}

/// A success reply of the normalization service, in either of its shapes.
#[derive(Debug)]
pub struct ResponsesOutput {
    pub output_text: Option<String>,
    pub choices: Option<Vec<Choice>>,
}

/// What `str::trim` returns for a string.
pub uninterp spec fn trim_of(s: Seq<char>) -> Seq<char>;

/// Relies on `str::trim`: the string without leading and trailing
/// whitespace, a function of the characters alone.
#[verifier::external_body]
fn trim(s: &str) -> (r: String)
    ensures
        r@ == trim_of(s@),
{
    s.trim().to_string()
}

/// The fixed instruction sent ahead of every transcript.
pub open spec fn system_instruction() -> Seq<char> {
    "You normalize raw speech transcripts for typing. Apply natural punctuation and capitalization. Convert spoken punctuation words (comma, period, question mark, exclamation point, new line) into symbols. Keep it concise and well-formatted for messaging, shell commands, or AI prompts. Return ONLY the final text, no quotes or explanations."@
}

/// `r` asks `model` to normalize `transcript`: the fixed instruction as the
/// system message, then the transcript as the user message.
pub open spec fn is_request_for(r: ResponsesRequest, transcript: Seq<char>, model: String) -> bool {
    &&& r.model == model
    &&& r.input@.len() == 2
    &&& r.input@[0].role@ == "system"@
    &&& r.input@[0].content@ == system_instruction()
    &&& r.input@[1].role@ == "user"@
    &&& r.input@[1].content@ == transcript
}

pub open spec fn is_success_status(status: u16) -> bool {
    200 <= status <= 299
}

/// The text a reply yields: its flat output text, else the content of its
/// first choice, trimmed; where neither is there, the transcript trimmed.
pub open spec fn normalized_text(out: ResponsesOutput, transcript: Seq<char>) -> Seq<char> {
    match out.output_text {
        Some(t) => trim_of(t@),
        None => match first_choice_content(out) {
            Some(c) => trim_of(c@),
            None => trim_of(transcript),
        },
    }
}

/// The content of the first choice, where the reply has one with content.
pub open spec fn first_choice_content(out: ResponsesOutput) -> Option<String> {
    match out.choices {
        Some(cs) => if cs@.len() > 0 {
            match cs@[0].message {
                Some(m) => m.content,
                None => None,
            }
        } else {
            None
        },
        None => None,
    }
}

impl ClientError {
    pub open spec fn message_spec(&self) -> Seq<char> {
        match self {
            ClientError::Transport(m) => "request failed: "@ + m@,
            ClientError::Status(b) => "OpenAI API error: "@ + b@,
            ClientError::BadBody(m) => "unreadable response: "@ + m@,
        }
    }

    /// A human-readable description that keeps the upstream text verbatim.
    pub fn message(&self) -> (r: String)
        ensures
            r@ == self.message_spec(),
    {
        match self {
            ClientError::Transport(m) => String::from_str("request failed: ").concat(m.as_str()),
            ClientError::Status(b) => String::from_str("OpenAI API error: ").concat(b.as_str()),
            ClientError::BadBody(m) => String::from_str("unreadable response: ").concat(
                m.as_str(),
            ),
        }
    }
}

/// The body of a reply with a success status; otherwise the status error,
/// which carries the body verbatim.
pub fn check_status(status: u16, body: String) -> (r: Result<String, ClientError>)
    ensures
        is_success_status(status) ==> r == Ok::<String, ClientError>(body),
        !is_success_status(status) ==> r == Err::<String, ClientError>(ClientError::Status(body)),
{
    if 200 <= status && status <= 299 {
        Ok(body)
    } else {
        Err(ClientError::Status(body))
    }
}

/// The request that asks the normalization service to clean up a
/// transcript: the fixed instruction as the system message, then the
/// transcript as the user message.
pub fn normalization_request(transcript: &str, model: &String) -> (r: ResponsesRequest)
    ensures
        is_request_for(r, transcript@, *model),
{
    let system = Message {
        role: String::from_str("system"),
        content: String::from_str(
            "You normalize raw speech transcripts for typing. Apply natural punctuation and capitalization. Convert spoken punctuation words (comma, period, question mark, exclamation point, new line) into symbols. Keep it concise and well-formatted for messaging, shell commands, or AI prompts. Return ONLY the final text, no quotes or explanations.",
        ),
    };
    let user = Message { role: String::from_str("user"), content: String::from_str(transcript) };
    ResponsesRequest { model: model.clone(), input: vec![system, user] }
}

/// The normalized text of a reply: the flat output text, else the first
/// choice's content, both trimmed; where the reply has neither, the
/// transcript itself, trimmed.
pub fn extract_normalized(out: &ResponsesOutput, transcript: &str) -> (r: String)
    ensures
        r@ == normalized_text(*out, transcript@),
{
    if let Some(t) = &out.output_text {
        return trim(t.as_str());
    }
    if let Some(cs) = &out.choices {
        if cs.len() > 0 {
            if let Some(m) = &cs[0].message {
                if let Some(c) = &m.content {
                    return trim(c.as_str());
                }
            }
        }
    }
    trim(transcript)
}

/// A reply with neither a flat output text nor a usable choice yields the
/// transcript, trimmed and otherwise unchanged.
pub proof fn lemma_unreadable_reply_keeps_transcript(out: ResponsesOutput, transcript: Seq<char>)
    requires
        out.output_text is None,
        first_choice_content(out) is None,
    ensures
        normalized_text(out, transcript) == trim_of(transcript),
{
}

} // verus!
