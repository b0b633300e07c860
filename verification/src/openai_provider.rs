//! The OpenAI Responses provider: its errors, and how a Responses reply is
//! checked and its one candidate text found.
use vstd::prelude::*;

use crate::text::{concat2, owned, same_text};

verus! {

pub const OPENAI_RESPONSES_URL: &'static str = "https://api.openai.com/v1/responses";

pub const OPENAI_MODEL: &'static str = "gpt-5.5";

pub const OPENAI_TIMEOUT_MS: u64 = 15_000;

/// The name of the structured-output format the request asks for.
pub const CANDIDATE_FORMAT_NAME: &'static str = "morrow_provider_candidate";

/// The Responses request body: one user message holding the evidence as
/// input text, answered in the strict candidate JSON format. The candidate
/// schema itself is attached where the body is serialized.
#[derive(Debug)]
pub struct OpenAiRequestBody {
    pub model: String,
    pub role: String,
    pub content_type: String,
    pub text: String,
    pub format_type: String,
    pub format_name: String,
    pub strict: bool,
}

/// The request body for the evidence text.
pub fn openai_request_body(evidence_text: String) -> (r: OpenAiRequestBody)
    ensures
        r.model@ == OPENAI_MODEL@,
        r.role@ == "user"@,
        r.content_type@ == "input_text"@,
        r.text@ == evidence_text@,
        r.format_type@ == "json_schema"@,
        r.format_name@ == CANDIDATE_FORMAT_NAME@,
        r.strict,
{
    OpenAiRequestBody {
        model: owned(OPENAI_MODEL),
        role: owned("user"),
        content_type: owned("input_text"),
        text: evidence_text,
        format_type: owned("json_schema"),
        format_name: owned(CANDIDATE_FORMAT_NAME),
        strict: true,
    }
}

#[derive(Debug, Clone, Copy, PartialEq, Eq)]
pub enum OpenAiProviderError {
    EvidenceTooLarge,
    HttpStatus { status_code: u16 },
    Timeout,
    NetworkUnavailable,
    InvalidResponse { reason: &'static str },
}

/// The message each provider error displays.
pub open spec fn openai_error_text(e: OpenAiProviderError) -> Seq<char> {
    match e {
        OpenAiProviderError::EvidenceTooLarge => "provider evidence is too large"@,
        OpenAiProviderError::HttpStatus { status_code } =>
            "provider response has unsupported status "@ + crate::text::decimal(status_code as nat),
        OpenAiProviderError::Timeout => "provider request timed out"@,
        OpenAiProviderError::NetworkUnavailable => "provider network unavailable"@,
        OpenAiProviderError::InvalidResponse { reason } => "provider response rejected: "@
            + reason@,
    }
}

impl OpenAiProviderError {
    /// The message the error displays.
    pub fn to_text(&self) -> (r: String)
        ensures
            r@ == openai_error_text(*self),
    {
        match self {
            OpenAiProviderError::EvidenceTooLarge => owned("provider evidence is too large"),
            OpenAiProviderError::HttpStatus { status_code } => {
                let mut r = owned("provider response has unsupported status ");
                crate::text::push_decimal(&mut r, *status_code as u64);
                r
            },
            OpenAiProviderError::Timeout => owned("provider request timed out"),
            OpenAiProviderError::NetworkUnavailable => owned("provider network unavailable"),
            OpenAiProviderError::InvalidResponse { reason } => concat2(
                "provider response rejected: ",
                reason,
            ),
        }
    }
}

pub fn invalid_response(reason: &'static str) -> (r: OpenAiProviderError)
    ensures
        r == (OpenAiProviderError::InvalidResponse { reason }),
{
    OpenAiProviderError::InvalidResponse { reason }
}

/// The error of a request that did not get a reply: a time-out, or the
/// network.
pub fn transport_failure(timed_out: bool) -> (r: OpenAiProviderError)
    ensures
        r == (if timed_out {
            OpenAiProviderError::Timeout
        } else {
            OpenAiProviderError::NetworkUnavailable
        }),
{
    if timed_out {
        OpenAiProviderError::Timeout
    } else {
        OpenAiProviderError::NetworkUnavailable
    }
}

/// One content part of a reply output.
#[derive(Debug)]
pub struct ResponseContent {
    pub content_type: String,
    pub text: Option<String>,
}

/// One output of a reply.
#[derive(Debug)]
pub struct ResponseOutput {
    pub item_type: String,
    pub role: Option<String>,
    pub status: Option<String>,
    pub content: Vec<ResponseContent>,
}

/// A Responses reply, as far as the provider reads it.
#[derive(Debug)]
pub struct ResponsesEnvelope {
    pub status: String,
    /// Whether the reply carries non-null incomplete details.
    pub incomplete_details_present: bool,
    pub output: Vec<ResponseOutput>,
}

pub open spec fn opt_text(o: Option<String>) -> Option<Seq<char>> {
    match o {
        Some(s) => Some(s@),
        None => None,
    }
}

/// The candidate after one content part: a refusal fails, a second
/// `output_text` fails, an `output_text` sets the candidate (to its text,
/// which may be absent), and anything else leaves it.
pub open spec fn content_step(candidate: Option<Seq<char>>, c: ResponseContent) -> Result<
    Option<Seq<char>>,
    Seq<char>,
> {
    if c.content_type@ == "refusal"@ {
        Err("assistant refused"@)
    } else if c.content_type@ == "output_text"@ {
        if candidate is Some {
            Err("multiple output_text candidates"@)
        } else {
            Ok(opt_text(c.text))
        }
    } else {
        Ok(candidate)
    }
}

/// The candidate after the content parts, in order.
pub open spec fn contents_fold(candidate: Option<Seq<char>>, cs: Seq<ResponseContent>) -> Result<
    Option<Seq<char>>,
    Seq<char>,
>
    decreases cs.len(),
{
    if cs.len() == 0 {
        Ok(candidate)
    } else {
        match content_step(candidate, cs[0]) {
            Err(e) => Err(e),
            Ok(next) => contents_fold(next, cs.drop_first()),
        }
    }
}

/// An output is an assistant message.
pub open spec fn is_assistant_message(o: ResponseOutput) -> bool {
    o.item_type@ == "message"@ && opt_text(o.role) == Some("assistant"@)
}

/// The candidate after one output: other outputs are skipped; an
/// assistant message must be completed, and its parts are read.
pub open spec fn output_step(candidate: Option<Seq<char>>, o: ResponseOutput) -> Result<
    Option<Seq<char>>,
    Seq<char>,
> {
    if !is_assistant_message(o) {
        Ok(candidate)
    } else if opt_text(o.status) != Some("completed"@) {
        Err("assistant message was not completed"@)
    } else {
        contents_fold(candidate, o.content@)
    }
}

/// The candidate after the outputs, in order.
pub open spec fn outputs_fold(candidate: Option<Seq<char>>, os: Seq<ResponseOutput>) -> Result<
    Option<Seq<char>>,
    Seq<char>,
>
    decreases os.len(),
{
    if os.len() == 0 {
        Ok(candidate)
    } else {
        match output_step(candidate, os[0]) {
            Err(e) => Err(e),
            Ok(next) => outputs_fold(next, os.drop_first()),
        }
    }
}

/// The one candidate text of a reply, or why there is none.
pub open spec fn reply_text(os: Seq<ResponseOutput>) -> Result<Seq<char>, Seq<char>> {
    match outputs_fold(None, os) {
        Err(e) => Err(e),
        Ok(None) => Err("missing output_text"@),
        Ok(Some(t)) => Ok(t),
    }
}

/// `r` is the error `reason` rejects the reply for.
pub open spec fn rejects_for(r: OpenAiProviderError, reason: Seq<char>) -> bool {
    r matches OpenAiProviderError::InvalidResponse { reason: m } && m@ == reason
}

fn clone_opt(o: &Option<String>) -> (r: Option<String>)
    ensures
        opt_text(r) == opt_text(*o),
{
    match o {
        Some(s) => Some(s.clone()),
        None => None,
    }
}

fn is_text(o: &Option<String>, text: &str) -> (r: bool)
    ensures
        r == (opt_text(*o) == Some(text@)),
{
    match o {
        Some(s) => same_text(s.as_str(), text),
        None => false,
    }
}

fn read_contents(candidate: Option<String>, cs: &Vec<ResponseContent>) -> (r: Result<
    Option<String>,
    OpenAiProviderError,
>)
    ensures
        contents_fold(opt_text(candidate), cs@) matches Ok(c) ==> (r matches Ok(x) && opt_text(x)
            == c),
        contents_fold(opt_text(candidate), cs@) matches Err(e) ==> (r matches Err(x)
            && rejects_for(x, e)),
{
    let mut cand = candidate;
    let mut i: usize = 0;
    assert(cs@.skip(0) =~= cs@);
    while i < cs.len()
        invariant
            i <= cs@.len(),
            contents_fold(opt_text(candidate), cs@) == contents_fold(opt_text(cand), cs@.skip(
                i as int,
            )),
        decreases cs@.len() - i,
    {
        assert(cs@.skip(i as int)[0] == cs@[i as int]);
        assert(cs@.skip(i as int).drop_first() =~= cs@.skip(i + 1));
        let c = &cs[i];
        if same_text(c.content_type.as_str(), "refusal") {
            return Err(invalid_response("assistant refused"));
        }
        if same_text(c.content_type.as_str(), "output_text") {
            proof {
                reveal_strlit("refusal");
                reveal_strlit("output_text");
            }
            if cand.is_some() {
                return Err(invalid_response("multiple output_text candidates"));
            }
            cand = clone_opt(&c.text);
        }
        i = i + 1;
    }
    Ok(cand)
}

/// Finds the one candidate text of a reply: the text of its single
/// `output_text` part among completed assistant messages.
pub fn output_text(envelope: &ResponsesEnvelope) -> (r: Result<String, OpenAiProviderError>)
    ensures
        reply_outcome(envelope.output@, r),
{
    let os = &envelope.output;
    let mut cand: Option<String> = None;
    let mut i: usize = 0;
    assert(os@.skip(0) =~= os@);
    while i < os.len()
        invariant
            i <= os@.len(),
            os@ == envelope.output@,
            outputs_fold(None, os@) == outputs_fold(opt_text(cand), os@.skip(i as int)),
        decreases os@.len() - i,
    {
        assert(os@.skip(i as int)[0] == os@[i as int]);
        assert(os@.skip(i as int).drop_first() =~= os@.skip(i + 1));
        let o = &os[i];
        if same_text(o.item_type.as_str(), "message") && is_text(&o.role, "assistant") {
            assert(is_assistant_message(os@[i as int]));
            if !is_text(&o.status, "completed") {
                return Err(invalid_response("assistant message was not completed"));
            }
            cand = match read_contents(cand, &o.content) {
                Ok(c) => c,
                Err(e) => {
                    return Err(e);
                },
            };
        }
        i = i + 1;
    }
    match cand {
        Some(t) => Ok(t),
        None => Err(invalid_response("missing output_text")),
    }
}

/// What a 2xx reply gives: a reply that is not completed, or one with
/// incomplete details, is rejected; else [`reply_text`] decides.
pub open spec fn envelope_outcome(
    e: ResponsesEnvelope,
    r: Result<String, OpenAiProviderError>,
) -> bool {
    &&& e.status@ != "completed"@ ==> (r matches Err(x) && rejects_for(
        x,
        "response was not completed"@,
    ))
    &&& (e.status@ == "completed"@ && e.incomplete_details_present) ==> (r matches Err(x)
        && rejects_for(x, "response included incomplete details"@))
    &&& (e.status@ == "completed"@ && !e.incomplete_details_present) ==> reply_outcome(
        e.output@,
        r,
    )
}

/// `r` is what [`reply_text`] gives for the outputs.
pub open spec fn reply_outcome(os: Seq<ResponseOutput>, r: Result<String, OpenAiProviderError>) -> bool {
    match reply_text(os) {
        Ok(t) => r matches Ok(x) && x@ == t,
        Err(m) => r matches Err(x) && rejects_for(x, m),
    }
}

/// The candidate text of an HTTP reply: a status outside 200 to 299 is
/// refused with that status; a body that is no Responses reply, a reply
/// that is not completed, or one with incomplete details is rejected;
/// else [`output_text`] decides.
pub fn response_text(status_code: u16, envelope: Option<ResponsesEnvelope>) -> (r: Result<
    String,
    OpenAiProviderError,
>)
    ensures
        !(200 <= status_code <= 299) ==> r == Err::<String, OpenAiProviderError>(
            OpenAiProviderError::HttpStatus { status_code },
        ),
        200 <= status_code <= 299 && envelope is None ==> (r matches Err(x) && rejects_for(
            x,
            "invalid response envelope"@,
        )),
        (200 <= status_code <= 299 && envelope is Some) ==> envelope_outcome(envelope->0, r),
{
    if status_code < 200 || status_code > 299 {
        return Err(OpenAiProviderError::HttpStatus { status_code });
    }
    let envelope = match envelope {
        Some(e) => e,
        None => {
            return Err(invalid_response("invalid response envelope"));
        },
    };
    if !same_text(envelope.status.as_str(), "completed") {
        return Err(invalid_response("response was not completed"));
    }
    if envelope.incomplete_details_present {
        return Err(invalid_response("response included incomplete details"));
    }
    output_text(&envelope)
}

/// The request the provider posts: the Responses endpoint, its time
/// limit, the JSON body and the bearer token. It has no `Debug`, so the
/// token is never printed.
pub struct OpenAiHttpRequest {
    pub url: String,
    pub timeout_ms: u64,
    pub body: String,
    token: String,
}

impl OpenAiHttpRequest {
    pub closed spec fn spec_token(&self) -> Seq<char> {
        self.token@
    }

    pub closed spec fn spec_url(&self) -> Seq<char> {
        self.url@
    }

    pub closed spec fn spec_timeout_ms(&self) -> u64 {
        self.timeout_ms
    }

    pub closed spec fn spec_body(&self) -> Seq<char> {
        self.body@
    }

    pub fn new(token: String, body: String) -> (r: Self)
        ensures
            r.spec_url() == OPENAI_RESPONSES_URL@,
            r.spec_timeout_ms() == OPENAI_TIMEOUT_MS,
            r.spec_body() == body@,
            r.spec_token() == token@,
    {
        OpenAiHttpRequest {
            url: owned(OPENAI_RESPONSES_URL),
            timeout_ms: OPENAI_TIMEOUT_MS,
            body,
            token,
        }
    }

    pub fn token(&self) -> (r: &str)
        ensures
            r@ == self.spec_token(),
    {
        self.token.as_str()
    }
}

/// The provider: the token it posts with, and how it posts.
pub struct OpenAiProvider<T> {
    token: String,
    transport: T,
}

impl<T> OpenAiProvider<T> {
    pub closed spec fn spec_token(&self) -> Seq<char> {
        self.token@
    }

    pub closed spec fn spec_transport(&self) -> T {
        self.transport
    }

    pub fn new(token: String, transport: T) -> (r: Self)
        ensures
            r.spec_token() == token@,
            r.spec_transport() == transport,
    {
        OpenAiProvider { token, transport }
    }

    /// The request for a body, with the provider's token.
    pub fn request(&self, body: String) -> (r: OpenAiHttpRequest)
        ensures
            r.spec_url() == OPENAI_RESPONSES_URL@,
            r.spec_timeout_ms() == OPENAI_TIMEOUT_MS,
            r.spec_body() == body@,
            r.spec_token() == self.spec_token(),
    {
        OpenAiHttpRequest::new(self.token.clone(), body)
    }
}

} // verus!
