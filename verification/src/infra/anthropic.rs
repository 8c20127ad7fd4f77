//! The `InferenceBackend` port over the Anthropic Messages API (API key).
//!
//! What goes into a request, and how an answer is read, is decided here; the
//! HTTP exchange and the JSON encoding sit behind [`MessagesApi`].
//!
//! - `temperature`, `top_p` and `top_k` are not sent (current models refuse them).
//! - How deeply to think is asked with `output_config.effort`, not a token budget.
//! - `max_tokens` covers thinking and answer together, so it is generous.
//! - A thinking block comes first in `content`, so the first block is not the answer.

use vstd::prelude::*;

use crate::domain::automation::{InferenceOutcome, InferenceRequest};
use crate::domain::ports::{CredentialStore, InferenceBackend};
use crate::text::{chars_of, copy_str, str_eq, string_from_range, trim, trim_bounds};

verus! {

/// The one provider this backend serves.
pub const PROVIDER: &'static str = "anthropic";

pub const ENDPOINT: &'static str = "https://api.anthropic.com/v1/messages";

pub const API_VERSION: &'static str = "2023-06-01";

/// Upper bound of the output, thinking included.
pub const MAX_TOKENS: u32 = 16000;

/// How long to wait for an answer; thinking can take minutes.
pub const TIMEOUT_SECONDS: u64 = 300;

/// Most characters of an error body that are kept.
pub const SUMMARY_LIMIT: usize = 500;

/// The body of a Messages API request, before it is encoded: one user
/// message, adaptive thinking, and `output_config.effort` when given.
#[derive(Debug, Clone, PartialEq, Eq)]
pub struct MessagesRequest {
    pub model: String,
    pub max_tokens: u32,
    pub prompt: String,
    pub effort: Option<String>,
}

/// One block of the answer's `content`.
#[derive(Debug, Clone, PartialEq, Eq)]
pub struct ContentBlock {
    /// The block's `type` (`text`, `thinking`, ...).
    pub kind: String,
    pub text: Option<String>,
}

/// The parts of an answer that this backend reads.
#[derive(Debug, Clone, PartialEq, Eq)]
pub struct MessageResponse {
    pub content: Vec<ContentBlock>,
    pub stop_reason: Option<String>,
    /// `stop_details.category`, when it is a text.
    pub refusal_category: Option<String>,
}

/// An HTTP reply, whatever its status.
#[derive(Debug, Clone, PartialEq, Eq)]
pub struct HttpReply {
    pub status: u16,
    /// The status as people read it (`400 Bad Request`).
    pub status_text: String,
    pub body: String,
}

/// The Messages API as seen from here: posting a request, and reading the
/// body of a successful reply.
pub trait MessagesApi {
    fn post(&self, endpoint: &str, api_key: &str, api_version: &str, request: &MessagesRequest) -> Result<
        HttpReply,
        String,
    >;

    fn decode(&self, body: &str) -> Result<MessageResponse, String>;
}

/// The model a request asks for: the rule's own, else the backend's default.
pub open spec fn chosen_model(request: InferenceRequest, default_model: Option<String>) -> Option<Seq<char>> {
    match request.model {
        Some(m) => Some(m@),
        None => match default_model {
            Some(d) => Some(d@),
            None => None,
        },
    }
}

/// The request body made of an inference request, or `None` when no model
/// is named by the rule or by default.
pub fn messages_request(request: &InferenceRequest, default_model: &Option<String>) -> (r: Option<
    MessagesRequest,
>)
    ensures
        r is None <==> chosen_model(*request, *default_model) is None,
        r matches Some(body) ==> {
            &&& Some(body.model@) == chosen_model(*request, *default_model)
            &&& body.max_tokens == MAX_TOKENS
            &&& body.prompt@ == request.prompt@
            &&& body.effort == request.effort
        },
{
    let model = match &request.model {
        Some(m) => m.clone(),
        None => match default_model {
            Some(d) => d.clone(),
            None => return None,
        },
    };
    let effort = match &request.effort {
        Some(e) => Some(e.clone()),
        None => None,
    };
    Some(MessagesRequest { model, max_tokens: MAX_TOKENS, prompt: request.prompt.clone(), effort })
}

/// An error body cut down so that it does not flood a log or a screen:
/// trimmed, and past the limit shortened to the limit and an ellipsis.
pub open spec fn spec_summarize(body: Seq<char>) -> Seq<char> {
    let t = trim(body);
    if t.len() <= SUMMARY_LIMIT {
        t
    } else {
        t.take(SUMMARY_LIMIT as int) + "…"@
    }
}

pub fn summarize(body: &str) -> (s: String)
    ensures
        s@ == spec_summarize(body@),
{
    let v = chars_of(body);
    let (a, b) = trim_bounds(&v, 0, v.len());
    assert(v@.subrange(0, v.len() as int) =~= body@);
    if b - a <= SUMMARY_LIMIT {
        string_from_range(&v, a, b)
    } else {
        let mut s = string_from_range(&v, a, a + SUMMARY_LIMIT);
        s.append("…");
        assert(v@.subrange(a as int, (a + SUMMARY_LIMIT) as int) =~= trim(body@).take(SUMMARY_LIMIT as int));
        s
    }
}

/// The text of the answer: the `text` blocks, joined, in order.
pub open spec fn answer_text(blocks: Seq<ContentBlock>) -> Seq<char>
    decreases blocks.len(),
{
    if blocks.len() == 0 {
        Seq::empty()
    } else {
        let last = blocks.last();
        answer_text(blocks.drop_last()) + if last.kind@ == "text"@ && last.text is Some {
            last.text->0@
        } else {
            Seq::empty()
        }
    }
}

impl MessageResponse {
    /// Whether the model refused.
    pub open spec fn refused(self) -> bool {
        self.stop_reason is Some && self.stop_reason->0@ == "refusal"@
    }

    /// How the answer reads: a refusal is told by its stop reason before the
    /// content is looked at (a refused answer has little or no content);
    /// otherwise the `text` blocks are joined, skipping thinking blocks.
    pub fn into_outcome(self) -> (o: InferenceOutcome)
        ensures
            self.refused() ==> o == (InferenceOutcome::Refused { category: self.refusal_category }),
            !self.refused() ==> (o matches InferenceOutcome::Completed(text) && text@ == answer_text(
                self.content@,
            )),
    {
        let refused = match &self.stop_reason {
            Some(reason) => str_eq(reason.as_str(), "refusal"),
            None => false,
        };
        if refused {
            return InferenceOutcome::Refused { category: self.refusal_category };
        }
        let mut text = String::new();
        let mut i: usize = 0;
        while i < self.content.len()
            invariant
                i <= self.content.len(),
                text@ == answer_text(self.content@.take(i as int)),
            decreases self.content.len() - i,
        {
            proof {
                assert(self.content@.take(i + 1).drop_last() =~= self.content@.take(i as int));
            }
            let block = &self.content[i];
            if str_eq(block.kind.as_str(), "text") {
                if let Some(t) = &block.text {
                    text.append(t.as_str());
                }
            }
            proof {
                assert(text@ =~= answer_text(self.content@.take(i + 1)));
            }
            i = i + 1;
        }
        assert(self.content@.take(self.content.len() as int) =~= self.content@);
        InferenceOutcome::Completed(text)
    }
}

/// The error for a provider this backend does not serve.
pub open spec fn unsupported_provider(provider: Seq<char>) -> Seq<char> {
    "provider `"@ + provider + "` には未対応です（対応しているのは `"@ + PROVIDER@ + "` のみ）"@
}

/// The error for a reply whose status is not a success.
pub open spec fn api_failure(status_text: Seq<char>, body: Seq<char>) -> Seq<char> {
    "Anthropic API がエラーを返しました ("@ + status_text + "): "@ + spec_summarize(body)
}

/// The error when no API key is registered.
pub open spec fn missing_key() -> Seq<char> {
    PROVIDER@ + " の API キーが未登録です。設定画面で登録してください"@
}

/// The API key from what the credential store answered: the key, the
/// library's own error when none is registered, or the store's error.
pub fn api_key_of(found: Result<Option<String>, String>) -> (r: Result<String, String>)
    ensures
        match found {
            Ok(Some(key)) => r == Ok::<String, String>(key),
            Ok(None) => r matches Err(m) && m@ == missing_key(),
            Err(e) => r == Err::<String, String>(e),
        },
{
    match found {
        Ok(Some(key)) => Ok(key),
        Ok(None) => {
            let mut m = copy_str(PROVIDER);
            m.append(" の API キーが未登録です。設定画面で登録してください");
            Err(m)
        },
        Err(e) => Err(e),
    }
}

/// The outcome a decoded answer reads as (see [`MessageResponse::into_outcome`]).
pub open spec fn outcome_of(m: MessageResponse, o: InferenceOutcome) -> bool {
    &&& m.refused() ==> o == (InferenceOutcome::Refused { category: m.refusal_category })
    &&& !m.refused() ==> (o matches InferenceOutcome::Completed(text) && text@ == answer_text(m.content@))
}

/// The outcome of a successful reply from what decoding its body gave: the
/// answer's outcome, or the decoding error with context.
pub fn decoded_outcome(decoded: Result<MessageResponse, String>) -> (r: Result<InferenceOutcome, String>)
    ensures
        match decoded {
            Ok(m) => r matches Ok(o) && outcome_of(m, o),
            Err(cause) => r matches Err(msg) && msg@ == "応答を解釈できません: "@ + cause@,
        },
{
    match decoded {
        Ok(message) => Ok(message.into_outcome()),
        Err(cause) => {
            let mut m = copy_str("応答を解釈できません: ");
            m.append(cause.as_str());
            Err(m)
        },
    }
}

/// A 2xx status.
pub open spec fn success_status(status: u16) -> bool {
    200 <= status < 300
}

/// Reads a reply: a failure status gives its summarized body as the error;
/// a success gives the decoded answer's outcome.
pub fn read_reply(reply: &HttpReply, api: &dyn MessagesApi) -> (r: Result<InferenceOutcome, String>)
    ensures
        !success_status(reply.status) ==> (r matches Err(m) && m@ == api_failure(reply.status_text@, reply.body@)),
{
    if !(200 <= reply.status && reply.status < 300) {
        let mut m = copy_str("Anthropic API がエラーを返しました (");
        m.append(reply.status_text.as_str());
        m.append("): ");
        let summary = summarize(reply.body.as_str());
        m.append(summary.as_str());
        return Err(m);
    }
    decoded_outcome(api.decode(reply.body.as_str()))
}

/// The backend that calls the Anthropic Messages API.
pub struct AnthropicBackend<'a> {
    credentials: &'a dyn CredentialStore,
    api: &'a dyn MessagesApi,
    endpoint: String,
    /// The model used unless the rule's `backend_config.model` names another.
    default_model: Option<String>,
}

impl<'a> AnthropicBackend<'a> {
    pub closed spec fn spec_endpoint(&self) -> Seq<char> {
        self.endpoint@
    }

    pub closed spec fn spec_default_model(&self) -> Option<String> {
        self.default_model
    }

    pub fn new(credentials: &'a dyn CredentialStore, api: &'a dyn MessagesApi, default_model: Option<String>) -> (b:
        Self)
        ensures
            b.spec_endpoint() == ENDPOINT@,
            b.spec_default_model() == default_model,
    {
        AnthropicBackend { credentials, api, endpoint: copy_str(ENDPOINT), default_model }
    }

    /// The same backend, posting to another endpoint (a test server).
    pub fn with_endpoint(self, endpoint: &str) -> (b: Self)
        ensures
            b.spec_endpoint() == endpoint@,
            b.spec_default_model() == self.spec_default_model(),
    {
        AnthropicBackend {
            credentials: self.credentials,
            api: self.api,
            endpoint: copy_str(endpoint),
            default_model: self.default_model,
        }
    }
}

impl<'a> InferenceBackend for AnthropicBackend<'a> {
    fn complete(&self, request: &InferenceRequest) -> (r: Result<InferenceOutcome, String>)
        ensures
            request.provider@ != PROVIDER@ ==> (r matches Err(m) && m@ == unsupported_provider(request.provider@)),
            request.provider@ == PROVIDER@ && chosen_model(*request, self.spec_default_model()) is None ==> r is Err,
            r is Ok ==> request.provider@ == PROVIDER@ && chosen_model(*request, self.spec_default_model()) is Some,
    {
        if !str_eq(request.provider.as_str(), PROVIDER) {
            let mut m = copy_str("provider `");
            m.append(request.provider.as_str());
            m.append("` には未対応です（対応しているのは `");
            m.append(PROVIDER);
            m.append("` のみ）");
            return Err(m);
        }
        let api_key = api_key_of(self.credentials.secret(PROVIDER))?;
        let body = match messages_request(request, &self.default_model) {
            Some(body) => body,
            None => {
                return Err(copy_str("モデルが指定されていません。ルールの backend_config.model か既定のモデルを設定してください"));
            },
        };
        let reply = self.api.post(self.endpoint.as_str(), api_key.as_str(), API_VERSION, &body)?;
        read_reply(&reply, self.api)
    }
}

} // verus!
