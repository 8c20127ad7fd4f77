use std::cell::RefCell;

use lineage_core::domain::automation::{InferenceOutcome, InferenceRequest};
use lineage_core::domain::ports::InferenceBackend;
use lineage_core::infra::anthropic::{
    messages_request, summarize, AnthropicBackend, ContentBlock, HttpReply, MessageResponse,
    MessagesApi, MessagesRequest, MAX_TOKENS, PROVIDER,
};
use lineage_core::infra::credentials::StubCredentialStore;

/// An API that answers with a fixed reply and remembers what it was sent.
struct StubApi {
    reply: HttpReply,
    decoded: Result<MessageResponse, String>,
    sent: RefCell<Vec<(String, String, MessagesRequest)>>,
}

impl StubApi {
    fn answering(reply: HttpReply, decoded: Result<MessageResponse, String>) -> Self {
        StubApi {
            reply,
            decoded,
            sent: RefCell::new(Vec::new()),
        }
    }

    fn unused() -> Self {
        Self::answering(
            HttpReply {
                status: 500,
                status_text: "500 Internal Server Error".into(),
                body: String::new(),
            },
            Err("unused".into()),
        )
    }
}

impl MessagesApi for StubApi {
    fn post(
        &self,
        endpoint: &str,
        api_key: &str,
        _api_version: &str,
        request: &MessagesRequest,
    ) -> Result<HttpReply, String> {
        self.sent
            .borrow_mut()
            .push((endpoint.to_string(), api_key.to_string(), request.clone()));
        Ok(self.reply.clone())
    }

    fn decode(&self, _body: &str) -> Result<MessageResponse, String> {
        self.decoded.clone()
    }
}

fn block(kind: &str, text: Option<&str>) -> ContentBlock {
    ContentBlock {
        kind: kind.into(),
        text: text.map(str::to_string),
    }
}

#[test]
fn an_unknown_provider_is_rejected_before_touching_the_network() {
    let credentials = StubCredentialStore(Some("k".into()));
    let api = StubApi::unused();
    let backend = AnthropicBackend::new(&credentials, &api, Some("model-a".into()));
    let request = InferenceRequest {
        provider: "openai".into(),
        prompt: "hi".into(),
        model: None,
        effort: None,
    };
    assert!(backend.complete(&request).is_err());
    assert!(api.sent.borrow().is_empty());
}

#[test]
fn a_missing_api_key_is_reported_as_such() {
    let credentials = StubCredentialStore(None);
    let api = StubApi::unused();
    let backend = AnthropicBackend::new(&credentials, &api, Some("model-a".into()));
    let request = InferenceRequest {
        provider: PROVIDER.into(),
        prompt: "hi".into(),
        model: None,
        effort: None,
    };
    let error = backend.complete(&request).unwrap_err();
    assert!(error.contains("未登録"));
}

#[test]
fn long_error_bodies_are_truncated() {
    assert_eq!(summarize("  短い  "), "短い");
    assert_eq!(summarize(&"あ".repeat(600)).chars().count(), 501);
}

#[test]
fn joins_only_the_text_blocks() {
    let outcome = MessageResponse {
        content: vec![
            block("thinking", None),
            block("text", Some("前半")),
            block("text", Some("後半")),
        ],
        stop_reason: Some("end_turn".into()),
        refusal_category: None,
    }
    .into_outcome();
    assert_eq!(outcome, InferenceOutcome::Completed("前半後半".into()));
}

#[test]
fn a_refusal_is_not_treated_as_an_empty_answer() {
    let outcome = MessageResponse {
        content: Vec::new(),
        stop_reason: Some("refusal".into()),
        refusal_category: Some("cyber".into()),
    }
    .into_outcome();
    assert_eq!(
        outcome,
        InferenceOutcome::Refused {
            category: Some("cyber".into())
        }
    );
}

#[test]
fn the_request_takes_the_rules_model_over_the_default() {
    let request = InferenceRequest {
        provider: PROVIDER.into(),
        prompt: "要約して".into(),
        model: None,
        effort: Some("low".into()),
    };
    let body = messages_request(&request, &Some("model-a".into())).unwrap();
    assert_eq!(body.model, "model-a");
    assert_eq!(body.max_tokens, MAX_TOKENS);
    assert_eq!(body.prompt, "要約して");
    assert_eq!(body.effort.as_deref(), Some("low"));
    let own = InferenceRequest {
        model: Some("model-b".into()),
        ..request.clone()
    };
    assert_eq!(messages_request(&own, &Some("model-a".into())).unwrap().model, "model-b");
    assert!(messages_request(&request, &None).is_none());
}

#[test]
fn a_completed_answer_goes_through_with_the_key_and_endpoint() {
    let credentials = StubCredentialStore(Some("secret-key".into()));
    let api = StubApi::answering(
        HttpReply {
            status: 200,
            status_text: "200 OK".into(),
            body: "{}".into(),
        },
        Ok(MessageResponse {
            content: vec![block("text", Some("答え"))],
            stop_reason: Some("end_turn".into()),
            refusal_category: None,
        }),
    );
    let backend = AnthropicBackend::new(&credentials, &api, Some("model-a".into()))
        .with_endpoint("http://localhost:9/v1/messages");
    let request = InferenceRequest {
        provider: PROVIDER.into(),
        prompt: "hi".into(),
        model: None,
        effort: None,
    };
    assert_eq!(
        backend.complete(&request).unwrap(),
        InferenceOutcome::Completed("答え".into())
    );
    let sent = api.sent.borrow();
    assert_eq!(sent[0].0, "http://localhost:9/v1/messages");
    assert_eq!(sent[0].1, "secret-key");
    assert_eq!(sent[0].2.model, "model-a");
}

#[test]
fn a_failure_status_reports_the_summarized_body() {
    let credentials = StubCredentialStore(Some("k".into()));
    let api = StubApi::answering(
        HttpReply {
            status: 400,
            status_text: "400 Bad Request".into(),
            body: "  invalid model \n".into(),
        },
        Err("unused".into()),
    );
    let backend = AnthropicBackend::new(&credentials, &api, Some("model-a".into()));
    let request = InferenceRequest {
        provider: PROVIDER.into(),
        prompt: "hi".into(),
        model: None,
        effort: None,
    };
    assert_eq!(
        backend.complete(&request).unwrap_err(),
        "Anthropic API がエラーを返しました (400 Bad Request): invalid model"
    );
}
