use lineage_core::shell::browser::{
    decode, decode_answer, emit_script, read_chunk, read_ready, send_script, wait_budget_ms, BrowserProfile,
    ReadySignal,
};

fn profile() -> BrowserProfile {
    BrowserProfile {
        url: "https://chat.example.com/".into(),
        composer: "#prompt-textarea".into(),
        send: "button[data-testid=\"send\"]".into(),
        answer: "[data-role=assistant]".into(),
        quiet_ms: 2500,
        login_timeout_ms: 120000,
        answer_timeout_ms: 300000,
    }
}

#[test]
fn a_ready_title_gives_the_chunk_count() {
    assert_eq!(read_ready("lineage-ready:3"), ReadySignal::Ready(3));
    assert_eq!(read_ready("lineage-ready:+0"), ReadySignal::Ready(0));
    assert_eq!(
        read_ready("lineage-ready:three"),
        ReadySignal::Failed("応答の件数を解釈できません: three".to_string())
    );
    assert_eq!(
        read_ready("lineage-ready:"),
        ReadySignal::Failed("応答の件数を解釈できません: ".to_string())
    );
    assert_eq!(
        read_ready("lineage-ready:99999999999999999999999"),
        ReadySignal::Failed("応答の件数を解釈できません: 99999999999999999999999".to_string())
    );
}

#[test]
fn an_error_title_gives_the_page_reason() {
    // "入力欄が見つかりません" in base64.
    assert_eq!(
        read_ready("lineage-error:5YWl5Yqb5qyE44GM6KaL44Gk44GL44KK44G+44Gb44KT"),
        ReadySignal::Failed("入力欄が見つかりません".to_string())
    );
    assert_eq!(
        read_ready("lineage-error:%%%"),
        ReadySignal::Failed("ページ側で失敗しました".to_string())
    );
}

#[test]
fn other_titles_mean_wait() {
    assert_eq!(read_ready("lineage"), ReadySignal::Pending);
    assert_eq!(read_ready("ChatGPT"), ReadySignal::Pending);
    assert_eq!(read_ready("lineage-chunk:0:aGk="), ReadySignal::Pending);
}

#[test]
fn chunks_are_asked_for_and_read_by_index() {
    assert_eq!(emit_script(12), "window.__lineage.emit(12)");
    assert_eq!(read_chunk("lineage-chunk:12:aGVs", 12), Some("aGVs".to_string()));
    assert_eq!(read_chunk("lineage-chunk:1:aGVs", 12), None);
    assert_eq!(read_chunk("lineage-chunk:120:aGVs", 12), None);
}

#[test]
fn the_answer_is_decoded_from_its_chunks() {
    assert_eq!(decode("aGVsbG8="), Some("hello".to_string()));
    assert_eq!(decode_answer("44GT44KT44Gr44Gh44Gv"), Ok("こんにちは".to_string()));
    assert_eq!(decode_answer("not base64!"), Err("応答を復号できませんでした".to_string()));
    // Valid base64 of bytes that are not UTF-8.
    assert_eq!(decode("/w=="), None);
}

#[test]
fn the_budget_adds_slack_to_both_waits() {
    assert_eq!(wait_budget_ms(&profile()), 430000);
}

#[test]
fn the_run_script_carries_its_arguments_as_json() {
    let prompt = "要約して:\n\"引用\"";
    let mut payload = serde_json::Map::new();
    payload.insert("prompt".into(), serde_json::Value::String(prompt.into()));
    payload.insert("composer".into(), serde_json::Value::String(profile().composer));
    payload.insert("send".into(), serde_json::Value::String(profile().send));
    payload.insert("answer".into(), serde_json::Value::String(profile().answer));
    payload.insert("quietMs".into(), serde_json::Value::from(2500u64));
    payload.insert("loginTimeoutMs".into(), serde_json::Value::from(120000u64));
    payload.insert("answerTimeoutMs".into(), serde_json::Value::from(300000u64));
    let expected = format!("window.__lineage.run({})", serde_json::Value::Object(payload));
    assert_eq!(send_script(&profile(), prompt), expected);
}

#[test]
fn control_characters_are_escaped_as_serde_json_writes_them() {
    let mut p = profile();
    p.answer = "a\u{1}b\u{7f}é\t\\".into();
    let script = send_script(&p, "x");
    assert!(script.starts_with(r#"window.__lineage.run({"answer":"a\u0001b"#));
    assert!(script.contains("\u{7f}é\\t\\\\\""));
}
