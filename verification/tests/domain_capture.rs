use lineage_core::domain::capture::{
    derive_title, CaptureContext, DocumentAsset, ImageAttachment, DOCUMENT_TYPE_IMAGE,
    DOCUMENT_TYPE_MEMO, TITLE_MAX_CHARS,
};

#[test]
fn title_comes_from_the_first_non_empty_line() {
    let doc = DocumentAsset::memo(
        "d1",
        "ws",
        "\n\nSOXL 損切り\n理由は…",
        "2026-08-08T00:00:00Z",
    );
    assert_eq!(doc.title, "SOXL 損切り");
    assert_eq!(doc.document_type, DOCUMENT_TYPE_MEMO);
}

#[test]
fn long_titles_are_elided() {
    let body = "あ".repeat(100);
    let doc = DocumentAsset::memo("d1", "ws", &body, "2026-08-08T00:00:00Z");
    assert_eq!(doc.title.chars().count(), TITLE_MAX_CHARS + 1);
    assert!(doc.title.ends_with('…'));
}

#[test]
fn empty_body_falls_back_to_a_placeholder_title() {
    let doc = DocumentAsset::memo("d1", "ws", "   ", "2026-08-08T00:00:00Z");
    assert_eq!(doc.title, "memo");
}

#[test]
fn context_becomes_auto_metadata() {
    let context = CaptureContext {
        process_name: "chrome.exe".into(),
        window_title: "SOXL - Google Finance".into(),
    };
    let metas = context.metadata();
    assert_eq!(metas[0].key, "application");
    assert_eq!(metas[0].value, "chrome.exe");
    assert_eq!(metas[1].key, "window");
}

#[test]
fn a_blank_window_title_is_not_recorded() {
    let context = CaptureContext {
        process_name: "code.exe".into(),
        window_title: "  ".into(),
    };
    let metas = context.metadata();
    assert_eq!(metas.len(), 1);
    assert_eq!(metas[0].source, "auto");
}

#[test]
fn a_title_of_exactly_the_limit_is_kept_whole() {
    let body = "い".repeat(TITLE_MAX_CHARS);
    assert_eq!(derive_title(&body), body);
}

#[test]
fn an_image_document_is_titled_with_its_name() {
    let doc = DocumentAsset::image(
        "img-1",
        "ws",
        ImageAttachment {
            name: "chart.png".into(),
            blob_uri: "/attachments/chart.png".into(),
        },
        "2026-08-08T00:00:00Z",
    );
    assert_eq!(doc.title, "chart.png");
    assert_eq!(doc.body_text, "");
    assert_eq!(doc.blob_uri.as_deref(), Some("/attachments/chart.png"));
    assert_eq!(doc.document_type, DOCUMENT_TYPE_IMAGE);
}
