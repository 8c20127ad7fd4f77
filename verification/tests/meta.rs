use lineage_core::domain::meta::{parse_meta_tags, rank_candidates, MetaAssignment, MetaSource, MetaTag};
use lineage_core::domain::ports::MetaTagQuery;
use lineage_core::features::meta::CompleteMetaTag;

struct StubTags(Vec<MetaTag>);

impl MetaTagQuery for StubTags {
    fn all(&self, _workspace_id: &str, _limit: usize) -> Result<Vec<MetaTag>, String> {
        Ok(self.0.clone())
    }
}

fn tag(label: &str, shorthand: Option<&str>, usage: i64) -> MetaTag {
    MetaTag {
        id: label.into(),
        workspace_id: "ws".into(),
        label: label.into(),
        shorthand: shorthand.map(str::to_string),
        usage_count: usage,
        last_used_at: None,
    }
}

#[test]
fn suggests_by_shorthand_prefix() {
    let tags = StubTags(vec![
        tag("タスク", Some("task"), 5),
        tag("投資", Some("trade"), 2),
    ]);

    let suggestions = CompleteMetaTag::new(&tags).execute("ws", "t", 10).unwrap();
    assert_eq!(
        suggestions
            .iter()
            .map(|s| s.label.as_str())
            .collect::<Vec<_>>(),
        vec!["タスク", "投資"]
    );
}

#[test]
fn honours_the_limit() {
    let tags = StubTags(vec![
        tag("a", None, 3),
        tag("b", None, 2),
        tag("c", None, 1),
    ]);
    assert_eq!(
        CompleteMetaTag::new(&tags)
            .execute("ws", "", 2)
            .unwrap()
            .len(),
        2
    );
}

#[test]
fn a_query_keeps_only_matching_labels_or_shorthands() {
    let tags = vec![tag("投資", Some("trade"), 2), tag("読書", Some("book"), 9)];
    let out = rank_candidates(&tags, "bo", 10);
    assert_eq!(out.len(), 1);
    assert_eq!(out[0].label, "読書");
    assert_eq!(out[0].usage_count, 9);
}

#[test]
fn tags_in_the_body_are_read_in_order() {
    let tags = parse_meta_tags("買う #タスク と #app=chrome.exe #");
    assert_eq!(
        tags,
        vec![
            MetaAssignment::user("タスク", None),
            MetaAssignment::user("app", Some("chrome.exe".into())),
        ]
    );
    assert_eq!(tags[0].source, MetaSource::User);
    assert!(parse_meta_tags("no tags here").is_empty());
}

#[test]
fn meta_sources_round_trip_through_their_stored_strings() {
    for source in [MetaSource::User, MetaSource::Auto, MetaSource::Derived] {
        assert_eq!(MetaSource::parse(source.as_str()), source);
    }
}
