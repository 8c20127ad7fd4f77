use std::cell::RefCell;

use lineage_core::domain::capture::{CaptureContext, DocumentAsset, ImageAttachment};
use lineage_core::domain::lineage::{
    relation, BrokenReason, LineageLedger, LineageRecord, VerifyResult,
};
use lineage_core::domain::meta::{DocumentMetadata, MetaAssignment, MetaSource, MetaTag};
use lineage_core::domain::ports::{
    CaptureStore, CaptureTx, LedgerTx, LineageQuery, MetaTagQuery,
};
use lineage_core::domain::shared::IdGenerator;
use lineage_core::features::capture::{
    CaptureError, CaptureMemo, CaptureMemoInput, CaptureMemoOutput, LOCAL_ACTOR,
};
use lineage_core::features::lineage::VerifyLineage;
use lineage_core::infra::clock::{FixedClock, SequentialIds};
use lineage_core::infra::crypto::Sha256Hasher;

#[derive(Clone, Default)]
struct State {
    workspaces: Vec<String>,
    documents: Vec<DocumentAsset>,
    metas: Vec<(String, MetaAssignment)>,
    metadata: Vec<(String, DocumentMetadata)>,
    tags: Vec<MetaTag>,
    links: Vec<LineageRecord>,
}

/// An in-memory store with the transaction behaviour of the SQLite one.
#[derive(Default)]
struct MemoryDb {
    state: RefCell<State>,
    saved: RefCell<Option<State>>,
    fail_links: bool,
}

impl MemoryDb {
    fn metas_of_document(&self, id: &str) -> Vec<MetaAssignment> {
        self.state
            .borrow()
            .metas
            .iter()
            .filter(|(doc, _)| doc == id)
            .map(|(_, meta)| meta.clone())
            .collect()
    }

    fn document(&self, id: &str) -> Option<DocumentAsset> {
        self.state
            .borrow()
            .documents
            .iter()
            .find(|d| d.id == id)
            .cloned()
    }

    fn tamper_actor(&self, seq: i64, actor: &str) {
        let mut state = self.state.borrow_mut();
        let link = state.links.iter_mut().find(|l| l.seq == seq).unwrap();
        link.actor = actor.into();
    }
}

impl LedgerTx for MemoryDb {
    fn insert_document(&self, document: &DocumentAsset) -> Result<(), String> {
        let mut state = self.state.borrow_mut();
        if state.documents.iter().any(|d| d.id == document.id) {
            return Err(format!("duplicate document {}", document.id));
        }
        state.documents.push(document.clone());
        Ok(())
    }

    fn last_link(&self, workspace_id: &str) -> Result<Option<LineageRecord>, String> {
        Ok(self
            .state
            .borrow()
            .links
            .iter()
            .filter(|l| l.workspace_id == workspace_id)
            .max_by_key(|l| l.seq)
            .cloned())
    }

    fn append_link(&self, link: &LineageRecord) -> Result<(), String> {
        if self.fail_links {
            return Err("disk full".into());
        }
        let mut state = self.state.borrow_mut();
        if state
            .links
            .iter()
            .any(|l| l.workspace_id == link.workspace_id && l.seq == link.seq)
        {
            return Err("UNIQUE constraint failed: links.seq".into());
        }
        state.links.push(link.clone());
        Ok(())
    }
}

impl CaptureTx for MemoryDb {
    fn ensure_workspace(&self, id: &str, _name: &str, _now: &str) -> Result<(), String> {
        let mut state = self.state.borrow_mut();
        if !state.workspaces.iter().any(|w| w == id) {
            state.workspaces.push(id.into());
        }
        Ok(())
    }

    fn update_document(&self, document: &DocumentAsset) -> Result<(), String> {
        let mut state = self.state.borrow_mut();
        match state.documents.iter_mut().find(|d| d.id == document.id) {
            Some(existing) => {
                existing.title = document.title.clone();
                existing.body_text = document.body_text.clone();
                existing.updated_at = document.updated_at.clone();
                Ok(())
            }
            None => Err(format!("no document {}", document.id)),
        }
    }

    fn clear_document_metas(&self, document_id: &str) -> Result<(), String> {
        self.state
            .borrow_mut()
            .metas
            .retain(|(doc, _)| doc != document_id);
        Ok(())
    }

    fn insert_document_meta(
        &self,
        _id: &str,
        document_id: &str,
        meta: &MetaAssignment,
        _now: &str,
    ) -> Result<(), String> {
        self.state
            .borrow_mut()
            .metas
            .push((document_id.into(), meta.clone()));
        Ok(())
    }

    fn insert_document_metadata(
        &self,
        _id: &str,
        document_id: &str,
        metadata: &DocumentMetadata,
        _now: &str,
    ) -> Result<(), String> {
        self.state
            .borrow_mut()
            .metadata
            .push((document_id.into(), metadata.clone()));
        Ok(())
    }

    fn learn_meta_tag(&self, id: &str, workspace_id: &str, label: &str, now: &str) -> Result<(), String> {
        let mut state = self.state.borrow_mut();
        match state
            .tags
            .iter_mut()
            .find(|t| t.workspace_id == workspace_id && t.label == label)
        {
            Some(tag) => {
                tag.usage_count += 1;
                tag.last_used_at = Some(now.into());
            }
            None => state.tags.push(MetaTag {
                id: id.into(),
                workspace_id: workspace_id.into(),
                label: label.into(),
                shorthand: None,
                usage_count: 1,
                last_used_at: Some(now.into()),
            }),
        }
        Ok(())
    }
}

impl CaptureStore for MemoryDb {
    fn begin(&self) -> Result<(), String> {
        *self.saved.borrow_mut() = Some(self.state.borrow().clone());
        Ok(())
    }

    fn commit(&self) -> Result<(), String> {
        *self.saved.borrow_mut() = None;
        Ok(())
    }

    fn rollback(&self) {
        if let Some(saved) = self.saved.borrow_mut().take() {
            *self.state.borrow_mut() = saved;
        }
    }
}

impl LineageQuery for MemoryDb {
    fn list(&self, workspace_id: &str) -> Result<Vec<LineageRecord>, String> {
        let mut links: Vec<LineageRecord> = self
            .state
            .borrow()
            .links
            .iter()
            .filter(|l| l.workspace_id == workspace_id)
            .cloned()
            .collect();
        links.sort_by_key(|l| l.seq);
        Ok(links)
    }
}

impl MetaTagQuery for MemoryDb {
    fn all(&self, workspace_id: &str, limit: usize) -> Result<Vec<MetaTag>, String> {
        Ok(self
            .state
            .borrow()
            .tags
            .iter()
            .filter(|t| t.workspace_id == workspace_id)
            .take(limit)
            .cloned()
            .collect())
    }
}

struct Fixture {
    db: MemoryDb,
    clock: FixedClock,
    ids: SequentialIds,
    hasher: Sha256Hasher,
}

impl Fixture {
    fn new() -> Self {
        Self {
            db: MemoryDb::default(),
            clock: FixedClock::new("2026-08-08T12:00:00Z"),
            ids: SequentialIds::new(),
            hasher: Sha256Hasher,
        }
    }

    fn service(&self) -> CaptureMemo<'_, MemoryDb> {
        CaptureMemo::new(&self.db, &self.clock, &self.ids, &self.hasher)
    }

    fn capture(&self, body: &str, context: Option<CaptureContext>) -> CaptureMemoOutput {
        self.service()
            .execute(CaptureMemoInput {
                workspace_id: "ws".into(),
                workspace_name: "minos".into(),
                body: body.into(),
                document_id: None,
                metas: Vec::new(),
                context,
                images: Vec::new(),
            })
            .unwrap()
    }
}

#[test]
fn stores_the_memo_with_its_metadata() {
    let f = Fixture::new();
    let context = CaptureContext {
        process_name: "chrome.exe".into(),
        window_title: "SOXL".into(),
    };

    let out = f.capture("SOXL 損切り #投資", Some(context));

    assert_eq!(out.title, "SOXL 損切り #投資");
    assert_eq!(out.meta_labels, vec!["投資"]);
    assert_eq!(out.seq, 1);
}

#[test]
fn auto_metadata_removed_from_the_input_stays_out_of_the_record() {
    let f = Fixture::new();
    let out = f
        .service()
        .execute(CaptureMemoInput {
            workspace_id: "ws".into(),
            workspace_name: "minos".into(),
            body: "アプリ情報を外したメモ".into(),
            document_id: None,
            metas: Vec::new(),
            context: Some(CaptureContext {
                process_name: "chrome.exe".into(),
                window_title: "SOXL".into(),
            }),
            images: Vec::new(),
        })
        .unwrap();

    assert!(out.meta_labels.is_empty());
}

#[test]
fn stores_confirmed_badges_without_putting_them_in_the_body() {
    let f = Fixture::new();
    let out = f
        .service()
        .execute(CaptureMemoInput {
            workspace_id: "ws".into(),
            workspace_name: "minos".into(),
            body: "バッジ付きのメモ".into(),
            document_id: None,
            metas: vec![MetaAssignment::user("タスク", None)],
            context: None,
            images: Vec::new(),
        })
        .unwrap();

    assert_eq!(out.title, "バッジ付きのメモ");
    assert_eq!(out.meta_labels, vec!["タスク"]);
}

#[test]
fn extends_the_hash_chain_on_every_capture() {
    let f = Fixture::new();
    let first = f.capture("1件目", None);
    let second = f.capture("2件目", None);

    assert_eq!(first.seq, 1);
    assert_eq!(second.seq, 2);
    assert_ne!(first.content_hash, second.content_hash);

    let records = LineageQuery::list(&f.db, "ws").unwrap();
    assert_eq!(records[1].prev_hash, records[0].content_hash);
    assert_eq!(
        LineageLedger::new(&f.hasher).verify(&records),
        VerifyResult::Intact { checked: 2 }
    );
}

#[test]
fn stores_images_as_attachments_in_the_same_hash_chain() {
    let f = Fixture::new();
    let out = f
        .service()
        .execute(CaptureMemoInput {
            workspace_id: "ws".into(),
            workspace_name: "minos".into(),
            body: "画像付きメモ".into(),
            document_id: None,
            metas: Vec::new(),
            context: None,
            images: vec![ImageAttachment {
                name: "chart.png".into(),
                blob_uri: "/attachments/chart.png".into(),
            }],
        })
        .unwrap();

    let records = LineageQuery::list(&f.db, "ws").unwrap();
    assert_eq!(out.seq, 2);
    assert_eq!(records[1].relation_type, relation::ATTACHMENT_FOR);
    assert_eq!(records[1].target_id, out.document_id);
    assert_eq!(records[1].prev_hash, records[0].content_hash);
}

#[test]
fn rejects_an_empty_body() {
    let f = Fixture::new();
    let result = f.service().execute(CaptureMemoInput {
        workspace_id: "ws".into(),
        workspace_name: "minos".into(),
        body: "   \n ".into(),
        document_id: None,
        metas: Vec::new(),
        context: None,
        images: Vec::new(),
    });
    assert!(result.is_err());
    assert_eq!(result.unwrap_err(), CaptureError::EmptyBody);
    assert!(LineageQuery::list(&f.db, "ws").unwrap().is_empty());
}

#[test]
fn explicit_app_promotes_observed_application_as_derived_tag() {
    let f = Fixture::new();
    let context = CaptureContext {
        process_name: "chrome.exe".into(),
        window_title: "T".into(),
    };
    let out = f.capture("#app=手入力 のメモ", Some(context));

    assert_eq!(out.meta_labels, vec!["app"]);
    let metas = f.db.metas_of_document(&out.document_id);
    let app = metas.iter().find(|m| m.label == "app").unwrap();
    assert_eq!(app.value.as_deref(), Some("chrome.exe"));
    assert_eq!(app.source.as_str(), "derived");
}

#[test]
fn learns_tags_for_completion() {
    let f = Fixture::new();
    f.capture("#タスク A", None);
    f.capture("#タスク B", None);
    f.capture("#投資 C", None);

    let tags = MetaTagQuery::all(&f.db, "ws", 100).unwrap();
    let task = tags.iter().find(|t| t.label == "タスク").unwrap();
    assert_eq!(task.usage_count, 2);
    assert_eq!(task.last_used_at.as_deref(), Some("2026-08-08T12:00:00Z"));
}

#[test]
fn updates_an_existing_memo_with_restored_tags() {
    let f = Fixture::new();
    let first = f.capture("最初の行", None);
    f.service()
        .execute(CaptureMemoInput {
            workspace_id: "ws".into(),
            workspace_name: "minos".into(),
            body: "最初の行\n追記した行".into(),
            document_id: Some(first.document_id.clone()),
            metas: vec![MetaAssignment::user("継続", None)],
            context: None,
            images: Vec::new(),
        })
        .unwrap();

    let restored = f.db.document(&first.document_id).unwrap();
    assert_eq!(restored.body_text, "最初の行\n追記した行");
    assert_eq!(
        f.db.metas_of_document(&first.document_id),
        vec![MetaAssignment::user("継続", None)]
    );
}

#[test]
fn detects_a_tampered_ledger() {
    let f = Fixture::new();
    for body in ["1件目", "2件目", "3件目"] {
        f.capture(body, None);
    }

    assert!(VerifyLineage::new(&f.db, &f.hasher)
        .execute("ws")
        .unwrap()
        .is_ok());

    f.db.tamper_actor(2, "someone-else");

    assert_eq!(
        VerifyLineage::new(&f.db, &f.hasher).execute("ws").unwrap(),
        VerifyResult::Broken {
            broken_at: 2,
            reason: BrokenReason::ContentHashMismatch,
        }
    );
}

#[test]
fn a_typed_tag_replaces_an_automatic_value_but_not_a_confirmed_one() {
    let f = Fixture::new();
    let out = f
        .service()
        .execute(CaptureMemoInput {
            workspace_id: "ws".into(),
            workspace_name: "minos".into(),
            body: "#app=vim #タスク=後で".into(),
            document_id: None,
            metas: vec![
                MetaAssignment::auto("app", "code.exe"),
                MetaAssignment::user("タスク", Some("今日".into())),
            ],
            context: None,
            images: Vec::new(),
        })
        .unwrap();
    assert_eq!(out.meta_labels, vec!["app", "タスク"]);
    let metas = f.db.metas_of_document(&out.document_id);
    assert_eq!(metas[0], MetaAssignment::user("app", Some("vim".into())));
    assert_eq!(metas[1], MetaAssignment::user("タスク", Some("今日".into())));
    assert_eq!(metas[0].source, MetaSource::User);
}

#[test]
fn the_memo_link_names_the_observed_application_as_its_source() {
    let f = Fixture::new();
    f.capture(
        "メモ",
        Some(CaptureContext {
            process_name: "chrome.exe".into(),
            window_title: "".into(),
        }),
    );
    f.capture("文脈なし", None);
    let records = LineageQuery::list(&f.db, "ws").unwrap();
    assert_eq!(records[0].source_kind, "app");
    assert_eq!(records[0].source_id, "chrome.exe");
    assert_eq!(records[0].relation_type, relation::DERIVED_FROM);
    assert_eq!(records[0].actor, LOCAL_ACTOR);
    assert_eq!(records[1].source_kind, "minos");
    assert_eq!(records[1].source_id, "capture");
}

#[test]
fn a_failed_write_leaves_nothing_behind() {
    let f = Fixture {
        db: MemoryDb {
            fail_links: true,
            ..MemoryDb::default()
        },
        clock: FixedClock::new("2026-08-08T12:00:00Z"),
        ids: SequentialIds::new(),
        hasher: Sha256Hasher,
    };
    let result = f.service().execute(CaptureMemoInput {
        workspace_id: "ws".into(),
        workspace_name: "minos".into(),
        body: "書けないメモ #タスク".into(),
        document_id: None,
        metas: Vec::new(),
        context: None,
        images: Vec::new(),
    });
    assert_eq!(result.unwrap_err(), CaptureError::Store("disk full".into()));
    assert!(f.db.state.borrow().documents.is_empty());
    assert!(f.db.state.borrow().tags.is_empty());
}

#[test]
fn sequential_ids_and_the_fixed_clock_are_predictable() {
    let ids = SequentialIds::new();
    assert_eq!(ids.new_id(), "id-0001");
    assert_eq!(ids.new_id(), "id-0002");
    let clock = FixedClock::new("2026-08-08T12:00:00Z");
    assert_eq!(clock.now(), "2026-08-08T12:00:00Z");
}
