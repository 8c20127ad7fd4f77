//! Capturing one memo.
//!
//! The document, its tags, the observed context and the attached images are
//! written together with their links in one transaction: if the document and
//! its link were committed apart, a failure in between would cut the chain.

use vstd::prelude::*;

use crate::domain::capture::{spec_derive_title, CaptureContext, DocumentAsset, ImageAttachment};
use crate::domain::lineage::{
    appended_run, digest_of, relation, LineageInput, LineageLedger, LineageRecord,
};
use crate::domain::meta::{
    DocumentMetadata, auto_label, meta_view, metas_view, parse_meta_tags, tags_from, MetaAssignment, MetaSource,
    MetaTriple,
};
use crate::domain::ports::CaptureStore;
use crate::domain::shared::{Clock, Hasher, IdGenerator};
use crate::text::{
    back_white_space, chars_of, copy_str, is_blank, lemma_trim_end_to, str_eq,
    string_from_range, trim_end,
};

verus! {

/// The actor of a local (single user) capture.
pub const LOCAL_ACTOR: &'static str = "local";

/// Source kind of a memo link when the application in front is known.
pub const SOURCE_KIND_APP: &'static str = "app";

/// Source of a memo link when no application was observed.
pub const SOURCE_KIND_MINOS: &'static str = "minos";

pub const SOURCE_ID_CAPTURE: &'static str = "capture";

/// Kind of the documents that links point at.
pub const TARGET_KIND_DOCUMENT: &'static str = "document";

pub struct CaptureMemoInput {
    pub workspace_id: String,
    pub workspace_name: String,
    pub body: String,
    /// When present, the memo with this id is rewritten instead of a new one
    /// being created.
    pub document_id: Option<String>,
    /// The badges confirmed in the input field (automatic ones included).
    /// An automatic tag that is not here was removed by the user and is not
    /// recorded.
    pub metas: Vec<MetaAssignment>,
    /// The application that was in front, when it could be observed. It
    /// becomes the source of the memo's link.
    pub context: Option<CaptureContext>,
    /// Images attached to the memo; each is recorded as a document of its own.
    pub images: Vec<ImageAttachment>,
}

#[derive(Debug, Clone, PartialEq, Eq)]
pub struct CaptureMemoOutput {
    pub document_id: String,
    pub title: String,
    /// Labels of the recorded tags, typed and automatic.
    pub meta_labels: Vec<String>,
    /// Position and hash of the last link appended.
    pub seq: i64,
    pub content_hash: String,
}

/// Why a capture was not recorded.
#[derive(Debug, Clone, PartialEq, Eq)]
pub enum CaptureError {
    /// The body holds nothing but white space.
    EmptyBody,
    /// The chain's `seq` cannot grow by as many links as the capture needs.
    LedgerFull,
    /// The store failed; nothing was committed.
    Store(String),
}

/// The message of a capture error.
pub open spec fn capture_message(e: CaptureError) -> Seq<char> {
    match e {
        CaptureError::EmptyBody => "本文が空です"@,
        CaptureError::LedgerFull => "lineage の seq がこれ以上増やせません"@,
        CaptureError::Store(e) => e@,
    }
}

impl CaptureError {
    /// A message for people.
    pub fn message(&self) -> (m: String)
        ensures
            m@ == capture_message(*self),
    {
        match self {
            CaptureError::EmptyBody => copy_str("本文が空です"),
            CaptureError::LedgerFull => copy_str("lineage の seq がこれ以上増やせません"),
            CaptureError::Store(e) => copy_str(e.as_str()),
        }
    }
}

/// Position of the first tag at or after `i` with this label, or -1.
pub open spec fn label_index_from(metas: Seq<MetaTriple>, label: Seq<char>, i: int) -> int
    decreases metas.len() - i,
{
    if i < 0 || i >= metas.len() {
        -1
    } else if metas[i].0 == label {
        i
    } else {
        label_index_from(metas, label, i + 1)
    }
}

/// Position of the first tag with this label, or -1.
pub open spec fn label_index(metas: Seq<MetaTriple>, label: Seq<char>) -> int {
    label_index_from(metas, label, 0)
}

/// A tag written in the body, merged into the confirmed ones: a new label is
/// added, an automatic value gives way to the typed one, and a tag the user
/// confirmed is kept as it is.
pub open spec fn merge_tag(metas: Seq<MetaTriple>, tag: MetaTriple) -> Seq<MetaTriple> {
    let i = label_index(metas, tag.0);
    if i < 0 {
        metas.push(tag)
    } else if metas[i].2 == MetaSource::Auto {
        metas.update(i, tag)
    } else {
        metas
    }
}

/// The tags of the body merged in order.
pub open spec fn merge_tags(metas: Seq<MetaTriple>, tags: Seq<MetaTriple>) -> Seq<MetaTriple>
    decreases tags.len(),
{
    if tags.len() == 0 {
        metas
    } else {
        merge_tag(merge_tags(metas, tags.drop_last()), tags.last())
    }
}

/// `#app` asks for the observed application: with a context, the first
/// `app` tag takes its process name, as a derived tag.
pub open spec fn promote_app(metas: Seq<MetaTriple>, context: Option<CaptureContext>) -> Seq<MetaTriple> {
    let i = label_index(metas, auto_label::APP@);
    match context {
        Some(c) => if i >= 0 {
            metas.update(i, (auto_label::APP@, Some(c.process_name@), MetaSource::Derived))
        } else {
            metas
        },
        None => metas,
    }
}

/// The tags that a capture records.
pub open spec fn captured_metas(
    body: Seq<char>,
    confirmed: Seq<MetaAssignment>,
    context: Option<CaptureContext>,
) -> Seq<MetaTriple> {
    promote_app(merge_tags(metas_view(confirmed), tags_from(trim_end(body), 0)), context)
}

/// The labels of tags, in order.
pub open spec fn labels_of(metas: Seq<MetaTriple>) -> Seq<Seq<char>> {
    metas.map_values(|m: MetaTriple| m.0)
}

/// The link of the memo itself: from the application in front (or from the
/// capture window when none was observed) to the document.
pub open spec fn memo_link_input(
    i: LineageInput,
    workspace_id: Seq<char>,
    context: Option<CaptureContext>,
    document_id: Seq<char>,
    now: Seq<char>,
) -> bool {
    &&& i.workspace_id@ == workspace_id
    &&& i.source_kind@ == (if context is Some {
        SOURCE_KIND_APP@
    } else {
        SOURCE_KIND_MINOS@
    })
    &&& i.source_id@ == match context {
        Some(c) => c.process_name@,
        None => SOURCE_ID_CAPTURE@,
    }
    &&& i.target_kind@ == TARGET_KIND_DOCUMENT@
    &&& i.target_id@ == document_id
    &&& i.relation_type@ == relation::DERIVED_FROM@
    &&& i.actor@ == LOCAL_ACTOR@
    &&& i.created_at@ == now
}

/// The link of an attached image document to the memo.
pub open spec fn attachment_link_input(
    i: LineageInput,
    workspace_id: Seq<char>,
    document_id: Seq<char>,
    now: Seq<char>,
) -> bool {
    &&& i.workspace_id@ == workspace_id
    &&& i.source_kind@ == TARGET_KIND_DOCUMENT@
    &&& i.target_kind@ == TARGET_KIND_DOCUMENT@
    &&& i.target_id@ == document_id
    &&& i.relation_type@ == relation::ATTACHMENT_FOR@
    &&& i.actor@ == LOCAL_ACTOR@
    &&& i.created_at@ == now
}

/// The links a capture asks for: the memo's own first, then one per image.
pub open spec fn capture_link_inputs(
    inputs: Seq<LineageInput>,
    workspace_id: Seq<char>,
    context: Option<CaptureContext>,
    document_id: Seq<char>,
    images: nat,
    now: Seq<char>,
) -> bool {
    &&& inputs.len() == images + 1
    &&& memo_link_input(inputs[0], workspace_id, context, document_id, now)
    &&& forall|k: int|
        1 <= k < inputs.len() ==> attachment_link_input(
            #[trigger] inputs[k],
            workspace_id,
            document_id,
            now,
        )
}

/// What a capture appends after the chain's tail `prev`: the memo's link,
/// then one `attachment_for` link per image, all made at `now`.
pub open spec fn capture_appended(
    digest: spec_fn(Seq<char>) -> Seq<char>,
    prev: Option<LineageRecord>,
    inputs: Seq<LineageInput>,
    links: Seq<LineageRecord>,
    workspace_id: Seq<char>,
    context: Option<CaptureContext>,
    document_id: Seq<char>,
    images: nat,
    now: Seq<char>,
) -> bool {
    &&& appended_run(digest, prev, inputs, links)
    &&& capture_link_inputs(inputs, workspace_id, context, document_id, images, now)
}

/// What a successful capture reports: the position and hash of the last of
/// the links it appended after the chain's tail.
pub open spec fn capture_recorded(
    digest: spec_fn(Seq<char>) -> Seq<char>,
    workspace_id: Seq<char>,
    context: Option<CaptureContext>,
    images: nat,
    out: CaptureMemoOutput,
) -> bool {
    exists|prev: Option<LineageRecord>, inputs: Seq<LineageInput>, links: Seq<LineageRecord>, now: Seq<char>|
        #[trigger] capture_appended(
            digest,
            prev,
            inputs,
            links,
            workspace_id,
            context,
            out.document_id@,
            images,
            now,
        ) && out.seq == links.last().seq && out.content_hash@ == links.last().content_hash@
}

/// A capture extends the chain from its tail: the memo's link refers to the
/// tail's hash, and the last link sits one place further per attached image.
pub proof fn lemma_capture_extends_tail(
    digest: spec_fn(Seq<char>) -> Seq<char>,
    prev: Option<LineageRecord>,
    inputs: Seq<LineageInput>,
    links: Seq<LineageRecord>,
    workspace_id: Seq<char>,
    context: Option<CaptureContext>,
    document_id: Seq<char>,
    images: nat,
    now: Seq<char>,
)
    requires
        capture_appended(digest, prev, inputs, links, workspace_id, context, document_id, images, now),
    ensures
        links.len() == images + 1,
        links[0].prev_hash@ == match prev {
            Some(p) => p.content_hash@,
            None => Seq::<char>::empty(),
        },
        links.last().seq == match prev {
            Some(p) => p.seq + images + 1,
            None => images + 1int,
        },
        links[0].target_id@ == document_id,
        links[0].relation_type@ == relation::DERIVED_FROM@,
{
    reveal(appended_run);
    let base: int = match prev {
        Some(p) => p.seq as int,
        None => 0,
    };
    assert forall|j: int| 0 <= j < links.len() implies #[trigger] links[j].seq == base + j + 1 by {
        lemma_run_seq(digest, prev, inputs, links, j);
    }
}

proof fn lemma_run_seq(
    digest: spec_fn(Seq<char>) -> Seq<char>,
    prev: Option<LineageRecord>,
    inputs: Seq<LineageInput>,
    links: Seq<LineageRecord>,
    j: int,
)
    requires
        appended_run(digest, prev, inputs, links),
        0 <= j < links.len(),
    ensures
        links[j].seq == match prev {
            Some(p) => p.seq + j + 1,
            None => j + 1int,
        },
    decreases j,
{
    reveal(appended_run);
    if j > 0 {
        lemma_run_seq(digest, prev, inputs, links, j - 1);
    }
}

fn copy_option(s: &Option<String>) -> (r: Option<String>)
    ensures
        r == *s,
{
    match s {
        Some(v) => Some(v.clone()),
        None => None,
    }
}

fn copy_meta(m: &MetaAssignment) -> (r: MetaAssignment)
    ensures
        r == *m,
{
    MetaAssignment { label: m.label.clone(), value: copy_option(&m.value), source: m.source }
}

fn copy_input(i: &LineageInput) -> (r: LineageInput)
    ensures
        r == *i,
{
    LineageInput {
        workspace_id: i.workspace_id.clone(),
        source_kind: i.source_kind.clone(),
        source_id: i.source_id.clone(),
        target_kind: i.target_kind.clone(),
        target_id: i.target_id.clone(),
        relation_type: i.relation_type.clone(),
        actor: i.actor.clone(),
        created_at: i.created_at.clone(),
    }
}

/// Position of the first tag with this label.
fn find_label(metas: &Vec<MetaAssignment>, label: &str) -> (r: Option<usize>)
    ensures
        match r {
            Some(i) => i < metas.len() && i == label_index(metas_view(metas@), label@),
            None => label_index(metas_view(metas@), label@) == -1,
        },
{
    let ghost mv = metas_view(metas@);
    let mut j: usize = 0;
    while j < metas.len()
        invariant
            j <= metas.len(),
            mv == metas_view(metas@),
            label_index(mv, label@) == label_index_from(mv, label@, j as int),
        decreases metas.len() - j,
    {
        assert(mv[j as int] == meta_view(metas@[j as int]));
        if str_eq(metas[j].label.as_str(), label) {
            return Some(j);
        }
        j = j + 1;
    }
    None
}

/// The confirmed badges and the `#tags` left in the body, together. When a
/// label appears in both, what the user typed wins over an automatic value.
fn collect_metas(body: &str, confirmed: &Vec<MetaAssignment>) -> (metas: Vec<MetaAssignment>)
    ensures
        metas_view(metas@) == merge_tags(metas_view(confirmed@), tags_from(body@, 0)),
{
    let mut metas: Vec<MetaAssignment> = Vec::new();
    let mut c: usize = 0;
    while c < confirmed.len()
        invariant
            c <= confirmed.len(),
            metas@ == confirmed@.take(c as int),
        decreases confirmed.len() - c,
    {
        metas.push(copy_meta(&confirmed[c]));
        assert(metas@ =~= confirmed@.take(c + 1));
        c = c + 1;
    }
    assert(confirmed@.take(c as int) =~= confirmed@);
    let tags = parse_meta_tags(body);
    let ghost tv = metas_view(tags@);
    let ghost base = metas_view(confirmed@);
    assert(merge_tags(base, tv.take(0)) == base);
    let mut k: usize = 0;
    while k < tags.len()
        invariant
            k <= tags.len(),
            tv == metas_view(tags@),
            metas_view(metas@) == merge_tags(base, tv.take(k as int)),
        decreases tags.len() - k,
    {
        let tag = copy_meta(&tags[k]);
        let ghost before = metas_view(metas@);
        proof {
            assert(tv.take(k + 1).drop_last() =~= tv.take(k as int));
            assert(tv.take(k + 1).last() == meta_view(tag));
        }
        match find_label(&metas, tag.label.as_str()) {
            Some(i) => {
                if metas[i].source == MetaSource::Auto {
                    metas.set(i, tag);
                    assert(metas_view(metas@) =~= before.update(i as int, meta_view(tag)));
                }
            },
            None => {
                metas.push(tag);
                assert(metas_view(metas@) =~= before.push(meta_view(tag)));
            },
        }
        k = k + 1;
    }
    assert(tv.take(k as int) =~= tv);
    metas
}

/// The body without its trailing white space, and whether that leaves
/// anything but white space.
fn trimmed_body(body: &str) -> (r: (String, bool))
    ensures
        r.0@ == trim_end(body@),
        r.1 == !is_blank(body@),
{
    let v = chars_of(body);
    let k = back_white_space(&v, 0, v.len());
    proof {
        lemma_trim_end_to(v@, k as int);
    }
    (string_from_range(&v, 0, k), k > 0)
}

/// The tags to record: badges and body tags merged, then `#app` filled in
/// from the context.
fn capture_tags(body: &str, confirmed: &Vec<MetaAssignment>, context: &Option<CaptureContext>) -> (metas: Vec<
    MetaAssignment,
>)
    ensures
        metas_view(metas@) == promote_app(
            merge_tags(metas_view(confirmed@), tags_from(body@, 0)),
            *context,
        ),
{
    let mut metas = collect_metas(body, confirmed);
    let ghost merged = metas_view(metas@);
    if let Some(c) = context {
        if let Some(i) = find_label(&metas, auto_label::APP) {
            let app = MetaAssignment::derived(auto_label::APP, c.process_name.as_str());
            metas.set(i, app);
            assert(metas_view(metas@) =~= merged.update(i as int, meta_view(app)));
        }
    }
    metas
}

/// The labels of the tags, in order.
fn labels(metas: &Vec<MetaAssignment>) -> (out: Vec<String>)
    ensures
        out@.map_values(|l: String| l@) == labels_of(metas_view(metas@)),
{
    let mut out: Vec<String> = Vec::new();
    let mut i: usize = 0;
    while i < metas.len()
        invariant
            i <= metas.len(),
            out.len() == i,
            forall|j: int| 0 <= j < i ==> #[trigger] out@[j]@ == metas@[j].label@,
        decreases metas.len() - i,
    {
        out.push(metas[i].label.clone());
        i = i + 1;
    }
    proof {
        let lv = labels_of(metas_view(metas@));
        assert forall|j: int| 0 <= j < lv.len() implies out@.map_values(|l: String| l@)[j] == lv[j] by {
            assert(metas_view(metas@)[j] == meta_view(metas@[j]));
        }
        assert(out@.map_values(|l: String| l@) =~= lv);
    }
    out
}

pub struct CaptureMemo<'a, S: CaptureStore> {
    store: &'a S,
    clock: &'a dyn Clock,
    ids: &'a dyn IdGenerator,
    hasher: &'a dyn Hasher,
}

/// Whether the chain after `prev` has room for `count` more links.
pub open spec fn spec_chain_fits(prev: Option<LineageRecord>, count: int) -> bool {
    (match prev {
        Some(p) => p.seq as int,
        None => 0,
    }) + count <= i64::MAX
}

fn chain_fits(prev: &Option<LineageRecord>, count: usize) -> (r: bool)
    ensures
        r == spec_chain_fits(*prev, count as int),
{
    let base: i128 = match prev {
        Some(p) => p.seq as i128,
        None => 0,
    };
    base + (count as i128) <= i64::MAX as i128
}

/// The links a capture appends after the stored tail `prev` (none for an
/// empty chain), one per input and named by `ids`: refused when the chain
/// has no room for them all, otherwise each placed after the one before,
/// the first after `prev`, so that the first refers to the tail's hash.
pub fn chain_links<H: Hasher + ?Sized>(
    ledger: &LineageLedger<'_, H>,
    prev: Option<LineageRecord>,
    ids: Vec<String>,
    inputs: &Vec<LineageInput>,
) -> (r: Result<Vec<LineageRecord>, CaptureError>)
    requires
        ids.len() == inputs.len(),
    ensures
        r is Err <==> !spec_chain_fits(prev, inputs.len() as int),
        r matches Err(e) ==> e is LedgerFull,
        r matches Ok(links) ==> {
            &&& links.len() == inputs.len()
            &&& appended_run(ledger.digest(), prev, inputs@, links@)
            &&& forall|j: int| 0 <= j < links.len() ==> #[trigger] links@[j].id@ == ids@[j]@
        },
{
    if !chain_fits(&prev, inputs.len()) {
        return Err(CaptureError::LedgerFull);
    }
    let base: i128 = match &prev {
        Some(p) => p.seq as i128,
        None => 0,
    };
    let ghost first = prev;
    let mut links: Vec<LineageRecord> = Vec::new();
    let mut k: usize = 0;
    while k < inputs.len()
        invariant
            k <= inputs.len() == ids.len(),
            base + inputs.len() <= i64::MAX,
            base == match first {
                Some(p) => p.seq as int,
                None => 0,
            },
            prev == first,
            links.len() == k,
            k > 0 ==> links@[k - 1].seq == base + k,
            forall|j: int| 0 <= j < k ==> #[trigger] links@[j].id@ == ids@[j]@,
            forall|j: int|
                0 <= j < k ==> crate::domain::lineage::appended_after(
                    ledger.digest(),
                    if j == 0 {
                        first
                    } else {
                        Some(links@[j - 1])
                    },
                    links@[j].id@,
                    inputs@[j],
                    #[trigger] links@[j],
                ),
        decreases inputs.len() - k,
    {
        let link = if k == 0 {
            ledger.append_next(prev.as_ref(), ids[k].clone(), copy_input(&inputs[k]))
        } else {
            ledger.append_next(Some(&links[k - 1]), ids[k].clone(), copy_input(&inputs[k]))
        };
        links.push(link);
        k = k + 1;
    }
    proof {
        reveal(appended_run);
    }
    Ok(links)
}

/// One write a capture makes before its links, in order.
#[derive(Debug, Clone, PartialEq, Eq)]
pub enum CaptureWrite {
    /// Create the workspace unless it exists.
    EnsureWorkspace,
    /// Store the memo as a new document.
    InsertDocument,
    /// Rewrite the existing memo's title and body.
    UpdateDocument,
    /// Remove the existing memo's tags, which are then written again.
    ClearTags,
    /// Attach one piece of observed metadata, under this id.
    InsertMetadata { id: String, metadata: DocumentMetadata },
    /// Learn a tag for completion, under this id.
    LearnTag { id: String, label: String },
    /// Put one tag on the memo, under this id.
    InsertTag { id: String, meta: MetaAssignment },
}

/// The tag writes: for each tag, learning it and then putting it on the
/// memo, under two ids each, in order.
pub open spec fn spec_tag_writes(metas: Seq<MetaAssignment>, ids: Seq<String>) -> Seq<CaptureWrite>
    decreases metas.len(),
{
    if metas.len() == 0 {
        Seq::empty()
    } else {
        let k = metas.len() - 1;
        spec_tag_writes(metas.drop_last(), ids) + seq![
            CaptureWrite::LearnTag { id: ids[2 * k], label: metas.last().label },
            CaptureWrite::InsertTag { id: ids[2 * k + 1], meta: metas.last() },
        ]
    }
}

/// What a capture writes before its links: the workspace; the memo, new
/// or rewritten with its old tags cleared; each piece of observed metadata;
/// then each tag. The ids are used in that order.
pub open spec fn spec_capture_writes(
    updating: bool,
    observed: Seq<DocumentMetadata>,
    metas: Seq<MetaAssignment>,
    ids: Seq<String>,
) -> Seq<CaptureWrite> {
    seq![CaptureWrite::EnsureWorkspace] + (if updating {
        seq![CaptureWrite::UpdateDocument, CaptureWrite::ClearTags]
    } else {
        seq![CaptureWrite::InsertDocument]
    }) + Seq::new(
        observed.len(),
        |k: int| CaptureWrite::InsertMetadata { id: ids[k], metadata: observed[k] },
    ) + spec_tag_writes(metas, ids.skip(observed.len() as int))
}

fn copy_metadata(m: &DocumentMetadata) -> (r: DocumentMetadata)
    ensures
        r == *m,
{
    DocumentMetadata { key: m.key.clone(), value: m.value.clone(), source: m.source.clone() }
}

/// The writes a capture makes before its links (see [`spec_capture_writes`]).
pub fn capture_writes(
    updating: bool,
    observed: &Vec<DocumentMetadata>,
    metas: &Vec<MetaAssignment>,
    ids: &Vec<String>,
) -> (writes: Vec<CaptureWrite>)
    requires
        ids.len() == observed.len() + 2 * metas.len(),
    ensures
        writes@ == spec_capture_writes(updating, observed@, metas@, ids@),
{
    let mut writes: Vec<CaptureWrite> = Vec::new();
    writes.push(CaptureWrite::EnsureWorkspace);
    if updating {
        writes.push(CaptureWrite::UpdateDocument);
        writes.push(CaptureWrite::ClearTags);
    } else {
        writes.push(CaptureWrite::InsertDocument);
    }
    let ghost head = writes@;
    let mut m: usize = 0;
    while m < observed.len()
        invariant
            m <= observed.len(),
            ids.len() == observed.len() + 2 * metas.len(),
            writes@ == head + Seq::new(
                m as nat,
                |k: int| CaptureWrite::InsertMetadata { id: ids@[k], metadata: observed@[k] },
            ),
        decreases observed.len() - m,
    {
        writes.push(CaptureWrite::InsertMetadata { id: ids[m].clone(), metadata: copy_metadata(&observed[m]) });
        m = m + 1;
        assert(writes@ =~= head + Seq::new(
            m as nat,
            |k: int| CaptureWrite::InsertMetadata { id: ids@[k], metadata: observed@[k] },
        ));
    }
    let ghost middle = writes@;
    let ghost rest = ids@.skip(observed.len() as int);
    let base = observed.len();
    let mut t: usize = 0;
    while t < metas.len()
        invariant
            t <= metas.len(),
            base == observed.len(),
            ids.len() == observed.len() + 2 * metas.len(),
            rest == ids@.skip(observed.len() as int),
            writes@ == middle + spec_tag_writes(metas@.take(t as int), rest),
        decreases metas.len() - t,
    {
        proof {
            assert(metas@.take(t + 1).drop_last() =~= metas@.take(t as int));
            assert(rest[2 * t] == ids@[base + 2 * t]);
            assert(rest[2 * t + 1] == ids@[base + 2 * t + 1]);
        }
        writes.push(CaptureWrite::LearnTag { id: ids[base + 2 * t].clone(), label: metas[t].label.clone() });
        writes.push(CaptureWrite::InsertTag { id: ids[base + 2 * t + 1].clone(), meta: copy_meta(&metas[t]) });
        t = t + 1;
        assert(writes@ =~= middle + spec_tag_writes(metas@.take(t as int), rest));
    }
    assert(metas@.take(metas.len() as int) =~= metas@);
    writes
}

impl<'a, S: CaptureStore> CaptureMemo<'a, S> {
    /// The digest function that the links of this capture are hashed with.
    pub closed spec fn digest(&self) -> spec_fn(Seq<char>) -> Seq<char> {
        digest_of(self.hasher)
    }

    /// The store this capture writes to.
    pub closed spec fn spec_store(&self) -> &'a S {
        self.store
    }

    /// A capture that writes to `store`, stamps with `clock`, names with
    /// `ids` and hashes its links with `hasher`.
    pub fn new(
        store: &'a S,
        clock: &'a dyn Clock,
        ids: &'a dyn IdGenerator,
        hasher: &'a dyn Hasher,
    ) -> (c: Self)
        ensures
            c.spec_store() == store,
    {
        CaptureMemo { store, clock, ids, hasher }
    }

    /// Records one memo. A blank body is refused before anything is written;
    /// otherwise the memo (new, or rewritten when `document_id` is given), its
    /// tags, its observed context, its images and their links are committed
    /// in one transaction, or nothing is.
    pub fn execute(&self, input: CaptureMemoInput) -> (r: Result<CaptureMemoOutput, CaptureError>)
        ensures
            (r matches Err(CaptureError::EmptyBody)) == is_blank(input.body@),
            r matches Ok(out) ==> {
                &&& (input.document_id matches Some(id) ==> out.document_id@ == id@)
                &&& out.title@ == spec_derive_title(trim_end(input.body@))
                &&& out.meta_labels@.map_values(|l: String| l@) == labels_of(
                    captured_metas(input.body@, input.metas@, input.context),
                )
                &&& capture_recorded(
                    self.digest(),
                    input.workspace_id@,
                    input.context,
                    input.images.len() as nat,
                    out,
                )
            },
    {
        let ghost given = input;
        let (body, filled) = trimmed_body(input.body.as_str());
        if !filled {
            return Err(CaptureError::EmptyBody);
        }
        let CaptureMemoInput {
            workspace_id,
            workspace_name,
            body: _,
            document_id,
            metas: confirmed,
            context,
            images: attachments,
        } = input;
        let now = self.clock.now_rfc3339();
        let updating = document_id.is_some();
        let id = match document_id {
            Some(id) => id,
            None => self.ids.new_id(),
        };
        let document = DocumentAsset::memo(id.as_str(), workspace_id.as_str(), body.as_str(), now.as_str());

        let metas = capture_tags(document.body_text.as_str(), &confirmed, &context);
        let (inputs, images) = self.link_inputs(
            workspace_id.as_str(),
            &context,
            document.id.as_str(),
            now.as_str(),
            attachments,
        );
        if let Err(e) = self.store.begin() {
            return Err(CaptureError::Store(e));
        }
        let written = self.write(
            workspace_id.as_str(),
            workspace_name.as_str(),
            now.as_str(),
            &document,
            updating,
            &context,
            &metas,
            &images,
            &inputs,
        );
        let (seq, content_hash) = match written {
            Ok(tail) => tail,
            Err(e) => {
                self.store.rollback();
                return Err(e);
            },
        };
        if let Err(e) = self.store.commit() {
            return Err(CaptureError::Store(e));
        }
        let ghost (prev, links) = choose|prev: Option<LineageRecord>, links: Seq<LineageRecord>|
            #[trigger] appended_run(self.digest(), prev, inputs@, links) && seq == links.last().seq
                && content_hash@ == links.last().content_hash@;
        let ghost document_id = document.id@;
        assert(capture_appended(
            self.digest(),
            prev,
            inputs@,
            links,
            given.workspace_id@,
            given.context,
            document_id,
            given.images.len() as nat,
            now@,
        ));
        let meta_labels = labels(&metas);
        let out = CaptureMemoOutput {
            document_id: document.id,
            title: document.title,
            meta_labels,
            seq,
            content_hash,
        };
        assert(out.seq == links.last().seq && out.content_hash@ == links.last().content_hash@);
        assert(out.document_id@ == document_id);
        assert(capture_recorded(
            self.digest(),
            given.workspace_id@,
            given.context,
            given.images.len() as nat,
            out,
        ));
        Ok(out)
    }

    /// The links to append: the memo's own, then one per image, with the
    /// image documents (each with a new id).
    fn link_inputs(
        &self,
        workspace_id: &str,
        context: &Option<CaptureContext>,
        document_id: &str,
        now: &str,
        attachments: Vec<ImageAttachment>,
    ) -> (r: (Vec<LineageInput>, Vec<DocumentAsset>))
        ensures
            r.0.len() == r.1.len() + 1,
            capture_link_inputs(r.0@, workspace_id@, *context, document_id@, attachments.len() as nat, now@),
    {
        let (source_kind, source_id) = match context {
            Some(c) => (copy_str(SOURCE_KIND_APP), c.process_name.clone()),
            None => (copy_str(SOURCE_KIND_MINOS), copy_str(SOURCE_ID_CAPTURE)),
        };
        let mut inputs: Vec<LineageInput> = Vec::new();
        inputs.push(
            LineageInput {
                workspace_id: copy_str(workspace_id),
                source_kind,
                source_id,
                target_kind: copy_str(TARGET_KIND_DOCUMENT),
                target_id: copy_str(document_id),
                relation_type: copy_str(relation::DERIVED_FROM),
                actor: copy_str(LOCAL_ACTOR),
                created_at: copy_str(now),
            },
        );
        let mut images: Vec<DocumentAsset> = Vec::new();
        let mut attachments = attachments;
        let ghost count = attachments.len();
        while attachments.len() > 0
            invariant
                images.len() + attachments.len() == count,
                inputs.len() == images.len() + 1,
                memo_link_input(inputs@[0], workspace_id@, *context, document_id@, now@),
                forall|k: int|
                    1 <= k < inputs.len() ==> attachment_link_input(
                        #[trigger] inputs@[k],
                        workspace_id@,
                        document_id@,
                        now@,
                    ),
            decreases attachments.len(),
        {
            let attachment = attachments.remove(0);
            let image = DocumentAsset::image(self.ids.new_id().as_str(), workspace_id, attachment, now);
            inputs.push(
                LineageInput {
                    workspace_id: copy_str(workspace_id),
                    source_kind: copy_str(TARGET_KIND_DOCUMENT),
                    source_id: image.id.clone(),
                    target_kind: copy_str(TARGET_KIND_DOCUMENT),
                    target_id: copy_str(document_id),
                    relation_type: copy_str(relation::ATTACHMENT_FOR),
                    actor: copy_str(LOCAL_ACTOR),
                    created_at: copy_str(now),
                },
            );
            images.push(image);
        }
        (inputs, images)
    }

    /// Inside the open transaction: the workspace, the memo (inserted, or
    /// rewritten with its tags cleared), its observed metadata, its tags
    /// (each also learned for completion), then the links, each image
    /// document just before its own link. Gives the position and hash of the
    /// last link.
    fn write(
        &self,
        workspace_id: &str,
        workspace_name: &str,
        now: &str,
        document: &DocumentAsset,
        updating: bool,
        context: &Option<CaptureContext>,
        metas: &Vec<MetaAssignment>,
        images: &Vec<DocumentAsset>,
        inputs: &Vec<LineageInput>,
    ) -> (r: Result<(i64, String), CaptureError>)
        requires
            inputs.len() == images.len() + 1,
        ensures
            !(r matches Err(CaptureError::EmptyBody)),
            r matches Ok(tail) ==> exists|prev: Option<LineageRecord>, links: Seq<LineageRecord>|
                #[trigger] appended_run(self.digest(), prev, inputs@, links) && tail.0 == links.last().seq
                    && tail.1@ == links.last().content_hash@,
    {
        let observed: Vec<DocumentMetadata> = match context {
            Some(c) => c.metadata(),
            None => Vec::new(),
        };
        let mut ids: Vec<String> = Vec::new();
        let mut n: usize = 0;
        while n < observed.len()
            invariant
                n <= observed.len(),
                ids.len() == n,
            decreases observed.len() - n,
        {
            ids.push(self.ids.new_id());
            n = n + 1;
        }
        let mut t: usize = 0;
        while t < metas.len()
            invariant
                t <= metas.len(),
                ids.len() == observed.len() + 2 * t,
            decreases metas.len() - t,
        {
            ids.push(self.ids.new_id());
            ids.push(self.ids.new_id());
            t = t + 1;
        }
        let writes = capture_writes(updating, &observed, metas, &ids);
        let mut w: usize = 0;
        while w < writes.len()
            decreases writes.len() - w,
        {
            let done = match &writes[w] {
                CaptureWrite::EnsureWorkspace => self.store.ensure_workspace(workspace_id, workspace_name, now),
                CaptureWrite::InsertDocument => self.store.insert_document(document),
                CaptureWrite::UpdateDocument => self.store.update_document(document),
                CaptureWrite::ClearTags => self.store.clear_document_metas(document.id.as_str()),
                CaptureWrite::InsertMetadata { id, metadata } => self.store.insert_document_metadata(
                    id.as_str(),
                    document.id.as_str(),
                    metadata,
                    now,
                ),
                CaptureWrite::LearnTag { id, label } => self.store.learn_meta_tag(
                    id.as_str(),
                    workspace_id,
                    label.as_str(),
                    now,
                ),
                CaptureWrite::InsertTag { id, meta } => self.store.insert_document_meta(
                    id.as_str(),
                    document.id.as_str(),
                    meta,
                    now,
                ),
            };
            if let Err(e) = done {
                return Err(CaptureError::Store(e));
            }
            w = w + 1;
        }

        let prev = match self.store.last_link(workspace_id) {
            Ok(prev) => prev,
            Err(e) => return Err(CaptureError::Store(e)),
        };
        if !chain_fits(&prev, inputs.len()) {
            return Err(CaptureError::LedgerFull);
        }
        let mut ids: Vec<String> = Vec::new();
        let mut n: usize = 0;
        while n < inputs.len()
            invariant
                n <= inputs.len(),
                ids.len() == n,
            decreases inputs.len() - n,
        {
            ids.push(self.ids.new_id());
            n = n + 1;
        }
        let ghost stored_tail = prev;
        let ledger = LineageLedger::new(self.hasher);
        assert(ledger.digest() == self.digest());
        let links = match chain_links(&ledger, prev, ids, inputs) {
            Ok(links) => links,
            Err(e) => return Err(e),
        };
        assert(appended_run(self.digest(), stored_tail, inputs@, links@));
        let mut k: usize = 0;
        while k < links.len()
            invariant
                k <= links.len() == inputs.len() == images.len() + 1,
            decreases links.len() - k,
        {
            if k > 0 {
                if let Err(e) = self.store.insert_document(&images[k - 1]) {
                    return Err(CaptureError::Store(e));
                }
            }
            if let Err(e) = self.store.append_link(&links[k]) {
                return Err(CaptureError::Store(e));
            }
            k = k + 1;
        }
        let tail = &links[links.len() - 1];
        assert(links@.last() == *tail);
        Ok((tail.seq, copy_str(tail.content_hash.as_str())))
    }
}

} // verus!
