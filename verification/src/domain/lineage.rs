//! The lineage ledger: an append-only hash chain of links.
//!
//! Each link records that one thing was made from another (`derived_from`,
//! `attachment_for`), carries its position `seq` in the workspace's chain,
//! the hash of the link before it, and the hash of its own content. Rewriting
//! any stored link afterwards breaks either its own hash or the next link's
//! reference to it, which `verify` reports.

pub mod relation;

use vstd::prelude::*;

use crate::domain::shared::{
    canonical_json, canonicalize, fields_map, fields_view, lemma_fields_map_lookup, names_distinct, CanonicalScalar,
    CanonicalValue, Hasher,
};
use crate::text::{copy_str, str_eq};

verus! {

/// What a new link says, before it is placed in the chain.
#[derive(Debug, Clone, PartialEq, Eq)]
pub struct LineageInput {
    pub workspace_id: String,
    pub source_kind: String,
    pub source_id: String,
    pub target_kind: String,
    pub target_id: String,
    pub relation_type: String,
    pub actor: String,
    pub created_at: String,
}

/// A link as stored in the chain.
#[derive(Debug, Clone, PartialEq, Eq)]
pub struct LineageRecord {
    pub id: String,
    pub workspace_id: String,
    /// Position in the workspace's chain, from 1.
    pub seq: i64,
    pub source_kind: String,
    pub source_id: String,
    pub target_kind: String,
    pub target_id: String,
    pub relation_type: String,
    pub actor: String,
    pub created_at: String,
    /// Hash of this link's content (including `seq` and `prev_hash`).
    pub content_hash: String,
    /// `content_hash` of the link before, or empty for the first link.
    pub prev_hash: String,
}

/// Why a chain failed verification.
#[derive(Debug, Clone, Copy, PartialEq, Eq, Structural)]
pub enum BrokenReason {
    /// The link is not at the position its `seq` claims.
    SeqMismatch,
    /// The link does not refer to the hash of the link before it.
    PrevHashMismatch,
    /// The link's content does not hash to its stored hash.
    ContentHashMismatch,
}

/// Result of verifying a chain.
#[derive(Debug, Clone, Copy, PartialEq, Eq, Structural)]
pub enum VerifyResult {
    /// Every link checked out.
    Intact { checked: usize },
    /// The first bad link, by position (from 1).
    Broken { broken_at: i64, reason: BrokenReason },
}

impl VerifyResult {
    pub fn is_ok(&self) -> (r: bool)
        ensures
            r == (*self is Intact),
    {
        match self {
            VerifyResult::Intact { .. } => true,
            VerifyResult::Broken { .. } => false,
        }
    }
}

/// The fields that a link's hash covers, named, with `seq` as a number.
pub open spec fn hashed_fields(
    workspace_id: Seq<char>,
    seq: i64,
    source_kind: Seq<char>,
    source_id: Seq<char>,
    target_kind: Seq<char>,
    target_id: Seq<char>,
    relation_type: Seq<char>,
    actor: Seq<char>,
    created_at: Seq<char>,
    prev_hash: Seq<char>,
) -> Seq<(Seq<char>, CanonicalScalar)> {
    seq![
        ("workspace_id"@, CanonicalScalar::Text(workspace_id)),
        ("seq"@, CanonicalScalar::Integer(seq as int)),
        ("source_kind"@, CanonicalScalar::Text(source_kind)),
        ("source_id"@, CanonicalScalar::Text(source_id)),
        ("target_kind"@, CanonicalScalar::Text(target_kind)),
        ("target_id"@, CanonicalScalar::Text(target_id)),
        ("relation_type"@, CanonicalScalar::Text(relation_type)),
        ("actor"@, CanonicalScalar::Text(actor)),
        ("created_at"@, CanonicalScalar::Text(created_at)),
        ("prev_hash"@, CanonicalScalar::Text(prev_hash)),
    ]
}

/// The fields of a stored link that its hash covers.
pub open spec fn record_fields(r: LineageRecord) -> Seq<(Seq<char>, CanonicalScalar)> {
    hashed_fields(
        r.workspace_id@,
        r.seq,
        r.source_kind@,
        r.source_id@,
        r.target_kind@,
        r.target_id@,
        r.relation_type@,
        r.actor@,
        r.created_at@,
        r.prev_hash@,
    )
}

/// The fields a link's hash covers have ten different names.
pub proof fn lemma_record_field_names_distinct(r: LineageRecord)
    ensures
        names_distinct(record_fields(r)),
{
    reveal_strlit("workspace_id");
    reveal_strlit("seq");
    reveal_strlit("source_kind");
    reveal_strlit("source_id");
    reveal_strlit("target_kind");
    reveal_strlit("target_id");
    reveal_strlit("relation_type");
    reveal_strlit("actor");
    reveal_strlit("created_at");
    reveal_strlit("prev_hash");
    let f = record_fields(r);
    assert forall|i: int, j: int| 0 <= i < j < f.len() implies #[trigger] f[i].0 != #[trigger] f[j].0 by {
        if f[i].0.len() == f[j].0.len() {
            assert(f[i].0[0] != f[j].0[0] || f[i].0[1] != f[j].0[1] || f[i].0[7] != f[j].0[7]);
        }
    }
}

/// What a link's hash is computed from determines every field it covers:
/// two links whose hashed contents are the same map agree on workspace,
/// position, both ends, relation, actor, time and previous hash. So
/// rewriting any of these fields changes what is hashed.
pub proof fn lemma_hashed_content_covers_every_field(r1: LineageRecord, r2: LineageRecord)
    requires
        fields_map(record_fields(r1)) == fields_map(record_fields(r2)),
    ensures
        r1.workspace_id@ == r2.workspace_id@,
        r1.seq == r2.seq,
        r1.source_kind@ == r2.source_kind@,
        r1.source_id@ == r2.source_id@,
        r1.target_kind@ == r2.target_kind@,
        r1.target_id@ == r2.target_id@,
        r1.relation_type@ == r2.relation_type@,
        r1.actor@ == r2.actor@,
        r1.created_at@ == r2.created_at@,
        r1.prev_hash@ == r2.prev_hash@,
{
    let f1 = record_fields(r1);
    let f2 = record_fields(r2);
    lemma_record_field_names_distinct(r1);
    lemma_record_field_names_distinct(r2);
    assert forall|k: int| 0 <= k < 10 implies #[trigger] f1[k].1 == f2[k].1 by {
        lemma_fields_map_lookup(f1, k);
        lemma_fields_map_lookup(f2, k);
        assert(f1[k].0 == f2[k].0);
    }
    assert(f1[0].1 == f2[0].1);
    assert(f1[1].1 == f2[1].1);
    assert(f1[2].1 == f2[2].1);
    assert(f1[3].1 == f2[3].1);
    assert(f1[4].1 == f2[4].1);
    assert(f1[5].1 == f2[5].1);
    assert(f1[6].1 == f2[6].1);
    assert(f1[7].1 == f2[7].1);
    assert(f1[8].1 == f2[8].1);
    assert(f1[9].1 == f2[9].1);
}

/// The digest function of a hasher.
pub open spec fn digest_of<H: Hasher + ?Sized>(hasher: &H) -> spec_fn(Seq<char>) -> Seq<char> {
    |input: Seq<char>| hasher.spec_sha256_hex(input)
}

/// The hash a link must carry: the digest of the canonical JSON of its fields.
pub open spec fn expected_hash(digest: spec_fn(Seq<char>) -> Seq<char>, r: LineageRecord) -> Seq<char> {
    digest(canonical_json(fields_map(record_fields(r))))
}

/// The `prev_hash` that the link at position `i` must carry.
pub open spec fn expected_prev(records: Seq<LineageRecord>, i: int) -> Seq<char> {
    if i == 0 {
        Seq::empty()
    } else {
        records[i - 1].content_hash@
    }
}

/// What is wrong with the link at position `i`, if anything: first its
/// position, then its reference to the link before, then its own hash.
pub open spec fn link_fault(digest: spec_fn(Seq<char>) -> Seq<char>, records: Seq<LineageRecord>, i: int) -> Option<BrokenReason> {
    let r = records[i];
    if r.seq != (i + 1) as i64 {
        Some(BrokenReason::SeqMismatch)
    } else if r.prev_hash@ != expected_prev(records, i) {
        Some(BrokenReason::PrevHashMismatch)
    } else if r.content_hash@ != expected_hash(digest, r) {
        Some(BrokenReason::ContentHashMismatch)
    } else {
        None
    }
}

/// Verification of the links from position `i` on, given that the links
/// before it are sound.
pub open spec fn verify_from(digest: spec_fn(Seq<char>) -> Seq<char>, records: Seq<LineageRecord>, i: int) -> VerifyResult
    decreases records.len() - i,
{
    if i < 0 || i >= records.len() {
        VerifyResult::Intact { checked: records.len() as usize }
    } else {
        match link_fault(digest, records, i) {
            Some(reason) => VerifyResult::Broken { broken_at: (i + 1) as i64, reason },
            None => verify_from(digest, records, i + 1),
        }
    }
}

/// The verdict on a whole chain: the first faulty link, or `Ok` with the
/// number of links checked.
pub open spec fn spec_verify(digest: spec_fn(Seq<char>) -> Seq<char>, records: Seq<LineageRecord>) -> VerifyResult {
    verify_from(digest, records, 0)
}

/// Every link of the chain is sound.
pub open spec fn sound_chain(digest: spec_fn(Seq<char>) -> Seq<char>, records: Seq<LineageRecord>) -> bool {
    forall|i: int| 0 <= i < records.len() ==> #[trigger] link_fault(digest, records, i) is None
}

/// `link` is what `append_next` makes of `input` after `prev`.
pub open spec fn appended_after(
    digest: spec_fn(Seq<char>) -> Seq<char>,
    prev: Option<LineageRecord>,
    id: Seq<char>,
    input: LineageInput,
    link: LineageRecord,
) -> bool {
    &&& link.id@ == id
    &&& link.workspace_id@ == input.workspace_id@
    &&& link.seq == match prev {
        Some(p) => p.seq + 1,
        None => 1,
    }
    &&& link.source_kind@ == input.source_kind@
    &&& link.source_id@ == input.source_id@
    &&& link.target_kind@ == input.target_kind@
    &&& link.target_id@ == input.target_id@
    &&& link.relation_type@ == input.relation_type@
    &&& link.actor@ == input.actor@
    &&& link.created_at@ == input.created_at@
    &&& link.prev_hash@ == match prev {
        Some(p) => p.content_hash@,
        None => Seq::<char>::empty(),
    }
    &&& link.content_hash@ == expected_hash(digest, link)
}

/// `links` are `inputs` placed one after another by `append_next`, the first
/// after `prev` and each later one after the link before it.
#[verifier::opaque]
pub open spec fn appended_run(
    digest: spec_fn(Seq<char>) -> Seq<char>,
    prev: Option<LineageRecord>,
    inputs: Seq<LineageInput>,
    links: Seq<LineageRecord>,
) -> bool {
    &&& links.len() == inputs.len()
    &&& forall|j: int|
        0 <= j < links.len() ==> appended_after(
            digest,
            if j == 0 {
                prev
            } else {
                Some(links[j - 1])
            },
            links[j].id@,
            inputs[j],
            #[trigger] links[j],
        )
}

/// Places links in the chain and checks chains.
pub struct LineageLedger<'a, H: Hasher + ?Sized> {
    hasher: &'a H,
}

impl<'a, H: Hasher + ?Sized> LineageLedger<'a, H> {
    pub closed spec fn spec_hasher(&self) -> &'a H {
        self.hasher
    }

    /// The digest function that this ledger hashes with.
    pub open spec fn digest(&self) -> spec_fn(Seq<char>) -> Seq<char> {
        digest_of(self.spec_hasher())
    }

    pub fn new(hasher: &'a H) -> (ledger: LineageLedger<'a, H>)
        ensures
            ledger.spec_hasher() == hasher,
    {
        LineageLedger { hasher }
    }

    /// The hash of a link's content.
    pub fn content_hash(&self, record: &LineageRecord) -> (digest: String)
        ensures
            digest@ == expected_hash(self.digest(), *record),
    {
        let mut fields: Vec<(String, CanonicalValue)> = Vec::new();
        fields.push((copy_str("workspace_id"), CanonicalValue::Text(copy_str(record.workspace_id.as_str()))));
        fields.push((copy_str("seq"), CanonicalValue::Integer(record.seq)));
        fields.push((copy_str("source_kind"), CanonicalValue::Text(copy_str(record.source_kind.as_str()))));
        fields.push((copy_str("source_id"), CanonicalValue::Text(copy_str(record.source_id.as_str()))));
        fields.push((copy_str("target_kind"), CanonicalValue::Text(copy_str(record.target_kind.as_str()))));
        fields.push((copy_str("target_id"), CanonicalValue::Text(copy_str(record.target_id.as_str()))));
        fields.push(
            (copy_str("relation_type"), CanonicalValue::Text(copy_str(record.relation_type.as_str()))),
        );
        fields.push((copy_str("actor"), CanonicalValue::Text(copy_str(record.actor.as_str()))));
        fields.push((copy_str("created_at"), CanonicalValue::Text(copy_str(record.created_at.as_str()))));
        fields.push((copy_str("prev_hash"), CanonicalValue::Text(copy_str(record.prev_hash.as_str()))));
        assert(fields_view(fields@) =~= record_fields(*record));
        proof {
            lemma_record_field_names_distinct(*record);
        }
        let json = canonicalize(&fields);
        self.hasher.sha256_hex(json.as_str())
    }

    /// The next link of the chain after `prev` (the current tail, or `None`
    /// for an empty chain).
    pub fn append_next(&self, prev: Option<&LineageRecord>, id: String, input: LineageInput) -> (link:
        LineageRecord)
        requires
            match prev {
                Some(p) => p.seq < i64::MAX,
                None => true,
            },
        ensures
            appended_after(
                self.digest(),
                match prev {
                    Some(p) => Some(*p),
                    None => None,
                },
                id@,
                input,
                link,
            ),
    {
        let (seq, prev_hash) = match prev {
            Some(p) => (p.seq + 1, copy_str(p.content_hash.as_str())),
            None => (1, String::new()),
        };
        let mut link = LineageRecord {
            id,
            workspace_id: input.workspace_id,
            seq,
            source_kind: input.source_kind,
            source_id: input.source_id,
            target_kind: input.target_kind,
            target_id: input.target_id,
            relation_type: input.relation_type,
            actor: input.actor,
            created_at: input.created_at,
            content_hash: String::new(),
            prev_hash,
        };
        let digest = self.content_hash(&link);
        link.content_hash = digest;
        link
    }

    /// Checks the chain from its first link: positions, references to the
    /// previous hash, and each link's own hash.
    pub fn verify(&self, records: &[LineageRecord]) -> (result: VerifyResult)
        ensures
            result == spec_verify(self.digest(), records@),
    {
        let mut i: usize = 0;
        while i < records.len()
            invariant
                i <= records@.len(),
                spec_verify(self.digest(), records@) == verify_from(self.digest(), records@, i as int),
            decreases records.len() - i,
        {
            let r = &records[i];
            let expected_seq = (i + 1) as i64;
            if r.seq != expected_seq {
                return VerifyResult::Broken { broken_at: expected_seq, reason: BrokenReason::SeqMismatch };
            }
            let prev_ok = if i == 0 {
                r.prev_hash.as_str().unicode_len() == 0
            } else {
                str_eq(r.prev_hash.as_str(), records[i - 1].content_hash.as_str())
            };
            proof {
                if i == 0 {
                    if prev_ok {
                        assert(r.prev_hash@ =~= Seq::<char>::empty());
                    }
                    assert(expected_prev(records@, 0) == Seq::<char>::empty());
                }
            }
            if !prev_ok {
                return VerifyResult::Broken { broken_at: expected_seq, reason: BrokenReason::PrevHashMismatch };
            }
            let digest = self.content_hash(r);
            if !str_eq(r.content_hash.as_str(), digest.as_str()) {
                return VerifyResult::Broken {
                    broken_at: expected_seq,
                    reason: BrokenReason::ContentHashMismatch,
                };
            }
            i = i + 1;
        }
        VerifyResult::Intact { checked: records.len() }
    }
}

proof fn lemma_verify_from_sound(digest: spec_fn(Seq<char>) -> Seq<char>, records: Seq<LineageRecord>, i: int)
    requires
        0 <= i <= records.len(),
    ensures
        (verify_from(digest, records, i) is Intact) == (forall|k: int|
            i <= k < records.len() ==> #[trigger] link_fault(digest, records, k) is None),
        verify_from(digest, records, i) is Intact ==> verify_from(digest, records, i) == (VerifyResult::Intact { checked: records.len() as usize }),
    decreases records.len() - i,
{
    if i < records.len() {
        lemma_verify_from_sound(digest, records, i + 1);
    }
}

/// A chain verifies exactly when every link is sound, and then the verdict
/// counts every link.
pub proof fn lemma_verify_ok_iff_sound(digest: spec_fn(Seq<char>) -> Seq<char>, records: Seq<LineageRecord>)
    ensures
        (spec_verify(digest, records) is Intact) == sound_chain(digest, records),
        sound_chain(digest, records) ==> spec_verify(digest, records) == (VerifyResult::Intact { checked: records.len() as usize }),
{
    lemma_verify_from_sound(digest, records, 0);
}

/// Appending to a sound chain with `append_next` after its last link (or to
/// the empty chain with no previous link) gives a sound chain that is one link
/// longer: what the ledger writes, it verifies.
pub proof fn lemma_append_keeps_chain_sound(
    digest: spec_fn(Seq<char>) -> Seq<char>,
    records: Seq<LineageRecord>,
    id: Seq<char>,
    input: LineageInput,
    link: LineageRecord,
)
    requires
        sound_chain(digest, records),
        records.len() < i64::MAX,
        appended_after(
            digest,
            if records.len() == 0 { None } else { Some(records.last()) },
            id,
            input,
            link,
        ),
    ensures
        sound_chain(digest, records.push(link)),
        spec_verify(digest, records.push(link)) == (VerifyResult::Intact { checked: (records.len() + 1) as usize }),
{
    let n = records.len() as int;
    let all = records.push(link);
    if n > 0 {
        assert(link_fault(digest, records, n - 1) is None);
    }
    assert forall|i: int| 0 <= i < all.len() implies #[trigger] link_fault(digest, all, i) is None by {
        if i < n {
            assert(all[i] == records[i]);
            assert(link_fault(digest, records, i) is None);
            if i > 0 {
                assert(all[i - 1] == records[i - 1]);
            }
            assert(expected_prev(all, i) == expected_prev(records, i));
        } else {
            assert(all[i] == link);
        }
    }
    lemma_verify_ok_iff_sound(digest, all);
}

/// A verified chain is tamper-evident link by link: every stored hash matches
/// the link's content and every link refers to the hash of the one before.
pub proof fn lemma_verified_chain_links(digest: spec_fn(Seq<char>) -> Seq<char>, records: Seq<LineageRecord>, i: int)
    requires
        spec_verify(digest, records) is Intact,
        0 <= i < records.len(),
    ensures
        records[i].seq == (i + 1) as i64,
        records[i].content_hash@ == expected_hash(digest, records[i]),
        records[i].prev_hash@ == expected_prev(records, i),
{
    lemma_verify_ok_iff_sound(digest, records);
    assert(link_fault(digest, records, i) is None);
}

proof fn lemma_verify_from_skips_sound_links(
    digest: spec_fn(Seq<char>) -> Seq<char>,
    records: Seq<LineageRecord>,
    k: int,
    i: int,
)
    requires
        0 <= k <= i <= records.len(),
        forall|j: int| k <= j < i ==> #[trigger] link_fault(digest, records, j) is None,
    ensures
        verify_from(digest, records, k) == verify_from(digest, records, i),
    decreases i - k,
{
    if k < i {
        lemma_verify_from_skips_sound_links(digest, records, k + 1, i);
    }
}

/// Rewriting a stored link is detected. In a chain that verified, replace
/// link `i` by one that keeps its position, its previous hash and its stored
/// hash but differs in any other field (workspace, either end, relation,
/// actor or time). If the digest gives different texts for different
/// contents, verification then reports the link at position `i + 1` with a
/// content-hash mismatch.
pub proof fn lemma_rewritten_link_is_reported(
    digest: spec_fn(Seq<char>) -> Seq<char>,
    records: Seq<LineageRecord>,
    i: int,
    rewritten: LineageRecord,
)
    requires
        spec_verify(digest, records) is Intact,
        0 <= i < records.len(),
        forall|m1: Map<Seq<char>, CanonicalScalar>, m2: Map<Seq<char>, CanonicalScalar>|
            #[trigger] digest(canonical_json(m1)) == #[trigger] digest(canonical_json(m2)) ==> m1 == m2,
        rewritten.seq == records[i].seq,
        rewritten.prev_hash@ == records[i].prev_hash@,
        rewritten.content_hash@ == records[i].content_hash@,
        rewritten.workspace_id@ != records[i].workspace_id@ || rewritten.source_kind@ != records[i].source_kind@
            || rewritten.source_id@ != records[i].source_id@ || rewritten.target_kind@ != records[i].target_kind@
            || rewritten.target_id@ != records[i].target_id@ || rewritten.relation_type@
            != records[i].relation_type@ || rewritten.actor@ != records[i].actor@ || rewritten.created_at@
            != records[i].created_at@,
    ensures
        spec_verify(digest, records.update(i, rewritten)) == (VerifyResult::Broken {
            broken_at: (i + 1) as i64,
            reason: BrokenReason::ContentHashMismatch,
        }),
{
    let t = records.update(i, rewritten);
    lemma_verify_ok_iff_sound(digest, records);
    assert forall|j: int| 0 <= j < i implies #[trigger] link_fault(digest, t, j) is None by {
        assert(link_fault(digest, records, j) is None);
        assert(t[j] == records[j]);
        if j > 0 {
            assert(t[j - 1] == records[j - 1]);
        }
        assert(expected_prev(t, j) == expected_prev(records, j));
    }
    assert(link_fault(digest, records, i) is None);
    if i > 0 {
        assert(t[i - 1] == records[i - 1]);
    }
    assert(expected_prev(t, i) == expected_prev(records, i));
    assert(t[i] == rewritten);
    if expected_hash(digest, rewritten) == expected_hash(digest, records[i]) {
        lemma_hashed_content_covers_every_field(rewritten, records[i]);
    }
    assert(link_fault(digest, t, i) == Some(BrokenReason::ContentHashMismatch));
    lemma_verify_from_skips_sound_links(digest, t, 0, i);
}

/// Appending several links in a row after the tail of a sound chain (or to
/// the empty chain) keeps it sound: what a capture with attachments writes,
/// the ledger verifies.
pub proof fn lemma_appended_run_keeps_chain_sound(
    digest: spec_fn(Seq<char>) -> Seq<char>,
    records: Seq<LineageRecord>,
    inputs: Seq<LineageInput>,
    links: Seq<LineageRecord>,
)
    requires
        sound_chain(digest, records),
        records.len() + links.len() <= i64::MAX,
        appended_run(
            digest,
            if records.len() == 0 { None } else { Some(records.last()) },
            inputs,
            links,
        ),
    ensures
        sound_chain(digest, records + links),
        spec_verify(digest, records + links) == (VerifyResult::Intact {
            checked: (records.len() + links.len()) as usize,
        }),
    decreases links.len(),
{
    reveal(appended_run);
    if links.len() == 0 {
        assert(records + links =~= records);
        lemma_verify_ok_iff_sound(digest, records);
    } else {
        let n = links.len() - 1;
        let shorter = links.take(n);
        let fewer = inputs.take(n);
        assert forall|j: int| 0 <= j < shorter.len() implies appended_after(
            digest,
            if j == 0 {
                if records.len() == 0 { None } else { Some(records.last()) }
            } else {
                Some(shorter[j - 1])
            },
            shorter[j].id@,
            fewer[j],
            #[trigger] shorter[j],
        ) by {
            assert(shorter[j] == links[j]);
            assert(fewer[j] == inputs[j]);
            if j > 0 {
                assert(shorter[j - 1] == links[j - 1]);
            }
        }
        lemma_appended_run_keeps_chain_sound(digest, records, fewer, shorter);
        let base = records + shorter;
        assert(appended_after(
            digest,
            if n == 0 { if records.len() == 0 { None } else { Some(records.last()) } } else { Some(links[n - 1]) },
            links[n].id@,
            inputs[n],
            links[n],
        ));
        if n > 0 {
            assert(base.last() == links[n - 1]);
        } else {
            assert(base =~= records);
        }
        lemma_append_keeps_chain_sound(digest, base, links[n].id@, inputs[n], links[n]);
        assert(base.push(links[n]) =~= records + links);
    }
}

} // verus!
