//! Value objects and the traits that stand for the outside world
//! (time, identifiers, hashing), plus the canonical form that is hashed.

use std::collections::BTreeMap;

use vstd::prelude::*;

verus! {

/// SHA-256 of a text, as lower-case hex. Implementations live in `infra`.
pub trait Hasher {
    /// The digest this hasher gives for `input`.
    spec fn spec_sha256_hex(&self, input: Seq<char>) -> Seq<char>;

    fn sha256_hex(&self, input: &str) -> (digest: String)
        ensures
            digest@ == self.spec_sha256_hex(input@),
    ;
}

/// The current time, as an RFC 3339 (UTC) string.
pub trait Clock {
    fn now_rfc3339(&self) -> String;
}

/// A source of unique identifiers.
pub trait IdGenerator {
    fn new_id(&self) -> String;
}

/// A scalar in a canonical record: a text or an integer.
#[derive(Debug, Clone, PartialEq, Eq)]
pub enum CanonicalValue {
    Text(String),
    Integer(i64),
}

/// The spec-level form of a [`CanonicalValue`].
pub enum CanonicalScalar {
    Text(Seq<char>),
    Integer(int),
}

impl View for CanonicalValue {
    type V = CanonicalScalar;

    open spec fn view(&self) -> CanonicalScalar {
        match self {
            CanonicalValue::Text(s) => CanonicalScalar::Text(s@),
            CanonicalValue::Integer(n) => CanonicalScalar::Integer(*n as int),
        }
    }
}

/// The spec-level form of a list of named fields.
pub open spec fn fields_view(fields: Seq<(String, CanonicalValue)>) -> Seq<(Seq<char>, CanonicalScalar)> {
    fields.map_values(|f: (String, CanonicalValue)| (f.0@, f.1@))
}

/// The fields gathered by name, a later field replacing an earlier one of
/// the same name (as collecting into a `BTreeMap` does).
pub open spec fn fields_map(fields: Seq<(Seq<char>, CanonicalScalar)>) -> Map<Seq<char>, CanonicalScalar>
    decreases fields.len(),
{
    if fields.len() == 0 {
        Map::empty()
    } else {
        fields_map(fields.drop_last()).insert(fields.last().0, fields.last().1)
    }
}

/// The JSON text that `serde_json` writes for a key-ordered map holding
/// these fields: it depends on the map's content alone, not on the order
/// the fields were given in.
pub uninterp spec fn canonical_json(fields: Map<Seq<char>, CanonicalScalar>) -> Seq<char>;

/// Fields given in another order give the same canonical text: exchanging
/// two neighbouring fields with different names changes nothing.
pub proof fn lemma_field_order_does_not_matter(
    front: Seq<(Seq<char>, CanonicalScalar)>,
    x: (Seq<char>, CanonicalScalar),
    y: (Seq<char>, CanonicalScalar),
    back: Seq<(Seq<char>, CanonicalScalar)>,
)
    requires
        x.0 != y.0,
    ensures
        canonical_json(fields_map(front.push(x).push(y) + back)) == canonical_json(
            fields_map(front.push(y).push(x) + back),
        ),
{
    lemma_swap_fields(front, x, y, back);
}

proof fn lemma_swap_fields(
    front: Seq<(Seq<char>, CanonicalScalar)>,
    x: (Seq<char>, CanonicalScalar),
    y: (Seq<char>, CanonicalScalar),
    back: Seq<(Seq<char>, CanonicalScalar)>,
)
    requires
        x.0 != y.0,
    ensures
        fields_map(front.push(x).push(y) + back) == fields_map(front.push(y).push(x) + back),
    decreases back.len(),
{
    let a = front.push(x).push(y);
    let b = front.push(y).push(x);
    if back.len() == 0 {
        assert(a + back =~= a);
        assert(b + back =~= b);
        assert(a.drop_last() =~= front.push(x));
        assert(front.push(x).drop_last() =~= front);
        assert(b.drop_last() =~= front.push(y));
        assert(front.push(y).drop_last() =~= front);
        assert(fields_map(front.push(x)) == fields_map(front).insert(x.0, x.1));
        assert(fields_map(front.push(y)) == fields_map(front).insert(y.0, y.1));
        assert(fields_map(a) == fields_map(front).insert(x.0, x.1).insert(y.0, y.1));
        assert(fields_map(b) == fields_map(front).insert(y.0, y.1).insert(x.0, x.1));
        assert(fields_map(a) =~= fields_map(b));
    } else {
        lemma_swap_fields(front, x, y, back.drop_last());
        assert((a + back).drop_last() =~= a + back.drop_last());
        assert((b + back).drop_last() =~= b + back.drop_last());
        assert((a + back).last() == back.last());
        assert((b + back).last() == back.last());
    }
}

/// With distinct names, the map of the fields holds each field under its
/// own name.
pub proof fn lemma_fields_map_lookup(fields: Seq<(Seq<char>, CanonicalScalar)>, k: int)
    requires
        names_distinct(fields),
        0 <= k < fields.len(),
    ensures
        fields_map(fields).dom().contains(fields[k].0),
        fields_map(fields)[fields[k].0] == fields[k].1,
    decreases fields.len(),
{
    let n = fields.len() - 1;
    if k < n {
        let init = fields.drop_last();
        assert(names_distinct(init)) by {
            assert forall|i: int, j: int| 0 <= i < j < init.len() implies #[trigger] init[i].0 != #[trigger] init[j].0 by {
                assert(init[i] == fields[i] && init[j] == fields[j]);
            }
        }
        lemma_fields_map_lookup(init, k);
        assert(init[k] == fields[k]);
        assert(fields[k].0 != fields[n].0);
    }
}

/// No two fields share a name.
pub open spec fn names_distinct(fields: Seq<(Seq<char>, CanonicalScalar)>) -> bool {
    forall|i: int, j: int| 0 <= i < j < fields.len() ==> #[trigger] fields[i].0 != #[trigger] fields[j].0
}

/// Normalises the fields to be hashed: a JSON object whose keys are written
/// in ascending order, so that the same content always gives the same text.
///
/// Converts each field to a `(String, serde_json::Value)` pair, collects
/// them into a `BTreeMap` (with distinct names, std's `FromIterator` keeps
/// every pair), and calls `serde_json::to_string` on it. The contract names
/// the result `canonical_json` of the map's content and claims nothing
/// else. Serialising such a map cannot fail.
#[verifier::external_body]
pub fn canonicalize(fields: &Vec<(String, CanonicalValue)>) -> (json: String)
    requires
        names_distinct(fields_view(fields@)),
    ensures
        json@ == canonical_json(fields_map(fields_view(fields@))),
{
    let map: BTreeMap<String, serde_json::Value> = fields
        .iter()
        .map(|(key, value)| match value {
            CanonicalValue::Text(text) => (key.clone(), serde_json::Value::from(text.clone())),
            CanonicalValue::Integer(number) => (key.clone(), serde_json::Value::from(*number)),
        })
        .collect();
    serde_json::to_string(&map).expect("a map of strings and integers always serialises")
}

} // verus!
