//! Metadata tags (`#label` / `#label=value`) attached to records, and the
//! completion candidates learned from them.

pub mod auto_label;

use vstd::prelude::*;

use crate::text::{chars_of, copy_str, is_white_space, is_whitespace_char, starts_with, str_eq, string_from_range};

verus! {

/// Who attached a tag to a record.
#[derive(Debug, Clone, Copy, PartialEq, Eq, Structural)]
pub enum MetaSource {
    /// Typed by the user (a badge or `#label` in the body).
    User,
    /// Filled in automatically from what was observed at capture time.
    Auto,
    /// Derived by the capture rules from an explicit request.
    Derived,
}

impl MetaSource {
    pub open spec fn spec_as_str(self) -> Seq<char> {
        match self {
            MetaSource::User => "user"@,
            MetaSource::Auto => "auto"@,
            MetaSource::Derived => "derived"@,
        }
    }

    /// Stored form; anything unknown reads back as `User`.
    pub open spec fn spec_parse(s: Seq<char>) -> MetaSource {
        if s == "auto"@ {
            MetaSource::Auto
        } else if s == "derived"@ {
            MetaSource::Derived
        } else {
            MetaSource::User
        }
    }

    pub fn as_str(self) -> (s: &'static str)
        ensures
            s@ == self.spec_as_str(),
    {
        match self {
            MetaSource::User => "user",
            MetaSource::Auto => "auto",
            MetaSource::Derived => "derived",
        }
    }

    pub fn parse(value: &str) -> (r: MetaSource)
        ensures
            r == MetaSource::spec_parse(value@),
    {
        if str_eq(value, "auto") {
            MetaSource::Auto
        } else if str_eq(value, "derived") {
            MetaSource::Derived
        } else {
            MetaSource::User
        }
    }
}

/// Reading back the stored form of a source gives the same source.
pub proof fn lemma_meta_source_round_trip(source: MetaSource)
    ensures
        MetaSource::spec_parse(source.spec_as_str()) == source,
{
    reveal_strlit("user");
    reveal_strlit("auto");
    reveal_strlit("derived");
    assert("user"@[0] != "auto"@[0]);
    assert("user"@.len() != "derived"@.len());
    assert("auto"@.len() != "derived"@.len());
}

/// One tag on one record.
#[derive(Debug, Clone, PartialEq, Eq)]
pub struct MetaAssignment {
    pub label: String,
    pub value: Option<String>,
    pub source: MetaSource,
}

impl MetaAssignment {
    /// A tag the user typed.
    pub fn user(label: &str, value: Option<String>) -> (m: MetaAssignment)
        ensures
            m.label@ == label@,
            m.value == value,
            m.source == MetaSource::User,
    {
        MetaAssignment { label: copy_str(label), value, source: MetaSource::User }
    }

    /// A tag filled in automatically.
    pub fn auto(label: &str, value: &str) -> (m: MetaAssignment)
        ensures
            m.label@ == label@,
            m.value is Some && m.value->0@ == value@,
            m.source == MetaSource::Auto,
    {
        MetaAssignment { label: copy_str(label), value: Some(copy_str(value)), source: MetaSource::Auto }
    }

    /// A tag derived by the capture rules.
    pub fn derived(label: &str, value: &str) -> (m: MetaAssignment)
        ensures
            m.label@ == label@,
            m.value is Some && m.value->0@ == value@,
            m.source == MetaSource::Derived,
    {
        MetaAssignment {
            label: copy_str(label),
            value: Some(copy_str(value)),
            source: MetaSource::Derived,
        }
    }
}

/// Observed context of a record (`key` = `value`), kept apart from tags.
#[derive(Debug, Clone, PartialEq, Eq)]
pub struct DocumentMetadata {
    pub key: String,
    pub value: String,
    pub source: String,
}

/// A learned tag: the pool that completion draws from.
#[derive(Debug, Clone, PartialEq, Eq)]
pub struct MetaTag {
    pub id: String,
    pub workspace_id: String,
    pub label: String,
    pub shorthand: Option<String>,
    pub usage_count: i64,
    pub last_used_at: Option<String>,
}

/// One completion candidate.
#[derive(Debug, Clone, PartialEq, Eq)]
pub struct MetaSuggestion {
    pub label: String,
    pub shorthand: Option<String>,
    pub usage_count: i64,
}

/// The spec-level form of a tag: label, value and source.
pub type MetaTriple = (Seq<char>, Option<Seq<char>>, MetaSource);

pub open spec fn meta_view(m: MetaAssignment) -> MetaTriple {
    (
        m.label@,
        match m.value {
            Some(v) => Some(v@),
            None => None,
        },
        m.source,
    )
}

pub open spec fn metas_view(metas: Seq<MetaAssignment>) -> Seq<MetaTriple> {
    metas.map_values(|m: MetaAssignment| meta_view(m))
}

/// End of the word that starts at `i`: the next white space or the end.
pub open spec fn token_end(s: Seq<char>, i: int) -> int
    decreases s.len() - i,
{
    if i < 0 || i >= s.len() {
        s.len() as int
    } else if is_white_space(s[i]) {
        i
    } else {
        token_end(s, i + 1)
    }
}

/// First `'='` in `s[j..e]`, or `e`.
pub open spec fn eq_from(s: Seq<char>, j: int, e: int) -> int
    decreases e - j,
{
    if j >= e {
        e
    } else if s[j] == '=' {
        j
    } else {
        eq_from(s, j + 1, e)
    }
}

/// The tag that the word `s[i..e]` stands for: `#label` or `#label=value`
/// with a non-empty label; other words are no tag.
pub open spec fn word_tag(s: Seq<char>, i: int, e: int) -> Option<MetaTriple> {
    if e - i >= 2 && s[i] == '#' {
        let k = eq_from(s, i + 1, e);
        if k == i + 1 {
            None
        } else {
            Some(
                (
                    s.subrange(i + 1, k),
                    if k < e {
                        Some(s.subrange(k + 1, e))
                    } else {
                        None
                    },
                    MetaSource::User,
                ),
            )
        }
    } else {
        None
    }
}

pub proof fn lemma_token_end(s: Seq<char>, i: int)
    requires
        0 <= i <= s.len(),
    ensures
        i <= token_end(s, i) <= s.len(),
        i < s.len() && !is_white_space(s[i]) ==> token_end(s, i) > i,
    decreases s.len() - i,
{
    if i < s.len() && !is_white_space(s[i]) {
        lemma_token_end(s, i + 1);
    }
}

/// The tags written in the text from position `i`, word by word.
pub open spec fn tags_from(s: Seq<char>, i: int) -> Seq<MetaTriple>
    decreases s.len() - i,
{
    if i < 0 || i >= s.len() {
        Seq::empty()
    } else if is_white_space(s[i]) {
        tags_from(s, i + 1)
    } else {
        let e = token_end(s, i);
        proof {
            lemma_token_end(s, i);
        }
        match word_tag(s, i, e) {
            Some(t) => seq![t] + tags_from(s, e),
            None => tags_from(s, e),
        }
    }
}

fn find_token_end(v: &Vec<char>, i: usize) -> (e: usize)
    requires
        i <= v.len(),
    ensures
        e == token_end(v@, i as int),
        i <= e <= v.len(),
{
    let mut e = i;
    while e < v.len() && !is_whitespace_char(v[e])
        invariant
            i <= e <= v.len(),
            token_end(v@, i as int) == token_end(v@, e as int),
        decreases v.len() - e,
    {
        e = e + 1;
    }
    e
}

fn find_eq(v: &Vec<char>, j: usize, e: usize) -> (k: usize)
    requires
        j <= e <= v.len(),
    ensures
        k == eq_from(v@, j as int, e as int),
        j <= k <= e,
{
    let mut k = j;
    while k < e && v[k] != '='
        invariant
            j <= k <= e <= v.len(),
            eq_from(v@, j as int, e as int) == eq_from(v@, k as int, e as int),
        decreases e - k,
    {
        k = k + 1;
    }
    k
}

/// The `#label` / `#label=value` words of a text, in order, as user tags.
pub fn parse_meta_tags(body: &str) -> (tags: Vec<MetaAssignment>)
    ensures
        metas_view(tags@) == tags_from(body@, 0),
{
    let v = chars_of(body);
    let mut out: Vec<MetaAssignment> = Vec::new();
    let mut i: usize = 0;
    while i < v.len()
        invariant
            i <= v@.len(),
            v@ == body@,
            metas_view(out@) + tags_from(v@, i as int) == tags_from(v@, 0),
        decreases v.len() - i,
    {
        if is_whitespace_char(v[i]) {
            i = i + 1;
        } else {
            let e = find_token_end(&v, i);
            proof {
                lemma_token_end(v@, i as int);
            }
            let ghost before = metas_view(out@);
            if e - i >= 2 && v[i] == '#' {
                let k = find_eq(&v, i + 1, e);
                if k > i + 1 {
                    let label = string_from_range(&v, i + 1, k);
                    let value = if k < e {
                        Some(string_from_range(&v, k + 1, e))
                    } else {
                        None
                    };
                    out.push(MetaAssignment { label, value, source: MetaSource::User });
                    assert(metas_view(out@) =~= before.push(word_tag(v@, i as int, e as int)->0));
                }
            }
            assert(metas_view(out@) + tags_from(v@, e as int) =~= before + tags_from(v@, i as int));
            i = e;
        }
    }
    out
}

/// The tag is a completion candidate for `query`: the query is empty or a
/// prefix of its label or of its shorthand.
pub open spec fn candidate_for(tag: MetaTag, query: Seq<char>) -> bool {
    ||| query.len() == 0
    ||| starts_with(tag.label@, query)
    ||| (tag.shorthand is Some && starts_with(tag.shorthand->0@, query))
}

/// The candidates among `tags`, in the pool's order (most used first).
pub open spec fn candidates(tags: Seq<MetaTag>, query: Seq<char>) -> Seq<MetaTag>
    decreases tags.len(),
{
    if tags.len() == 0 {
        Seq::empty()
    } else if candidate_for(tags.last(), query) {
        candidates(tags.drop_last(), query).push(tags.last())
    } else {
        candidates(tags.drop_last(), query)
    }
}

pub open spec fn suggestion_of(tag: MetaTag) -> (Seq<char>, Option<Seq<char>>, int) {
    (
        tag.label@,
        match tag.shorthand {
            Some(s) => Some(s@),
            None => None,
        },
        tag.usage_count as int,
    )
}

pub open spec fn suggestion_view(s: MetaSuggestion) -> (Seq<char>, Option<Seq<char>>, int) {
    (
        s.label@,
        match s.shorthand {
            Some(v) => Some(v@),
            None => None,
        },
        s.usage_count as int,
    )
}

fn has_prefix(s: &str, query: &Vec<char>) -> (r: bool)
    ensures
        r == starts_with(s@, query@),
{
    let v = chars_of(s);
    if query.len() > v.len() {
        return false;
    }
    crate::text::matches_at(&v, 0, query)
}

fn copy_option(s: &Option<String>) -> (r: Option<String>)
    ensures
        match (r, *s) {
            (Some(a), Some(b)) => a@ == b@,
            (None, None) => true,
            _ => false,
        },
{
    match s {
        Some(v) => Some(copy_str(v.as_str())),
        None => None,
    }
}

/// `out` holds the first `limit` candidates for `query` among `tags`.
pub open spec fn spec_ranked(tags: Seq<MetaTag>, query: Seq<char>, limit: int, out: Seq<MetaSuggestion>) -> bool {
    let all = candidates(tags, query);
    let n = if all.len() < limit { all.len() as int } else { limit };
    &&& out.len() == n
    &&& forall|i: int| 0 <= i < n ==> suggestion_view(#[trigger] out[i]) == suggestion_of(all[i])
}

/// Completion candidates for `query` (the text after `#`): learned tags whose
/// label or shorthand starts with it (every tag when it is empty), in the
/// pool's order, at most `limit` of them.
pub fn rank_candidates(tags: &[MetaTag], query: &str, limit: usize) -> (out: Vec<MetaSuggestion>)
    ensures
        spec_ranked(tags@, query@, limit as int, out@),
{
    let q = chars_of(query);
    let mut out: Vec<MetaSuggestion> = Vec::new();
    let mut i: usize = 0;
    while i < tags.len() && out.len() < limit
        invariant
            i <= tags@.len(),
            q@ == query@,
            out@.len() <= limit,
            out@.len() == candidates(tags@.subrange(0, i as int), query@).len(),
            forall|k: int| 0 <= k < out@.len() ==> suggestion_view(#[trigger] out@[k]) == suggestion_of(
                candidates(tags@.subrange(0, i as int), query@)[k],
            ),
        decreases tags.len() - i,
    {
        let tag = &tags[i];
        let hit = q.len() == 0 || has_prefix(tag.label.as_str(), &q) || match &tag.shorthand {
            Some(s) => has_prefix(s.as_str(), &q),
            None => false,
        };
        proof {
            let pre = tags@.subrange(0, i + 1);
            assert(pre.drop_last() =~= tags@.subrange(0, i as int));
            assert(pre.last() == tags@[i as int]);
        }
        if hit {
            out.push(
                MetaSuggestion {
                    label: copy_str(tag.label.as_str()),
                    shorthand: copy_option(&tag.shorthand),
                    usage_count: tag.usage_count,
                },
            );
        }
        i = i + 1;
    }
    proof {
        lemma_candidates_prefix(tags@, query@, i as int);
        let all = candidates(tags@, query@);
        let pre = candidates(tags@.subrange(0, i as int), query@);
        if i == tags.len() {
            assert(tags@.subrange(0, i as int) =~= tags@);
        }
        assert forall|k: int| 0 <= k < out@.len() implies suggestion_view(#[trigger] out@[k]) == suggestion_of(all[k]) by {
            assert(all.subrange(0, pre.len() as int)[k] == all[k]);
        }
    }
    out
}

proof fn lemma_candidates_prefix(tags: Seq<MetaTag>, query: Seq<char>, j: int)
    requires
        0 <= j <= tags.len(),
    ensures
        candidates(tags.subrange(0, j), query).len() <= candidates(tags, query).len(),
        candidates(tags, query).subrange(0, candidates(tags.subrange(0, j), query).len() as int)
            == candidates(tags.subrange(0, j), query),
    decreases tags.len() - j,
{
    if j == tags.len() {
        assert(tags.subrange(0, j) =~= tags);
        assert(candidates(tags, query).subrange(0, candidates(tags, query).len() as int) =~= candidates(tags, query));
    } else {
        let t = tags.subrange(0, j + 1);
        assert(t.drop_last() =~= tags.subrange(0, j));
        lemma_candidates_prefix(tags, query, j + 1);
        let a = candidates(tags.subrange(0, j), query);
        let b = candidates(t, query);
        let all = candidates(tags, query);
        assert(all.subrange(0, a.len() as int) =~= b.subrange(0, a.len() as int));
        assert(b.subrange(0, a.len() as int) =~= a);
    }
}


/// No character of `t` is white space (spaces, tabs and line breaks among them).
pub open spec fn free_of_white_space(t: Seq<char>) -> bool {
    forall|k: int| 0 <= k < t.len() ==> !is_white_space(#[trigger] t[k])
}

/// `a` and `b` hold the same words: they have the same length and, at each
/// position, the same character or two white-space characters (perhaps of
/// different kinds, such as a space and a line break).
pub open spec fn same_words(a: Seq<char>, b: Seq<char>) -> bool {
    &&& a.len() == b.len()
    &&& forall|k: int| 0 <= k < a.len() ==> (#[trigger] a[k] == b[k] || (is_white_space(a[k]) && is_white_space(b[k])))
}

proof fn lemma_token_chars(s: Seq<char>, i: int)
    requires
        0 <= i <= s.len(),
    ensures
        forall|k: int| i <= k < token_end(s, i) ==> !is_white_space(#[trigger] s[k]),
    decreases s.len() - i,
{
    if i < s.len() && !is_white_space(s[i]) {
        lemma_token_chars(s, i + 1);
    }
}

proof fn lemma_eq_from_bounds(s: Seq<char>, j: int, e: int)
    requires
        j <= e,
    ensures
        j <= eq_from(s, j, e) <= e,
    decreases e - j,
{
    if j < e && s[j] != '=' {
        lemma_eq_from_bounds(s, j + 1, e);
    }
}

/// Every tag read from a text has a label and a value free of white space:
/// a space, a tab or a line break ends the word that a tag is read from.
pub proof fn lemma_parsed_tags_have_no_white_space(s: Seq<char>, i: int)
    requires
        0 <= i,
    ensures
        forall|n: int|
            0 <= n < tags_from(s, i).len() ==> free_of_white_space((#[trigger] tags_from(s, i)[n]).0) && (
            tags_from(s, i)[n].1 matches Some(v) ==> free_of_white_space(v)),
    decreases s.len() - i,
{
    if i < s.len() {
        if is_white_space(s[i]) {
            lemma_parsed_tags_have_no_white_space(s, i + 1);
        } else {
            let e = token_end(s, i);
            lemma_token_end(s, i);
            lemma_token_chars(s, i);
            lemma_parsed_tags_have_no_white_space(s, e);
            let rest = tags_from(s, e);
            match word_tag(s, i, e) {
                Some(t) => {
                    let k = eq_from(s, i + 1, e);
                    lemma_eq_from_bounds(s, i + 1, e);
                    assert(free_of_white_space(t.0)) by {
                        assert forall|c: int| 0 <= c < t.0.len() implies !is_white_space(#[trigger] t.0[c]) by {
                            assert(t.0[c] == s[i + 1 + c]);
                        }
                    }
                    if k < e {
                        let v = s.subrange(k + 1, e);
                        assert(free_of_white_space(v)) by {
                            assert forall|c: int| 0 <= c < v.len() implies !is_white_space(#[trigger] v[c]) by {
                                assert(v[c] == s[k + 1 + c]);
                            }
                        }
                    }
                    let all = seq![t] + rest;
                    assert(tags_from(s, i) == all);
                    assert forall|n: int| 0 <= n < all.len() implies free_of_white_space((#[trigger] all[n]).0) && (
                    all[n].1 matches Some(v) ==> free_of_white_space(v)) by {
                        if n > 0 {
                            assert(all[n] == rest[n - 1]);
                        }
                    }
                },
                None => {},
            }
        }
    }
}

proof fn lemma_same_words_token_end(a: Seq<char>, b: Seq<char>, i: int)
    requires
        same_words(a, b),
        0 <= i <= a.len(),
    ensures
        token_end(a, i) == token_end(b, i),
    decreases a.len() - i,
{
    if i < a.len() {
        assert(a[i] == b[i] || (is_white_space(a[i]) && is_white_space(b[i])));
        if !is_white_space(a[i]) {
            lemma_same_words_token_end(a, b, i + 1);
        }
    }
}

proof fn lemma_same_eq_from(a: Seq<char>, b: Seq<char>, j: int, e: int)
    requires
        0 <= j <= e <= a.len() <= b.len(),
        forall|k: int| j <= k < e ==> #[trigger] a[k] == b[k],
    ensures
        eq_from(a, j, e) == eq_from(b, j, e),
    decreases e - j,
{
    if j < e {
        lemma_same_eq_from(a, b, j + 1, e);
    }
}

/// Only where the words are matters, not which white space separates them:
/// texts with the same words, one perhaps using line breaks where the other
/// uses spaces, give the same tags.
pub proof fn lemma_tags_ignore_kind_of_white_space(a: Seq<char>, b: Seq<char>, i: int)
    requires
        same_words(a, b),
        0 <= i,
    ensures
        tags_from(a, i) == tags_from(b, i),
    decreases a.len() - i,
{
    if i < a.len() {
        assert(a[i] == b[i] || (is_white_space(a[i]) && is_white_space(b[i])));
        if is_white_space(a[i]) {
            lemma_tags_ignore_kind_of_white_space(a, b, i + 1);
        } else {
            let e = token_end(a, i);
            lemma_token_end(a, i);
            lemma_token_chars(a, i);
            lemma_same_words_token_end(a, b, i);
            assert forall|k: int| i <= k < e implies #[trigger] a[k] == b[k] by {
                assert(!is_white_space(a[k]));
                assert(a[k] == b[k] || (is_white_space(a[k]) && is_white_space(b[k])));
            }
            if e - i >= 2 {
                lemma_same_eq_from(a, b, i + 1, e);
                let k = eq_from(a, i + 1, e);
                lemma_eq_from_bounds(a, i + 1, e);
                assert(a.subrange(i + 1, k) =~= b.subrange(i + 1, k));
                if k < e {
                    assert(a.subrange(k + 1, e) =~= b.subrange(k + 1, e));
                }
            }
            assert(word_tag(a, i, e) == word_tag(b, i, e));
            lemma_tags_ignore_kind_of_white_space(a, b, e);
        }
    }
}

/// A `#tag` on the line after a line break is read exactly as one after a
/// space: the two texts give the same tags.
pub proof fn lemma_line_break_separates_like_space(before: Seq<char>, after: Seq<char>)
    ensures
        tags_from(before + seq!['\n'] + after, 0) == tags_from(before + seq![' '] + after, 0),
{
    let a = before + seq!['\n'] + after;
    let b = before + seq![' '] + after;
    assert(('\n' as u32) == 10u32);
    assert((' ' as u32) == 32u32);
    assert forall|k: int| 0 <= k < a.len() implies (#[trigger] a[k] == b[k] || (is_white_space(a[k]) && is_white_space(
        b[k],
    ))) by {
        if k < before.len() {
            assert(a[k] == before[k] && b[k] == before[k]);
        } else if k == before.len() {
            assert(a[k] == '\n' && b[k] == ' ');
        } else {
            assert(a[k] == after[k - before.len() - 1] && b[k] == after[k - before.len() - 1]);
        }
    }
    lemma_tags_ignore_kind_of_white_space(a, b, 0);
}

/// A learned tag is a completion candidate exactly when the query is empty
/// or begins its label or its shorthand; a label that begins with the query
/// counts whether or not the tag also has a shorthand.
pub proof fn lemma_candidates_are_prefix_matches(tags: Seq<MetaTag>, query: Seq<char>, t: MetaTag)
    ensures
        candidates(tags, query).contains(t) <==> tags.contains(t) && {
            ||| query.len() == 0
            ||| (query.len() <= t.label@.len() && t.label@.subrange(0, query.len() as int) == query)
            ||| (t.shorthand matches Some(sh) && query.len() <= sh@.len() && sh@.subrange(0, query.len() as int)
                == query)
        },
    decreases tags.len(),
{
    if tags.len() == 0 {
        vstd::seq_lib::lemma_seq_empty_contains_nothing(t);
        assert(candidates(tags, query) =~= Seq::<MetaTag>::empty());
    } else {
        let init = tags.drop_last();
        let x = tags.last();
        lemma_candidates_are_prefix_matches(init, query, t);
        assert(tags =~= init.push(x));
        vstd::seq_lib::lemma_seq_contains_after_push(init, x, t);
        vstd::seq_lib::lemma_seq_contains_after_push(candidates(init, query), x, t);
    }
}

proof fn lemma_candidates_len(tags: Seq<MetaTag>, query: Seq<char>)
    ensures
        candidates(tags, query).len() <= tags.len(),
    decreases tags.len(),
{
    if tags.len() > 0 {
        lemma_candidates_len(tags.drop_last(), query);
    }
}

/// When the limit leaves room for every tag, a learned tag whose label
/// begins with the query is offered, whatever its shorthand.
pub proof fn lemma_label_prefix_is_offered(
    tags: Seq<MetaTag>,
    query: Seq<char>,
    limit: int,
    out: Seq<MetaSuggestion>,
    j: int,
)
    requires
        spec_ranked(tags, query, limit, out),
        tags.len() <= limit,
        0 <= j < tags.len(),
        query.len() <= tags[j].label@.len(),
        tags[j].label@.subrange(0, query.len() as int) == query,
    ensures
        exists|k: int| 0 <= k < out.len() && suggestion_view(#[trigger] out[k]) == suggestion_of(tags[j]),
{
    let all = candidates(tags, query);
    assert(tags[j] == tags[j]);
    lemma_candidates_are_prefix_matches(tags, query, tags[j]);
    lemma_candidates_len(tags, query);
    assert(all.contains(tags[j]));
    let k = choose|k: int| 0 <= k < all.len() && all[k] == tags[j];
    assert(suggestion_view(out[k]) == suggestion_of(all[k]));
}

} // verus!
