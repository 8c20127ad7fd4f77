//! Completion when `#` is typed: candidates come from the learned tags.

use vstd::prelude::*;

use crate::domain::meta::{rank_candidates, spec_ranked, MetaSuggestion, MetaTag};
use crate::domain::ports::MetaTagQuery;

verus! {

/// How many learned tags are read as the candidate pool.
pub const TAG_POOL_LIMIT: usize = 500;

/// `out` is what ranking some pool of learned tags for `query` gives.
pub open spec fn ranked_from_some_pool(query: Seq<char>, limit: int, out: Seq<MetaSuggestion>) -> bool {
    exists|pool: Seq<MetaTag>| #[trigger] spec_ranked(pool, query, limit, out)
}

pub struct CompleteMetaTag<'a> {
    tags: &'a dyn MetaTagQuery,
}

impl<'a> CompleteMetaTag<'a> {
    pub fn new(tags: &'a dyn MetaTagQuery) -> Self {
        CompleteMetaTag { tags }
    }

    /// `query` is the text after `#`; an empty query lists the most used tags.
    pub fn execute(&self, workspace_id: &str, query: &str, limit: usize) -> (r: Result<
        Vec<MetaSuggestion>,
        String,
    >)
        ensures
            r is Ok ==> ranked_from_some_pool(query@, limit as int, r->Ok_0@),
    {
        let tags = match self.tags.all(workspace_id, TAG_POOL_LIMIT) {
            Ok(tags) => tags,
            Err(e) => return Err(e),
        };
        let ranked = rank_candidates(tags.as_slice(), query, limit);
        assert(spec_ranked(tags@, query@, limit as int, ranked@));
        Ok(ranked)
    }
}

} // verus!
