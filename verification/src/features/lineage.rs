//! Verifying the hash chain. Links are appended by the features that create
//! records (capture, automation) inside their own transactions; this only
//! reads the chain back and checks it.

use vstd::prelude::*;

use crate::domain::lineage::{digest_of, spec_verify, LineageLedger, LineageRecord, VerifyResult};
use crate::domain::ports::LineageQuery;
use crate::domain::shared::Hasher;

verus! {

pub struct VerifyLineage<'a> {
    lineage: &'a dyn LineageQuery,
    hasher: &'a dyn Hasher,
}

impl<'a> VerifyLineage<'a> {
    /// The digest function of the hasher this use case checks with.
    pub closed spec fn digest(&self) -> spec_fn(Seq<char>) -> Seq<char> {
        digest_of(self.hasher)
    }

    pub fn new(lineage: &'a dyn LineageQuery, hasher: &'a dyn Hasher) -> Self {
        VerifyLineage { lineage, hasher }
    }

    /// The verdict on the workspace's chain as stored.
    pub fn execute(&self, workspace_id: &str) -> (r: Result<VerifyResult, String>)
        ensures
            r is Ok ==> exists|records: Seq<LineageRecord>|
                r->Ok_0 == spec_verify(self.digest(), records),
    {
        let records = self.lineage.list(workspace_id)?;
        let ledger = LineageLedger::new(self.hasher);
        let verdict = ledger.verify(records.as_slice());
        assert(verdict == spec_verify(self.digest(), records@));
        Ok(verdict)
    }
}

} // verus!
