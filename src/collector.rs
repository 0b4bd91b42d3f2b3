//! The result collector: an append-only container of check results. Workers
//! share one behind a lock; it is drained once every worker has finished.
use vstd::prelude::*;
use crate::record::CheckResult;

verus! {

pub struct ResultCollector {
    results: Vec<CheckResult>,
}

impl View for ResultCollector {
    type V = Seq<CheckResult>;

    closed spec fn view(&self) -> Seq<CheckResult> {
        self.results@
    }
}

impl ResultCollector {
    pub fn new() -> (c: ResultCollector)
        ensures
            c@ == Seq::<CheckResult>::empty(),
    {
        ResultCollector { results: Vec::new() }
    }

    pub fn len(&self) -> (n: usize)
        ensures
            n == self@.len(),
    {
        self.results.len()
    }

    /// Adds one result; nothing already held is lost or changed.
    pub fn append(&mut self, result: CheckResult)
        ensures
            final(self)@ == old(self)@.push(result),
    {
        self.results.push(result);
    }

    /// Hands out every result held, in the order appended; the collector is
    /// used up.
    pub fn drain(self) -> (all: Vec<CheckResult>)
        ensures
            all@ == self@,
    {
        self.results
    }
}

} // verus!
