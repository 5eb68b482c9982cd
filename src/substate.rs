//! What one transaction accumulates across its whole call tree.
use vstd::prelude::*;
use crate::types::{Address, LogEntry};

verus! {

/// `s` with `a` appended unless it is already there.
pub open spec fn with_once(s: Seq<Address>, a: Address) -> Seq<Address> {
    if s.contains(a) {
        s
    } else {
        s.push(a)
    }
}

pub struct Substate {
    /// Logs in emission order.
    pub logs: Vec<LogEntry>,
    /// Accounts to remove when the transaction commits, each listed once.
    pub suicides: Vec<Address>,
    /// Accounts whose code a creation installed, in order.
    pub contracts_created: Vec<Address>,
    /// Storage-clearing refund credits.
    pub refunds_count: u128,
}

impl Substate {
    pub open spec fn wf(&self) -> bool {
        self.suicides@.no_duplicates()
    }

    pub fn new() -> (r: Substate)
        ensures
            r.wf(),
            r.logs@ == Seq::<LogEntry>::empty(),
            r.suicides@ == Seq::<Address>::empty(),
            r.contracts_created@ == Seq::<Address>::empty(),
            r.refunds_count == 0,
    {
        Substate { logs: Vec::new(), suicides: Vec::new(), contracts_created: Vec::new(), refunds_count: 0 }
    }

    /// Whether `a` is scheduled for removal.
    pub fn is_suicided(&self, a: &Address) -> (r: bool)
        ensures
            r == self.suicides@.contains(*a),
    {
        let mut i: usize = 0;
        while i < self.suicides.len()
            invariant
                i <= self.suicides@.len(),
                forall|j: int| 0 <= j < i ==> self.suicides@[j] != *a,
            decreases self.suicides@.len() - i,
        {
            if self.suicides[i] == *a {
                return true;
            }
            i = i + 1;
        }
        false
    }

    /// Schedules `a` for removal; scheduling it again changes nothing.
    pub fn add_suicide(&mut self, a: Address)
        requires
            old(self).wf(),
        ensures
            final(self).wf(),
            final(self).suicides@ == with_once(old(self).suicides@, a),
            final(self).logs == old(self).logs,
            final(self).contracts_created == old(self).contracts_created,
            final(self).refunds_count == old(self).refunds_count,
    {
        if !self.is_suicided(&a) {
            self.suicides.push(a);
        }
    }
}

} // verus!
