//! The migration ledger: an append-only record, kept inside the store,
//! of every migration step that has been applied.
use vstd::prelude::*;

verus! {

/// One applied migration step: its version, its description and the
/// timestamp (seconds) at which it was applied.
#[derive(Debug, Clone, PartialEq)]
pub struct LedgerEntry {
    pub version: u32,
    pub description: String,
    pub applied_at: i64,
}

/// The ordered record of applied migrations.  On a freshly created
/// store the ledger is empty, which means version 0.
#[derive(Debug, Clone, PartialEq)]
pub struct Ledger {
    pub entries: Vec<LedgerEntry>,
}

impl Ledger {
    /// Versions in the ledger are strictly increasing and contiguous
    /// from 1: the entry at index `i` carries version `i + 1`.
    pub open spec fn wf(self) -> bool {
        &&& self.entries@.len() <= u32::MAX
        &&& forall|i: int|
            0 <= i < self.entries@.len() ==> #[trigger] self.entries@[i].version == i + 1
    }

    /// The highest applied version; 0 when the ledger is empty.
    pub open spec fn spec_version(self) -> int {
        self.entries@.len() as int
    }

    /// An empty ledger, as a freshly created store has it.
    pub fn new() -> (r: Ledger)
        ensures
            r.entries@ =~= Seq::<LedgerEntry>::empty(),
            r.wf(),
    {
        Ledger { entries: Vec::new() }
    }

    /// The highest applied version recorded in the ledger.
    pub fn version(&self) -> (v: u32)
        requires
            self.wf(),
        ensures
            v == self.spec_version(),
    {
        self.entries.len() as u32
    }
}

} // verus!
