//! The shared progress aggregate.
//!
//! One reporter is shared by every job the orchestrator runs, so the
//! counts form a single continuous stream across batches. The runner
//! applies each update exactly once per terminal artifact; completed
//! counts never decrease and never exceed the registered totals.

use vstd::prelude::*;

verus! {

/// Aggregate totals and completions over one or more jobs.
#[derive(Debug, Clone)]
pub struct ProgressReporter {
    pub total_items: usize,
    pub completed_items: usize,
    pub total_bytes: u64,
    pub completed_bytes: u64,
    /// Destination path of the artifact most recently brought to a
    /// terminal state.
    pub current_label: String,
}

impl ProgressReporter {
    /// Completed counts never exceed the registered totals.
    pub open spec fn wf(&self) -> bool {
        &&& self.completed_items <= self.total_items
        &&& self.completed_bytes <= self.total_bytes
    }

    pub fn new() -> (r: ProgressReporter)
        ensures
            r.wf(),
            r.total_items == 0,
            r.completed_items == 0,
            r.total_bytes == 0,
            r.completed_bytes == 0,
    {
        ProgressReporter {
            total_items: 0,
            completed_items: 0,
            total_bytes: 0,
            completed_bytes: 0,
            current_label: String::new(),
        }
    }

    /// Registers a batch before it runs: raises the totals, leaves the
    /// completed counts untouched. Byte totals saturate at the type's
    /// maximum, since they are only an estimate for display.
    pub fn register_batch(&mut self, items: usize, bytes: u64)
        requires
            old(self).wf(),
            old(self).total_items + items <= usize::MAX,
        ensures
            final(self).wf(),
            final(self).total_items == old(self).total_items + items,
            final(self).completed_items == old(self).completed_items,
            final(self).completed_bytes == old(self).completed_bytes,
            final(self).total_bytes == (if old(self).total_bytes + bytes <= u64::MAX {
                old(self).total_bytes + bytes
            } else {
                u64::MAX as int
            }),
            final(self).current_label == old(self).current_label,
    {
        self.total_items = self.total_items + items;
        self.total_bytes = self.total_bytes.saturating_add(bytes);
    }

    /// Records one artifact reaching a terminal state: completed items
    /// rise by exactly one, completed bytes by the artifact's hint,
    /// capped at the byte total, and the label follows the artifact.
    pub fn complete_one(&mut self, bytes: u64, label: String)
        requires
            old(self).wf(),
            old(self).completed_items < old(self).total_items,
        ensures
            final(self).wf(),
            final(self).completed_items == old(self).completed_items + 1,
            final(self).completed_bytes == (if old(self).completed_bytes + bytes <= old(
                self,
            ).total_bytes {
                old(self).completed_bytes + bytes
            } else {
                old(self).total_bytes as int
            }),
            final(self).total_items == old(self).total_items,
            final(self).total_bytes == old(self).total_bytes,
            final(self).current_label == label,
    {
        self.completed_items = self.completed_items + 1;
        let grown = self.completed_bytes.saturating_add(bytes);
        self.completed_bytes = if grown <= self.total_bytes {
            grown
        } else {
            self.total_bytes
        };
        self.current_label = label;
    }

    /// A snapshot of the aggregate: (total items, completed items,
    /// total bytes, completed bytes).
    pub fn snapshot(&self) -> (r: (usize, usize, u64, u64))
        ensures
            r.0 == self.total_items,
            r.1 == self.completed_items,
            r.2 == self.total_bytes,
            r.3 == self.completed_bytes,
    {
        (self.total_items, self.completed_items, self.total_bytes, self.completed_bytes)
    }
}

} // verus!
