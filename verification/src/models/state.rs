use vstd::prelude::*;

verus! {

/// Where a row's deletion workflow stands once it has left the implicit
/// `Active` phase (an entity with no state entry at all is `Active`).
/// A row may only reach `Deleting` from `AskDelete`.
#[derive(Clone, Copy, PartialEq, Eq, Structural, Debug)]
pub enum DeleteStatus {
    AskDelete,
    Deleting,
}

/// Transient per-row deletion progress: `total` child deletions were fanned
/// out, `current` of them have resolved (successfully or not). Never
/// persisted; rebuilt empty on reload.
#[derive(Clone, Copy, PartialEq, Eq, Structural, Debug)]
pub struct State {
    pub delete_status: DeleteStatus,
    pub total: usize,
    pub current: usize,
}

impl State {
    /// A row that was just asked about and has no fan-out yet.
    pub open spec fn spec_ask_delete() -> State {
        State { delete_status: DeleteStatus::AskDelete, total: 0, current: 0 }
    }

    /// A sound progress record: never more resolutions than children.
    pub open spec fn wf(self) -> bool {
        self.current <= self.total
    }
}

} // verus!
