//! The kinds of events that the node tells of.

use vstd::prelude::*;

verus! {

/// The kind of an event.
#[derive(Clone, Copy, Debug, PartialEq, Eq, Structural)]
pub enum EventType {
    NewParentView,
    ParentFinalityCommitted,
    NewBottomUpCheckpoint,
    /// A new block is produced.
    NewBlock,
    /// A proposal is accepted.
    ProposalAccepted,
    /// A proposal is rejected.
    ProposalRejected,
}

impl EventType {
    /// The name of the kind: the name of the variant.
    pub open spec fn spec_name(self) -> Seq<char> {
        match self {
            EventType::NewParentView => "NewParentView"@,
            EventType::ParentFinalityCommitted => "ParentFinalityCommitted"@,
            EventType::NewBottomUpCheckpoint => "NewBottomUpCheckpoint"@,
            EventType::NewBlock => "NewBlock"@,
            EventType::ProposalAccepted => "ProposalAccepted"@,
            EventType::ProposalRejected => "ProposalRejected"@,
        }
    }

    /// The name of the kind, as it is written in the log.
    pub fn name(&self) -> (n: &'static str)
        ensures
            n@ == self.spec_name(),
    {
        match self {
            EventType::NewParentView => "NewParentView",
            EventType::ParentFinalityCommitted => "ParentFinalityCommitted",
            EventType::NewBottomUpCheckpoint => "NewBottomUpCheckpoint",
            EventType::NewBlock => "NewBlock",
            EventType::ProposalAccepted => "ProposalAccepted",
            EventType::ProposalRejected => "ProposalRejected",
        }
    }

    /// The name of the kind, as an owned text.
    pub fn to_text(&self) -> (s: String)
        ensures
            s@ == self.spec_name(),
    {
        self.name().to_owned()
    }
}

} // verus!
