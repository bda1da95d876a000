//! The client through which the chain rules reach the finality provider and
//! the vote tally, and the switch that turns it off.

use crate::finality::{FinalityView, IPCParentFinality};
use crate::message::{Effects, ProposalView, TopDownProposal};
use crate::provider::{
    changes_between, msgs_between, FinalityWithNull, ParentFinalityCommitted, ProviderView,
};
use crate::hexfmt::hex_text;
use crate::voting::{power_from, TallyView, ValidatorKey, VoteTally, Weight};
use vstd::prelude::*;

verus! {

/// A part of the node that may be switched off.
#[derive(Clone, Debug)]
pub enum Toggle<T> {
    Enabled(T),
    Disabled,
}

impl<T> Toggle<T> {
    /// A part that is switched on.
    pub fn enabled(inner: T) -> (t: Self)
        ensures
            t == Toggle::Enabled(inner),
    {
        Toggle::Enabled(inner)
    }

    /// A part that is switched off.
    pub fn disabled() -> (t: Self)
        ensures
            t == Toggle::<T>::Disabled,
    {
        Toggle::Disabled
    }

    /// Whether the part is switched on.
    pub fn is_enabled(&self) -> (b: bool)
        ensures
            b == (self is Enabled),
    {
        match self {
            Toggle::Enabled(_) => true,
            Toggle::Disabled => false,
        }
    }
}

impl Toggle<TopdownClient> {
    /// The invariant of a client that may be switched off: that of the
    /// client, if it is switched on.
    pub open spec fn wf(&self) -> bool {
        *self matches Toggle::Enabled(client) ==> client.wf()
    }

    /// The proposal of the client; a client that is switched off has none to
    /// give.
    pub fn find_topdown_proposal(&self) -> (r: Result<Option<TopDownProposal>, TopdownError>)
        requires
            self.wf(),
        ensures
            match *self {
                Toggle::Enabled(client) => r matches Ok(found) && found.is_some() == proposal_of(
                    client.provider@,
                ).is_some() && (found matches Some(p) ==> Some(p@) == proposal_of(
                    client.provider@,
                )),
                Toggle::Disabled => r == Err::<Option<TopDownProposal>, TopdownError>(
                    TopdownError::NotEnabled,
                ),
            },
    {
        match self {
            Toggle::Enabled(client) => Ok(client.find_topdown_proposal()),
            Toggle::Disabled => Err(TopdownError::NotEnabled),
        }
    }

    /// Whether the client accepts `proposal`; a client that is switched off
    /// accepts none.
    pub fn validate_quorum_proposal(&self, proposal: &TopDownProposal) -> (r: Result<
        (),
        TopdownError,
    >)
        requires
            self.wf(),
        ensures
            match *self {
                Toggle::Enabled(client) => (r is Ok <==> quorum_accepts(
                    client.provider@,
                    client.tally@,
                    proposal.finality@,
                )) && (r is Err ==> r == Err::<(), TopdownError>(TopdownError::ProposalInvalid)),
                Toggle::Disabled => r == Err::<(), TopdownError>(TopdownError::NotEnabled),
            },
    {
        match self {
            Toggle::Enabled(client) => client.validate_quorum_proposal(proposal),
            Toggle::Disabled => Err(TopdownError::NotEnabled),
        }
    }

    /// Has the client take note that `finality` was executed; a client that
    /// is switched off refuses and stays as it is.
    pub fn parent_finalized(&mut self, finality: IPCParentFinality) -> (r: Result<
        ParentFinalityCommitted,
        TopdownError,
    >)
        requires
            old(self).wf(),
            finality.block_hash@.len() * 2 <= isize::MAX,
        ensures
            final(self).wf(),
            match *old(self) {
                Toggle::Enabled(before) => {
                    &&& r matches Ok(event) && event.block_height == finality.height
                        && event.block_hash@ == hex_text(finality.block_hash@)
                    &&& *final(self) matches Toggle::Enabled(after) && after.provider@
                        == before.provider@.commit(finality@) && after.tally@
                        == before.tally@.finalized(finality.height, finality.block_hash@)
                },
                Toggle::Disabled => r == Err::<ParentFinalityCommitted, TopdownError>(
                    TopdownError::NotEnabled,
                ) && *final(self) == *old(self),
            },
    {
        match self {
            Toggle::Enabled(client) => Ok(client.parent_finalized(finality)),
            Toggle::Disabled => Err(TopdownError::NotEnabled),
        }
    }

    /// Replaces the power table of the client's tally; a client that is
    /// switched off refuses and stays as it is.
    pub fn update_power_table(&mut self, power_table: Vec<(ValidatorKey, Weight)>) -> (r: Result<
        (),
        TopdownError,
    >)
        requires
            old(self).wf(),
        ensures
            final(self).wf(),
            match *old(self) {
                Toggle::Enabled(before) => r is Ok && (*final(self) matches Toggle::Enabled(after)
                    && after.provider == before.provider && after.tally@ == (TallyView {
                    power: power_from(power_table@),
                    ..before.tally@
                })),
                Toggle::Disabled => r == Err::<(), TopdownError>(TopdownError::NotEnabled)
                    && *final(self) == *old(self),
            },
    {
        match self {
            Toggle::Enabled(client) => {
                client.update_power_table(power_table);
                Ok(())
            },
            Toggle::Disabled => Err(TopdownError::NotEnabled),
        }
    }
}

/// Why the client refuses a proposal or a commit.
#[derive(Clone, Copy, Debug, PartialEq, Eq, Structural)]
pub enum TopdownError {
    /// The client is switched off.
    NotEnabled,
    /// The proposal is not known to the provider, or no quorum voted for it.
    ProposalInvalid,
}

/// The finality provider and the vote tally of one node.
#[derive(Clone, Debug)]
pub struct TopdownClient {
    pub provider: FinalityWithNull,
    pub tally: VoteTally,
}

/// The proposal that a provider makes: its next finality, with the effects
/// of the heights above the committed one and up to the proposed one.
pub open spec fn proposal_of(v: ProviderView) -> Option<ProposalView> {
    match (v.next_proposal(), v.committed) {
        (Some(f), Some(c)) => Some(
            ProposalView {
                finality: f,
                msgs: msgs_between(v.cache, c.height as int, f.height as int),
                validator_changes: changes_between(v.cache, c.height as int, f.height as int),
            },
        ),
        _ => None,
    }
}

/// Whether a node accepts the finality `f`: the provider knows it, and the
/// votes for it weigh more than two thirds of the total weight.
pub open spec fn quorum_accepts(provider: ProviderView, tally: TallyView, f: FinalityView) -> bool {
    provider.accepts_proposal(f) && tally.has_quorum(f.height, f.block_hash)
}

impl TopdownClient {
    /// The invariant of the client: that of its two parts.
    pub open spec fn wf(&self) -> bool {
        self.provider.wf() && self.tally.wf()
    }

    /// A client over `provider` and `tally`.
    pub fn new(provider: FinalityWithNull, tally: VoteTally) -> (client: Self)
        ensures
            client.provider == provider,
            client.tally == tally,
    {
        TopdownClient { provider, tally }
    }

    /// The proposal to put into the next block, if the provider has one.
    pub fn find_topdown_proposal(&self) -> (r: Option<TopDownProposal>)
        requires
            self.wf(),
        ensures
            r.is_some() == proposal_of(self.provider@).is_some(),
            r matches Some(p) ==> Some(p@) == proposal_of(self.provider@),
    {
        let finality = match self.provider.next_proposal() {
            Some(f) => f,
            None => {
                return None;
            },
        };
        let committed = match self.provider.last_committed_finality() {
            Some(c) => c,
            None => {
                return None;
            },
        };
        let msgs = self.provider.top_down_msgs_from(committed.height, finality.height);
        let changes = self.provider.validator_changes_from(committed.height, finality.height);
        Some(TopDownProposal { finality, effects: Effects(msgs, changes) })
    }

    /// Whether this node accepts `proposal`: the provider knows its finality,
    /// and a quorum voted for it.
    pub fn validate_quorum_proposal(&self, proposal: &TopDownProposal) -> (r: Result<
        (),
        TopdownError,
    >)
        requires
            self.wf(),
        ensures
            r is Ok <==> quorum_accepts(self.provider@, self.tally@, proposal.finality@),
            r is Err ==> r == Err::<(), TopdownError>(TopdownError::ProposalInvalid),
    {
        if !self.provider.check_proposal(&proposal.finality) {
            return Err(TopdownError::ProposalInvalid);
        }
        if !self.tally.has_quorum(proposal.finality.height, &proposal.finality.block_hash) {
            return Err(TopdownError::ProposalInvalid);
        }
        Ok(())
    }

    /// Takes note that `finality` was executed: the provider commits it, and
    /// the tally drops what lies below it.
    pub fn parent_finalized(&mut self, finality: IPCParentFinality) -> (event:
        ParentFinalityCommitted)
        requires
            old(self).wf(),
            finality.block_hash@.len() * 2 <= isize::MAX,
        ensures
            final(self).wf(),
            final(self).provider@ == old(self).provider@.commit(finality@),
            final(self).tally@ == old(self).tally@.finalized(finality.height, finality.block_hash@),
            event.block_height == finality.height,
            event.block_hash@ == hex_text(finality.block_hash@),
    {
        let previous = self.provider.last_committed_finality();
        let copy = finality.duplicate();
        let event = self.provider.set_new_finality(copy, previous);
        self.tally.set_finalized(finality.height, finality.block_hash);
        event
    }

    /// Replaces the power table of the tally.
    pub fn update_power_table(&mut self, power_table: Vec<(ValidatorKey, Weight)>)
        requires
            old(self).wf(),
        ensures
            final(self).wf(),
            final(self).provider == old(self).provider,
            final(self).tally@ == (TallyView { power: power_from(power_table@), ..old(self).tally@ }),
    {
        self.tally.set_power_table(power_table);
    }
}

} // verus!
