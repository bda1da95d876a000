//! The messages of the child chain, as far as the chain rules read them.

use crate::bytes::clone_bytes;
use crate::finality::{
    clone_changes, clone_msgs, EnvelopeView, FinalityView, IPCParentFinality, IpcEnvelope,
    StakingChangeRequest, StakingChangeView,
};
use vstd::prelude::*;

verus! {

/// A message for the execution layer. Addresses, parameters and signatures
/// are held as their encoded bytes.
#[derive(Clone, Debug, PartialEq, Eq)]
pub struct FvmMessage {
    pub version: u64,
    pub from: Vec<u8>,
    pub to: Vec<u8>,
    pub sequence: u64,
    pub value: u128,
    pub method_num: u64,
    pub params: Vec<u8>,
    pub gas_limit: u64,
    pub gas_fee_cap: u128,
    pub gas_premium: u128,
}

/// An execution message as a mathematical value.
pub struct FvmMessageView {
    pub version: u64,
    pub from: Seq<u8>,
    pub to: Seq<u8>,
    pub sequence: u64,
    pub value: u128,
    pub method_num: u64,
    pub params: Seq<u8>,
    pub gas_limit: u64,
    pub gas_fee_cap: u128,
    pub gas_premium: u128,
}

impl View for FvmMessage {
    type V = FvmMessageView;

    open spec fn view(&self) -> FvmMessageView {
        FvmMessageView {
            version: self.version,
            from: self.from@,
            to: self.to@,
            sequence: self.sequence,
            value: self.value,
            method_num: self.method_num,
            params: self.params@,
            gas_limit: self.gas_limit,
            gas_fee_cap: self.gas_fee_cap,
            gas_premium: self.gas_premium,
        }
    }
}

impl FvmMessage {
    /// A copy of this message.
    pub fn duplicate(&self) -> (m: Self)
        ensures
            m@ == self@,
    {
        FvmMessage {
            version: self.version,
            from: clone_bytes(&self.from),
            to: clone_bytes(&self.to),
            sequence: self.sequence,
            value: self.value,
            method_num: self.method_num,
            params: clone_bytes(&self.params),
            gas_limit: self.gas_limit,
            gas_fee_cap: self.gas_fee_cap,
            gas_premium: self.gas_premium,
        }
    }
}

/// A transaction of a user: a message and the signature of its sender.
#[derive(Clone, Debug, PartialEq, Eq)]
pub struct SignedMessage {
    pub message: FvmMessage,
    pub signature: Vec<u8>,
}

/// A signed message as a mathematical value.
pub struct SignedMessageView {
    pub message: FvmMessageView,
    pub signature: Seq<u8>,
}

impl View for SignedMessage {
    type V = SignedMessageView;

    open spec fn view(&self) -> SignedMessageView {
        SignedMessageView { message: self.message@, signature: self.signature@ }
    }
}

impl SignedMessage {
    /// A copy of this message.
    pub fn duplicate(&self) -> (m: Self)
        ensures
            m@ == self@,
    {
        SignedMessage { message: self.message.duplicate(), signature: clone_bytes(&self.signature) }
    }
}

/// A bottom-up checkpoint of a subnet: the subnet, the height, and the
/// content identifier under which its messages can be fetched.
#[derive(Clone, Debug, PartialEq, Eq)]
pub struct BottomUpCheckpoint {
    pub subnet_id: Vec<u8>,
    pub height: u64,
    pub bottom_up_messages: Vec<u8>,
}

/// A checkpoint as a mathematical value.
pub struct CheckpointView {
    pub subnet_id: Seq<u8>,
    pub height: u64,
    pub bottom_up_messages: Seq<u8>,
}

/// A checkpoint with the certificate of the validators that signed it.
#[derive(Clone, Debug, PartialEq, Eq)]
pub struct CertifiedMessage {
    pub message: BottomUpCheckpoint,
    pub certificate: Vec<u8>,
}

/// A certified checkpoint as a mathematical value.
pub struct CertifiedView {
    pub message: CheckpointView,
    pub certificate: Seq<u8>,
}

impl View for CertifiedMessage {
    type V = CertifiedView;

    open spec fn view(&self) -> CertifiedView {
        CertifiedView {
            message: CheckpointView {
                subnet_id: self.message.subnet_id@,
                height: self.message.height,
                bottom_up_messages: self.message.bottom_up_messages@,
            },
            certificate: self.certificate@,
        }
    }
}

impl CertifiedMessage {
    /// A copy of this message.
    pub fn duplicate(&self) -> (m: Self)
        ensures
            m@ == self@,
    {
        CertifiedMessage {
            message: BottomUpCheckpoint {
                subnet_id: clone_bytes(&self.message.subnet_id),
                height: self.message.height,
                bottom_up_messages: clone_bytes(&self.message.bottom_up_messages),
            },
            certificate: clone_bytes(&self.certificate),
        }
    }
}

/// A certified checkpoint that a relayer passes on, with what the relayer
/// pays for its validation.
#[derive(Clone, Debug, PartialEq, Eq)]
pub struct RelayedMessage {
    pub message: CertifiedMessage,
    pub relayer: Vec<u8>,
    pub sequence: u64,
    pub gas_limit: u64,
    pub gas_fee_cap: u128,
    pub gas_premium: u128,
}

/// A relayed message with the signature of the relayer.
#[derive(Clone, Debug, PartialEq, Eq)]
pub struct SignedRelayedMessage {
    pub message: RelayedMessage,
    pub signature: Vec<u8>,
}

/// A relayed message as a mathematical value.
pub struct RelayedView {
    pub message: CertifiedView,
    pub relayer: Seq<u8>,
    pub sequence: u64,
    pub gas_limit: u64,
    pub gas_fee_cap: u128,
    pub gas_premium: u128,
    pub signature: Seq<u8>,
}

impl View for SignedRelayedMessage {
    type V = RelayedView;

    open spec fn view(&self) -> RelayedView {
        RelayedView {
            message: self.message.message@,
            relayer: self.message.relayer@,
            sequence: self.message.sequence,
            gas_limit: self.message.gas_limit,
            gas_fee_cap: self.message.gas_fee_cap,
            gas_premium: self.message.gas_premium,
            signature: self.signature@,
        }
    }
}

/// A parent finality proposed for commitment, with the effects that come
/// with it: the cross-messages first, the validator changes second.
#[derive(Clone, Debug, PartialEq, Eq)]
pub struct TopDownProposal {
    pub finality: IPCParentFinality,
    pub effects: Effects,
}

/// What comes with a parent finality: the cross-messages and the validator
/// changes of the heights that it finalizes.
#[derive(Clone, Debug, PartialEq, Eq)]
pub struct Effects(pub Vec<IpcEnvelope>, pub Vec<StakingChangeRequest>);

/// A proposal as a mathematical value.
pub struct ProposalView {
    pub finality: FinalityView,
    pub msgs: Seq<EnvelopeView>,
    pub validator_changes: Seq<StakingChangeView>,
}

impl View for TopDownProposal {
    type V = ProposalView;

    open spec fn view(&self) -> ProposalView {
        ProposalView {
            finality: self.finality@,
            msgs: self.effects.0.deep_view(),
            validator_changes: self.effects.1.deep_view(),
        }
    }
}

impl TopDownProposal {
    /// A copy of this proposal.
    pub fn duplicate(&self) -> (p: Self)
        ensures
            p@ == self@,
    {
        TopDownProposal {
            finality: self.finality.duplicate(),
            effects: Effects(clone_msgs(&self.effects.0), clone_changes(&self.effects.1)),
        }
    }
}

/// The messages that only validators may put into a block.
#[derive(Clone, Debug, PartialEq, Eq)]
pub enum IpcMessage {
    /// A relayer tells of a bottom-up checkpoint that is to be fetched.
    BottomUpResolve(SignedRelayedMessage),
    /// A fetched bottom-up checkpoint is to be executed.
    BottomUpExec(CertifiedMessage),
    /// A parent finality is to be committed.
    TopDownExec(TopDownProposal),
}

/// A message of the child chain.
#[derive(Clone, Debug, PartialEq, Eq)]
pub enum ChainMessage {
    /// A transaction of a user.
    Signed(SignedMessage),
    /// A message of the protocol between parent and child.
    Ipc(IpcMessage),
}

/// A chain message as a mathematical value.
pub enum ChainMessageView {
    Signed(SignedMessageView),
    BottomUpResolve(RelayedView),
    BottomUpExec(CertifiedView),
    TopDownExec(ProposalView),
}

impl View for ChainMessage {
    type V = ChainMessageView;

    open spec fn view(&self) -> ChainMessageView {
        match self {
            ChainMessage::Signed(m) => ChainMessageView::Signed(m@),
            ChainMessage::Ipc(IpcMessage::BottomUpResolve(m)) => ChainMessageView::BottomUpResolve(
                m@,
            ),
            ChainMessage::Ipc(IpcMessage::BottomUpExec(m)) => ChainMessageView::BottomUpExec(m@),
            ChainMessage::Ipc(IpcMessage::TopDownExec(p)) => ChainMessageView::TopDownExec(p@),
        }
    }
}

/// The views of a list of chain messages.
pub open spec fn message_views(msgs: Seq<ChainMessage>) -> Seq<ChainMessageView> {
    msgs.map_values(|m: ChainMessage| m@)
}

/// A message that the execution layer verifies before it runs it.
#[derive(Clone, Debug, PartialEq, Eq)]
pub enum VerifiableMessage {
    /// A transaction, to be verified against the signature of its sender.
    Signed(SignedMessage),
    /// A message made here from a relayed one, to be verified against the
    /// signature of the relayer.
    Synthetic(SyntheticMessage),
}

/// A message made from a relayed checkpoint: what the execution layer runs,
/// what the relayer signed, and the signature.
#[derive(Clone, Debug, PartialEq, Eq)]
pub struct SyntheticMessage {
    pub message: FvmMessage,
    pub orig: CertifiedMessage,
    pub signature: Vec<u8>,
}

impl View for SyntheticMessage {
    type V = (FvmMessageView, CertifiedView, Seq<u8>);

    open spec fn view(&self) -> (FvmMessageView, CertifiedView, Seq<u8>) {
        (self.message@, self.orig@, self.signature@)
    }
}

} // verus!
