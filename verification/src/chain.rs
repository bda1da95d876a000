//! The rules for the messages of the child chain: what goes into a proposed
//! block, which proposed blocks are accepted, which messages users may send,
//! and what the delivery of a message does to the pool, the provider and
//! the tally.

use crate::bytes::clone_bytes;
use crate::hexfmt::hex_text;
use crate::message::{
    message_views, ChainMessage, ChainMessageView, FvmMessage, FvmMessageView,
    IpcMessage, ProposalView, SignedMessage, SignedMessageView, SignedRelayedMessage,
    SyntheticMessage, TopDownProposal, VerifiableMessage,
};
use crate::pool::{
    item_views, key_of, resolved_of, status_of, CheckpointPool, CheckpointPoolItem, PoolView,
    ResolveStatus,
};
use crate::provider::ParentFinalityCommitted;
use crate::topdown::{proposal_of, quorum_accepts, Toggle, TopdownClient, TopdownError};
use crate::voting::{power_from, TallyView, ValidatorKey, Weight};
use vstd::prelude::*;

verus! {

/// The method of the gateway that runs a contract call.
pub const METHOD_INVOKE_CONTRACT: u64 = 3844450837;

/// The actor id of the gateway.
pub const GATEWAY_ACTOR_ID: u8 = 64;

/// The address of the gateway as bytes: the mark of an id address and the id.
pub open spec fn spec_gateway_address() -> Seq<u8> {
    seq![0u8, GATEWAY_ACTOR_ID]
}

/// The address of the gateway as bytes.
pub fn gateway_address() -> (addr: Vec<u8>)
    ensures
        addr@ == spec_gateway_address(),
{
    let mut addr: Vec<u8> = Vec::new();
    addr.push(0u8);
    addr.push(GATEWAY_ACTOR_ID);
    addr
}

/// What the chain rules work on beside the execution state: the pool of
/// checkpoints and the client of the parent finality.
#[derive(Clone, Debug)]
pub struct ChainEnv {
    /// The pool of checkpoints under resolution.
    pub checkpoint_pool: CheckpointPool,
    /// The client of the parent finality, which may be switched off.
    pub topdown_client: Toggle<TopdownClient>,
}

impl ChainEnv {
    /// The invariant of the environment: that of its parts.
    pub open spec fn wf(&self) -> bool {
        &&& self.checkpoint_pool.wf()
        &&& self.topdown_client.wf()
    }

    /// The proposal that the client makes, if it is switched on and has one.
    pub open spec fn proposal(&self) -> Option<ProposalView> {
        match self.topdown_client {
            Toggle::Enabled(client) => proposal_of(client.provider@),
            Toggle::Disabled => None,
        }
    }

    /// Whether a block may hold the message `m`: a checkpoint to execute has
    /// to be resolved in the pool, and a finality to commit has to be
    /// accepted by the client.
    pub open spec fn accepts(&self, m: ChainMessageView) -> bool {
        match m {
            ChainMessageView::BottomUpExec(cp) => status_of(self.checkpoint_pool@, key_of(cp))
                == Some(ResolveStatus::Resolved),
            ChainMessageView::TopDownExec(p) => self.topdown_client matches Toggle::Enabled(client)
                && quorum_accepts(client.provider@, client.tally@, p.finality),
            _ => true,
        }
    }
}

/// A user sent a message that only validators may propose.
#[derive(Clone, Copy, Debug, PartialEq, Eq, Structural)]
pub struct IllegalMessage;

/// What the execution of a message returned.
#[derive(Clone, Debug, PartialEq, Eq)]
pub struct FvmApplyRet {
    pub exit_code: u32,
    pub gas_used: u64,
    pub return_data: Vec<u8>,
}

impl FvmApplyRet {
    /// Whether the execution went through.
    pub fn is_success(&self) -> (b: bool)
        ensures
            b == (self.exit_code == 0),
    {
        self.exit_code == 0
    }
}

/// The signature of a message did not verify.
#[derive(Clone, Debug, PartialEq, Eq)]
pub struct InvalidSignature(pub String);

/// What the execution of a verified message returned, or why the message
/// did not verify.
pub type SignedMessageApplyRes = Result<FvmApplyRet, InvalidSignature>;

/// What the delivery of a chain message returned.
#[derive(Debug, PartialEq, Eq)]
pub enum ChainMessageApplyRet {
    /// The result of a user's transaction, or of a relayed checkpoint.
    Signed(SignedMessageApplyRes),
    /// The result of a message of the protocol between parent and child.
    Ipc(FvmApplyRet),
}

/// What the execution layer is to do for a message.
#[derive(Clone, Debug, PartialEq, Eq)]
pub enum Delivery {
    /// Verify and run this message.
    Execute(VerifiableMessage),
    /// Commit the finality in the gateway, store the validator changes, then
    /// run the cross-messages.
    CommitTopDown(TopDownProposal),
    /// Nothing: the execution of bottom-up checkpoints is reserved.
    Reserved,
}

/// What the execution layer did for a message.
#[derive(Debug, PartialEq, Eq)]
pub enum Executed {
    /// The result of a message that was to be verified and run.
    Message(SignedMessageApplyRes),
    /// The result of the cross-messages of a committed finality.
    TopDown(FvmApplyRet),
    /// Nothing was to be done.
    Nothing,
}

/// What the delivery of a message came to: the result for the block, and
/// the event to emit if a parent finality was committed.
#[derive(Debug, PartialEq, Eq)]
pub struct Delivered {
    pub ret: ChainMessageApplyRet,
    pub event: Option<ParentFinalityCommitted>,
}

/// The result of the reserved execution of a bottom-up checkpoint: success,
/// without gas and without data.
pub open spec fn reserved_receipt(ret: FvmApplyRet) -> bool {
    ret.exit_code == 0 && ret.gas_used == 0 && ret.return_data@ == Seq::<u8>::empty()
}

/// Whether the message ran through.
pub open spec fn ran_through(ret: SignedMessageApplyRes) -> bool {
    ret matches Ok(r) && r.exit_code == 0
}

/// The pool after `item` was added to `entries`.
pub open spec fn pool_with(entries: PoolView, item: crate::message::CertifiedView) -> PoolView {
    if status_of(entries, key_of(item)) is Some {
        entries
    } else {
        entries.push((item, ResolveStatus::Unresolved))
    }
}

/// Why a delivery could not be completed.
#[derive(Clone, Copy, Debug, PartialEq, Eq, Structural)]
pub enum DeliverError {
    /// The client of the parent finality is switched off.
    NotEnabled,
    /// What was executed is not what the message asked for.
    Mismatch,
}

/// The transactions of users among `msgs`, in their order.
pub open spec fn signed_of(msgs: Seq<ChainMessageView>) -> Seq<SignedMessageView>
    decreases msgs.len(),
{
    if msgs.len() == 0 {
        Seq::empty()
    } else {
        match msgs.last() {
            ChainMessageView::Signed(m) => signed_of(msgs.drop_last()).push(m),
            _ => signed_of(msgs.drop_last()),
        }
    }
}

/// How many of `msgs`, taken from the front, fit into `gas`: the count
/// stops before the first message whose gas limit no longer fits.
pub open spec fn fitting(msgs: Seq<SignedMessageView>, gas: int) -> nat
    decreases msgs.len(),
{
    if msgs.len() == 0 || msgs[0].message.gas_limit > gas {
        0
    } else {
        1 + fitting(msgs.skip(1), gas - msgs[0].message.gas_limit)
    }
}

/// The sum of the gas limits of the transactions of users among `msgs`.
pub open spec fn signed_gas(msgs: Seq<ChainMessageView>) -> nat
    decreases msgs.len(),
{
    if msgs.len() == 0 {
        0
    } else {
        signed_gas(msgs.drop_last()) + (match msgs.last() {
            ChainMessageView::Signed(m) => m.message.gas_limit as nat,
            _ => 0,
        })
    }
}

/// Each transaction as a chain message.
pub open spec fn as_signed(msgs: Seq<SignedMessageView>) -> Seq<ChainMessageView> {
    msgs.map_values(|m: SignedMessageView| ChainMessageView::Signed(m))
}

/// Each checkpoint as a chain message that asks for its execution.
pub open spec fn as_bottom_up_exec(items: Seq<crate::message::CertifiedView>) -> Seq<
    ChainMessageView,
> {
    items.map_values(|cp: crate::message::CertifiedView| ChainMessageView::BottomUpExec(cp))
}

/// A proposal, if there is one, as a chain message that asks for its commit.
pub open spec fn as_top_down_exec(proposal: Option<ProposalView>) -> Seq<ChainMessageView> {
    match proposal {
        Some(p) => seq![ChainMessageView::TopDownExec(p)],
        None => Seq::empty(),
    }
}

/// The message for the execution layer that a relayed checkpoint stands for.
pub open spec fn synthetic_of(relayed: crate::message::RelayedView) -> (
    FvmMessageView,
    crate::message::CertifiedView,
    Seq<u8>,
) {
    (
        FvmMessageView {
            version: 0,
            from: relayed.relayer,
            to: spec_gateway_address(),
            sequence: relayed.sequence,
            value: 0,
            method_num: METHOD_INVOKE_CONTRACT,
            params: Seq::empty(),
            gas_limit: relayed.gas_limit,
            gas_fee_cap: relayed.gas_fee_cap,
            gas_premium: relayed.gas_premium,
        },
        relayed.message,
        relayed.signature,
    )
}

/// Makes of a relayed bottom-up checkpoint the message that the execution
/// layer runs: a call of the gateway's contract method, sent and paid for by
/// the relayer, without parameters and without value.
pub fn relayed_bottom_up_ckpt_to_fvm(relayed: &SignedRelayedMessage) -> (msg: SyntheticMessage)
    ensures
        msg@ == synthetic_of(relayed@),
{
    let params: Vec<u8> = Vec::new();
    let msg = FvmMessage {
        version: 0,
        from: clone_bytes(&relayed.message.relayer),
        to: gateway_address(),
        sequence: relayed.message.sequence,
        value: 0,
        method_num: METHOD_INVOKE_CONTRACT,
        params,
        gas_limit: relayed.message.gas_limit,
        gas_fee_cap: relayed.message.gas_fee_cap,
        gas_premium: relayed.message.gas_premium,
    };
    SyntheticMessage {
        message: msg,
        orig: relayed.message.message.duplicate(),
        signature: clone_bytes(&relayed.signature),
    }
}

/// Chooses the messages of the mempool that go into a block: the
/// transactions of users, in their order, as long as their gas limits
/// together stay within `gas_available`.
pub fn messages_selection(msgs: &Vec<ChainMessage>, gas_available: u64) -> (selected: Vec<
    ChainMessage,
>)
    ensures
        message_views(selected@) == as_signed(
            signed_of(message_views(msgs@)).take(
                fitting(signed_of(message_views(msgs@)), gas_available as int) as int,
            ),
        ),
        fitting(signed_of(message_views(msgs@)), gas_available as int) <= signed_of(
            message_views(msgs@),
        ).len(),
{
    let mut user_msgs: Vec<SignedMessage> = Vec::new();
    let mut i: usize = 0;
    while i < msgs.len()
        invariant
            i <= msgs.len(),
            signed_views(user_msgs@) == signed_of(message_views(msgs@).take(i as int)),
        decreases msgs.len() - i,
    {
        assert(message_views(msgs@).take(i + 1).drop_last() =~= message_views(msgs@).take(
            i as int,
        ));
        if let ChainMessage::Signed(m) = &msgs[i] {
            let copy = m.duplicate();
            user_msgs.push(copy);
        }
        i = i + 1;
    }
    assert(message_views(msgs@).take(msgs.len() as int) =~= message_views(msgs@));
    let ghost all = signed_views(user_msgs@);
    let mut out: Vec<ChainMessage> = Vec::new();
    let mut left: u64 = gas_available;
    let mut k: usize = 0;
    assert(all.skip(0) =~= all);
    while k < user_msgs.len() && user_msgs[k].message.gas_limit <= left
        invariant
            k <= user_msgs.len(),
            all == signed_views(user_msgs@),
            fitting(all, gas_available as int) == k + fitting(all.skip(k as int), left as int),
            message_views(out@) == as_signed(all.take(k as int)),
        decreases user_msgs.len() - k,
    {
        let copy = user_msgs[k].duplicate();
        left = left - user_msgs[k].message.gas_limit;
        out.push(ChainMessage::Signed(copy));
        assert(all.skip(k as int).skip(1) =~= all.skip(k + 1));
        assert(as_signed(all.take(k + 1)) =~= as_signed(all.take(k as int)).push(
            ChainMessageView::Signed(all[k as int]),
        ));
        k = k + 1;
    }
    proof {
        lemma_fitting_bound(all, gas_available as int);
    }
    out
}

/// The views of a list of transactions.
pub open spec fn signed_views(msgs: Seq<SignedMessage>) -> Seq<SignedMessageView> {
    msgs.map_values(|m: SignedMessage| m@)
}

/// No more messages fit than there are.
pub proof fn lemma_fitting_bound(msgs: Seq<SignedMessageView>, gas: int)
    ensures
        fitting(msgs, gas) <= msgs.len(),
    decreases msgs.len(),
{
    if msgs.len() > 0 && msgs[0].message.gas_limit <= gas {
        lemma_fitting_bound(msgs.skip(1), gas - msgs[0].message.gas_limit);
    }
}

/// Applies the chain rules around an inner interpreter, which verifies and
/// runs the messages.
#[derive(Clone, Debug)]
pub struct ChainMessageInterpreter<I> {
    inner: I,
}

impl<I> ChainMessageInterpreter<I> {
    /// The inner interpreter.
    pub closed spec fn spec_inner(&self) -> I {
        self.inner
    }

    /// The chain rules around `inner`.
    pub fn new(inner: I) -> (interpreter: Self)
        ensures
            interpreter.spec_inner() == inner,
    {
        ChainMessageInterpreter { inner }
    }

    /// The inner interpreter.
    pub fn inner(&self) -> (inner: &I)
        ensures
            *inner == self.spec_inner(),
    {
        &self.inner
    }

    /// Makes the content of the next block: the selected transactions of
    /// `msgs`, then the resolved checkpoints of the pool, each to be
    /// executed, then the proposal of the client, if it has one. What comes
    /// from pool and client goes last: if the block runs full, it is
    /// proposed again.
    pub fn prepare(&self, env: &ChainEnv, gas_available: u64, msgs: &Vec<ChainMessage>) -> (block:
        Vec<ChainMessage>)
        requires
            env.wf(),
        ensures
            message_views(block@) == as_signed(
                signed_of(message_views(msgs@)).take(
                    fitting(signed_of(message_views(msgs@)), gas_available as int) as int,
                ),
            ) + as_bottom_up_exec(resolved_of(env.checkpoint_pool@)) + as_top_down_exec(
                env.proposal(),
            ),
    {
        let mut block = messages_selection(msgs, gas_available);
        let ghost selected = message_views(block@);
        let ckpts = env.checkpoint_pool.collect_resolved();
        let mut i: usize = 0;
        while i < ckpts.len()
            invariant
                i <= ckpts.len(),
                message_views(block@) == selected + as_bottom_up_exec(
                    item_views(ckpts@).take(i as int),
                ),
            decreases ckpts.len() - i,
        {
            match &ckpts[i] {
                CheckpointPoolItem::BottomUp(ckpt) => {
                    let copy = ckpt.duplicate();
                    let ghost prev = message_views(block@);
                    block.push(ChainMessage::Ipc(IpcMessage::BottomUpExec(copy)));
                    assert(message_views(block@) =~= prev.push(
                        ChainMessageView::BottomUpExec(copy@),
                    ));
                },
            }
            i = i + 1;
        }
        let ghost with_ckpts = message_views(block@);
        match env.topdown_client.find_topdown_proposal() {
            Ok(Some(p)) => {
                block.push(ChainMessage::Ipc(IpcMessage::TopDownExec(p)));
            },
            Ok(None) => {},
            Err(_) => {},
        }
        assert(message_views(block@) =~= with_ckpts + as_top_down_exec(env.proposal()));
        block
    }

    /// Whether a proposed block is accepted: each checkpoint to execute is
    /// resolved in the pool, each finality to commit is accepted by the
    /// client, and the gas limits of the transactions together stay within
    /// `gas_available`.
    pub fn process(&self, env: &ChainEnv, gas_available: u64, msgs: &Vec<ChainMessage>) -> (ok:
        bool)
        requires
            env.wf(),
        ensures
            ok == ((forall|i: int| 0 <= i < msgs@.len() ==> env.accepts(#[trigger] msgs@[i]@))
                && signed_gas(message_views(msgs@)) <= gas_available),
    {
        let mut block_gas_usage: u128 = 0;
        let mut i: usize = 0;
        while i < msgs.len()
            invariant
                i <= msgs.len(),
                env.wf(),
                forall|j: int| 0 <= j < i ==> env.accepts(#[trigger] msgs@[j]@),
                block_gas_usage == signed_gas(message_views(msgs@).take(i as int)),
                block_gas_usage <= i * u64::MAX,
            decreases msgs.len() - i,
        {
            assert(message_views(msgs@).take(i + 1).drop_last() =~= message_views(msgs@).take(
                i as int,
            ));
            proof {
                assert((i + 1) * u64::MAX == i * u64::MAX + u64::MAX) by (nonlinear_arith);
                assert(i * u64::MAX <= usize::MAX * u64::MAX) by (nonlinear_arith)
                    requires
                        i <= usize::MAX,
                ;
            }
            match &msgs[i] {
                ChainMessage::Ipc(IpcMessage::BottomUpExec(msg)) => {
                    let item = CheckpointPoolItem::BottomUp(msg.duplicate());
                    let is_resolved = match env.checkpoint_pool.get_status(&item) {
                        None => false,
                        Some(status) => status.is_resolved(),
                    };
                    if !is_resolved {
                        assert(!env.accepts(msgs@[i as int]@));
                        return false;
                    }
                },
                ChainMessage::Ipc(IpcMessage::TopDownExec(p)) => {
                    if env.topdown_client.validate_quorum_proposal(p).is_err() {
                        return false;
                    }
                },
                ChainMessage::Signed(signed) => {
                    block_gas_usage = block_gas_usage + signed.message.gas_limit as u128;
                },
                _ => {},
            }
            i = i + 1;
        }
        assert(message_views(msgs@).take(msgs.len() as int) =~= message_views(msgs@));
        block_gas_usage <= gas_available as u128
    }

    /// What a message of a user turns into for the check of the inner
    /// interpreter. A message that only validators may propose is refused.
    pub fn check(&self, msg: &ChainMessage) -> (r: Result<VerifiableMessage, IllegalMessage>)
        ensures
            match msg@ {
                ChainMessageView::Signed(m) => r matches Ok(VerifiableMessage::Signed(s)) && s@
                    == m,
                ChainMessageView::BottomUpResolve(relayed) => r matches Ok(
                    VerifiableMessage::Synthetic(s),
                ) && s@ == synthetic_of(relayed),
                ChainMessageView::BottomUpExec(_) => r == Err::<VerifiableMessage, IllegalMessage>(
                    IllegalMessage,
                ),
                ChainMessageView::TopDownExec(_) => r == Err::<VerifiableMessage, IllegalMessage>(
                    IllegalMessage,
                ),
            },
    {
        match msg {
            ChainMessage::Signed(m) => Ok(VerifiableMessage::Signed(m.duplicate())),
            ChainMessage::Ipc(IpcMessage::BottomUpResolve(relayed)) => Ok(
                VerifiableMessage::Synthetic(relayed_bottom_up_ckpt_to_fvm(relayed)),
            ),
            ChainMessage::Ipc(IpcMessage::TopDownExec(_)) => Err(IllegalMessage),
            ChainMessage::Ipc(IpcMessage::BottomUpExec(_)) => Err(IllegalMessage),
        }
    }

    /// What the execution layer is to do for `msg`.
    pub fn deliver(&self, msg: &ChainMessage) -> (d: Delivery)
        ensures
            match msg@ {
                ChainMessageView::Signed(m) => d matches Delivery::Execute(
                    VerifiableMessage::Signed(s),
                ) && s@ == m,
                ChainMessageView::BottomUpResolve(relayed) => d matches Delivery::Execute(
                    VerifiableMessage::Synthetic(s),
                ) && s@ == synthetic_of(relayed),
                ChainMessageView::BottomUpExec(_) => d == Delivery::Reserved,
                ChainMessageView::TopDownExec(p) => d matches Delivery::CommitTopDown(q) && q@ == p,
            },
    {
        match msg {
            ChainMessage::Signed(m) => Delivery::Execute(VerifiableMessage::Signed(m.duplicate())),
            ChainMessage::Ipc(IpcMessage::BottomUpResolve(relayed)) => Delivery::Execute(
                VerifiableMessage::Synthetic(relayed_bottom_up_ckpt_to_fvm(relayed)),
            ),
            ChainMessage::Ipc(IpcMessage::BottomUpExec(_)) => Delivery::Reserved,
            ChainMessage::Ipc(IpcMessage::TopDownExec(p)) => Delivery::CommitTopDown(p.duplicate()),
        }
    }

    /// Completes the delivery of `msg` after the execution layer did what
    /// `deliver` asked for. A relayed checkpoint that ran through enters the
    /// pool, to be resolved. A finality whose cross-messages were run is
    /// committed by the client: the provider evicts what lies below it, and
    /// so does the tally.
    pub fn delivered(&self, env: &mut ChainEnv, msg: ChainMessage, executed: Executed) -> (r:
        Result<Delivered, DeliverError>)
        requires
            old(env).wf(),
            msg@ matches ChainMessageView::TopDownExec(p) ==> p.finality.block_hash.len() * 2
                <= isize::MAX,
        ensures
            final(env).wf(),
            match (msg@, executed) {
                (ChainMessageView::Signed(_), Executed::Message(ret)) => {
                    &&& r == Ok::<Delivered, DeliverError>(
                        Delivered { ret: ChainMessageApplyRet::Signed(ret), event: None },
                    )
                    &&& *final(env) == *old(env)
                },
                (ChainMessageView::BottomUpResolve(relayed), Executed::Message(ret)) => {
                    &&& r == Ok::<Delivered, DeliverError>(
                        Delivered { ret: ChainMessageApplyRet::Signed(ret), event: None },
                    )
                    &&& final(env).topdown_client == old(env).topdown_client
                    &&& final(env).checkpoint_pool@ == (if ran_through(ret) {
                        pool_with(old(env).checkpoint_pool@, relayed.message)
                    } else {
                        old(env).checkpoint_pool@
                    })
                },
                (ChainMessageView::BottomUpExec(_), Executed::Nothing) => {
                    &&& r matches Ok(d) && d.event is None && (d.ret matches ChainMessageApplyRet::Ipc(
                        receipt,
                    ) && reserved_receipt(receipt))
                    &&& *final(env) == *old(env)
                },
                (ChainMessageView::TopDownExec(p), Executed::TopDown(ret)) => match old(
                    env,
                ).topdown_client {
                    Toggle::Enabled(before) => {
                        &&& r matches Ok(d) && d.ret == ChainMessageApplyRet::Ipc(ret) && (
                        d.event matches Some(e) && e.block_height == p.finality.height
                            && e.block_hash@ == hex_text(p.finality.block_hash))
                        &&& final(env).checkpoint_pool == old(env).checkpoint_pool
                        &&& final(env).topdown_client matches Toggle::Enabled(after)
                            && after.provider@ == before.provider@.commit(p.finality)
                            && after.tally@ == before.tally@.finalized(
                            p.finality.height,
                            p.finality.block_hash,
                        )
                    },
                    Toggle::Disabled => r == Err::<Delivered, DeliverError>(
                        DeliverError::NotEnabled,
                    ) && *final(env) == *old(env),
                },
                _ => r == Err::<Delivered, DeliverError>(DeliverError::Mismatch) && *final(env)
                    == *old(env),
            },
    {
        match (msg, executed) {
            (ChainMessage::Signed(_), Executed::Message(ret)) => Ok(
                Delivered { ret: ChainMessageApplyRet::Signed(ret), event: None },
            ),
            (ChainMessage::Ipc(IpcMessage::BottomUpResolve(relayed)), Executed::Message(ret)) => {
                let is_success = match &ret {
                    Ok(r) => r.is_success(),
                    Err(_) => false,
                };
                if is_success {
                    let item = CheckpointPoolItem::BottomUp(relayed.message.message);
                    let _ = env.checkpoint_pool.add(item);
                }
                Ok(Delivered { ret: ChainMessageApplyRet::Signed(ret), event: None })
            },
            (ChainMessage::Ipc(IpcMessage::BottomUpExec(_)), Executed::Nothing) => {
                let data: Vec<u8> = Vec::new();
                Ok(
                    Delivered {
                        ret: ChainMessageApplyRet::Ipc(
                            FvmApplyRet { exit_code: 0, gas_used: 0, return_data: data },
                        ),
                        event: None,
                    },
                )
            },
            (ChainMessage::Ipc(IpcMessage::TopDownExec(p)), Executed::TopDown(ret)) => {
                match env.topdown_client.parent_finalized(p.finality) {
                    Ok(event) => Ok(
                        Delivered { ret: ChainMessageApplyRet::Ipc(ret), event: Some(event) },
                    ),
                    Err(_) => Err(DeliverError::NotEnabled),
                }
            },
            _ => Err(DeliverError::Mismatch),
        }
    }

    /// Takes note of the power table that the end of a block brought; an
    /// empty list stands for no change.
    pub fn end(&self, env: &mut ChainEnv, power_updates: Vec<(ValidatorKey, Weight)>) -> (r: Result<
        (),
        TopdownError,
    >)
        requires
            old(env).wf(),
        ensures
            final(env).wf(),
            final(env).checkpoint_pool == old(env).checkpoint_pool,
            power_updates@.len() == 0 ==> r is Ok && *final(env) == *old(env),
            power_updates@.len() > 0 ==> match old(env).topdown_client {
                Toggle::Enabled(before) => r is Ok && (final(env).topdown_client matches Toggle::Enabled(
                    after,
                ) && after.provider == before.provider && after.tally@ == (TallyView {
                    power: power_from(power_updates@),
                    ..before.tally@
                })),
                Toggle::Disabled => r == Err::<(), TopdownError>(TopdownError::NotEnabled)
                    && *final(env) == *old(env),
            },
    {
        if power_updates.len() == 0 {
            return Ok(());
        }
        env.topdown_client.update_power_table(power_updates)
    }
}

} // verus!
