use parent_finality::chain::{
    gateway_address, messages_selection, relayed_bottom_up_ckpt_to_fvm, ChainEnv,
    ChainMessageApplyRet, ChainMessageInterpreter, DeliverError, Delivered, Delivery, Executed,
    FvmApplyRet, IllegalMessage, InvalidSignature, METHOD_INVOKE_CONTRACT,
};
use parent_finality::finality::{
    Config, IPCParentFinality, IpcEnvelope, ParentViewPayload, StakingChangeRequest,
};
use parent_finality::message::{
    BottomUpCheckpoint, CertifiedMessage, ChainMessage, Effects, FvmMessage, IpcMessage,
    RelayedMessage, SignedMessage, SignedRelayedMessage, SyntheticMessage, TopDownProposal,
    VerifiableMessage,
};
use parent_finality::pool::{CheckpointPool, CheckpointPoolItem, ResolveStatus};
use parent_finality::provider::FinalityWithNull;
use parent_finality::store::CacheStore;
use parent_finality::topdown::{Toggle, TopdownClient, TopdownError};
use parent_finality::voting::VoteTally;

fn signed(gas_limit: u64) -> ChainMessage {
    ChainMessage::Signed(SignedMessage {
        message: FvmMessage {
            version: 0,
            from: vec![0, 100],
            to: vec![0, 101],
            sequence: gas_limit,
            value: 0,
            method_num: 0,
            params: vec![],
            gas_limit,
            gas_fee_cap: 1,
            gas_premium: 1,
        },
        signature: vec![7; 65],
    })
}

fn ckpt(content: u8) -> CertifiedMessage {
    CertifiedMessage {
        message: BottomUpCheckpoint {
            subnet_id: vec![1, 2, 3],
            height: 10,
            bottom_up_messages: vec![content; 8],
        },
        certificate: vec![content],
    }
}

fn relayed(content: u8) -> SignedRelayedMessage {
    SignedRelayedMessage {
        message: RelayedMessage {
            message: ckpt(content),
            relayer: vec![0, 77],
            sequence: 12,
            gas_limit: 5000,
            gas_fee_cap: 300,
            gas_premium: 20,
        },
        signature: vec![9; 65],
    }
}

fn finality(h: u64) -> IPCParentFinality {
    IPCParentFinality { height: h, block_hash: vec![h as u8; 32] }
}

fn change(n: u64) -> StakingChangeRequest {
    StakingChangeRequest { configuration_number: n, change: vec![n as u8] }
}

fn envelope(n: u64) -> IpcEnvelope {
    IpcEnvelope { nonce: n, message: vec![n as u8, 0] }
}

fn proposal(h: u64) -> TopDownProposal {
    TopDownProposal { finality: finality(h), effects: Effects(vec![], vec![]) }
}

fn client_with_views() -> TopdownClient {
    let config = Config {
        chain_head_delay: 2,
        polling_interval: 10,
        exponential_back_off: 5,
        exponential_retry_limit: 3,
        max_proposal_range: Some(6),
        max_cache_blocks: None,
        proposal_delay: Some(2),
    };
    let mut provider = FinalityWithNull::new(config, 1, Some(finality(100)), CacheStore::new());
    let views: Vec<(u64, Option<ParentViewPayload>)> = vec![
        (101, Some((vec![101; 32], vec![change(1)], vec![envelope(5), envelope(6)]))),
        (102, None),
        (103, Some((vec![103; 32], vec![change(2), change(3)], vec![]))),
        (104, Some((vec![104; 32], vec![], vec![envelope(7)]))),
        (105, Some((vec![105; 32], vec![change(4)], vec![envelope(8)]))),
        (106, Some((vec![106; 32], vec![], vec![]))),
    ];
    let mut tally = VoteTally::new(
        vec![(vec![1; 33], 1), (vec![2; 33], 1), (vec![3; 33], 1)],
        (100, vec![100; 32]),
    );
    for (h, p) in views {
        tally.add_block(h, p.as_ref().map(|p| p.0.clone())).unwrap();
        provider.new_parent_view(h, p).unwrap();
    }
    TopdownClient::new(provider, tally)
}

fn env_with(pool: CheckpointPool, client: Option<TopdownClient>) -> ChainEnv {
    ChainEnv {
        checkpoint_pool: pool,
        topdown_client: match client {
            Some(c) => Toggle::enabled(c),
            None => Toggle::disabled(),
        },
    }
}

fn interpreter() -> ChainMessageInterpreter<u8> {
    ChainMessageInterpreter::new(0u8)
}

#[test]
fn interpreter_keeps_its_inner() {
    let i = ChainMessageInterpreter::new(vec![1u8, 2]);
    assert_eq!(i.inner(), &vec![1u8, 2]);
}

#[test]
fn selection_keeps_transactions_while_gas_fits() {
    let msgs = vec![signed(10), signed(20), signed(30)];
    assert_eq!(messages_selection(&msgs, 35), vec![signed(10), signed(20)]);
    assert_eq!(messages_selection(&msgs, 60), msgs);
    assert_eq!(messages_selection(&msgs, 59), vec![signed(10), signed(20)]);
    assert_eq!(messages_selection(&msgs, 9), vec![]);
    assert_eq!(messages_selection(&msgs, 10), vec![signed(10)]);
    assert_eq!(messages_selection(&vec![], 10), vec![]);
}

#[test]
fn selection_stops_at_the_first_transaction_that_does_not_fit() {
    let msgs = vec![signed(10), signed(50), signed(5)];
    assert_eq!(messages_selection(&msgs, 20), vec![signed(10)]);
}

#[test]
fn selection_drops_what_is_not_a_transaction() {
    let msgs = vec![
        ChainMessage::Ipc(IpcMessage::BottomUpExec(ckpt(1))),
        signed(10),
        ChainMessage::Ipc(IpcMessage::TopDownExec(proposal(104))),
        ChainMessage::Ipc(IpcMessage::BottomUpResolve(relayed(1))),
        signed(20),
    ];
    assert_eq!(messages_selection(&msgs, 100), vec![signed(10), signed(20)]);
}

#[test]
fn selection_with_gas_limits_at_the_end_of_the_range() {
    let msgs = vec![signed(u64::MAX), signed(1)];
    assert_eq!(messages_selection(&msgs, u64::MAX), vec![signed(u64::MAX)]);
    assert_eq!(messages_selection(&msgs, u64::MAX - 1), vec![]);
}

#[test]
fn prepare_appends_resolved_checkpoints_and_the_proposal() {
    let mut pool = CheckpointPool::new();
    pool.add(CheckpointPoolItem::BottomUp(ckpt(1)));
    pool.add(CheckpointPoolItem::BottomUp(ckpt(2)));
    pool.add(CheckpointPoolItem::BottomUp(ckpt(3)));
    pool.set_status(&CheckpointPoolItem::BottomUp(ckpt(3)).resolve_key(), ResolveStatus::Resolved);
    pool.set_status(&CheckpointPoolItem::BottomUp(ckpt(1)).resolve_key(), ResolveStatus::Resolved);
    let env = env_with(pool, Some(client_with_views()));
    let block = interpreter().prepare(&env, 25, &vec![signed(10), signed(20)]);
    assert_eq!(
        block,
        vec![
            signed(10),
            ChainMessage::Ipc(IpcMessage::BottomUpExec(ckpt(1))),
            ChainMessage::Ipc(IpcMessage::BottomUpExec(ckpt(3))),
            ChainMessage::Ipc(IpcMessage::TopDownExec(TopDownProposal {
                finality: finality(104),
                effects: Effects(
                    vec![envelope(5), envelope(6), envelope(7)],
                    vec![change(1), change(2), change(3)]
                ),
            })),
        ]
    );
}

#[test]
fn prepare_without_client_or_resolved_checkpoints() {
    let mut pool = CheckpointPool::new();
    pool.add(CheckpointPoolItem::BottomUp(ckpt(1)));
    let env = env_with(pool, None);
    let block = interpreter().prepare(&env, 100, &vec![signed(10), signed(20)]);
    assert_eq!(block, vec![signed(10), signed(20)]);
}

#[test]
fn proposal_carries_the_effects_up_to_its_height() {
    let client = client_with_views();
    let p = client.find_topdown_proposal().unwrap();
    assert_eq!(p.finality, finality(104));
    assert_eq!(p.effects.0, vec![envelope(5), envelope(6), envelope(7)]);
    assert_eq!(p.effects.1, vec![change(1), change(2), change(3)]);
    assert_eq!(p.duplicate(), p);
    assert_eq!(client.provider.validator_changes_from(101, 105), vec![change(2), change(3), change(4)]);
    assert_eq!(client.provider.validator_changes_from(105, 101), vec![]);
    assert_eq!(client.provider.top_down_msgs_from(103, 200), vec![envelope(7), envelope(8)]);
    assert_eq!(client.provider.top_down_msgs_from(0, 101), vec![envelope(5), envelope(6)]);
}

#[test]
fn process_accepts_a_block_within_gas() {
    let env = env_with(CheckpointPool::new(), None);
    let i = interpreter();
    assert!(i.process(&env, 30, &vec![signed(10), signed(20)]));
    assert!(!i.process(&env, 29, &vec![signed(10), signed(20)]));
    assert!(i.process(&env, 0, &vec![]));
    assert!(i.process(&env, 0, &vec![ChainMessage::Ipc(IpcMessage::BottomUpResolve(relayed(1)))]));
    assert!(!i.process(&env, u64::MAX, &vec![signed(u64::MAX), signed(1)]));
    assert!(i.process(&env, u64::MAX, &vec![signed(u64::MAX - 1), signed(1)]));
}

#[test]
fn process_wants_checkpoints_resolved() {
    let mut pool = CheckpointPool::new();
    pool.add(CheckpointPoolItem::BottomUp(ckpt(1)));
    pool.add(CheckpointPoolItem::BottomUp(ckpt(2)));
    pool.set_status(&CheckpointPoolItem::BottomUp(ckpt(1)).resolve_key(), ResolveStatus::Resolved);
    let env = env_with(pool, None);
    let i = interpreter();
    let exec = |c: u8| ChainMessage::Ipc(IpcMessage::BottomUpExec(ckpt(c)));
    assert!(i.process(&env, 100, &vec![signed(10), exec(1)]));
    assert!(!i.process(&env, 100, &vec![signed(10), exec(2)]));
    assert!(!i.process(&env, 100, &vec![exec(1), exec(9)]));
    assert!(!i.process(&env, 5, &vec![signed(10), exec(1)]));
}

#[test]
fn process_wants_a_quorum_for_a_known_finality() {
    let mut client = client_with_views();
    let top_down = |h: u64| ChainMessage::Ipc(IpcMessage::TopDownExec(proposal(h)));
    let i = interpreter();
    // known to the provider, but nobody voted
    let env = env_with(CheckpointPool::new(), Some(client_with_views()));
    assert!(!i.process(&env, 100, &vec![top_down(104)]));
    for v in 1..=3u8 {
        client.tally.add_vote(vec![v; 33], 104, vec![104; 32]).unwrap();
        client.tally.add_vote(vec![v; 33], 102, vec![102; 32]).unwrap();
        client.tally.add_vote(vec![v; 33], 107, vec![107; 32]).unwrap();
    }
    assert_eq!(client.validate_quorum_proposal(&proposal(104)), Ok(()));
    assert_eq!(
        client.validate_quorum_proposal(&proposal(103)),
        Err(TopdownError::ProposalInvalid)
    );
    let env = env_with(CheckpointPool::new(), Some(client));
    assert!(i.process(&env, 100, &vec![signed(10), top_down(104)]));
    // a null round, a height that the cache does not reach, the committed height
    assert!(!i.process(&env, 100, &vec![top_down(102)]));
    assert!(!i.process(&env, 100, &vec![top_down(107)]));
    assert!(!i.process(&env, 100, &vec![top_down(100)]));
    // a hash that the provider does not know at that height
    let wrong = ChainMessage::Ipc(IpcMessage::TopDownExec(TopDownProposal {
        finality: IPCParentFinality { height: 104, block_hash: vec![1; 32] },
        effects: Effects(vec![], vec![]),
    }));
    assert!(!i.process(&env, 100, &vec![wrong]));
    // a client that is switched off accepts none
    let off = env_with(CheckpointPool::new(), None);
    assert!(!i.process(&off, 100, &vec![top_down(104)]));
}

#[test]
fn check_refuses_messages_that_only_validators_propose() {
    let i = interpreter();
    assert_eq!(
        i.check(&ChainMessage::Ipc(IpcMessage::TopDownExec(proposal(104)))),
        Err(IllegalMessage)
    );
    assert_eq!(
        i.check(&ChainMessage::Ipc(IpcMessage::BottomUpExec(ckpt(1)))),
        Err(IllegalMessage)
    );
    match signed(10) {
        ChainMessage::Signed(m) => {
            assert_eq!(i.check(&signed(10)), Ok(VerifiableMessage::Signed(m)));
        }
        _ => unreachable!(),
    }
    assert_eq!(
        i.check(&ChainMessage::Ipc(IpcMessage::BottomUpResolve(relayed(4)))),
        Ok(VerifiableMessage::Synthetic(relayed_bottom_up_ckpt_to_fvm(&relayed(4))))
    );
}

#[test]
fn relayed_checkpoint_becomes_a_call_of_the_gateway() {
    let msg = relayed_bottom_up_ckpt_to_fvm(&relayed(4));
    assert_eq!(
        msg,
        SyntheticMessage {
            message: FvmMessage {
                version: 0,
                from: vec![0, 77],
                to: vec![0, 64],
                sequence: 12,
                value: 0,
                method_num: 3844450837,
                params: vec![],
                gas_limit: 5000,
                gas_fee_cap: 300,
                gas_premium: 20,
            },
            orig: ckpt(4),
            signature: vec![9; 65],
        }
    );
    assert_eq!(gateway_address(), vec![0, 64]);
    assert_eq!(METHOD_INVOKE_CONTRACT, 3844450837);
}

#[test]
fn deliver_says_what_to_execute() {
    let i = interpreter();
    match signed(10) {
        ChainMessage::Signed(m) => {
            assert_eq!(
                i.deliver(&signed(10)),
                Delivery::Execute(VerifiableMessage::Signed(m))
            );
        }
        _ => unreachable!(),
    }
    assert_eq!(
        i.deliver(&ChainMessage::Ipc(IpcMessage::BottomUpResolve(relayed(4)))),
        Delivery::Execute(VerifiableMessage::Synthetic(relayed_bottom_up_ckpt_to_fvm(&relayed(4))))
    );
    assert_eq!(
        i.deliver(&ChainMessage::Ipc(IpcMessage::BottomUpExec(ckpt(4)))),
        Delivery::Reserved
    );
    let p = client_with_views().find_topdown_proposal().unwrap();
    assert_eq!(
        i.deliver(&ChainMessage::Ipc(IpcMessage::TopDownExec(p.duplicate()))),
        Delivery::CommitTopDown(p)
    );
}

fn ok_ret(exit_code: u32) -> FvmApplyRet {
    FvmApplyRet { exit_code, gas_used: 42, return_data: vec![1] }
}

#[test]
fn delivered_transaction_passes_its_result_on() {
    let mut env = env_with(CheckpointPool::new(), None);
    let r = interpreter().delivered(&mut env, signed(10), Executed::Message(Ok(ok_ret(7))));
    assert_eq!(
        r,
        Ok(Delivered { ret: ChainMessageApplyRet::Signed(Ok(ok_ret(7))), event: None })
    );
    assert_eq!(env.checkpoint_pool.len(), 0);
}

#[test]
fn delivered_relayed_checkpoint_enters_the_pool_on_success() {
    let mut env = env_with(CheckpointPool::new(), None);
    let i = interpreter();
    let resolve = |c: u8| ChainMessage::Ipc(IpcMessage::BottomUpResolve(relayed(c)));
    let r = i.delivered(&mut env, resolve(1), Executed::Message(Ok(ok_ret(0))));
    assert_eq!(
        r,
        Ok(Delivered { ret: ChainMessageApplyRet::Signed(Ok(ok_ret(0))), event: None })
    );
    assert_eq!(
        env.checkpoint_pool.get_status(&CheckpointPoolItem::BottomUp(ckpt(1))),
        Some(ResolveStatus::Unresolved)
    );
    // a failed execution and a bad signature leave the pool alone
    let r = i.delivered(&mut env, resolve(2), Executed::Message(Ok(ok_ret(16))));
    assert_eq!(
        r,
        Ok(Delivered { ret: ChainMessageApplyRet::Signed(Ok(ok_ret(16))), event: None })
    );
    let bad = InvalidSignature("bad".to_string());
    let r = i.delivered(&mut env, resolve(3), Executed::Message(Err(bad.clone())));
    assert_eq!(
        r,
        Ok(Delivered { ret: ChainMessageApplyRet::Signed(Err(bad)), event: None })
    );
    assert_eq!(env.checkpoint_pool.len(), 1);
    // the same checkpoint again is kept once
    i.delivered(&mut env, resolve(1), Executed::Message(Ok(ok_ret(0)))).unwrap();
    assert_eq!(env.checkpoint_pool.len(), 1);
}

#[test]
fn delivered_checkpoint_execution_is_reserved() {
    let mut env = env_with(CheckpointPool::new(), None);
    let r = interpreter().delivered(
        &mut env,
        ChainMessage::Ipc(IpcMessage::BottomUpExec(ckpt(1))),
        Executed::Nothing,
    );
    assert_eq!(
        r,
        Ok(Delivered {
            ret: ChainMessageApplyRet::Ipc(FvmApplyRet {
                exit_code: 0,
                gas_used: 0,
                return_data: vec![]
            }),
            event: None
        })
    );
}

#[test]
fn delivered_finality_is_committed() {
    let mut env = env_with(CheckpointPool::new(), Some(client_with_views()));
    let p = proposal(104);
    let r = interpreter()
        .delivered(
            &mut env,
            ChainMessage::Ipc(IpcMessage::TopDownExec(p)),
            Executed::TopDown(ok_ret(0)),
        )
        .unwrap();
    assert_eq!(r.ret, ChainMessageApplyRet::Ipc(ok_ret(0)));
    let event = r.event.unwrap();
    assert_eq!(event.block_height, 104);
    assert_eq!(event.block_hash, "68".repeat(32));
    match env.topdown_client {
        Toggle::Enabled(mut c) => {
            assert_eq!(c.provider.last_committed_finality(), Some(finality(104)));
            assert_eq!(c.provider.cached_blocks(), 3);
            assert_eq!(c.provider.cache_store().lower_bound(), Some(104));
            assert_eq!(c.provider.latest_height_in_cache(), Some(106));
            // the tally dropped what lies below
            assert_eq!(c.tally.add_vote(vec![1; 33], 103, vec![103; 32]), Ok(false));
            assert_eq!(c.tally.add_vote(vec![1; 33], 104, vec![104; 32]), Ok(true));
            assert!(c.tally.expects_block(107));
        }
        Toggle::Disabled => panic!("client was switched on"),
    }
}

#[test]
fn delivered_finality_needs_the_client() {
    let mut env = env_with(CheckpointPool::new(), None);
    let r = interpreter().delivered(
        &mut env,
        ChainMessage::Ipc(IpcMessage::TopDownExec(proposal(104))),
        Executed::TopDown(ok_ret(0)),
    );
    assert_eq!(r, Err(DeliverError::NotEnabled));
}

#[test]
fn delivered_refuses_a_result_of_another_kind() {
    let mut env = env_with(CheckpointPool::new(), Some(client_with_views()));
    let i = interpreter();
    assert_eq!(
        i.delivered(&mut env, signed(10), Executed::Nothing),
        Err(DeliverError::Mismatch)
    );
    assert_eq!(
        i.delivered(&mut env, signed(10), Executed::TopDown(ok_ret(0))),
        Err(DeliverError::Mismatch)
    );
    assert_eq!(
        i.delivered(
            &mut env,
            ChainMessage::Ipc(IpcMessage::TopDownExec(proposal(104))),
            Executed::Message(Ok(ok_ret(0)))
        ),
        Err(DeliverError::Mismatch)
    );
    assert_eq!(
        i.delivered(
            &mut env,
            ChainMessage::Ipc(IpcMessage::BottomUpExec(ckpt(1))),
            Executed::Message(Ok(ok_ret(0)))
        ),
        Err(DeliverError::Mismatch)
    );
    match env.topdown_client {
        Toggle::Enabled(c) => {
            assert_eq!(c.provider.last_committed_finality(), Some(finality(100)));
        }
        Toggle::Disabled => panic!("client was switched on"),
    }
}

#[test]
fn end_hands_power_updates_to_the_tally() {
    let mut env = env_with(CheckpointPool::new(), Some(client_with_views()));
    let i = interpreter();
    assert_eq!(i.end(&mut env, vec![]), Ok(()));
    assert_eq!(i.end(&mut env, vec![(vec![9; 33], 50), (vec![8; 33], 25)]), Ok(()));
    match env.topdown_client {
        Toggle::Enabled(c) => {
            assert_eq!(c.tally.total_weight(), 75);
            assert!(c.tally.known_validator(&vec![9; 33]));
            assert!(!c.tally.known_validator(&vec![1; 33]));
        }
        Toggle::Disabled => panic!("client was switched on"),
    }
    let mut off = env_with(CheckpointPool::new(), None);
    assert_eq!(i.end(&mut off, vec![]), Ok(()));
    assert_eq!(i.end(&mut off, vec![(vec![9; 33], 50)]), Err(TopdownError::NotEnabled));
}
