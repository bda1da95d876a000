use parent_finality::finality::{Config, IPCParentFinality, ParentViewPayload};
use parent_finality::message::{Effects, TopDownProposal};
use parent_finality::provider::FinalityWithNull;
use parent_finality::store::CacheStore;
use parent_finality::topdown::{Toggle, TopdownClient, TopdownError};
use parent_finality::voting::VoteTally;

fn finality(h: u64) -> IPCParentFinality {
    IPCParentFinality { height: h, block_hash: vec![h as u8; 32] }
}

fn filled(h: u64) -> Option<ParentViewPayload> {
    Some((vec![h as u8; 32], vec![], vec![]))
}

fn proposal(h: u64) -> TopDownProposal {
    TopDownProposal { finality: finality(h), effects: Effects(vec![], vec![]) }
}

fn client() -> TopdownClient {
    let config = Config {
        chain_head_delay: 2,
        polling_interval: 10,
        exponential_back_off: 5,
        exponential_retry_limit: 3,
        max_proposal_range: Some(6),
        max_cache_blocks: None,
        proposal_delay: Some(1),
    };
    let mut provider = FinalityWithNull::new(config, 1, Some(finality(10)), CacheStore::new());
    let mut tally = VoteTally::new(vec![(vec![1; 33], 2), (vec![2; 33], 1)], (10, vec![10; 32]));
    for h in 11..=14u64 {
        provider.new_parent_view(h, filled(h)).unwrap();
        tally.add_block(h, Some(vec![h as u8; 32])).unwrap();
    }
    TopdownClient::new(provider, tally)
}

#[test]
fn switched_off_client_refuses_every_call() {
    let mut off: Toggle<TopdownClient> = Toggle::disabled();
    assert_eq!(off.find_topdown_proposal(), Err(TopdownError::NotEnabled));
    assert_eq!(
        off.validate_quorum_proposal(&proposal(13)),
        Err(TopdownError::NotEnabled)
    );
    assert_eq!(off.parent_finalized(finality(13)), Err(TopdownError::NotEnabled));
    assert_eq!(
        off.update_power_table(vec![(vec![1; 33], 1)]),
        Err(TopdownError::NotEnabled)
    );
    assert!(!off.is_enabled());
}

#[test]
fn switched_on_client_answers() {
    let mut on = Toggle::enabled(client());
    assert_eq!(on.find_topdown_proposal(), Ok(Some(proposal(13))));
    assert_eq!(
        on.validate_quorum_proposal(&proposal(13)),
        Err(TopdownError::ProposalInvalid)
    );
    assert_eq!(on.update_power_table(vec![(vec![5; 33], 1)]), Ok(()));
    let event = on.parent_finalized(finality(13)).unwrap();
    assert_eq!(event.block_height, 13);
    assert_eq!(event.block_hash, "0d".repeat(32));
    assert_eq!(on.find_topdown_proposal(), Ok(None));
    match on {
        Toggle::Enabled(c) => {
            assert_eq!(c.provider.last_committed_finality(), Some(finality(13)));
            assert_eq!(c.tally.total_weight(), 1);
        }
        Toggle::Disabled => panic!("client was switched on"),
    }
}

#[test]
fn proposal_needs_provider_and_quorum() {
    let mut c = client();
    assert_eq!(c.find_topdown_proposal(), Some(proposal(13)));
    assert_eq!(
        c.validate_quorum_proposal(&proposal(13)),
        Err(TopdownError::ProposalInvalid)
    );
    // one third of the weight is no quorum
    c.tally.add_vote(vec![2; 33], 13, vec![13; 32]).unwrap();
    assert_eq!(
        c.validate_quorum_proposal(&proposal(13)),
        Err(TopdownError::ProposalInvalid)
    );
    // all of it is
    c.tally.add_vote(vec![1; 33], 13, vec![13; 32]).unwrap();
    assert_eq!(c.validate_quorum_proposal(&proposal(13)), Ok(()));
    // a quorum for a height that the provider does not accept
    c.tally.add_vote(vec![1; 33], 10, vec![10; 32]).unwrap();
    c.tally.add_vote(vec![2; 33], 10, vec![10; 32]).unwrap();
    assert_eq!(
        c.validate_quorum_proposal(&proposal(10)),
        Err(TopdownError::ProposalInvalid)
    );
}

#[test]
fn finalized_parent_prunes_provider_and_tally() {
    let mut c = client();
    c.tally.add_vote(vec![1; 33], 11, vec![11; 32]).unwrap();
    c.tally.add_vote(vec![1; 33], 13, vec![13; 32]).unwrap();
    let event = c.parent_finalized(finality(12));
    assert_eq!(event.block_height, 12);
    assert_eq!(event.block_hash, "0c".repeat(32));
    assert_eq!(c.provider.last_committed_finality(), Some(finality(12)));
    assert_eq!(c.provider.cached_blocks(), 3);
    assert_eq!(c.provider.cache_store().lower_bound(), Some(12));
    assert_eq!(c.tally.vote_weight(11, &vec![11; 32]), 0);
    assert_eq!(c.tally.vote_weight(13, &vec![13; 32]), 2);
    c.update_power_table(vec![(vec![1; 33], 7)]);
    assert_eq!(c.tally.total_weight(), 7);
    assert_eq!(c.tally.vote_weight(13, &vec![13; 32]), 7);
}
