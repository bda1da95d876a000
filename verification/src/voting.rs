//! The vote tally: the weights of the child's validators, the parent chain
//! as this node saw it, and the votes of the validators on its blocks, with
//! the search for the highest block that a quorum voted for.

use crate::bytes::{bytes_eq, clone_bytes};
use crate::collections::{
    byte_views, chain_above, chain_clone, chain_get, chain_insert, chain_map, chain_max,
    chain_min, chain_new,
    hash_view, hash_votes, hash_votes_get, hash_votes_insert, hash_votes_keys, hash_votes_new,
    height_votes, height_votes_clone, height_votes_get, height_votes_insert, height_votes_new,
    height_votes_retain_from, heights_above, heights_from, power_clone, power_contains,
    power_get,
    power_insert, power_keys, power_map, power_new, voter_set, voters_contains, voters_insert,
    voters_list, voters_new,
};
use crate::{BlockHash, BlockHeight};
use vstd::prelude::*;
use vstd::set::fold::{is_fun_commutative, lemma_fold_empty, lemma_fold_insert};

verus! {

/// The public key of a validator, as bytes.
pub type ValidatorKey = Vec<u8>;

/// The voting power of a validator.
pub type Weight = u64;

/// What the tally refuses.
#[derive(Clone, Debug, PartialEq, Eq)]
pub enum Error {
    /// The chain was not extended: the first height was expected, the second
    /// was given.
    UnexpectedBlock(BlockHeight, BlockHeight),
    /// The validator is not in the power table.
    UnknownValidator(ValidatorKey),
    /// The validator voted at this height for the first hash, after it had
    /// voted there for the second.
    Equivocation(ValidatorKey, BlockHeight, BlockHash, BlockHash),
}

/// What the tally holds, as a mathematical value.
pub struct TallyView {
    /// The weight of each validator.
    pub power: Map<Seq<u8>, u64>,
    /// The hash of each height of the parent chain; `None` for a null round.
    pub chain: Map<u64, Option<Seq<u8>>>,
    /// The validators that voted for each hash at each height.
    pub votes: Map<u64, Map<Seq<u8>, Set<Seq<u8>>>>,
}

/// What becomes of a vote.
pub enum VoteOutcome {
    /// The height is below the chain: the vote is ignored.
    Ignored,
    /// The validator is not in the power table.
    UnknownValidator,
    /// The validator has voted for this other hash at the same height.
    Equivocation(Seq<u8>),
    /// The validator has cast the same vote before.
    Duplicate,
    /// The vote is counted.
    Added,
}

/// The weight of `key` in `power`; zero for a key that is not in it.
pub open spec fn power_of(power: Map<Seq<u8>, u64>, key: Seq<u8>) -> nat {
    if power.dom().contains(key) {
        power[key] as nat
    } else {
        0
    }
}

/// The sum of the weights of `voters` in `power`.
pub open spec fn weight_of(voters: Set<Seq<u8>>, power: Map<Seq<u8>, u64>) -> nat {
    voters.fold(0nat, |sum: nat, key: Seq<u8>| sum + power_of(power, key))
}

/// The power table that `entries` describe; of two entries with one key the
/// later counts.
pub open spec fn power_from(entries: Seq<(ValidatorKey, Weight)>) -> Map<Seq<u8>, u64>
    decreases entries.len(),
{
    if entries.len() == 0 {
        Map::empty()
    } else {
        power_from(entries.drop_last()).insert(entries.last().0@, entries.last().1)
    }
}

/// Whether `top` is the largest height of `chain`.
pub open spec fn is_top(chain: Map<u64, Option<Seq<u8>>>, top: u64) -> bool {
    chain.dom().contains(top) && forall|k: u64| chain.dom().contains(k) ==> k <= top
}

/// The height that has to follow `top`; at the end of the heights, `top`
/// itself.
pub open spec fn height_after(top: u64) -> u64 {
    if top < u64::MAX {
        (top + 1) as u64
    } else {
        u64::MAX
    }
}

impl TallyView {
    /// The power table is finite and so is every set of voters, and no
    /// validator has voted for two hashes at one height.
    pub open spec fn wf(self) -> bool {
        &&& self.power.dom().finite()
        &&& forall|h: u64, b: Seq<u8>| #[trigger] self.voters_for(h, b).finite()
        &&& forall|h: u64, b1: Seq<u8>, b2: Seq<u8>, key: Seq<u8>|
            #[trigger] self.voters_for(h, b1).contains(key) && #[trigger] self.voters_for(
                h,
                b2,
            ).contains(key) ==> b1 == b2
    }

    /// The votes cast at `height`, by hash.
    pub open spec fn votes_at(self, height: u64) -> Map<Seq<u8>, Set<Seq<u8>>> {
        if self.votes.dom().contains(height) {
            self.votes[height]
        } else {
            Map::empty()
        }
    }

    /// The validators that voted for `hash` at `height`.
    pub open spec fn voters_for(self, height: u64, hash: Seq<u8>) -> Set<Seq<u8>> {
        if self.votes_at(height).dom().contains(hash) {
            self.votes_at(height)[hash]
        } else {
            Set::empty()
        }
    }

    /// The sum of all weights in the power table.
    pub open spec fn total_weight(self) -> nat {
        weight_of(self.power.dom(), self.power)
    }

    /// The sum of the weights of the validators that voted for `hash` at
    /// `height`.
    pub open spec fn vote_weight(self, height: u64, hash: Seq<u8>) -> nat {
        weight_of(self.voters_for(height, hash), self.power)
    }

    /// Whether the votes for `hash` at `height` weigh more than two thirds of
    /// the total weight.
    pub open spec fn has_quorum(self, height: u64, hash: Seq<u8>) -> bool {
        3 * self.vote_weight(height, hash) > 2 * self.total_weight()
    }

    /// Whether the chain holds a block at `height` that has a quorum.
    pub open spec fn quorum_at(self, height: u64) -> bool {
        self.chain.dom().contains(height) && (self.chain[height] matches Some(hash)
            && self.has_quorum(height, hash))
    }

    /// Whether `height` lies below every height of a chain that is not empty.
    pub open spec fn below_chain(self, height: u64) -> bool {
        (exists|k: u64| self.chain.dom().contains(k)) && forall|k: u64|
            self.chain.dom().contains(k) ==> height < k
    }

    /// Whether `key` has voted at `height` for `other`, which is not `hash`.
    pub open spec fn equivocates(self, key: Seq<u8>, height: u64, hash: Seq<u8>, other: Seq<u8>) -> bool {
        other != hash && self.voters_for(height, other).contains(key)
    }

    /// What becomes of the vote of `key` for `hash` at `height`.
    pub open spec fn vote_outcome(self, key: Seq<u8>, height: u64, hash: Seq<u8>) -> VoteOutcome {
        if self.below_chain(height) {
            VoteOutcome::Ignored
        } else if !self.power.dom().contains(key) {
            VoteOutcome::UnknownValidator
        } else if exists|other: Seq<u8>| self.equivocates(key, height, hash, other) {
            VoteOutcome::Equivocation(
                choose|other: Seq<u8>| self.equivocates(key, height, hash, other),
            )
        } else if self.voters_for(height, hash).contains(key) {
            VoteOutcome::Duplicate
        } else {
            VoteOutcome::Added
        }
    }

    /// The tally after the vote of `key` for `hash` at `height` was counted.
    pub open spec fn with_vote(self, key: Seq<u8>, height: u64, hash: Seq<u8>) -> Self {
        TallyView {
            votes: self.votes.insert(
                height,
                self.votes_at(height).insert(hash, self.voters_for(height, hash).insert(key)),
            ),
            ..self
        }
    }

    /// The tally after `height` was finalized with `hash`: the chain keeps
    /// the heights above and holds `hash` at `height`, and the votes keep the
    /// heights from `height` on.
    pub open spec fn finalized(self, height: u64, hash: Seq<u8>) -> Self {
        TallyView {
            chain: self.chain.restrict(heights_above(height)).insert(height, Some(hash)),
            votes: self.votes.restrict(heights_from(height)),
            ..self
        }
    }
}

/// A tally with the votes of a well-formed one and a finite power table is
/// well formed.
pub proof fn lemma_same_votes_wf(before: TallyView, after: TallyView)
    requires
        before.wf(),
        after.votes == before.votes,
        after.power.dom().finite(),
    ensures
        after.wf(),
{
    assert(forall|h: u64, b: Seq<u8>| after.voters_for(h, b) == before.voters_for(h, b));
}

/// Counting a vote that is neither an equivocation nor a duplicate keeps the
/// tally well formed.
pub proof fn lemma_with_vote_wf(t: TallyView, key: Seq<u8>, height: u64, hash: Seq<u8>)
    requires
        t.wf(),
        forall|other: Seq<u8>| !t.equivocates(key, height, hash, other),
    ensures
        t.with_vote(key, height, hash).wf(),
        t.with_vote(key, height, hash).voters_for(height, hash) == t.voters_for(
            height,
            hash,
        ).insert(key),
        forall|h: u64, b: Seq<u8>|
            (h != height || b != hash) ==> #[trigger] t.with_vote(key, height, hash).voters_for(
                h,
                b,
            ) == t.voters_for(h, b),
{
    let after = t.with_vote(key, height, hash);
    assert forall|h: u64, b: Seq<u8>| (h != height || b != hash) implies #[trigger] after.voters_for(
        h,
        b,
    ) == t.voters_for(h, b) by {
    }
    assert forall|h: u64, b: Seq<u8>| #[trigger] after.voters_for(h, b).finite() by {
    }
    assert forall|h: u64, b1: Seq<u8>, b2: Seq<u8>, k: Seq<u8>|
        #[trigger] after.voters_for(h, b1).contains(k) && #[trigger] after.voters_for(
            h,
            b2,
        ).contains(k) implies b1 == b2 by {
        if h == height && k == key && b1 != b2 {
            if b1 == hash {
                assert(t.equivocates(key, height, hash, b2));
            } else if b2 == hash {
                assert(t.equivocates(key, height, hash, b1));
            }
        }
    }
}

/// Finalizing a height keeps the tally well formed: the votes that stay are
/// those of the heights from it on.
pub proof fn lemma_finalized_wf(t: TallyView, height: u64, hash: Seq<u8>)
    requires
        t.wf(),
    ensures
        t.finalized(height, hash).wf(),
        forall|h: u64, b: Seq<u8>|
            h >= height ==> #[trigger] t.finalized(height, hash).voters_for(h, b) == t.voters_for(
                h,
                b,
            ),
        forall|h: u64, b: Seq<u8>|
            h < height ==> #[trigger] t.finalized(height, hash).voters_for(h, b) == Set::<
                Seq<u8>,
            >::empty(),
{
    let after = t.finalized(height, hash);
    assert forall|h: u64, b: Seq<u8>| h >= height implies #[trigger] after.voters_for(h, b)
        == t.voters_for(h, b) by {
    }
    assert forall|h: u64, b: Seq<u8>| h < height implies #[trigger] after.voters_for(h, b)
        == Set::<Seq<u8>>::empty() by {
    }
    assert forall|h: u64, b: Seq<u8>| #[trigger] after.voters_for(h, b).finite() by {
    }
    assert forall|h: u64, b1: Seq<u8>, b2: Seq<u8>, k: Seq<u8>|
        #[trigger] after.voters_for(h, b1).contains(k) && #[trigger] after.voters_for(
            h,
            b2,
        ).contains(k) implies b1 == b2 by {
    }
}

/// A validator whose vote for `hash` at `height` is counted, and who then
/// votes there for another hash, equivocates.
pub proof fn lemma_vote_for_other_hash_equivocates(
    t: TallyView,
    key: Seq<u8>,
    height: u64,
    hash: Seq<u8>,
    other: Seq<u8>,
)
    requires
        t.wf(),
        !t.below_chain(height),
        t.power.dom().contains(key),
        t.voters_for(height, hash).contains(key),
        other != hash,
    ensures
        t.vote_outcome(key, height, other) == VoteOutcome::Equivocation(hash),
{
    assert(t.equivocates(key, height, other, hash));
}

/// Any two votes of one validator at one height for two hashes: if the first
/// is counted, the second is an equivocation.
pub proof fn lemma_second_vote_is_equivocation(
    t: TallyView,
    key: Seq<u8>,
    height: u64,
    hash: Seq<u8>,
    other: Seq<u8>,
)
    requires
        t.wf(),
        t.vote_outcome(key, height, hash) is Added,
        other != hash,
    ensures
        t.with_vote(key, height, hash).wf(),
        t.with_vote(key, height, hash).vote_outcome(key, height, other)
            == VoteOutcome::Equivocation(hash),
{
    lemma_with_vote_wf(t, key, height, hash);
    let after = t.with_vote(key, height, hash);
    lemma_vote_for_other_hash_equivocates(after, key, height, hash, other);
}

/// No block of the chain has a quorum unless the weight of the votes for its
/// hash, taken three times, exceeds twice the total weight.
pub proof fn lemma_quorum_exceeds_two_thirds(t: TallyView, height: u64)
    requires
        t.quorum_at(height),
    ensures
        t.chain.dom().contains(height),
        t.chain[height] matches Some(hash) && 3 * t.vote_weight(height, hash) > 2
            * t.total_weight(),
{
}

/// Adding a voter that was not among the voters adds its weight.
pub proof fn lemma_weight_insert(voters: Set<Seq<u8>>, power: Map<Seq<u8>, u64>, key: Seq<u8>)
    requires
        voters.finite(),
        !voters.contains(key),
    ensures
        weight_of(voters.insert(key), power) == weight_of(voters, power) + power_of(power, key),
{
    let f = |sum: nat, key: Seq<u8>| sum + power_of(power, key);
    lemma_fold_insert(voters, 0nat, f, key);
}

/// Nobody weighs nothing.
pub proof fn lemma_weight_empty(power: Map<Seq<u8>, u64>)
    ensures
        weight_of(Set::empty(), power) == 0,
{
    let f = |sum: nat, key: Seq<u8>| sum + power_of(power, key);
    lemma_fold_empty(0nat, f);
}

/// Whether `weight` is more than two thirds of `total`.
pub fn exceeds_two_thirds(weight: u128, total: u128) -> (b: bool)
    ensures
        b == (3 * weight > 2 * total),
{
    let third: u128 = total / 3;
    let rest: u128 = total % 3;
    let threshold: u128 = if rest == 2 {
        2 * third + 1
    } else {
        2 * third
    };
    weight > threshold
}

/// Keeps track of the votes on parent chain finality and of the weights of
/// the validators of the child subnet.
#[derive(Debug)]
pub struct VoteTally {
    /// The weights of the validators that vote.
    power_table: im::HashMap<Vec<u8>, u64>,
    /// The parent chain as this node saw it; the hash is missing for a null
    /// round.
    chain: im::OrdMap<u64, Option<Vec<u8>>>,
    /// The votes by height and hash.
    votes: im::HashMap<u64, im::HashMap<Vec<u8>, im::HashSet<Vec<u8>>>>,
}

impl View for VoteTally {
    type V = TallyView;

    closed spec fn view(&self) -> TallyView {
        TallyView {
            power: power_map(self.power_table),
            chain: chain_map(self.chain),
            votes: height_votes(self.votes),
        }
    }
}

impl Clone for VoteTally {
    /// A copy of the tally, which shares what it holds with this one.
    fn clone(&self) -> (tally: Self)
        ensures
            tally@ == self@,
    {
        VoteTally {
            power_table: power_clone(&self.power_table),
            chain: chain_clone(&self.chain),
            votes: height_votes_clone(&self.votes),
        }
    }
}

impl VoteTally {
    /// The invariant of the tally.
    pub open spec fn wf(&self) -> bool {
        self@.wf()
    }

    /// A tally with the weights of `power_table`, whose chain holds the last
    /// finalized block and nothing else, and without votes.
    pub fn new(
        power_table: Vec<(ValidatorKey, Weight)>,
        last_finalized_block: (BlockHeight, BlockHash),
    ) -> (tally: Self)
        ensures
            tally.wf(),
            tally@ == (TallyView {
                power: power_from(power_table@),
                chain: Map::<u64, Option<Seq<u8>>>::empty().insert(
                    last_finalized_block.0,
                    Some(last_finalized_block.1@),
                ),
                votes: Map::empty(),
            }),
    {
        let table = build_power_table(&power_table);
        let mut chain = chain_new();
        chain_insert(&mut chain, last_finalized_block.0, Some(last_finalized_block.1));
        let tally = VoteTally { power_table: table, chain, votes: height_votes_new() };
        tally
    }

    /// Whether `validator_key` is in the power table.
    pub fn known_validator(&self, validator_key: &ValidatorKey) -> (known: bool)
        ensures
            known == self@.power.dom().contains(validator_key@),
    {
        power_contains(&self.power_table, validator_key)
    }

    /// Adds the next block of the parent chain, or the null round at the
    /// next height. The height has to be the largest of the chain plus one.
    pub fn add_block(&mut self, block_height: BlockHeight, block_hash: Option<BlockHash>) -> (r:
        Result<(), Error>)
        requires
            old(self).wf(),
        ensures
            final(self).wf(),
            forall|top: u64|
                is_top(old(self)@.chain, top) && block_height != top + 1 ==> r == Err::<(), Error>(
                    Error::UnexpectedBlock(height_after(top), block_height),
                ) && final(self)@ == old(self)@,
            (forall|top: u64| is_top(old(self)@.chain, top) ==> block_height == top + 1) ==> r
                is Ok && final(self)@ == (TallyView {
                chain: old(self)@.chain.insert(block_height, hash_view(block_hash)),
                ..old(self)@
            }),
    {
        if let Some(prev) = chain_max(&self.chain) {
            assert(is_top(self@.chain, prev));
            if prev == u64::MAX {
                return Err(Error::UnexpectedBlock(u64::MAX, block_height));
            }
            if block_height != prev + 1 {
                return Err(Error::UnexpectedBlock(prev + 1, block_height));
            }
        }
        chain_insert(&mut self.chain, block_height, block_hash);
        proof {
            lemma_same_votes_wf(old(self)@, self@);
        }
        Ok(())
    }

    /// Whether `block_height` is the height that `add_block` accepts next.
    pub fn expects_block(&self, block_height: BlockHeight) -> (b: bool)
        ensures
            b == (forall|top: u64| is_top(self@.chain, top) ==> block_height == top + 1),
    {
        match chain_max(&self.chain) {
            Some(prev) => {
                assert(is_top(self@.chain, prev));
                prev < u64::MAX && block_height == prev + 1
            },
            None => true,
        }
    }

    /// The sum of the weights of `keys`, none of which occurs twice.
    fn weight_of_keys(&self, keys: &Vec<Vec<u8>>) -> (weight: u128)
        requires
            byte_views(keys@).no_duplicates(),
        ensures
            weight == weight_of(byte_views(keys@).to_set(), self@.power),
            weight <= keys@.len() * u64::MAX,
    {
        let mut weight: u128 = 0;
        let mut i: usize = 0;
        proof {
            assert(byte_views(keys@.take(0)).to_set() =~= Set::empty());
            lemma_weight_empty(self@.power);
        }
        while i < keys.len()
            invariant
                i <= keys.len(),
                byte_views(keys@).no_duplicates(),
                weight == weight_of(byte_views(keys@.take(i as int)).to_set(), self@.power),
                weight <= i * u64::MAX,
            decreases keys.len() - i,
        {
            let w: u64 = match power_get(&self.power_table, &keys[i]) {
                Some(w) => w,
                None => 0,
            };
            proof {
                let done = byte_views(keys@.take(i as int));
                let key = keys@[i as int]@;
                assert(byte_views(keys@.take(i + 1)) =~= done.push(key));
                done.lemma_push_to_set_commute(key);
                assert(!done.to_set().contains(key)) by {
                    if done.to_set().contains(key) {
                        let j = choose|j: int| 0 <= j < done.len() && done[j] == key;
                        assert(byte_views(keys@)[j] == byte_views(keys@)[i as int]);
                    }
                }
                vstd::seq_lib::seq_to_set_is_finite(done);
                lemma_weight_insert(done.to_set(), self@.power, key);
                assert((i + 1) * u64::MAX == i * u64::MAX + u64::MAX) by (nonlinear_arith);
                assert(i * u64::MAX <= usize::MAX * u64::MAX) by (nonlinear_arith)
                    requires
                        i <= usize::MAX,
                ;
            }
            weight = weight + w as u128;
            i = i + 1;
        }
        assert(keys@.take(keys.len() as int) =~= keys@);
        weight
    }

    /// The sum of all weights in the power table.
    pub fn total_weight(&self) -> (weight: u128)
        ensures
            weight == self@.total_weight(),
    {
        let keys = power_keys(&self.power_table);
        self.weight_of_keys(&keys)
    }

    /// The sum of the weights of the validators that voted for `block_hash`
    /// at `block_height`.
    pub fn vote_weight(&self, block_height: BlockHeight, block_hash: &BlockHash) -> (weight: u128)
        ensures
            weight == self@.vote_weight(block_height, block_hash@),
    {
        let at_height = match height_votes_get(&self.votes, block_height) {
            Some(m) => m,
            None => {
                proof {
                    lemma_weight_empty(self@.power);
                }
                return 0;
            },
        };
        let voters = match hash_votes_get(&at_height, block_hash) {
            Some(s) => s,
            None => {
                proof {
                    lemma_weight_empty(self@.power);
                }
                return 0;
            },
        };
        let keys = voters_list(&voters);
        self.weight_of_keys(&keys)
    }

    /// Whether the votes for `block_hash` at `block_height` weigh more than
    /// two thirds of the total weight.
    pub fn has_quorum(&self, block_height: BlockHeight, block_hash: &BlockHash) -> (b: bool)
        ensures
            b == self@.has_quorum(block_height, block_hash@),
    {
        let total = self.total_weight();
        let weight = self.vote_weight(block_height, block_hash);
        exceeds_two_thirds(weight, total)
    }

    /// The highest block of the chain that a quorum voted for: the votes for
    /// its hash weigh more than two thirds of the total weight. Null rounds
    /// are passed over.
    pub fn find_quorum(&self) -> (r: Option<(BlockHeight, BlockHash)>)
        ensures
            match r {
                Some((height, hash)) => {
                    &&& self@.chain.dom().contains(height)
                    &&& self@.chain[height] == Some(hash@)
                    &&& 3 * self@.vote_weight(height, hash@) > 2 * self@.total_weight()
                    &&& forall|k: u64| k > height ==> !self@.quorum_at(k)
                },
                None => forall|k: u64| !self@.quorum_at(k),
            },
    {
        let lowest: u64 = match chain_min(&self.chain) {
            Some(h) => h,
            None => {
                return None;
            },
        };
        let highest: u64 = match chain_max(&self.chain) {
            Some(h) => h,
            None => {
                return None;
            },
        };
        let total = self.total_weight();
        let mut height: u64 = highest;
        loop
            invariant
                lowest <= height <= highest,
                total == self@.total_weight(),
                forall|k: u64| self@.chain.dom().contains(k) ==> lowest <= k <= highest,
                forall|k: u64| k > height ==> !self@.quorum_at(k),
            decreases height - lowest,
        {
            if let Some(Some(hash)) = chain_get(&self.chain, height) {
                let weight = self.vote_weight(height, &hash);
                if exceeds_two_thirds(weight, total) {
                    return Some((height, hash));
                }
            }
            if height == lowest {
                return None;
            }
            height = height - 1;
        }
    }

    /// Counts the vote of `validator_key` for `block_hash` at `block_height`.
    /// Returns whether the vote was new; a vote below the chain, or one cast
    /// before, is not. A validator that is not in the power table, or that
    /// has voted for another hash at this height, is refused, and the tally
    /// stays as it was.
    pub fn add_vote(
        &mut self,
        validator_key: ValidatorKey,
        block_height: BlockHeight,
        block_hash: BlockHash,
    ) -> (r: Result<bool, Error>)
        requires
            old(self).wf(),
        ensures
            final(self).wf(),
            match old(self)@.vote_outcome(validator_key@, block_height, block_hash@) {
                VoteOutcome::Ignored => r == Ok::<bool, Error>(false) && final(self)@ == old(
                    self,
                )@,
                VoteOutcome::UnknownValidator => (r matches Err(Error::UnknownValidator(key))
                    && key@ == validator_key@) && final(self)@ == old(self)@,
                VoteOutcome::Equivocation(other) => (r matches Err(
                    Error::Equivocation(key, height, hash, voted),
                ) && key@ == validator_key@ && height == block_height && hash@ == block_hash@
                    && voted@ == other) && final(self)@ == old(self)@,
                VoteOutcome::Duplicate => r == Ok::<bool, Error>(false) && final(self)@ == old(
                    self,
                )@,
                VoteOutcome::Added => r == Ok::<bool, Error>(true) && final(self)@ == old(
                    self,
                )@.with_vote(validator_key@, block_height, block_hash@),
            },
    {
        let ghost before = self@;
        let ghost key = validator_key@;
        let ghost hash = block_hash@;
        let min_height: u64 = match chain_min(&self.chain) {
            Some(h) => h,
            None => 0,
        };
        if block_height < min_height {
            return Ok(false);
        }
        if !self.known_validator(&validator_key) {
            return Err(Error::UnknownValidator(validator_key));
        }
        let mut votes_at_height = match height_votes_get(&self.votes, block_height) {
            Some(m) => m,
            None => hash_votes_new(),
        };
        let hashes = hash_votes_keys(&votes_at_height);
        let mut i: usize = 0;
        while i < hashes.len()
            invariant
                i <= hashes.len(),
                before == self@,
                key == validator_key@,
                hash == block_hash@,
                before.wf(),
                !before.below_chain(block_height),
                before.power.dom().contains(key),
                hash_votes(votes_at_height) == before.votes_at(block_height),
                byte_views(hashes@).to_set() == hash_votes(votes_at_height).dom(),
                forall|j: int|
                    0 <= j < i ==> !before.equivocates(
                        key,
                        block_height,
                        hash,
                        #[trigger] byte_views(hashes@)[j],
                    ),
            decreases hashes.len() - i,
        {
            if !bytes_eq(&hashes[i], &block_hash) {
                if let Some(voters) = hash_votes_get(&votes_at_height, &hashes[i]) {
                    if voters_contains(&voters, &validator_key) {
                        let voted = clone_bytes(&hashes[i]);
                        assert(before.equivocates(key, block_height, hash, voted@));
                        return Err(
                            Error::Equivocation(validator_key, block_height, block_hash, voted),
                        );
                    }
                }
            }
            i = i + 1;
        }
        assert(forall|other: Seq<u8>| !before.equivocates(key, block_height, hash, other));
        let mut votes_for_block = match hash_votes_get(&votes_at_height, &block_hash) {
            Some(s) => s,
            None => voters_new(),
        };
        if voters_contains(&votes_for_block, &validator_key) {
            return Ok(false);
        }
        voters_insert(&mut votes_for_block, validator_key);
        hash_votes_insert(&mut votes_at_height, block_hash, votes_for_block);
        height_votes_insert(&mut self.votes, block_height, votes_at_height);
        proof {
            lemma_with_vote_wf(before, key, block_height, hash);
        }
        Ok(true)
    }

    /// Replaces the power table. The votes stay, and weigh from now on what
    /// the new table gives their validators.
    pub fn set_power_table(&mut self, power_table: Vec<(ValidatorKey, Weight)>)
        requires
            old(self).wf(),
        ensures
            final(self).wf(),
            final(self)@ == (TallyView { power: power_from(power_table@), ..old(self)@ }),
    {
        self.power_table = build_power_table(&power_table);
        proof {
            lemma_same_votes_wf(old(self)@, self@);
        }
    }

    /// Takes note that the parent block at `block_height` is final: the
    /// chain and the votes below that height are dropped, and the chain holds
    /// `block_hash` at that height.
    pub fn set_finalized(&mut self, block_height: BlockHeight, block_hash: BlockHash)
        requires
            old(self).wf(),
        ensures
            final(self).wf(),
            final(self)@ == old(self)@.finalized(block_height, block_hash@),
    {
        let mut chain = chain_above(&self.chain, block_height);
        chain_insert(&mut chain, block_height, Some(block_hash));
        self.chain = chain;
        height_votes_retain_from(&mut self.votes, block_height);
        proof {
            lemma_finalized_wf(old(self)@, block_height, block_hash@);
        }
    }
}

/// The power table that `entries` describe.
fn build_power_table(entries: &Vec<(ValidatorKey, Weight)>) -> (table: im::HashMap<
    Vec<u8>,
    u64,
>)
    ensures
        power_map(table) == power_from(entries@),
        power_map(table).dom().finite(),
{
    let mut table = power_new();
    let mut i: usize = 0;
    while i < entries.len()
        invariant
            i <= entries.len(),
            power_map(table) == power_from(entries@.take(i as int)),
            power_map(table).dom().finite(),
        decreases entries.len() - i,
    {
        let key = clone_bytes(&entries[i].0);
        power_insert(&mut table, key, entries[i].1);
        assert(entries@.take(i + 1).drop_last() =~= entries@.take(i as int));
        i = i + 1;
    }
    assert(entries@.take(entries.len() as int) =~= entries@);
    table
}

} // verus!
