//! The chain metadata actor: the identifiers of the newest blocks of the
//! child chain, as many as the lookback length allows.

use crate::bytes::clone_bytes;
use std::collections::VecDeque;
use vstd::prelude::*;

verus! {

/// The identifier of a block, as bytes.
pub type BlockId = Vec<u8>;

/// The number of the constructor method.
pub const METHOD_CONSTRUCTOR: u64 = 1;

/// The methods of the actor.
#[derive(Clone, Copy, Debug, PartialEq, Eq, Structural)]
pub enum Method {
    Constructor,
    PushBlock,
    LookbackLen,
    BlockCID,
}

impl Method {
    /// The number under which the method is called.
    pub open spec fn spec_number(self) -> u64 {
        match self {
            Method::Constructor => METHOD_CONSTRUCTOR,
            Method::PushBlock => 2,
            Method::LookbackLen => 3,
            Method::BlockCID => 4,
        }
    }

    /// The number under which the method is called.
    pub fn number(&self) -> (n: u64)
        ensures
            n == self.spec_number(),
    {
        match self {
            Method::Constructor => METHOD_CONSTRUCTOR,
            Method::PushBlock => 2,
            Method::LookbackLen => 3,
            Method::BlockCID => 4,
        }
    }

    /// The method that is called under `n`, if there is one.
    pub fn from_u64(n: u64) -> (m: Option<Method>)
        ensures
            match m {
                Some(method) => method.spec_number() == n,
                None => forall|method: Method| method.spec_number() != n,
            },
    {
        if n == METHOD_CONSTRUCTOR {
            Some(Method::Constructor)
        } else if n == 2 {
            Some(Method::PushBlock)
        } else if n == 3 {
            Some(Method::LookbackLen)
        } else if n == 4 {
            Some(Method::BlockCID)
        } else {
            None
        }
    }
}

/// What the actor is made with.
#[derive(Clone, Copy, Debug, Default, PartialEq, Eq, Structural)]
pub struct ConstructorParams {
    pub lookback_len: u64,
}

/// Why a call of the actor fails.
#[derive(Clone, Copy, Debug, PartialEq, Eq, Structural)]
pub enum ActorError {
    /// An argument is out of range.
    IllegalArgument,
}

/// The state of the actor: the block identifiers, the oldest first, and the
/// lookback length.
#[derive(Clone, Debug)]
pub struct State {
    blockhashes: VecDeque<BlockId>,
    params: ConstructorParams,
}

/// The state as a mathematical value.
pub struct StateView {
    pub blocks: Seq<Seq<u8>>,
    pub lookback_len: u64,
}

impl StateView {
    /// The state after `block` was pushed: the oldest block leaves if the
    /// lookback length is exceeded.
    pub open spec fn push(self, block: Seq<u8>) -> Self {
        if self.blocks.len() + 1 > self.lookback_len {
            StateView { blocks: self.blocks.push(block).skip(1), ..self }
        } else {
            StateView { blocks: self.blocks.push(block), ..self }
        }
    }

    /// The block that lies `rewind` pushes back; zero is the newest.
    pub open spec fn block_at(self, rewind: u64) -> Option<Seq<u8>> {
        if rewind < self.blocks.len() {
            Some(self.blocks[self.blocks.len() - rewind - 1])
        } else {
            None
        }
    }
}

impl View for State {
    type V = StateView;

    closed spec fn view(&self) -> StateView {
        StateView {
            blocks: self.blockhashes@.map_values(|b: BlockId| b@),
            lookback_len: self.params.lookback_len,
        }
    }
}

impl State {
    /// The state holds no more blocks than the lookback length.
    pub open spec fn wf(&self) -> bool {
        self@.blocks.len() <= self@.lookback_len
    }
}

/// A push keeps the number of blocks within the lookback length, and the
/// pushed block is the newest unless the lookback length is zero.
pub proof fn lemma_push_keeps_bound(s: StateView, block: Seq<u8>)
    requires
        s.blocks.len() <= s.lookback_len,
    ensures
        s.push(block).blocks.len() <= s.lookback_len,
        s.push(block).lookback_len == s.lookback_len,
        s.lookback_len > 0 ==> s.push(block).block_at(0) == Some(block),
        forall|rewind: u64|
            0 < rewind < s.push(block).blocks.len() ==> #[trigger] s.push(block).block_at(rewind)
                == s.block_at((rewind - 1) as u64),
{
}

/// The chain metadata actor.
pub struct Actor;

impl Actor {
    /// The name of the actor.
    pub fn name() -> (n: &'static str)
        ensures
            n@ == "ChainMetadata"@,
    {
        "ChainMetadata"
    }

    /// The state of a new actor: no blocks, and the lookback length given.
    pub fn constructor(params: ConstructorParams) -> (state: State)
        ensures
            state.wf(),
            state@ == (StateView { blocks: Seq::empty(), lookback_len: params.lookback_len }),
    {
        let state = State { blockhashes: VecDeque::new(), params };
        assert(state@.blocks =~= Seq::empty());
        state
    }

    /// Appends `block`; if the state then holds more blocks than the
    /// lookback length, the oldest leaves.
    pub fn push_block(st: &mut State, block: BlockId)
        ensures
            final(st)@ == old(st)@.push(block@),
            old(st).wf() ==> final(st).wf(),
    {
        st.blockhashes.push_back(block);
        if st.blockhashes.len() as u64 > st.params.lookback_len {
            let _ = st.blockhashes.pop_front();
            assert(st@.blocks =~= old(st)@.blocks.push(block@).skip(1));
        } else {
            assert(st@.blocks =~= old(st)@.blocks.push(block@));
        }
    }

    /// The lookback length.
    pub fn lookback_len(st: &State) -> (n: u64)
        ensures
            n == st@.lookback_len,
    {
        st.params.lookback_len
    }

    /// The identifier of the block that lies `rewind` pushes back; zero is
    /// the newest. Fails if the state does not reach that far back.
    pub fn block_cid(st: &State, rewind: u64) -> (r: Result<BlockId, ActorError>)
        ensures
            match st@.block_at(rewind) {
                Some(block) => r matches Ok(id) && id@ == block,
                None => r == Err::<BlockId, ActorError>(ActorError::IllegalArgument),
            },
    {
        let n: usize = st.blockhashes.len();
        if rewind >= n as u64 {
            return Err(ActorError::IllegalArgument);
        }
        let i: usize = n - (rewind as usize) - 1;
        Ok(clone_bytes(&st.blockhashes[i]))
    }

    /// Number of blocks held.
    pub fn len(st: &State) -> (n: usize)
        ensures
            n == st@.blocks.len(),
    {
        st.blockhashes.len()
    }
}

} // verus!
