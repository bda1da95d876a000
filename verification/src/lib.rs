//! Parent-chain finality for a child subnet: a contiguous cache of parent
//! views with its persistent mirror, the finality provider built on both, the
//! vote tally, the chain-message rules and the metadata ring.

pub mod bytes;
pub mod cache;
pub mod chain;
pub mod check;
pub mod collections;
pub mod event;
pub mod finality;
pub mod hexfmt;
pub mod logging;
pub mod message;
pub mod metadata;
pub mod pool;
pub mod provider;
pub mod store;
pub mod sync;
pub mod topdown;
pub mod voting;

use vstd::prelude::*;

verus! {

/// Height of a block on the parent chain.
pub type BlockHeight = u64;

/// Hash of a block on the parent chain, as raw bytes.
pub type BlockHash = Vec<u8>;

} // verus!
