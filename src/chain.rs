//! How deep the chain must be before a block reward can be spent.
use vstd::prelude::*;

verus! {

/// Blocks the chain must hold so that the reward of an early block is mature:
/// the coinbase maturity of 100 blocks, plus one.
pub const MATURITY_DEPTH: u64 = 101;

/// How many blocks to mine so that a chain of `count` blocks holds at least
/// `min_depth`: exactly the shortfall below it, and none at or above it.
pub fn blocks_to_mine(count: u64, min_depth: u64) -> (r: u64)
    ensures
        count < min_depth ==> r == min_depth - count,
        count >= min_depth ==> r == 0,
        count + r >= min_depth,
{
    if count < min_depth {
        min_depth - count
    } else {
        0
    }
}

/// The coinbase transaction of a block: the first of its transaction ids.
pub fn coinbase_txid(block_txids: &Vec<String>) -> (r: Option<String>)
    ensures
        block_txids@.len() == 0 ==> r is None,
        block_txids@.len() > 0 ==> (r matches Some(t) && t@ == block_txids@[0]@),
{
    if block_txids.len() == 0 {
        None
    } else {
        Some(block_txids[0].clone())
    }
}

} // verus!
