//! Telling a new block from the one seen last.

use crate::block::Block;
use vstd::prelude::*;

verus! {

/// What the poll loop remembers between two polls: the hash of the block
/// seen last. Blocks are the same exactly when their hashes are the same;
/// heights play no part, so a reorganisation that changes the hash at the
/// same height counts as a new block.
#[derive(Clone, Debug, PartialEq, Eq)]
pub struct PollState {
    pub last_block_hash: String,
}

impl View for PollState {
    type V = Seq<char>;

    open spec fn view(&self) -> Seq<char> {
        self.last_block_hash@
    }
}

impl PollState {
    /// The state after the first fetch: the fetched block is the one seen
    /// last, and nothing is announced for it.
    pub fn seed(block: &Block) -> (state: PollState)
        ensures
            state@ == block@.hash,
    {
        PollState { last_block_hash: block.hash.clone() }
    }

    /// Whether a fetched block is a new one: its hash is not the one seen
    /// last.
    pub fn is_new(&self, block: &Block) -> (new: bool)
        ensures
            new == (block@.hash != self@),
    {
        !(self.last_block_hash == block.hash)
    }

    /// Takes note of a fetched block and says whether it is a new one.
    /// A block with the hash seen last changes nothing; any other hash
    /// becomes the hash seen last.
    pub fn observe(&mut self, block: &Block) -> (changed: bool)
        ensures
            changed == (block@.hash != old(self)@),
            final(self)@ == block@.hash,
            !changed ==> *final(self) == *old(self),
    {
        if self.is_new(block) {
            self.last_block_hash = block.hash.clone();
            true
        } else {
            false
        }
    }
}

} // verus!
