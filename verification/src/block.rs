//! Blocks as a pool reports them.

use crate::failure::{no_blocks, ErrorKind, Failure};
use vstd::prelude::*;

verus! {

/// One mined block. The hash tells blocks apart and is never looked into;
/// the height is for display.
#[derive(Clone, Debug, PartialEq, Eq)]
pub struct Block {
    pub hash: String,
    pub height: u32,
}

/// A block as a mathematical value.
pub struct BlockView {
    pub hash: Seq<char>,
    pub height: u32,
}

impl View for Block {
    type V = BlockView;

    open spec fn view(&self) -> BlockView {
        BlockView { hash: self.hash@, height: self.height }
    }
}

/// The blocks of a reply as mathematical values, in the reply's order.
pub open spec fn block_views(blocks: Seq<Block>) -> Seq<BlockView> {
    blocks.map_values(|b: Block| b@)
}

/// Where a pool lists its blocks: the main pool, or its mini variant.
pub open spec fn blocks_address(mini: bool) -> Seq<char> {
    if mini {
        "https://p2pool.io/mini/api/pool/blocks"@
    } else {
        "https://p2pool.io/api/pool/blocks"@
    }
}

/// The address to ask for the blocks of a pool.
pub fn blocks_url(mini: bool) -> (url: String)
    ensures
        url@ == blocks_address(mini),
{
    if mini {
        "https://p2pool.io/mini/api/pool/blocks".to_owned()
    } else {
        "https://p2pool.io/api/pool/blocks".to_owned()
    }
}

impl Block {
    /// A second value equal to this one.
    pub fn duplicate(&self) -> (b: Block)
        ensures
            b == *self,
    {
        Block { hash: self.hash.clone(), height: self.height }
    }
}

/// The most recent block of a reply, which lists the newest block first.
/// A reply without blocks is a failure.
pub fn latest_block(blocks: &Vec<Block>) -> (r: Result<Block, Failure>)
    ensures
        match r {
            Ok(block) => blocks@.len() > 0 && block == blocks@[0],
            Err(f) => blocks@.len() == 0 && f@ == no_blocks(),
        },
{
    if blocks.len() == 0 {
        Err(Failure::new(ErrorKind::EmptyResult, "no blocks found"))
    } else {
        Ok(blocks[0].duplicate())
    }
}

} // verus!
