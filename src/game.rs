use vstd::prelude::*;
use crate::pointer::{PointerWalk, walk_start, walk_wf};

verus! {

/// Offset, from the game module's load address, of the first pointer of the
/// chain that leads to the fishing rod's state. Valid for one game build.
pub const ROD_BASE_OFFSET: usize = 0x05A5D218;

/// The offsets of the chain from `ROD_BASE_OFFSET` to the rod's state.
pub open spec fn rod_chain() -> Seq<usize> {
    seq![0usize, 0x230, 0x18, 0x798, 0x48, 0x10, 0x78, 0xC]
}

/// The offsets of the rod chain, in order.
pub fn rod_offsets() -> (r: Vec<usize>)
    ensures
        r@ == rod_chain(),
{
    let r: Vec<usize> = vec![0usize, 0x230, 0x18, 0x798, 0x48, 0x10, 0x78, 0xC];
    assert(r@ =~= rod_chain());
    r
}

/// The walk to the rod's state for a game module loaded at `module_base`,
/// or `None` when the chain's start lies past the end of the address space.
pub fn rod_walk(module_base: usize) -> (r: Option<PointerWalk>)
    ensures
        r.is_some() == (module_base + ROD_BASE_OFFSET <= usize::MAX),
        r matches Some(w) ==> w@ == walk_start(
            (module_base + ROD_BASE_OFFSET) as usize,
            rod_chain(),
        ) && walk_wf(w@),
{
    if module_base <= usize::MAX - ROD_BASE_OFFSET {
        Some(PointerWalk::new(module_base + ROD_BASE_OFFSET, rod_offsets()))
    } else {
        None
    }
}

} // verus!
