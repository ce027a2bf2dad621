//! Completed work and rest intervals, kept in a bounded append-only list.

use vstd::prelude::*;

verus! {

/// What a recorded interval was: a rest break, or some other kind of work,
/// distinguished by a small tag (tag 0 is an ordinary work session).
#[derive(Clone, Copy, PartialEq, Eq, Structural, Debug)]
pub enum BlockKind {
    Rest,
    Other(u8),
}

/// One completed interval: `count` units of five minutes, truncated, and the
/// kind of interval it was. Blocks are immutable once recorded.
#[derive(Clone, Copy, PartialEq, Eq, Structural, Debug)]
pub struct Block {
    /// Length of the interval in units of five minutes.
    pub count: u8,
    pub kind: BlockKind,
}

#[verifier::external_type_specification]
#[verifier::external_body]
#[verifier::reject_recursive_types(T)]
pub struct ExHeaplessVec<T, const N: usize>(heapless::Vec<T, N>);

/// The blocks that a history vector holds, oldest first.
pub uninterp spec fn blocks_of(v: heapless::Vec<Block, 100>) -> Seq<Block>;

/// Relies on heapless::Vec::new: a freshly built vector is empty.
#[verifier::external_body]
pub(crate) fn history_new() -> (v: heapless::Vec<Block, 100>)
    ensures
        blocks_of(v) == Seq::<Block>::empty(),
{
    heapless::Vec::new()
}

/// Relies on heapless::Vec::push: the item is appended and `Ok` returned when
/// the length is below the capacity `N`; at capacity the vector is unchanged
/// and the item comes back in `Err`.
#[verifier::external_body]
pub(crate) fn history_push(v: &mut heapless::Vec<Block, 100>, b: Block) -> (accepted: bool)
    ensures
        blocks_of(*old(v)).len() < 100 ==> accepted && blocks_of(*final(v)) == blocks_of(*old(v)).push(b),
        blocks_of(*old(v)).len() >= 100 ==> !accepted && blocks_of(*final(v)) == blocks_of(*old(v)),
{
    v.push(b).is_ok()
}

/// Relies on heapless::Vec::len, through its slice view: the number of
/// elements held.
#[verifier::external_body]
pub(crate) fn history_len(v: &heapless::Vec<Block, 100>) -> (n: usize)
    ensures
        n == blocks_of(*v).len(),
{
    v.len()
}

/// Relies on heapless::Vec's `Deref` to a slice: index `i` reads element `i`.
#[verifier::external_body]
pub(crate) fn history_get(v: &heapless::Vec<Block, 100>, i: usize) -> (b: Block)
    requires
        i < blocks_of(*v).len(),
    ensures
        b == blocks_of(*v)[i as int],
{
    v[i]
}

} // verus!
