//! The snake's body is kept in a persistent vector of the `im` crate. Verus
//! does not look inside that type: this file names what a vector holds and
//! states, for each method the game calls, what the method does to it.

use crate::game::snake::Block;
use im::Vector;
use vstd::prelude::*;

verus! {

/// `im::Vector`, which Verus takes as it is, without looking inside.
#[verifier::external_type_specification]
#[verifier::external_body]
#[verifier::reject_recursive_types(A)]
pub struct ExVector<A>(Vector<A>);

/// The blocks that a vector holds, front first.
pub uninterp spec fn blocks(v: Vector<Block>) -> Seq<Block>;

/// `im::Vector::new`: the new vector holds nothing.
#[verifier::external_body]
pub(crate) fn vector_new() -> (v: Vector<Block>)
    ensures
        blocks(v) == Seq::<Block>::empty(),
{
    Vector::new()
}

/// `im::Vector::len`: the number of blocks held.
#[verifier::external_body]
pub(crate) fn vector_len(v: &Vector<Block>) -> (n: usize)
    ensures
        n == blocks(*v).len(),
{
    v.len()
}

/// `im::Vector`'s `Index<usize>`: the block at `index`, counted from the
/// front. The call panics on an index past the end, which the precondition
/// leaves out.
#[verifier::external_body]
pub(crate) fn vector_index(v: &Vector<Block>, index: usize) -> (b: Block)
    requires
        index < blocks(*v).len(),
    ensures
        b == blocks(*v)[index as int],
{
    v[index]
}

/// `im::Vector::front`: the first block, or `None` for an empty vector.
#[verifier::external_body]
pub(crate) fn vector_front(v: &Vector<Block>) -> (b: Option<Block>)
    ensures
        blocks(*v).len() == 0 ==> b.is_none(),
        blocks(*v).len() > 0 ==> b == Some(blocks(*v)[0]),
{
    v.front().copied()
}

/// `im::Vector::push_front`: the block is put before all others. The call
/// panics when the length would pass `usize::MAX`, which the precondition
/// leaves out.
#[verifier::external_body]
pub(crate) fn vector_push_front(v: &mut Vector<Block>, b: Block)
    requires
        blocks(*old(v)).len() < usize::MAX,
    ensures
        blocks(*final(v)) == seq![b] + blocks(*old(v)),
{
    v.push_front(b)
}

/// `im::Vector::push_back`: the block is put after all others. The call
/// panics when the length would pass `usize::MAX`, which the precondition
/// leaves out.
#[verifier::external_body]
pub(crate) fn vector_push_back(v: &mut Vector<Block>, b: Block)
    requires
        blocks(*old(v)).len() < usize::MAX,
    ensures
        blocks(*final(v)) == blocks(*old(v)).push(b),
{
    v.push_back(b)
}

/// `im::Vector::pop_back`: the last block is taken out and returned; an empty
/// vector gives `None` and stays empty.
#[verifier::external_body]
pub(crate) fn vector_pop_back(v: &mut Vector<Block>) -> (b: Option<Block>)
    ensures
        blocks(*old(v)).len() == 0 ==> b.is_none() && blocks(*final(v)) == blocks(*old(v)),
        blocks(*old(v)).len() > 0 ==> b == Some(blocks(*old(v)).last()) && blocks(*final(v))
            == blocks(*old(v)).drop_last(),
{
    v.pop_back()
}

} // verus!
