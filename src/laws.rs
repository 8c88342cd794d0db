use vstd::prelude::*;

use vstd::std_specs::cmp::{PartialEqSpec, PartialOrdSpec};

use crate::ir::{last_op, lookup, IRError, IROp, IRType, Id};

verus! {

/// Placing `ops` one after another onto a sequence that holds `before`: the i-th of them
/// is placed onto `before` followed by the first i, so it receives position
/// `before.len() + i` (0, 1, 2, ... from an empty sequence), and the positions handed out
/// strictly increase without gaps.
pub proof fn lemma_placed_positions_contiguous(before: Seq<IROp>, ops: Seq<IROp>)
    ensures
        forall|i: int|
            0 <= i < ops.len() ==> {
                &&& (before + ops.take(i)).len() == before.len() + i
                &&& #[trigger] (before + ops.take(i)).push(ops[i]) == before + ops.take(i + 1)
            },
        forall|i: int, j: int|
            0 <= i < j <= ops.len() ==> (before + ops.take(i)).len() < (before + ops.take(j)).len(),
        before + ops.take(ops.len() as int) == before + ops,
{
    assert forall|i: int| 0 <= i < ops.len() implies {
        &&& (before + ops.take(i)).len() == before.len() + i
        &&& #[trigger] (before + ops.take(i)).push(ops[i]) == before + ops.take(i + 1)
    } by {
        assert((before + ops.take(i)).push(ops[i]) =~= before + ops.take(i + 1));
    }
    assert(ops.take(ops.len() as int) =~= ops);
}

/// Two identifiers at one position are the same identifier, whatever their type tags:
/// they are equal, compare as equal, and relate in the same way to every other identifier.
pub proof fn lemma_identity_ignores_tag(a: Id, b: Id)
    requires
        a.index() == b.index(),
    ensures
        a.eq_spec(&b),
        a.partial_cmp_spec(&b) == Some(core::cmp::Ordering::Equal),
        forall|c: Id|
            #![auto]
            a.eq_spec(&c) == b.eq_spec(&c) && a.partial_cmp_spec(&c) == b.partial_cmp_spec(&c),
{
}

/// Identifiers order as their positions do.
pub proof fn lemma_order_follows_position(a: Id, b: Id)
    ensures
        a.partial_cmp_spec(&b) == Some(core::cmp::Ordering::Less) <==> a.index() < b.index(),
        a.partial_cmp_spec(&b) == Some(core::cmp::Ordering::Greater) <==> a.index() > b.index(),
        a.partial_cmp_spec(&b) == Some(core::cmp::Ordering::Equal) <==> a.index() == b.index(),
{
}

/// A list can be built exactly of numbers, 2d points and 3d points, and the operation
/// built yields the matching list type.
pub proof fn lemma_list_of_yields_list_type(t: IRType, len: Id)
    ensures
        t.list_op(len) is Some <==> (t == IRType::Number || t == IRType::Vec2 || t
            == IRType::Vec3),
        t == IRType::Number ==> t.list_op(len).unwrap().result_type() == IRType::NumberList,
        t == IRType::Vec2 ==> t.list_op(len).unwrap().result_type() == IRType::Vec2List,
        t == IRType::Vec3 ==> t.list_op(len).unwrap().result_type() == IRType::Vec3List,
{
}

/// A sequence that holds nothing has no operation at any position and no latest one;
/// after one placement, position 0 holds what was placed and is also the latest.
pub proof fn lemma_empty_sequence_lookups(id: Id, op: IROp)
    ensures
        lookup(Seq::empty(), id) == Err::<IROp, IRError>(IRError::NotFound(id.index())),
        last_op(Seq::empty()) == Err::<IROp, IRError>(IRError::EmptySequence),
        id.index() == 0 ==> lookup(Seq::empty().push(op), id) == Ok::<IROp, IRError>(op),
        last_op(Seq::empty().push(op)) == Ok::<IROp, IRError>(op),
{
}

} // verus!
