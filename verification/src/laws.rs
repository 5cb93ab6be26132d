//! The laws that relate the contract operations to one another.
//!
//! Each proof function here states one guarantee of the library over the
//! same sequence model the operation contracts use, so that generic callers
//! can rely on it without re-deriving it from the individual contracts.

use vstd::prelude::*;

use crate::erasure::AnyValue;
use crate::erasure::TypeIdentity;
use crate::traversal::ElementEcho;
use crate::traversal::ForeachTypeStrategie;
use crate::traversal::MapTypeStrategie;
use crate::traversal::PositionEcho;
use crate::traversal::foreach_fold;
use crate::traversal::map_fold;
use crate::tuple::Tuple;
use crate::tuple::TupleInfo;
use crate::tuple::deconstruction_ok;
use crate::tuple::signature_of;

verus! {

/// Every well-formed tuple value has an arity in the supported range;
/// [`TupleInfo::len`] reports that arity by its own contract.
pub proof fn lemma_arity_bounds(t: &Tuple)
    requires
        t.well_formed(),
    ensures
        2 <= t.elements().len() <= 16,
{
}

/// Erased access agrees with the typed view: the element at any position
/// carries exactly the type identity the signature states for that
/// position, so downcasting it to that type succeeds and yields the value
/// the deconstructed view holds there.
pub proof fn lemma_erased_access_agrees(row: Seq<AnyValue>, i: int)
    requires
        0 <= i < row.len(),
    ensures
        row[i].type_id() == signature_of(row)[i],
{
}

/// Round trip: a tuple's own erased handles always reassemble against its
/// own signature.  Handing [`TupleInfo::as_anyies`] together with the type
/// row from [`TupleInfo::types`] to [`TupleInfo::try_deconstruction`]
/// therefore succeeds and reproduces, element for element, the view that
/// [`TupleInfo::deconstruct`] returns; the same holds of
/// [`TupleInfo::as_mut_anyies`] with [`TupleInfo::try_mut_deconstruction`].
pub proof fn lemma_handles_round_trip(row: Seq<AnyValue>)
    ensures
        deconstruction_ok(signature_of(row), row),
{
}

/// Shape stability: replacing one element by a value of the same type
/// identity leaves the tuple's signature unchanged.  Writes that reach an
/// element through a typed mutable downcast always replace it by a value of
/// the same type, so they mutate the value in place without changing the
/// tuple's shape.
pub proof fn lemma_signature_stable_under_typed_write(row: Seq<AnyValue>, i: int, w: AnyValue)
    requires
        0 <= i < row.len(),
        w.type_id() == row[i].type_id(),
    ensures
        signature_of(row.update(i, w)) == signature_of(row),
{
    assert(signature_of(row.update(i, w)) =~= signature_of(row));
}

/// A type-only traversal hands the strategy the positions `pos` up to the
/// arity less one, in strictly increasing order, exactly once each: with a
/// strategy that echoes the position it was handed, output `k` is position
/// `pos + k`.
pub proof fn lemma_foreach_visits_in_order(signature: Seq<TypeIdentity>, input: u64, pos: int)
    requires
        0 <= pos <= signature.len(),
        signature.len() <= usize::MAX,
    ensures
        ({
            let outs = foreach_fold::<PositionEcho>(signature, input, pos).0;
            &&& outs.len() == signature.len() - pos
            &&& forall|k: int| 0 <= k < outs.len() ==> outs[k] == (pos + k) as usize
        }),
    decreases signature.len() - pos,
{
    if pos < signature.len() {
        let step = <PositionEcho as ForeachTypeStrategie>::action_spec(
            signature[pos],
            input,
            pos,
        );
        lemma_foreach_visits_in_order(signature, step.1, pos + 1);
        let outs = foreach_fold::<PositionEcho>(signature, input, pos).0;
        let rest = foreach_fold::<PositionEcho>(signature, step.1, pos + 1).0;
        assert forall|k: int| 0 <= k < outs.len() implies outs[k] == (pos + k) as usize by {
            if k > 0 {
                assert(outs[k] == rest[k - 1]);
            }
        }
    }
}

/// A value-consuming traversal hands the strategy each element exactly
/// once, in position order: with a strategy that passes elements through,
/// output `k` is the element at position `pos + k`.
pub proof fn lemma_map_consumes_in_order(elements: Seq<AnyValue>, input: u64, pos: int)
    requires
        0 <= pos <= elements.len(),
    ensures
        ({
            let outs = map_fold::<ElementEcho>(elements, input, pos).0;
            &&& outs.len() == elements.len() - pos
            &&& forall|k: int| 0 <= k < outs.len() ==> outs[k] == elements[pos + k]
        }),
    decreases elements.len() - pos,
{
    if pos < elements.len() {
        let step = <ElementEcho as MapTypeStrategie>::map_spec(elements[pos], input, pos);
        lemma_map_consumes_in_order(elements, step.1, pos + 1);
        let outs = map_fold::<ElementEcho>(elements, input, pos).0;
        let rest = map_fold::<ElementEcho>(elements, step.1, pos + 1).0;
        assert forall|k: int| 0 <= k < outs.len() implies outs[k] == elements[pos + k] by {
            if k > 0 {
                assert(outs[k] == rest[k - 1]);
            }
        }
    }
}

} // verus!
