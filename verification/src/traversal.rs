//! The traversal strategy protocols.
//!
//! A traversal strategy is an externally supplied, position-indexed callback
//! that a tuple invokes once per position, in strictly increasing position
//! order, threading an accumulator: each call's returned accumulator becomes
//! the next call's input.  [`ForeachTypeStrategie`] sees only the element
//! type at each position; [`MapTypeStrategie`] also receives the owned
//! element moved out of that position.
//!
//! The result of a whole traversal is pinned down by the fold functions
//! [`foreach_fold`] and [`map_fold`], which apply the strategy's
//! mathematical action position by position from the front.

use vstd::prelude::*;

use crate::erasure::AnyValue;
use crate::erasure::TypeIdentity;

verus! {

/// A type-only traversal strategy: one callback per position, given the
/// element type identity at that position and the running accumulator,
/// returning one output and the next accumulator.
pub trait ForeachTypeStrategie {
    /// What one call produces for its position.
    type Output;

    /// The accumulator threaded through the calls.
    type Input;

    /// The mathematical action of one call.
    spec fn action_spec(t: TypeIdentity, input: Self::Input, type_index: int) -> (
        Self::Output,
        Self::Input,
    );

    /// One callback invocation: `t` is the element type at position
    /// `type_index`, `input` the running accumulator.
    fn action(t: TypeIdentity, input: Self::Input, type_index: usize) -> (r: (
        Self::Output,
        Self::Input,
    ))
        ensures
            r == Self::action_spec(t, input, type_index as int),
    ;
}

/// A value-consuming traversal strategy: one callback per position, given
/// the owned element moved out of that position and the running accumulator,
/// returning one output and the next accumulator.
pub trait MapTypeStrategie {
    /// What one call produces for its position.
    type Output;

    /// The accumulator threaded through the calls.
    type Input;

    /// The mathematical action of one call.
    spec fn map_spec(element: AnyValue, input: Self::Input, type_index: int) -> (
        Self::Output,
        Self::Input,
    );

    /// One callback invocation: `element` is the owned element from position
    /// `type_index`, `input` the running accumulator.
    fn map(element: AnyValue, input: Self::Input, type_index: usize) -> (r: (
        Self::Output,
        Self::Input,
    ))
        ensures
            r == Self::map_spec(element, input, type_index as int),
    ;
}

/// The outputs and final accumulator of a type-only traversal that visits
/// positions `pos`, `pos + 1`, ... of `signature` in that order, starting
/// from accumulator `input`.
pub open spec fn foreach_fold<S: ForeachTypeStrategie>(
    signature: Seq<TypeIdentity>,
    input: S::Input,
    pos: int,
) -> (Seq<S::Output>, S::Input)
    decreases signature.len() - pos,
{
    if pos < 0 || pos >= signature.len() {
        (Seq::<S::Output>::empty(), input)
    } else {
        let step = S::action_spec(signature[pos], input, pos);
        let rest = foreach_fold::<S>(signature, step.1, pos + 1);
        (seq![step.0] + rest.0, rest.1)
    }
}

/// The outputs and final accumulator of a value-consuming traversal that
/// visits positions `pos`, `pos + 1`, ... of `elements` in that order,
/// starting from accumulator `input`.
pub open spec fn map_fold<S: MapTypeStrategie>(
    elements: Seq<AnyValue>,
    input: S::Input,
    pos: int,
) -> (Seq<S::Output>, S::Input)
    decreases elements.len() - pos,
{
    if pos < 0 || pos >= elements.len() {
        (Seq::<S::Output>::empty(), input)
    } else {
        let step = S::map_spec(elements[pos], input, pos);
        let rest = map_fold::<S>(elements, step.1, pos + 1);
        (seq![step.0] + rest.0, rest.1)
    }
}

/// A type-only traversal produces exactly one output per visited position.
pub proof fn lemma_foreach_fold_length<S: ForeachTypeStrategie>(
    signature: Seq<TypeIdentity>,
    input: S::Input,
    pos: int,
)
    requires
        0 <= pos <= signature.len(),
    ensures
        foreach_fold::<S>(signature, input, pos).0.len() == signature.len() - pos,
    decreases signature.len() - pos,
{
    if pos < signature.len() {
        let step = S::action_spec(signature[pos], input, pos);
        lemma_foreach_fold_length::<S>(signature, step.1, pos + 1);
    }
}

/// A value-consuming traversal produces exactly one output per visited
/// position.
pub proof fn lemma_map_fold_length<S: MapTypeStrategie>(
    elements: Seq<AnyValue>,
    input: S::Input,
    pos: int,
)
    requires
        0 <= pos <= elements.len(),
    ensures
        map_fold::<S>(elements, input, pos).0.len() == elements.len() - pos,
    decreases elements.len() - pos,
{
    if pos < elements.len() {
        let step = S::map_spec(elements[pos], input, pos);
        lemma_map_fold_length::<S>(elements, step.1, pos + 1);
    }
}

/// A type-only strategy whose outputs echo the positions it is handed, in
/// the order it is handed them, while the accumulator counts the calls
/// (saturating at the counter's ceiling).
pub struct PositionEcho;

impl ForeachTypeStrategie for PositionEcho {
    type Output = usize;

    type Input = u64;

    open spec fn action_spec(t: TypeIdentity, input: u64, type_index: int) -> (usize, u64) {
        (
            type_index as usize,
            if input == u64::MAX {
                input
            } else {
                (input + 1) as u64
            },
        )
    }

    fn action(t: TypeIdentity, input: u64, type_index: usize) -> (r: (usize, u64)) {
        (
            type_index,
            if input == u64::MAX {
                input
            } else {
                input + 1
            },
        )
    }
}

/// A value-consuming strategy whose outputs pass each element through
/// unchanged, in the order it receives them, while the accumulator counts
/// the calls (saturating at the counter's ceiling).
pub struct ElementEcho;

impl MapTypeStrategie for ElementEcho {
    type Output = AnyValue;

    type Input = u64;

    open spec fn map_spec(element: AnyValue, input: u64, type_index: int) -> (AnyValue, u64) {
        (
            element,
            if input == u64::MAX {
                input
            } else {
                (input + 1) as u64
            },
        )
    }

    fn map(element: AnyValue, input: u64, type_index: usize) -> (r: (AnyValue, u64)) {
        (
            element,
            if input == u64::MAX {
                input
            } else {
                input + 1
            },
        )
    }
}

} // verus!
