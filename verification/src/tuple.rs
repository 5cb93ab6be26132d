//! The tuple reflection contract and its realization.
//!
//! [`TupleInfo`] is the capability set that a fixed-arity tuple offers:
//! arity and element type enumeration, type-indexed position lookup,
//! type-erased element access, and full structural decomposition.  [`Tuple`]
//! realizes it uniformly for every supported arity: one element row checked
//! against the supported arity range at construction, in place of one
//! realization per arity, so that every arity shares a single set of
//! tie-break, error and ordering rules.

use vstd::prelude::*;

use crate::erasure::AnyValue;
use crate::erasure::MutHandle;
use crate::erasure::TypeIdentity;
use crate::errors::TupleError;
use crate::traversal::ForeachTypeStrategie;
use crate::traversal::MapTypeStrategie;
use crate::traversal::foreach_fold;
use crate::traversal::map_fold;

verus! {

/// Holds exactly when `n` is an arity the library supports.
pub open spec fn arity_supported(n: int) -> bool {
    2 <= n && n <= 16
}

/// The ordered element type identities of an element row.
pub open spec fn signature_of(vals: Seq<AnyValue>) -> Seq<TypeIdentity> {
    vals.map_values(|v: AnyValue| v.type_id())
}

/// Holds exactly when a row of erased handles can be reassembled against a
/// type signature: the handle count equals the arity and every handle's tag
/// is the type at its position.
pub open spec fn deconstruction_ok(signature: Seq<TypeIdentity>, handles: Seq<AnyValue>) -> bool {
    &&& handles.len() == signature.len()
    &&& forall|i: int| 0 <= i < handles.len() ==> handles[i].type_id() == signature[i]
}

/// The capability set of a fixed-arity heterogeneous tuple.
///
/// Contracts are stated over [`elements`](TupleInfo::elements), the ordered
/// sequence of erased element values, whose tags form the tuple's type
/// signature ([`signature_of`]).
pub trait TupleInfo: Sized {
    /// The ordered element row this tuple currently holds.
    spec fn elements(&self) -> Seq<AnyValue>;

    /// Returns the arity: the fixed number of element positions.
    fn len(&self) -> (n: usize)
        ensures
            n == self.elements().len(),
    ;

    /// Returns the ordered element type identities, one per position.
    fn types(&self) -> (ts: Vec<TypeIdentity>)
        ensures
            ts@ == signature_of(self.elements()),
    ;

    /// Returns the position holding type `t`, the lowest such position when
    /// `t` occurs more than once, and `TypeNotFound` when `t` is absent.
    fn index(&self, t: TypeIdentity) -> (r: Result<usize, TupleError>)
        ensures
            ({
                let sig = signature_of(self.elements());
                &&& (r is Ok <==> sig.contains(t))
                &&& (r matches Ok(i) ==> 0 <= i < sig.len() && sig[i as int] == t
                    && (forall|j: int| 0 <= j < i ==> sig[j] != t))
                &&& (r is Err ==> r->Err_0 == TupleError::TypeNotFound)
            }),
    ;

    /// Returns a read handle to the element at `index`, and
    /// `IndexOutOfRange` when `index` is at or beyond the arity.
    fn get(&self, index: usize) -> (r: Result<&AnyValue, TupleError>)
        ensures
            r is Ok <==> index < self.elements().len(),
            r matches Ok(h) ==> *h == self.elements()[index as int],
            r is Err ==> r->Err_0 == TupleError::IndexOutOfRange,
    ;

    /// Returns a mutable handle to the element at `index`, and
    /// `IndexOutOfRange` when `index` is at or beyond the arity.  Afterwards
    /// the tuple holds, at that one position, whatever value the caller left
    /// in the handle, under the same type tag; every other position and the
    /// whole type signature are untouched.
    fn get_mut(&mut self, index: usize) -> (r: Result<MutHandle, TupleError>)
        ensures
            r is Ok <==> index < old(self).elements().len(),
            r matches Ok(h) ==> h.current() == old(self).elements()[index as int],
            r matches Ok(h) ==> (h is Integer ==> final(self).elements() == old(
                self,
            ).elements().update(index as int, AnyValue::Integer(*final(h->Integer_0)))),
            r matches Ok(h) ==> (h is Text ==> final(self).elements() == old(
                self,
            ).elements().update(index as int, AnyValue::Text(*final(h->Text_0)))),
            r matches Ok(h) ==> (h is Boolean ==> final(self).elements() == old(
                self,
            ).elements().update(index as int, AnyValue::Boolean(*final(h->Boolean_0)))),
            r is Err ==> r->Err_0 == TupleError::IndexOutOfRange
                && final(self).elements() == old(self).elements(),
            signature_of(final(self).elements()) == signature_of(old(self).elements()),
    ;

    /// Returns the full deconstructed view: one read reference per position,
    /// in position order, never a partial view.
    fn deconstruct(&self) -> (v: Vec<&AnyValue>)
        ensures
            v@.len() == self.elements().len(),
            forall|i: int| 0 <= i < v@.len() ==> *v@[i] == self.elements()[i],
    ;

    /// Returns the full mutable deconstructed view: one mutable handle per
    /// position, in position order, never a partial view.  Afterwards the
    /// tuple holds, at each position, whatever value the caller left in that
    /// position's handle; writes through the handles change element values
    /// only, never the arity or the type signature.
    fn mut_deconstruct(&mut self) -> (v: Vec<MutHandle>)
        ensures
            v@.len() == old(self).elements().len(),
            forall|i: int| 0 <= i < v@.len() ==> v@[i].current() == old(self).elements()[i],
            final(self).elements().len() == old(self).elements().len(),
            forall|i: int| 0 <= i < v@.len() ==> (v@[i] is Integer ==> final(self).elements()[i]
                == AnyValue::Integer(*final(v@[i]->Integer_0))),
            forall|i: int| 0 <= i < v@.len() ==> (v@[i] is Text ==> final(self).elements()[i]
                == AnyValue::Text(*final(v@[i]->Text_0))),
            forall|i: int| 0 <= i < v@.len() ==> (v@[i] is Boolean ==> final(self).elements()[i]
                == AnyValue::Boolean(*final(v@[i]->Boolean_0))),
            signature_of(final(self).elements()) == signature_of(old(self).elements()),
    ;

    /// Attempts to reassemble a deconstructed view from an expected element
    /// type row and exactly one erased read handle per position:
    /// all-or-nothing, `DeconstructionFailed` when the handle count differs
    /// from the expected arity or any handle's tag differs from the expected
    /// type at its position.
    fn try_deconstruction<'a>(expected: &Vec<TypeIdentity>, handles: &Vec<&'a AnyValue>) -> (r:
        Result<Vec<&'a AnyValue>, TupleError>)
        ensures
            r is Ok <==> deconstruction_ok(expected@, handles@.map_values(|h: &AnyValue| *h)),
            r matches Ok(v) ==> v@ == handles@,
            r is Err ==> r->Err_0 == TupleError::DeconstructionFailed,
    ;

    /// Attempts to reassemble a mutable deconstructed view from an expected
    /// element type row and exactly one erased mutable handle per position:
    /// all-or-nothing, `DeconstructionFailed` when the handle count differs
    /// from the expected arity or any handle's tag differs from the expected
    /// type at its position, and then no handle is written through.
    fn try_mut_deconstruction<'a>(expected: &Vec<TypeIdentity>, handles: Vec<MutHandle<'a>>) -> (r:
        Result<Vec<MutHandle<'a>>, TupleError>)
        ensures
            r is Ok <==> deconstruction_ok(
                expected@,
                handles@.map_values(|h: MutHandle| h.current()),
            ),
            r matches Ok(v) ==> v@ == handles@,
            r is Err ==> r->Err_0 == TupleError::DeconstructionFailed,
            r is Err ==> forall|k: int|
                0 <= k < handles@.len() ==> (handles@[k] is Integer
                    ==> *final(handles@[k]->Integer_0) == *handles@[k]->Integer_0),
            r is Err ==> forall|k: int|
                0 <= k < handles@.len() ==> (handles@[k] is Text
                    ==> *final(handles@[k]->Text_0) == *handles@[k]->Text_0),
            r is Err ==> forall|k: int|
                0 <= k < handles@.len() ==> (handles@[k] is Boolean
                    ==> *final(handles@[k]->Boolean_0) == *handles@[k]->Boolean_0),
    ;

    /// Returns one erased read handle per position, in position order, for
    /// arity-agnostic generic code.
    fn as_anyies(&self) -> (r: Vec<&AnyValue>)
        ensures
            r@.len() == self.elements().len(),
            forall|i: int| 0 <= i < r@.len() ==> *r@[i] == self.elements()[i],
    ;

    /// Returns one erased mutable handle per position, in position order,
    /// for arity-agnostic generic code that mutates elements in place.
    /// Afterwards the tuple holds, at each position, whatever value the
    /// caller left in that position's handle, always under the position's
    /// original type; the type signature never changes.
    fn as_mut_anyies(&mut self) -> (r: Vec<MutHandle>)
        ensures
            r@.len() == old(self).elements().len(),
            forall|i: int| 0 <= i < r@.len() ==> r@[i].current() == old(self).elements()[i],
            final(self).elements().len() == old(self).elements().len(),
            forall|i: int| 0 <= i < r@.len() ==> (r@[i] is Integer ==> final(self).elements()[i]
                == AnyValue::Integer(*final(r@[i]->Integer_0))),
            forall|i: int| 0 <= i < r@.len() ==> (r@[i] is Text ==> final(self).elements()[i]
                == AnyValue::Text(*final(r@[i]->Text_0))),
            forall|i: int| 0 <= i < r@.len() ==> (r@[i] is Boolean ==> final(self).elements()[i]
                == AnyValue::Boolean(*final(r@[i]->Boolean_0))),
            signature_of(final(self).elements()) == signature_of(old(self).elements()),
    ;

    /// Runs a type-only traversal: invokes the strategy once per position,
    /// for positions `0` to the arity less one in strictly increasing order,
    /// handing it the element type at that position and the running
    /// accumulator.  Returns the outputs in position order and the final
    /// accumulator, as pinned down by [`foreach_fold`].  Element values are
    /// neither read nor moved.
    fn foreach_type<S: ForeachTypeStrategie>(&self, input: S::Input) -> (r: (
        Vec<S::Output>,
        S::Input,
    ))
        ensures
            r.0@ == foreach_fold::<S>(signature_of(self.elements()), input, 0).0,
            r.1 == foreach_fold::<S>(signature_of(self.elements()), input, 0).1,
    ;

    /// Runs a value-consuming traversal: consumes the tuple, invokes the
    /// strategy once per position in strictly increasing order, handing it
    /// the owned element moved out of that position and the running
    /// accumulator.  Returns the outputs in position order and the final
    /// accumulator, as pinned down by [`map_fold`].
    fn map_type<S: MapTypeStrategie>(self, input: S::Input) -> (r: (Vec<S::Output>, S::Input))
        ensures
            r.0@ == map_fold::<S>(self.elements(), input, 0).0,
            r.1 == map_fold::<S>(self.elements(), input, 0).1,
    ;
}

/// A fixed-arity heterogeneous tuple value: the uniform realization of
/// [`TupleInfo`] for every supported arity.
///
/// A value can only be built through [`Tuple::try_new`], so its arity always
/// lies in the supported range and [`Tuple::well_formed`] holds of every
/// reachable value.
pub struct Tuple {
    items: Vec<AnyValue>,
}

impl Tuple {
    /// Holds exactly when the arity lies in the supported range.
    pub open spec fn well_formed(&self) -> bool {
        arity_supported(self.elements().len() as int)
    }

    /// Builds a tuple from its ordered element row, and signals
    /// `UnsupportedArity` when the row's length lies outside the supported
    /// arity range.
    pub fn try_new(parts: Vec<AnyValue>) -> (r: Result<Tuple, TupleError>)
        ensures
            r is Ok <==> arity_supported(parts@.len() as int),
            r matches Ok(t) ==> t.elements() == parts@ && t.well_formed(),
            r is Err ==> r->Err_0 == TupleError::UnsupportedArity,
    {
        if 2 <= parts.len() && parts.len() <= 16 {
            Ok(Tuple { items: parts })
        } else {
            Err(TupleError::UnsupportedArity)
        }
    }
}

impl TupleInfo for Tuple {
    closed spec fn elements(&self) -> Seq<AnyValue> {
        self.items@
    }

    fn len(&self) -> (n: usize) {
        self.items.len()
    }

    fn types(&self) -> (ts: Vec<TypeIdentity>) {
        let mut ts: Vec<TypeIdentity> = Vec::new();
        let n = self.items.len();
        for j in 0..n
            invariant
                n == self.items@.len(),
                ts@.len() == j,
                forall|k: int| 0 <= k < j ==> ts@[k] == signature_of(self.items@)[k],
        {
            ts.push(self.items[j].type_identity());
        }
        proof {
            assert(ts@ =~= signature_of(self.items@));
        }
        ts
    }

    fn index(&self, t: TypeIdentity) -> (r: Result<usize, TupleError>) {
        let n = self.items.len();
        for j in 0..n
            invariant
                n == self.items@.len(),
                forall|k: int| 0 <= k < j ==> signature_of(self.items@)[k] != t,
        {
            if self.items[j].type_identity() == t {
                proof {
                    assert(signature_of(self.items@)[j as int] == t);
                    assert(signature_of(self.items@).contains(t));
                }
                return Ok(j);
            }
        }
        proof {
            assert(!signature_of(self.items@).contains(t));
        }
        Err(TupleError::TypeNotFound)
    }

    fn get(&self, index: usize) -> (r: Result<&AnyValue, TupleError>) {
        if index < self.items.len() {
            Ok(&self.items[index])
        } else {
            Err(TupleError::IndexOutOfRange)
        }
    }

    fn get_mut(&mut self, index: usize) -> (r: Result<MutHandle, TupleError>) {
        if index < self.items.len() {
            proof {
                assert forall|w: AnyValue|
                    w.type_id() == self.items@[index as int].type_id() implies #[trigger] signature_of(
                    self.items@.update(index as int, w),
                ) == signature_of(self.items@) by {
                    assert(signature_of(self.items@.update(index as int, w)) =~= signature_of(
                        self.items@,
                    ));
                }
            }
            Ok(self.items[index].erase_mut())
        } else {
            Err(TupleError::IndexOutOfRange)
        }
    }

    fn deconstruct(&self) -> (v: Vec<&AnyValue>) {
        self.as_anyies()
    }

    fn mut_deconstruct(&mut self) -> (v: Vec<MutHandle>) {
        proof {
            assert forall|u: Seq<AnyValue>|
                u.len() == self.items@.len() && (forall|i: int|
                    0 <= i < u.len() ==> u[i].type_id()
                        == self.items@[i].type_id()) implies #[trigger] signature_of(u)
                == signature_of(self.items@) by {
                assert(signature_of(u) =~= signature_of(self.items@));
            }
        }
        slice_mut_handles(self.items.as_mut_slice())
    }

    fn try_deconstruction<'a>(expected: &Vec<TypeIdentity>, handles: &Vec<&'a AnyValue>) -> (r:
        Result<Vec<&'a AnyValue>, TupleError>) {
        let ghost given = handles@.map_values(|h: &AnyValue| *h);
        let n = expected.len();
        if handles.len() != n {
            return Err(TupleError::DeconstructionFailed);
        }
        for j in 0..n
            invariant
                n == expected@.len(),
                handles@.len() == n,
                given == handles@.map_values(|h: &AnyValue| *h),
                forall|k: int| 0 <= k < j ==> given[k].type_id() == expected@[k],
        {
            let h: &AnyValue = handles[j];
            if h.type_identity() != expected[j] {
                proof {
                    assert(given[j as int].type_id() != expected@[j as int]);
                }
                return Err(TupleError::DeconstructionFailed);
            }
        }
        let mut v: Vec<&'a AnyValue> = Vec::new();
        for j in 0..n
            invariant
                n == handles@.len(),
                v@.len() == j,
                forall|k: int| 0 <= k < j ==> v@[k] == handles@[k],
        {
            v.push(handles[j]);
        }
        proof {
            assert(v@ =~= handles@);
            assert(deconstruction_ok(expected@, given));
        }
        Ok(v)
    }

    fn try_mut_deconstruction<'a>(expected: &Vec<TypeIdentity>, handles: Vec<MutHandle<'a>>) -> (r:
        Result<Vec<MutHandle<'a>>, TupleError>) {
        let ghost given = handles@.map_values(|h: MutHandle| h.current());
        let n = expected.len();
        if handles.len() != n {
            return Err(TupleError::DeconstructionFailed);
        }
        for j in 0..n
            invariant
                n == expected@.len(),
                handles@.len() == n,
                given == handles@.map_values(|h: MutHandle| h.current()),
                forall|k: int| 0 <= k < j ==> given[k].type_id() == expected@[k],
        {
            let h = &handles[j];
            if h.type_identity() != expected[j] {
                proof {
                    assert(given[j as int].type_id() != expected@[j as int]);
                }
                return Err(TupleError::DeconstructionFailed);
            }
        }
        proof {
            assert(deconstruction_ok(expected@, given));
        }
        Ok(handles)
    }

    fn as_anyies(&self) -> (r: Vec<&AnyValue>) {
        let mut r: Vec<&AnyValue> = Vec::new();
        let n = self.items.len();
        for j in 0..n
            invariant
                n == self.items@.len(),
                r@.len() == j,
                forall|k: int| 0 <= k < j ==> *r@[k] == self.items@[k],
        {
            r.push(&self.items[j]);
        }
        r
    }

    fn as_mut_anyies(&mut self) -> (r: Vec<MutHandle>) {
        proof {
            assert forall|u: Seq<AnyValue>|
                u.len() == self.items@.len() && (forall|i: int|
                    0 <= i < u.len() ==> u[i].type_id()
                        == self.items@[i].type_id()) implies #[trigger] signature_of(u)
                == signature_of(self.items@) by {
                assert(signature_of(u) =~= signature_of(self.items@));
            }
        }
        slice_mut_handles(self.items.as_mut_slice())
    }

    fn foreach_type<S: ForeachTypeStrategie>(&self, input: S::Input) -> (r: (
        Vec<S::Output>,
        S::Input,
    )) {
        let ghost sig = signature_of(self.items@);
        let ghost input0 = input;
        let mut outputs: Vec<S::Output> = Vec::new();
        let mut acc = input;
        let n = self.items.len();
        proof {
            assert(Seq::<S::Output>::empty() + foreach_fold::<S>(sig, input0, 0).0 =~= foreach_fold::<
                S,
            >(sig, input0, 0).0);
        }
        for j in 0..n
            invariant
                n == self.items@.len(),
                sig == signature_of(self.items@),
                outputs@.len() == j,
                foreach_fold::<S>(sig, input0, 0).0 == outputs@ + foreach_fold::<S>(
                    sig,
                    acc,
                    j as int,
                ).0,
                foreach_fold::<S>(sig, input0, 0).1 == foreach_fold::<S>(sig, acc, j as int).1,
        {
            let t = self.items[j].type_identity();
            proof {
                assert(sig[j as int] == self.items@[j as int].type_id());
            }
            let ghost acc0 = acc;
            let step = S::action(t, acc, j);
            let (out, next) = step;
            proof {
                let spec_step = S::action_spec(sig[j as int], acc0, j as int);
                assert(foreach_fold::<S>(sig, acc0, j as int).0 == seq![spec_step.0]
                    + foreach_fold::<S>(sig, spec_step.1, j + 1).0);
                assert(outputs@ + (seq![spec_step.0] + foreach_fold::<S>(sig, spec_step.1, j + 1).0)
                    =~= (outputs@ + seq![spec_step.0]) + foreach_fold::<S>(
                    sig,
                    spec_step.1,
                    j + 1,
                ).0);
            }
            outputs.push(out);
            acc = next;
        }
        proof {
            assert(foreach_fold::<S>(sig, acc, n as int).0 =~= Seq::<S::Output>::empty());
            assert(outputs@ + Seq::<S::Output>::empty() =~= outputs@);
        }
        (outputs, acc)
    }

    fn map_type<S: MapTypeStrategie>(self, input: S::Input) -> (r: (Vec<S::Output>, S::Input)) {
        let ghost elems0 = self.items@;
        let ghost input0 = input;
        let mut items = self.items;
        let mut outputs: Vec<S::Output> = Vec::new();
        let mut acc = input;
        let n = items.len();
        proof {
            assert(Seq::<S::Output>::empty() + map_fold::<S>(elems0, input0, 0).0 =~= map_fold::<
                S,
            >(elems0, input0, 0).0);
            assert(items@ =~= elems0.skip(0));
        }
        for j in 0..n
            invariant
                n == elems0.len(),
                items@ == elems0.skip(j as int),
                outputs@.len() == j,
                map_fold::<S>(elems0, input0, 0).0 == outputs@ + map_fold::<S>(
                    elems0,
                    acc,
                    j as int,
                ).0,
                map_fold::<S>(elems0, input0, 0).1 == map_fold::<S>(elems0, acc, j as int).1,
        {
            let e = items.remove(0);
            proof {
                assert(e == elems0.skip(j as int)[0]);
                assert(e == elems0[j as int]);
                assert(items@ =~= elems0.skip(j + 1));
            }
            let ghost acc0 = acc;
            let step = S::map(e, acc, j);
            let (out, next) = step;
            proof {
                let spec_step = S::map_spec(elems0[j as int], acc0, j as int);
                assert(map_fold::<S>(elems0, acc0, j as int).0 == seq![spec_step.0] + map_fold::<
                    S,
                >(elems0, spec_step.1, j + 1).0);
                assert(outputs@ + (seq![spec_step.0] + map_fold::<S>(elems0, spec_step.1, j + 1).0)
                    =~= (outputs@ + seq![spec_step.0]) + map_fold::<S>(
                    elems0,
                    spec_step.1,
                    j + 1,
                ).0);
            }
            outputs.push(out);
            acc = next;
        }
        proof {
            assert(map_fold::<S>(elems0, acc, n as int).0 =~= Seq::<S::Output>::empty());
            assert(outputs@ + Seq::<S::Output>::empty() =~= outputs@);
        }
        (outputs, acc)
    }
}

/// Splits a mutable slice into one mutable erased handle per position, in
/// position order; afterwards the slice holds, at each position, whatever
/// value the caller left in that position's handle, always under that
/// position's original type tag.
fn slice_mut_handles(s: &mut [AnyValue]) -> (r: Vec<MutHandle>)
    ensures
        r@.len() == old(s)@.len(),
        forall|i: int| 0 <= i < r@.len() ==> r@[i].current() == old(s)@[i],
        final(s)@.len() == old(s)@.len(),
        forall|i: int| 0 <= i < r@.len() ==> (r@[i] is Integer ==> final(s)@[i]
            == AnyValue::Integer(*final(r@[i]->Integer_0))),
        forall|i: int| 0 <= i < r@.len() ==> (r@[i] is Text ==> final(s)@[i] == AnyValue::Text(
            *final(r@[i]->Text_0),
        )),
        forall|i: int| 0 <= i < r@.len() ==> (r@[i] is Boolean ==> final(s)@[i]
            == AnyValue::Boolean(*final(r@[i]->Boolean_0))),
        forall|i: int| 0 <= i < r@.len() ==> final(s)@[i].type_id() == old(s)@[i].type_id(),
    decreases s@.len(),
{
    if s.len() == 0 {
        Vec::new()
    } else {
        let (first, rest) = s.split_at_mut(1);
        let ghost rest0 = rest@;
        let f = match first.first_mut() {
            Some(f) => f,
            None => {
                proof {
                    assert(false);
                }
                unreached()
            },
        };
        let ghost fval = *f;
        proof {
            assert(fval == old(s)@.subrange(0, 1)[0]);
        }
        let h = AnyValue::erase_mut(f);
        let ghost h0 = h;
        let mut r = slice_mut_handles(rest);
        let ghost r0 = r@;
        r.insert(0, h);
        proof {
            assert forall|i: int| 0 <= i < r@.len() implies r@[i].current() == old(s)@[i] by {
                if i == 0 {
                    assert(r@[0] == h0);
                    assert(h0.current() == fval);
                } else {
                    assert(r@[i] == r0[i - 1]);
                    assert(r0[i - 1].current() == rest0[i - 1]);
                    assert(rest0[i - 1] == old(s)@.subrange(1, old(s)@.len() as int)[i - 1]);
                }
            }
        }
        r
    }
}

} // verus!
