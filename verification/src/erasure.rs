//! The type-erasure and downcast layer.
//!
//! A [`TypeIdentity`] is an opaque token that identifies one concrete element
//! type at runtime.  An [`AnyValue`] is a type-erased element value carrying
//! its runtime type tag; a shared reference to one serves as an erased read
//! handle, and a [`MutHandle`] as an erased mutable handle that can change
//! the value but never the tag.  Downcasting succeeds exactly when the tag
//! matches the requested type: there is no coercion and no structural
//! matching, and a failed downcast is reported by an absent result, never by
//! a panic.

use vstd::prelude::*;

use crate::errors::TupleError;

verus! {

/// Runtime token identifying one concrete element type.
///
/// Two tokens are equal exactly when they identify the same element type.
#[derive(Clone, Copy, PartialEq, Eq, Structural, Debug, Hash)]
pub enum TypeIdentity {
    /// Identifies elements holding a signed machine integer.
    Integer,
    /// Identifies elements holding a character string.
    Text,
    /// Identifies elements holding a truth value.
    Boolean,
}

/// A type-erased element value, tagged with its runtime type.
///
/// The variant is the runtime type tag; a `&AnyValue` is an erased read
/// handle to one element, and [`MutHandle`] the matching mutable handle.
#[derive(Debug, PartialEq, Eq)]
pub enum AnyValue {
    /// An element of type [`TypeIdentity::Integer`].
    Integer(i64),
    /// An element of type [`TypeIdentity::Text`].
    Text(String),
    /// An element of type [`TypeIdentity::Boolean`].
    Boolean(bool),
}

/// A mutable erased element handle: write access to one element's value
/// with the element's type identity fixed by construction.
///
/// The variant is the element's runtime type tag, and each variant carries a
/// mutable reference to the element's inner value only, so a write through a
/// handle can change what the element holds but never which type it holds.
/// Matching on the handle is the mutable exact-match downcast: the typed
/// reference is recovered exactly when the expected variant matches.
#[derive(Debug)]
pub enum MutHandle<'a> {
    /// A handle to an element of type [`TypeIdentity::Integer`].
    Integer(&'a mut i64),
    /// A handle to an element of type [`TypeIdentity::Text`].
    Text(&'a mut String),
    /// A handle to an element of type [`TypeIdentity::Boolean`].
    Boolean(&'a mut bool),
}

impl<'a> MutHandle<'a> {
    /// The erased value this handle was taken from.
    pub open spec fn current(&self) -> AnyValue {
        match self {
            MutHandle::Integer(x) => AnyValue::Integer(**x),
            MutHandle::Text(x) => AnyValue::Text(**x),
            MutHandle::Boolean(x) => AnyValue::Boolean(**x),
        }
    }

    /// Returns the runtime type tag of the element behind this handle.
    pub fn type_identity(&self) -> (t: TypeIdentity)
        ensures
            t == self.current().type_id(),
    {
        match self {
            MutHandle::Integer(_) => TypeIdentity::Integer,
            MutHandle::Text(_) => TypeIdentity::Text,
            MutHandle::Boolean(_) => TypeIdentity::Boolean,
        }
    }
}

impl AnyValue {
    /// The runtime type tag carried by this erased value.
    pub open spec fn type_id(&self) -> TypeIdentity {
        match self {
            AnyValue::Integer(_) => TypeIdentity::Integer,
            AnyValue::Text(_) => TypeIdentity::Text,
            AnyValue::Boolean(_) => TypeIdentity::Boolean,
        }
    }

    /// Returns the runtime type tag of this erased value.
    pub fn type_identity(&self) -> (t: TypeIdentity)
        ensures
            t == self.type_id(),
    {
        match self {
            AnyValue::Integer(_) => TypeIdentity::Integer,
            AnyValue::Text(_) => TypeIdentity::Text,
            AnyValue::Boolean(_) => TypeIdentity::Boolean,
        }
    }

    /// Requires this erased value to carry the type `t`: returns `Ok`
    /// exactly when the tag matches `t`, and signals `DowncastFailed`
    /// otherwise.
    pub fn expect_type(&self, t: TypeIdentity) -> (r: Result<(), TupleError>)
        ensures
            r is Ok <==> self.type_id() == t,
            r is Err ==> r->Err_0 == TupleError::DowncastFailed,
    {
        if self.type_identity() == t {
            Ok(())
        } else {
            Err(TupleError::DowncastFailed)
        }
    }

    /// Downcast to an integer: succeeds exactly when the tag is `Integer`.
    pub fn downcast_integer(&self) -> (r: Option<&i64>)
        ensures
            r is Some <==> self is Integer,
            r matches Some(x) ==> *x == self->Integer_0,
    {
        match self {
            AnyValue::Integer(x) => Some(x),
            _ => None,
        }
    }

    /// Downcast to a string: succeeds exactly when the tag is `Text`.
    pub fn downcast_text(&self) -> (r: Option<&String>)
        ensures
            r is Some <==> self is Text,
            r matches Some(x) ==> *x == self->Text_0,
    {
        match self {
            AnyValue::Text(x) => Some(x),
            _ => None,
        }
    }

    /// Downcast to a truth value: succeeds exactly when the tag is `Boolean`.
    pub fn downcast_boolean(&self) -> (r: Option<&bool>)
        ensures
            r is Some <==> self is Boolean,
            r matches Some(x) ==> *x == self->Boolean_0,
    {
        match self {
            AnyValue::Boolean(x) => Some(x),
            _ => None,
        }
    }

    /// Takes the mutable erased handle to this value.  The handle grants
    /// write access to the inner value only, so afterwards this value holds
    /// whatever the caller left in the handle, always under the same type
    /// tag.
    pub fn erase_mut(&mut self) -> (h: MutHandle)
        ensures
            h.current() == *old(self),
            h is Integer ==> *final(self) == AnyValue::Integer(*final(h->Integer_0)),
            h is Text ==> *final(self) == AnyValue::Text(*final(h->Text_0)),
            h is Boolean ==> *final(self) == AnyValue::Boolean(*final(h->Boolean_0)),
            (*final(self)).type_id() == (*old(self)).type_id(),
    {
        match self {
            AnyValue::Integer(x) => MutHandle::Integer(x),
            AnyValue::Text(x) => MutHandle::Text(x),
            AnyValue::Boolean(x) => MutHandle::Boolean(x),
        }
    }

    /// Mutable downcast to an integer: succeeds exactly when the tag is
    /// `Integer`.  Writes through the returned handle change the element
    /// value but never its type tag.
    pub fn downcast_integer_mut(&mut self) -> (r: Option<&mut i64>)
        ensures
            r is Some <==> (*old(self)) is Integer,
            r matches Some(x) ==> *x == (*old(self))->Integer_0
                && *final(self) == AnyValue::Integer(*final(x)),
            r is None ==> *final(self) == *old(self),
    {
        match self {
            AnyValue::Integer(x) => Some(x),
            _ => None,
        }
    }

    /// Mutable downcast to a string: succeeds exactly when the tag is `Text`.
    /// Writes through the returned handle change the element value but never
    /// its type tag.
    pub fn downcast_text_mut(&mut self) -> (r: Option<&mut String>)
        ensures
            r is Some <==> (*old(self)) is Text,
            r matches Some(x) ==> *x == (*old(self))->Text_0
                && *final(self) == AnyValue::Text(*final(x)),
            r is None ==> *final(self) == *old(self),
    {
        match self {
            AnyValue::Text(x) => Some(x),
            _ => None,
        }
    }

    /// Mutable downcast to a truth value: succeeds exactly when the tag is
    /// `Boolean`.  Writes through the returned handle change the element
    /// value but never its type tag.
    pub fn downcast_boolean_mut(&mut self) -> (r: Option<&mut bool>)
        ensures
            r is Some <==> (*old(self)) is Boolean,
            r matches Some(x) ==> *x == (*old(self))->Boolean_0
                && *final(self) == AnyValue::Boolean(*final(x)),
            r is None ==> *final(self) == *old(self),
    {
        match self {
            AnyValue::Boolean(x) => Some(x),
            _ => None,
        }
    }
}

} // verus!
