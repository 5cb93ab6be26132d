//! Reflection and uniform access over fixed-arity heterogeneous tuples.
//!
//! A tuple here is an ordered, fixed-length sequence of elements whose
//! per-position types are fixed while the element values may change.
//! The library offers enumeration of the element type identities,
//! type-indexed position lookup, type-erased element access with exact-match
//! downcasting, full structural decomposition, and two accumulator-threading
//! traversal protocols, all specified and verified over a sequence model.

pub mod erasure;
pub mod errors;
pub mod laws;
pub mod traversal;
pub mod tuple;

pub use erasure::AnyValue;
pub use erasure::MutHandle;
pub use erasure::TypeIdentity;
pub use errors::TupleError;
pub use traversal::ElementEcho;
pub use traversal::ForeachTypeStrategie;
pub use traversal::MapTypeStrategie;
pub use traversal::PositionEcho;
pub use tuple::Tuple;
pub use tuple::TupleInfo;
