//! A verified model of a dynamic native-call interface.
//!
//! The crate describes, at runtime, a native function's calling convention
//! and argument/result types, and manages the data a native calling engine
//! needs to invoke a function dynamically or to synthesize a callable
//! trampoline bound to a callback and captured state.
//!
//! Instead of the self-referential raw-pointer graphs such an engine
//! traditionally works over, every structure here is held as owned,
//! handle-based data: an invocation plan records the argument count and
//! calling convention it was prepared with, descriptor arrays are owned
//! vectors, and the null-sentinel boundary form expected by an engine is
//! produced only as an explicit view. Values crossing the call boundary are
//! modelled as machine words.

use vstd::prelude::*;

mod cif;
mod closure;
mod types;

pub use cif::Cif;
pub use cif::CifModel;
pub use cif::FfiAbi;
pub use cif::FFI_DEFAULT_ABI;
pub use cif::Plan;
pub use cif::call_admits;
pub use cif::lemma_duplicate_invokes_identically;
pub use closure::CodePtr;
pub use closure::Closure;
pub use closure::ClosureMut;
pub use closure::ClosureOnce;
pub use closure::lemma_mutation_observed;
pub use types::PrimKind;
pub use types::Shape;
pub use types::Type;
pub use types::TypeArray;
pub use types::Builder;
pub use types::lemma_shapes;

verus! {

/// Contains an untyped machine word standing for a function argument.
///
/// When calling a function through a call interface, each argument crosses
/// the boundary in its type-erased machine representation. Wrapping the
/// argument word in the `Arg` struct performs the necessary coercion; the
/// wrapper carries no ownership, it is purely a view of the value.
#[derive(Clone, Copy, Debug)]
pub struct Arg(pub u64);

impl Arg {
    /// The word this argument carries across the call boundary.
    pub open spec fn word(self) -> u64 {
        self.0
    }

    /// Coerces an argument reference into the `Arg` type.
    ///
    /// This is used to wrap each argument word before passing them
    /// to [`Cif::call`].
    pub fn new(r: &u64) -> (a: Arg)
        ensures
            a.word() == *r,
    {
        Arg(*r)
    }
}

/// Coerces an argument reference into the [`Arg`] type.
///
/// This is used to wrap each argument word before passing them
/// to [`Cif::call`]. (This is the same as [`Arg::new`].)
pub fn arg(r: &u64) -> (a: Arg)
    ensures
        a.word() == *r,
{
    Arg::new(r)
}

} // verus!
