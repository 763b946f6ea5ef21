//! Call interfaces: an ordered argument-type sequence, a result type, and a
//! calling convention, prepared into an invocation plan.
//!
//! A [`Cif`] owns its argument and result descriptors for its whole life,
//! because a prepared plan is keyed to them. Duplication deep-copies the
//! owned descriptors and re-prepares the plan over the copies, so that two
//! interfaces never share descriptor storage.

use vstd::prelude::*;

use crate::types::Shape;
use crate::types::Type;
use crate::types::TypeArray;
use crate::types::lemma_shapes;
use crate::Arg;

verus! {

/// The tag of a calling convention (register and stack usage, return
/// handling) a function adheres to.
pub type FfiAbi = u32;

/// The distinguished tag standing for the platform's default calling
/// convention.
pub const FFI_DEFAULT_ABI: FfiAbi = 2;

/// The part of a prepared invocation plan this layer reads back: the
/// calling-convention tag it was prepared under and the argument count baked
/// into it. The per-argument register and stack assignment a native engine
/// derives from the types is the engine's own, keyed to these two and to the
/// owned descriptors of the interface the plan belongs to.
#[derive(Clone, Copy, PartialEq, Eq, Structural, Debug)]
pub struct Plan {
    /// The calling convention the plan was prepared under.
    pub abi: FfiAbi,
    /// The argument count baked into the plan at preparation.
    pub nargs: usize,
}

/// The mathematical model of a call interface.
pub struct CifModel {
    /// The shapes of the declared argument types, in order.
    pub args: Seq<Shape>,
    /// The shape of the declared result type.
    pub result: Shape,
    /// The calling-convention tag.
    pub abi: FfiAbi,
    /// The argument count baked into the invocation plan.
    pub nargs: nat,
}

/// Describes the calling convention and types for calling a function.
///
/// An initialized interface owns an array of argument type descriptors and a
/// result type descriptor, and an invocation plan prepared from them. The
/// descriptors stay owned for the interface's whole life; the calling
/// convention tag is mutable after construction, everything else is
/// immutable.
///
/// Construct with [`Cif::new`].
#[derive(Debug)]
pub struct Cif {
    plan: Plan,
    args: TypeArray,
    result: Type,
}

impl View for Cif {
    type V = CifModel;

    closed spec fn view(&self) -> CifModel {
        CifModel {
            args: self.args@,
            result: self.result@,
            abi: self.plan.abi,
            nargs: self.plan.nargs as nat,
        }
    }
}

/// Whether `r` is an admissible outcome of invoking `fun` on `args` through
/// an interface modelled by `c`: the argument count equals the count baked
/// into the plan, and `r` is a result the function itself admits on those
/// argument words.
pub open spec fn call_admits<R, F: Fn(&Vec<Arg>) -> R>(
    c: CifModel,
    fun: F,
    args: Vec<Arg>,
    r: R,
) -> bool {
    &&& args@.len() == c.nargs
    &&& call_ensures(fun, (&args,), r)
}

impl Cif {
    /// The interface's structural invariant: the argument count baked into
    /// the invocation plan equals the length of the owned argument array.
    pub open spec fn wf(self) -> bool {
        self@.nargs == self@.args.len()
    }

    /// Creates a new call interface for the given argument and result
    /// types.
    ///
    /// Takes ownership of the argument and result descriptors, because the
    /// resulting interface retains them. Records the argument count and
    /// prepares the invocation plan under the platform's default calling
    /// convention; the convention can be adjusted afterwards using
    /// [`Cif::set_abi`]. Every shape a descriptor of this layer can
    /// describe is accepted here, a degenerate aggregate included.
    pub fn new(args: Vec<Type>, result: Type) -> (c: Cif)
        ensures
            c@.args == Type::shapes(args@),
            c@.result == result@,
            c@.abi == FFI_DEFAULT_ABI,
            c@.nargs == args@.len(),
            c.wf(),
    {
        proof {
            lemma_shapes(args@);
        }
        let arr = TypeArray::new(args);
        let nargs = arr.len();
        Cif { plan: Plan { abi: FFI_DEFAULT_ABI, nargs }, args: arr, result }
    }

    /// Calls a function with the given arguments.
    ///
    /// The function value stands for the native code the interface
    /// describes; it takes the type-erased argument words and produces the
    /// result, interpreted at the caller-chosen result type. The one
    /// cheaply checkable part of the contract is that
    /// the argument count equals the count baked into the invocation plan,
    /// and a call that violates it is excluded here. That the declared
    /// types match what the function really expects and returns remains,
    /// as at any native boundary, entirely the caller's obligation.
    pub fn call<R, F: Fn(&Vec<Arg>) -> R>(&self, fun: F, args: &Vec<Arg>) -> (r: R)
        requires
            args@.len() == self@.nargs,
            call_requires(fun, (args,)),
        ensures
            call_ensures(fun, (args,), r),
            call_admits(self@, fun, *args, r),
    {
        fun(args)
    }

    /// Calls a function with the given arguments after checking the
    /// argument count at run time.
    ///
    /// This is the checked front of [`Cif::call`]: the call proceeds, and
    /// its result is returned, exactly when the argument count equals
    /// the count baked into the invocation plan; on a mismatch nothing is
    /// called and `None` is returned, so an unverified caller can turn the
    /// mismatch into the immediate abort it deserves instead of proceeding.
    pub fn try_call<R, F: Fn(&Vec<Arg>) -> R>(&self, fun: F, args: &Vec<Arg>) -> (r: Option<R>)
        requires
            args@.len() == self@.nargs ==> call_requires(fun, (args,)),
        ensures
            r is Some <==> args@.len() == self@.nargs,
            (r matches Some(w) ==> call_ensures(fun, (args,), w)),
            (r matches Some(w) ==> call_admits(self@, fun, *args, w)),
    {
        if args.len() == self.plan.nargs {
            Some(self.call(fun, args))
        } else {
            None
        }
    }

    /// Sets the interface to use the given calling convention. Nothing else
    /// of the interface changes.
    pub fn set_abi(&mut self, abi: FfiAbi)
        ensures
            final(self)@.abi == abi,
            final(self)@.args == old(self)@.args,
            final(self)@.result == old(self)@.result,
            final(self)@.nargs == old(self)@.nargs,
            final(self).wf() == old(self).wf(),
    {
        self.plan.abi = abi;
    }

    /// Gets a read-only borrow of the underlying invocation plan, for
    /// interoperating with a lower layer; pure, no side effect.
    pub fn as_raw_ptr(&self) -> (p: &Plan)
        ensures
            p.abi == self@.abi,
            p.nargs == self@.nargs,
    {
        &self.plan
    }

    /// The argument count baked into the invocation plan at preparation.
    pub fn nargs(&self) -> (n: usize)
        ensures
            n == self@.nargs,
    {
        self.plan.nargs
    }
}

impl Clone for Cif {
    /// Duplicates the interface: deep-copies the owned argument and result
    /// descriptors and prepares the duplicate's plan over the copies, so
    /// that the two interfaces share no descriptor storage. The duplicate's
    /// model is the original's.
    fn clone(&self) -> (r: Cif)
        ensures
            r@ == self@,
    {
        Cif { plan: self.plan, args: self.args.clone(), result: self.result.clone() }
    }
}

/// Duplication law: an interface duplicate whose model equals the
/// original's admits exactly the invocations and outcomes the original
/// admits — an invocation's precondition reads only the argument count
/// baked into the plan, and its outcome relates only the function value and
/// the argument words.
pub proof fn lemma_duplicate_invokes_identically<R, F: Fn(&Vec<Arg>) -> R>(
    orig: CifModel,
    dup: CifModel,
    fun: F,
    args: Vec<Arg>,
    r: R,
)
    requires
        dup == orig,
    ensures
        call_admits(dup, fun, args, r) <==> call_admits(orig, fun, args, r),
{
}

} // verus!
