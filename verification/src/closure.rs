//! Closure trampolines: synthesized, natively callable entry points bound to
//! a call interface, a callback, and captured state.
//!
//! A trampoline owns a separately boxed [`Cif`] for its whole life, so the
//! invocation plan's backing descriptors never move, together with the
//! installed binding — the callback and the captured state the engine's
//! dispatch thunk hands that callback — and the code pointer of the
//! executable alias handed to foreign code. Invocation models what happens
//! when foreign code calls that pointer: the dispatch thunk passes the
//! type-erased argument words and the captured state to the callback and
//! returns the callback's result word to the foreign caller.
//!
//! Two capture disciplines exist. [`Closure`] borrows its captured state and
//! cannot outlive it; the callback gets shared access, and invocation can be
//! repeated freely. [`ClosureMut`] and [`ClosureOnce`] hold their captured
//! state as an owned value that each invocation threads through the
//! callback: the callback returns the state to install for the next
//! invocation, which for [`ClosureOnce`] may be nothing at all — a later
//! invocation then observes the state already consumed, and nothing here
//! turns that into an error.
//!
//! A native engine can refuse to allocate trampoline memory or to install a
//! binding; such a refusal is an unrecoverable construction-time failure,
//! never a runtime condition. Every binding expressible here is installable,
//! so construction is total.

use vstd::prelude::*;

use crate::Arg;
use crate::cif::Cif;
use crate::cif::CifModel;

verus! {

/// The callable code address of a synthesized trampoline: the executable
/// alias of its dual-mapped memory, as handed to foreign code.
///
/// Foreign code must take the pointer at the bound interface's real function
/// type before calling it; taking it at any other type is outside every
/// contract here. The pointer records the argument count of that type — the
/// part of the signature the dispatch itself is keyed on.
#[derive(Clone, Copy, PartialEq, Eq, Structural, Debug)]
pub struct CodePtr {
    /// The argument count of the function type the pointer stands for.
    pub nargs: usize,
}

/// A trampoline callable from foreign code, with borrowed captured state.
///
/// The lifetime parameter ties the trampoline to the captured state it
/// borrows, so the trampoline cannot outlive it. The callback receives
/// shared access to that state on every invocation; invocation never changes
/// the trampoline, so it may be repeated any number of times.
///
/// Construct with [`Closure::new`].
#[derive(Debug)]
pub struct Closure<'a, U, F> {
    _cif: Box<Cif>,
    callback: F,
    userdata: &'a U,
    code: CodePtr,
}

impl<'a, U, F: Fn(&Vec<Arg>, &U) -> u64> Closure<'a, U, F> {
    /// The model of the bound call interface.
    pub closed spec fn cif_model(self) -> CifModel {
        self._cif@
    }

    /// The bound callback.
    pub closed spec fn callback_of(self) -> F {
        self.callback
    }

    /// The borrowed captured state.
    pub closed spec fn captured(self) -> &'a U {
        self.userdata
    }

    /// The code pointer of the executable alias.
    pub closed spec fn code_model(self) -> CodePtr {
        self.code
    }

    /// The trampoline's structural invariant: the code pointer stands for
    /// the function type of the bound interface.
    pub open spec fn wf(self) -> bool {
        self.code_model().nargs == self.cif_model().nargs
    }

    /// Whether the bound callback accepts the given argument words together
    /// with the captured state.
    pub open spec fn dispatch_requires(self, args: &Vec<Arg>) -> bool {
        call_requires(self.callback_of(), (args, self.captured()))
    }

    /// Whether `r` is a result word the bound callback admits on the given
    /// argument words together with the captured state.
    pub open spec fn dispatch_ensures(self, args: &Vec<Arg>, r: u64) -> bool {
        call_ensures(self.callback_of(), (args, self.captured()), r)
    }

    /// Creates a new trampoline with immutable, borrowed captured state.
    ///
    /// Boxes the interface so its address outlives the trampoline, has the
    /// engine allocate the dual-mapped memory, and installs the binding of
    /// callback and captured state; the returned trampoline carries the
    /// executable alias's code pointer.
    pub fn new(cif: Cif, callback: F, userdata: &'a U) -> (c: Self)
        ensures
            c.cif_model() == cif@,
            c.callback_of() == callback,
            c.captured() == userdata,
            c.wf(),
    {
        let nargs = cif.nargs();
        Closure { _cif: Box::new(cif), callback, userdata, code: CodePtr { nargs } }
    }

    /// What happens when foreign code calls the trampoline's code pointer
    /// with the given argument words: the engine's dispatch thunk hands the
    /// bound callback the arguments and shared access to the captured
    /// state, and the callback's result word is returned to the foreign
    /// caller.
    ///
    /// The foreign caller must call the pointer at the bound interface's
    /// function type, so the argument count is the one baked into the plan;
    /// the trampoline itself is untouched, so invocations may be repeated
    /// and every one of them dispatches over the same captured state.
    pub fn invoke(&self, args: &Vec<Arg>) -> (r: u64)
        requires
            args@.len() == self.cif_model().nargs,
            self.dispatch_requires(args),
        ensures
            self.dispatch_ensures(args, r),
    {
        (self.callback)(args, self.userdata)
    }

    /// Obtains the callable code pointer for the trampoline, to be handed
    /// to foreign code.
    pub fn code_ptr(&self) -> (p: &CodePtr)
        ensures
            *p == self.code_model(),
    {
        &self.code
    }
}

/// A trampoline callable from foreign code, whose callback gets exclusive
/// access to the captured state.
///
/// The captured state is held as an owned value that every invocation
/// threads through the callback: the callback receives the current state and
/// returns, beside the result word, the state the trampoline installs for
/// the next invocation. A change the callback makes on one invocation is
/// therefore what the following invocation dispatches over.
///
/// Construct with [`ClosureMut::new_mut`].
#[derive(Debug)]
pub struct ClosureMut<U, F> {
    _cif: Box<Cif>,
    callback: F,
    userdata: U,
    code: CodePtr,
}

impl<U, F: Fn(&Vec<Arg>, &U) -> (u64, U)> ClosureMut<U, F> {
    /// The model of the bound call interface.
    pub closed spec fn cif_model(self) -> CifModel {
        self._cif@
    }

    /// The bound callback.
    pub closed spec fn callback_of(self) -> F {
        self.callback
    }

    /// The captured state the next invocation dispatches over.
    pub closed spec fn captured(self) -> U {
        self.userdata
    }

    /// The code pointer of the executable alias.
    pub closed spec fn code_model(self) -> CodePtr {
        self.code
    }

    /// The trampoline's structural invariant: the code pointer stands for
    /// the function type of the bound interface.
    pub open spec fn wf(self) -> bool {
        self.code_model().nargs == self.cif_model().nargs
    }

    /// Whether the bound callback accepts the given argument words together
    /// with the current captured state.
    pub open spec fn dispatch_requires(self, args: &Vec<Arg>) -> bool {
        call_requires(self.callback_of(), (args, &self.captured()))
    }

    /// Whether the bound callback, on the given argument words and the
    /// current captured state, admits the result word `r` together with
    /// `next` as the state to install for the following invocation.
    pub open spec fn dispatch_ensures(self, args: &Vec<Arg>, r: u64, next: U) -> bool {
        call_ensures(self.callback_of(), (args, &self.captured()), (r, next))
    }

    /// Creates a new trampoline whose callback gets exclusive access to the
    /// captured state.
    ///
    /// Boxes the interface so its address outlives the trampoline, has the
    /// engine allocate the dual-mapped memory, and installs the binding of
    /// callback and captured state; the returned trampoline carries the
    /// executable alias's code pointer.
    pub fn new_mut(cif: Cif, callback: F, userdata: U) -> (c: Self)
        ensures
            c.cif_model() == cif@,
            c.callback_of() == callback,
            c.captured() == userdata,
            c.wf(),
    {
        let nargs = cif.nargs();
        ClosureMut { _cif: Box::new(cif), callback, userdata, code: CodePtr { nargs } }
    }

    /// What happens when foreign code calls the trampoline's code pointer
    /// with the given argument words: the engine's dispatch thunk hands the
    /// bound callback the arguments and the current captured state; the
    /// callback's result word goes back to the foreign caller, and the
    /// state the callback returned is installed, so that the following
    /// invocation observes it.
    pub fn invoke(&mut self, args: &Vec<Arg>) -> (r: u64)
        requires
            args@.len() == old(self).cif_model().nargs,
            old(self).dispatch_requires(args),
        ensures
            old(self).dispatch_ensures(args, r, final(self).captured()),
            final(self).cif_model() == old(self).cif_model(),
            final(self).callback_of() == old(self).callback_of(),
            final(self).code_model() == old(self).code_model(),
            final(self).wf() == old(self).wf(),
    {
        let (r, next) = (self.callback)(args, &self.userdata);
        self.userdata = next;
        r
    }

    /// Reads the captured state the next invocation would dispatch over —
    /// how a change made by the callback on an earlier invocation is
    /// observed from outside.
    pub fn userdata(&self) -> (u: &U)
        ensures
            *u == self.captured(),
    {
        &self.userdata
    }

    /// Obtains the callable code pointer for the trampoline, to be handed
    /// to foreign code.
    pub fn code_ptr(&self) -> (p: &CodePtr)
        ensures
            *p == self.code_model(),
    {
        &self.code
    }
}

/// Mutation law: when an invocation of a trampoline with exclusive captured
/// state installs `second`'s captured state, the following invocation
/// dispatches the callback over exactly that state — a change the callback
/// makes on one invocation is observed by the next.
pub proof fn lemma_mutation_observed<U, F: Fn(&Vec<Arg>, &U) -> (u64, U)>(
    first: ClosureMut<U, F>,
    second: ClosureMut<U, F>,
    args1: &Vec<Arg>,
    r1: u64,
    args2: &Vec<Arg>,
    r2: u64,
    next2: U,
)
    requires
        second.callback_of() == first.callback_of(),
        first.dispatch_ensures(args1, r1, second.captured()),
        second.dispatch_ensures(args2, r2, next2),
    ensures
        call_ensures(first.callback_of(), (args2, &second.captured()), (r2, next2)),
{
}

/// A trampoline that owns its captured state, for a callback that consumes
/// the state on what is intended to be a single invocation.
///
/// The state is moved into the trampoline and handed to the callback wrapped
/// in an `Option`, so the callback can take it out and consume it. Nothing
/// here enforces single use: an invocation after the callback has consumed
/// the state hands the callback an empty wrapper, silently.
///
/// Construct with [`ClosureOnce::new`].
#[derive(Debug)]
pub struct ClosureOnce<U, F> {
    _cif: Box<Cif>,
    callback: F,
    userdata: Option<U>,
    code: CodePtr,
}

impl<U, F: Fn(&Vec<Arg>, Option<U>) -> (u64, Option<U>)> ClosureOnce<U, F> {
    /// The model of the bound call interface.
    pub closed spec fn cif_model(self) -> CifModel {
        self._cif@
    }

    /// The bound callback.
    pub closed spec fn callback_of(self) -> F {
        self.callback
    }

    /// The wrapped captured state the next invocation dispatches over:
    /// `None` once the callback has consumed it.
    pub closed spec fn captured(self) -> Option<U> {
        self.userdata
    }

    /// The code pointer of the executable alias.
    pub closed spec fn code_model(self) -> CodePtr {
        self.code
    }

    /// The trampoline's structural invariant: the code pointer stands for
    /// the function type of the bound interface.
    pub open spec fn wf(self) -> bool {
        self.code_model().nargs == self.cif_model().nargs
    }

    /// Whether the bound callback accepts the given argument words together
    /// with the current wrapped state.
    pub open spec fn dispatch_requires(self, args: &Vec<Arg>) -> bool {
        call_requires(self.callback_of(), (args, self.captured()))
    }

    /// Whether the bound callback, on the given argument words and the
    /// current wrapped state, admits the result word `r` together with
    /// `next` as the wrapped state left for a following invocation.
    pub open spec fn dispatch_ensures(self, args: &Vec<Arg>, r: u64, next: Option<U>) -> bool {
        call_ensures(self.callback_of(), (args, self.captured()), (r, next))
    }

    /// Creates a new trampoline with owned captured state.
    ///
    /// Moves the state into the trampoline, wrapped so the callback can
    /// later take it out; boxes the interface so its address outlives the
    /// trampoline, has the engine allocate the dual-mapped memory, and
    /// installs the binding. The returned trampoline carries the executable
    /// alias's code pointer.
    pub fn new(cif: Cif, callback: F, userdata: U) -> (c: Self)
        ensures
            c.cif_model() == cif@,
            c.callback_of() == callback,
            c.captured() == Some(userdata),
            c.wf(),
    {
        let nargs = cif.nargs();
        ClosureOnce {
            _cif: Box::new(cif),
            callback,
            userdata: Some(userdata),
            code: CodePtr { nargs },
        }
    }

    /// What happens when foreign code calls the trampoline's code pointer
    /// with the given argument words: the engine's dispatch thunk hands the
    /// bound callback the arguments and the wrapped captured state, which
    /// the callback may take out and consume; the callback's result word
    /// goes back to the foreign caller, and whatever wrapped state the
    /// callback left is what a further invocation — intended or not —
    /// dispatches over.
    pub fn invoke(&mut self, args: &Vec<Arg>) -> (r: u64)
        requires
            args@.len() == old(self).cif_model().nargs,
            old(self).dispatch_requires(args),
        ensures
            old(self).dispatch_ensures(args, r, final(self).captured()),
            final(self).cif_model() == old(self).cif_model(),
            final(self).callback_of() == old(self).callback_of(),
            final(self).code_model() == old(self).code_model(),
            final(self).wf() == old(self).wf(),
    {
        let current = self.userdata.take();
        let (r, next) = (self.callback)(args, current);
        self.userdata = next;
        r
    }

    /// Obtains the callable code pointer for the trampoline, to be handed
    /// to foreign code.
    pub fn code_ptr(&self) -> (p: &CodePtr)
        ensures
            *p == self.code_model(),
    {
        &self.code
    }
}

} // verus!
