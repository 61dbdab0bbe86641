//! The state that a cancellation token and its connection share.
use futures_util::task::AtomicWaker;
use std::sync::atomic::{AtomicBool, Ordering};
use std::task::{Context, Waker};
use vstd::prelude::*;

verus! {

/// `futures_util::task::AtomicWaker`, which keeps the waker of the task that
/// registered last. What it keeps can change at any time, so nothing is said
/// of it.
#[verifier::external_type_specification]
#[verifier::external_body]
pub struct ExAtomicWaker(futures_util::task::AtomicWaker);

/// `std::task::Waker`, which wakes a task.
#[verifier::external_type_specification]
#[verifier::external_body]
pub struct ExWaker(std::task::Waker);

/// `std::task::Context`, which a task is polled with.
#[verifier::external_type_specification]
#[verifier::external_body]
pub struct ExContext<'a>(std::task::Context<'a>);

/// `AtomicWaker::new`. Nothing is claimed of the result.
pub assume_specification[ AtomicWaker::new ]() -> AtomicWaker;

/// `AtomicWaker::register`. What it does can be seen only by other tasks, so
/// nothing is claimed of it.
pub assume_specification[ AtomicWaker::register ](registry: &AtomicWaker, waker: &Waker);

/// `AtomicWaker::wake`. What it does can be seen only by other tasks, so
/// nothing is claimed of it.
pub assume_specification[ AtomicWaker::wake ](registry: &AtomicWaker);

/// `Context::waker`. Nothing is claimed of the result.
pub assume_specification<'a>[ Context::<'a>::waker ](cx: &Context<'a>) -> &'a Waker;

/// Shared cancellation state behind a [`CancellationToken`] and its
/// connection.
///
/// Carries both the request flag and a waker so that
/// [`CancellationToken::cancel`] can wake a task parked in I/O. Without the
/// waker, a cancel issued while the read loop is blocked on a statement that
/// sends no packets would not be observed until the statement completed on its
/// own.
#[derive(Debug)]
pub struct CancellationState {
    requested: AtomicBool,
    waker: AtomicWaker,
}

/// Call `f` and say that the call was made: what comes back is what `f` gave.
pub(crate) fn call_none<R, F: Fn() -> R>(f: F) -> (result: R)
    requires
        call_requires(f, ()),
    ensures
        call_ensures(f, (), result),
{
    f()
}

/// Call `f` on one argument and say that the call was made.
pub(crate) fn call_one<A, R, F: Fn(A) -> R>(f: F, a: A) -> (result: R)
    requires
        call_requires(f, (a,)),
    ensures
        call_ensures(f, (a,), result),
{
    f(a)
}

/// Call `f` on two arguments and say that the call was made.
pub(crate) fn call_two<A, B, R, F: Fn(A, B) -> R>(f: F, a: A, b: B) -> (result: R)
    requires
        call_requires(f, (a, b)),
    ensures
        call_ensures(f, (a, b), result),
{
    f(a, b)
}

/// Call `f` on three arguments and say that the call was made.
pub(crate) fn call_three<A, B, C, R, F: Fn(A, B, C) -> R>(f: F, a: A, b: B, c: C) -> (result: R)
    requires
        call_requires(f, (a, b, c)),
    ensures
        call_ensures(f, (a, b, c), result),
{
    f(a, b, c)
}

// Other tasks can change what an atomic holds at any moment, so the state says
// which calls were made on its parts, with which arguments and results: a result
// is one that the call can give. Nothing is said of what the atomic holds now.
impl CancellationState {
    /// The request flag was made with the value `requested`, and the waker is
    /// a new one.
    pub closed spec fn starts_with(&self, requested: bool) -> bool {
        &&& call_ensures(AtomicBool::new, (requested,), self.requested)
        &&& call_ensures(AtomicWaker::new, (), self.waker)
    }

    /// A look at the request flag gave `requested`.
    pub closed spec fn was_seen(&self, requested: bool) -> bool {
        call_ensures(AtomicBool::load, (&self.requested, Ordering::Acquire), requested)
    }

    /// The value `requested` was stored in the request flag.
    pub closed spec fn was_set(&self, requested: bool) -> bool {
        call_ensures(AtomicBool::store, (&self.requested, requested, Ordering::Release), ())
    }

    /// The task that is polled with `cx` was registered to be woken.
    pub closed spec fn was_registered(&self, cx: &Context<'_>) -> bool {
        exists|waker: &Waker|
            {
                &&& call_ensures(Context::waker, (cx,), waker)
                &&& #[trigger] call_ensures(AtomicWaker::register, (&self.waker, waker), ())
            }
    }

    /// The registered task was woken.
    pub closed spec fn was_woken(&self) -> bool {
        call_ensures(AtomicWaker::wake, (&self.waker,), ())
    }

    /// A state in which cancellation has not been requested.
    pub fn new() -> (state: Self)
        ensures
            state.starts_with(false),
    {
        CancellationState {
            requested: call_one(AtomicBool::new, false),
            waker: call_none(AtomicWaker::new),
        }
    }

    /// Whether cancellation has been requested. What the flag holds is up to
    /// all tasks that share the state; the result is what a look at it gave.
    pub fn is_requested(&self) -> (requested: bool)
        ensures
            self.was_seen(requested),
    {
        call_two(AtomicBool::load, &self.requested, Ordering::Acquire)
    }

    /// Take back the request for cancellation.
    pub fn clear(&self)
        ensures
            self.was_set(false),
    {
        call_three(AtomicBool::store, &self.requested, false, Ordering::Release);
    }

    /// Raise the request flag. Only what comes back can wake the registered
    /// task.
    pub(crate) fn raise(&self) -> (raised: Raised<'_>)
        ensures
            raised.spec_state() == self,
            self.was_set(true),
    {
        call_three(AtomicBool::store, &self.requested, true, Ordering::Release);
        Raised { state: self }
    }

    /// Register the current task. Only what comes back can take a look that is
    /// known to be a later one.
    pub(crate) fn register(&self, cx: &Context<'_>) -> (registration: Registration<'_>)
        ensures
            registration.spec_state() == self,
            self.was_registered(cx),
    {
        let waker: &Waker = call_one(Context::waker, cx);
        call_two(AtomicWaker::register, &self.waker, waker);
        Registration { state: self }
    }

    /// Register the current task to be woken when cancellation is requested.
    pub fn register_waker(&self, cx: &Context<'_>)
        ensures
            self.was_registered(cx),
    {
        self.register(cx);
    }
}

/// The task is registered. Outside this module one can be had only by
/// registering, and its look at the request flag is therefore a later one.
pub(crate) struct Registration<'a> {
    state: &'a CancellationState,
}

impl<'a> Registration<'a> {
    /// The state that the task is registered with.
    pub(crate) closed spec fn spec_state(self) -> &'a CancellationState {
        self.state
    }

    /// Look whether cancellation has been requested.
    pub(crate) fn look_again(self) -> (requested: bool)
        ensures
            self.spec_state().was_seen(requested),
    {
        self.state.is_requested()
    }
}

/// The request flag has been raised. Outside this module one can be had only by
/// raising it, and waking the task by it is therefore done later.
pub(crate) struct Raised<'a> {
    state: &'a CancellationState,
}

impl<'a> Raised<'a> {
    /// The state whose flag has been raised.
    pub(crate) closed spec fn spec_state(self) -> &'a CancellationState {
        self.state
    }

    /// Wake the registered task.
    pub(crate) fn wake(self)
        ensures
            self.spec_state().was_woken(),
    {
        call_one(AtomicWaker::wake, &self.state.waker);
    }
}

/// Each fact is that of one call, on the part of the state that it is about,
/// with the memory order that lets what a task did before it cancelled be seen
/// by the task that finds the request.
proof fn law_facts_are_calls(state: CancellationState, requested: bool, cx: &Context<'_>)
    ensures
        state.starts_with(requested) ==> call_ensures(
            AtomicBool::new,
            (requested,),
            state.requested,
        ) && call_ensures(AtomicWaker::new, (), state.waker),
        state.was_seen(requested) ==> call_ensures(
            AtomicBool::load,
            (&state.requested, Ordering::Acquire),
            requested,
        ),
        state.was_set(requested) ==> call_ensures(
            AtomicBool::store,
            (&state.requested, requested, Ordering::Release),
            (),
        ),
        state.was_registered(cx) ==> exists|waker: &Waker|
            {
                &&& call_ensures(Context::waker, (cx,), waker)
                &&& #[trigger] call_ensures(AtomicWaker::register, (&state.waker, waker), ())
            },
        state.was_woken() ==> call_ensures(AtomicWaker::wake, (&state.waker,), ()),
{
}

} // verus!
