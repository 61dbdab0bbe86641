use futures_util::task::{noop_waker, waker, ArcWake};
use std::sync::atomic::{AtomicUsize, Ordering};
use std::sync::Arc;
use std::task::Context;
use tds_rpc::cancellation::{
    CancelPoll, CancelSignal, CancellationState, CancellationToken, PollStage, PollStep,
};

#[test]
fn a_token_starts_uncancelled() {
    let token = CancellationToken::new(Arc::new(CancellationState::new()));
    assert!(!token.is_cancelled());
}

#[test]
fn cancel_is_seen_by_every_clone() {
    let state = Arc::new(CancellationState::new());
    let token = CancellationToken::new(state.clone());
    let other = token.clone();
    token.cancel();
    assert!(token.is_cancelled());
    assert!(other.is_cancelled());
    assert!(state.is_requested());
    other.cancel();
    assert!(token.is_cancelled());
}

#[test]
fn clear_takes_the_request_back() {
    let state = Arc::new(CancellationState::new());
    let token = CancellationToken::new(state.clone());
    token.cancel();
    state.clear();
    assert!(!token.is_cancelled());
    token.cancel();
    assert!(token.is_cancelled());
}

#[test]
fn a_signal_is_pending_until_cancelled() {
    let state = Arc::new(CancellationState::new());
    let signal = CancelSignal::new(state.clone());
    let waker = noop_waker();
    let cx = Context::from_waker(&waker);
    assert_eq!(signal.poll(&cx), CancelPoll::Pending);
    assert_eq!(signal.poll(&cx), CancelPoll::Pending);
    CancellationToken::new(state.clone()).cancel();
    assert_eq!(signal.poll(&cx), CancelPoll::Ready);
    assert_eq!(signal.poll(&cx), CancelPoll::Ready);
    state.clear();
    assert_eq!(signal.poll(&cx), CancelPoll::Pending);
}

struct Finder(CancellationToken, AtomicUsize);

impl ArcWake for Finder {
    fn wake_by_ref(finder: &Arc<Self>) {
        if finder.0.is_cancelled() {
            finder.1.fetch_add(1, Ordering::SeqCst);
        }
    }
}

#[test]
fn a_woken_task_finds_the_request() {
    let state = Arc::new(CancellationState::new());
    let token = CancellationToken::new(state.clone());
    let finder = Arc::new(Finder(token.clone(), AtomicUsize::new(0)));
    let waker = waker(finder.clone());
    let signal = CancelSignal::new(state);
    assert_eq!(
        signal.poll(&Context::from_waker(&waker)),
        CancelPoll::Pending
    );
    token.cancel();
    assert_eq!(finder.1.load(Ordering::SeqCst), 1);
}

struct Counter(AtomicUsize);

impl ArcWake for Counter {
    fn wake_by_ref(counter: &Arc<Self>) {
        counter.0.fetch_add(1, Ordering::SeqCst);
    }
}

#[test]
fn cancel_wakes_the_task_that_was_told_to_wait() {
    let state = Arc::new(CancellationState::new());
    let token = CancellationToken::new(state.clone());
    let signal = CancelSignal::new(state);
    let counter = Arc::new(Counter(AtomicUsize::new(0)));
    let waker = waker(counter.clone());
    let cx = Context::from_waker(&waker);

    assert_eq!(signal.poll(&cx), CancelPoll::Pending);
    assert_eq!(counter.0.load(Ordering::SeqCst), 0);
    token.cancel();
    assert_eq!(counter.0.load(Ordering::SeqCst), 1);
    assert_eq!(signal.poll(&cx), CancelPoll::Ready);
    token.cancel();
    assert_eq!(counter.0.load(Ordering::SeqCst), 1);
}

#[test]
fn registration_alone_is_enough_to_be_woken() {
    let state = Arc::new(CancellationState::new());
    let counter = Arc::new(Counter(AtomicUsize::new(0)));
    let waker = waker(counter.clone());
    state.register_waker(&Context::from_waker(&waker));
    CancellationToken::new(state).cancel();
    assert_eq!(counter.0.load(Ordering::SeqCst), 1);
}

#[test]
fn a_poll_looks_twice() {
    assert_eq!(PollStage::Check.step(true), PollStep::Ready);
    assert_eq!(PollStage::Check.step(false), PollStep::Register);
    assert_eq!(PollStage::Recheck.step(true), PollStep::Ready);
    assert_eq!(PollStage::Recheck.step(false), PollStep::Pending);
    assert_eq!(PollStep::Ready.report(), Some(CancelPoll::Ready));
    assert_eq!(PollStep::Register.report(), None);
    assert_eq!(PollStep::Pending.report(), Some(CancelPoll::Pending));
}

struct CancelsWhenDropped(CancellationToken);

impl ArcWake for CancelsWhenDropped {
    fn wake_by_ref(_: &Arc<Self>) {}
}

impl Drop for CancelsWhenDropped {
    fn drop(&mut self) {
        self.0.cancel();
    }
}

#[test]
fn a_request_that_comes_while_the_task_is_registered_is_not_missed() {
    let state = Arc::new(CancellationState::new());
    let token = CancellationToken::new(state.clone());
    {
        let first = waker(Arc::new(CancelsWhenDropped(token.clone())));
        state.register_waker(&Context::from_waker(&first));
    }
    assert!(!token.is_cancelled());

    // The registration replaces the waker from before, and that cancels.
    let signal = CancelSignal::new(state);
    let second = noop_waker();
    assert_eq!(
        signal.poll(&Context::from_waker(&second)),
        CancelPoll::Ready
    );
    assert!(token.is_cancelled());
}
