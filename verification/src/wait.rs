//! Waiting for an event of the app-server, up to a limit of time.
use vstd::prelude::*;

use crate::error::{texts, CtlError, CtlErrorView};
use crate::notice::{is_turn_completed, turn_completed, Incoming, IncomingView, Notice};
use crate::text::opt_text;

verus! {

/// How long `start` waits for its first turn to complete, in nanoseconds.
pub const TURN_TIMEOUT: u64 = 120_000_000_000;

/// What is to be done next.
pub enum WaitAction {
    /// Receive the next event, for at most this many nanoseconds.
    Receive(u64),
    /// Nothing more; this event came.
    Finish(Incoming),
    /// Nothing more; the event did not come.
    Fail(CtlError),
}

/// What a `WaitAction` asks for.
pub enum WaitActionView {
    Receive(u64),
    Finish(IncomingView),
    Fail(CtlErrorView),
}

impl View for WaitAction {
    type V = WaitActionView;

    open spec fn view(&self) -> WaitActionView {
        match self {
            WaitAction::Receive(nanos) => WaitActionView::Receive(*nanos),
            WaitAction::Finish(e) => WaitActionView::Finish(e@),
            WaitAction::Fail(e) => WaitActionView::Fail(e@),
        }
    }
}

/// What happened last.
pub enum WaitEvent {
    /// The wait has begun.
    Begun,
    /// An event was received.
    Received(Incoming),
    /// No event came in the time that was given.
    Quiet,
    /// The connection could not be read.
    Failed,
}

/// Receiving on, in what is left of `limit` after `elapsed` nanoseconds, unless nothing is left.
pub open spec fn wait_on(limit: u64, elapsed: u64) -> WaitActionView {
    if elapsed < limit {
        WaitActionView::Receive((limit - elapsed) as u64)
    } else {
        WaitActionView::Fail(CtlErrorView::TimedOut)
    }
}

fn keep_waiting(limit: u64, elapsed: u64) -> (r: WaitAction)
    ensures
        r@ == wait_on(limit, elapsed),
{
    if elapsed < limit {
        WaitAction::Receive(limit - elapsed)
    } else {
        WaitAction::Fail(CtlError::TimedOut)
    }
}

/// Goes on waiting for an event that `wanted` accepts, `elapsed` nanoseconds after the wait began.
pub fn wait_for<F: Fn(&Incoming) -> bool>(
    wanted: &F,
    limit: u64,
    event: WaitEvent,
    elapsed: u64,
) -> (r: WaitAction)
    requires
        forall|e: &Incoming| call_requires(*wanted, (e,)),
    ensures
        match event {
            WaitEvent::Begun => r@ == wait_on(limit, elapsed),
            WaitEvent::Received(e) => {
                ||| call_ensures(*wanted, (&e,), true) && r@ == WaitActionView::Finish(e@)
                ||| call_ensures(*wanted, (&e,), false) && r@ == wait_on(limit, elapsed)
            },
            WaitEvent::Quiet => r@ == WaitActionView::Fail(CtlErrorView::TimedOut),
            WaitEvent::Failed => r@ == WaitActionView::Fail(CtlErrorView::Outside(Seq::empty())),
        },
{
    match event {
        WaitEvent::Begun => keep_waiting(limit, elapsed),
        WaitEvent::Received(e) => {
            if wanted(&e) {
                WaitAction::Finish(e)
            } else {
                keep_waiting(limit, elapsed)
            }
        },
        WaitEvent::Quiet => WaitAction::Fail(CtlError::TimedOut),
        WaitEvent::Failed => {
            let contexts: Vec<String> = Vec::new();
            assert(texts(contexts@) =~= Seq::empty());
            WaitAction::Fail(CtlError::Outside(contexts))
        },
    }
}

/// What happened last, as a wait is told of it.
pub enum WaitEventView {
    Begun,
    Received(IncomingView),
    Quiet,
    Failed,
}

impl View for WaitEvent {
    type V = WaitEventView;

    open spec fn view(&self) -> WaitEventView {
        match self {
            WaitEvent::Begun => WaitEventView::Begun,
            WaitEvent::Received(e) => WaitEventView::Received(e@),
            WaitEvent::Quiet => WaitEventView::Quiet,
            WaitEvent::Failed => WaitEventView::Failed,
        }
    }
}

/// How the wait for a new thread's first turn goes on, `elapsed` nanoseconds after it began.
pub open spec fn turn_wait(event: WaitEventView, elapsed: u64) -> WaitActionView {
    match event {
        WaitEventView::Begun => wait_on(TURN_TIMEOUT, elapsed),
        WaitEventView::Received(e) => if is_turn_completed(e) {
            WaitActionView::Finish(e)
        } else {
            wait_on(TURN_TIMEOUT, elapsed)
        },
        WaitEventView::Quiet => WaitActionView::Fail(CtlErrorView::TimedOut),
        WaitEventView::Failed => WaitActionView::Fail(CtlErrorView::Outside(Seq::empty())),
    }
}

/// Goes on waiting for a new thread's first turn to be completed, `elapsed` nanoseconds after the
/// wait began.
pub fn await_turn(event: WaitEvent, elapsed: u64) -> (r: WaitAction)
    ensures
        r@ == turn_wait(event@, elapsed),
{
    wait_for(&turn_completed, TURN_TIMEOUT, event, elapsed)
}

/// A wait never asks for more time than is left of its limit, and gives up once nothing is left.
pub proof fn law_wait_keeps_its_limit(limit: u64, elapsed: u64)
    ensures
        wait_on(limit, elapsed) matches WaitActionView::Receive(nanos) ==> 0 < nanos && elapsed
            + nanos == limit,
        elapsed >= limit <==> wait_on(limit, elapsed) == WaitActionView::Fail(
            CtlErrorView::TimedOut,
        ),
{
}

/// The wait for a first turn ends well exactly when a turn is told to be completed, and hands
/// back the event that tells so.
pub proof fn law_turn_wait_ends_with_the_turn(event: WaitEventView, elapsed: u64)
    ensures
        turn_wait(event, elapsed) is Finish <==> (event matches WaitEventView::Received(e)
            && is_turn_completed(e)),
        turn_wait(event, elapsed) matches WaitActionView::Finish(e) ==> event
            == WaitEventView::Received(e),
{
}

/// The wait for a first turn has two minutes in all: while they last, every event but the end of
/// a turn leaves what is left of them to receive in; a turn's end is handed back whenever it
/// comes.
pub proof fn law_two_minutes_for_the_first_turn(event: WaitEvent, elapsed: u64, r: WaitAction)
    requires
        call_ensures(await_turn, (event, elapsed), r),
    ensures
        match event {
            WaitEvent::Received(Incoming::Notification(Notice::TurnCompleted { status })) =>
            r matches WaitAction::Finish(Incoming::Notification(Notice::TurnCompleted {
                status: told,
            })) && opt_text(told) == opt_text(status),
            WaitEvent::Begun | WaitEvent::Received(_) => if elapsed < 120_000_000_000 {
                r matches WaitAction::Receive(nanos) && nanos + elapsed == 120_000_000_000
            } else {
                r matches WaitAction::Fail(e) && e is TimedOut
            },
            WaitEvent::Quiet => r matches WaitAction::Fail(e) && e is TimedOut,
            WaitEvent::Failed => r matches WaitAction::Fail(CtlError::Outside(contexts))
                && contexts@.len() == 0,
        },
{
    match r {
        WaitAction::Fail(CtlError::Outside(contexts)) => {
            assert(texts(contexts@).len() == contexts@.len());
        },
        _ => {},
    }
}

/// A wait ends well with an event that is wanted, and hands that back; after one that is not, it
/// goes on in what is left of its limit, and is over once nothing is left.
pub proof fn law_a_wait_ends_with_what_is_wanted<F: Fn(&Incoming) -> bool>(
    wanted: &F,
    limit: u64,
    event: WaitEvent,
    elapsed: u64,
    r: WaitAction,
)
    requires
        call_ensures(wait_for::<F>, (wanted, limit, event, elapsed), r),
    ensures
        event matches WaitEvent::Received(e) && !call_ensures(*wanted, (&e,), false) ==> (
        r matches WaitAction::Finish(handed) && handed@ == event->Received_0@),
        event is Begun || (event matches WaitEvent::Received(e) && !call_ensures(
            *wanted,
            (&e,),
            true,
        )) ==> if elapsed < limit {
            r matches WaitAction::Receive(nanos) && nanos + elapsed == limit
        } else {
            r matches WaitAction::Fail(e) && e is TimedOut
        },
        event is Quiet ==> (r matches WaitAction::Fail(e) && e is TimedOut),
        event is Failed ==> (r matches WaitAction::Fail(e) && e is Outside),
{
}

} // verus!
