//! The refresh coordinator: when to load, when to fetch, what to report.
//!
//! The coordinator is a state machine. A driver performs the outside work
//! (reading the shutdown flag, waiting for a refresh request, loading the
//! cache, fetching, handing a snapshot to the consumer) and reports each
//! outcome as an [`Event`]; [`Coordinator::step`] answers with the status to
//! publish, if any, and the next [`Action`] to perform. A new coordinator
//! expects the driver to begin with [`Action::CheckShutdown`].
//!
//! The machine is strictly sequential: it asks for one piece of work at a
//! time and accepts only the outcome of that work. From this follow the laws
//! proved at the end of this file.

use crate::snapshot::{SnapshotView, StatisticsSnapshot};
use crate::status::{StatusUpdate, StatusView};
use vstd::prelude::*;

verus! {

/// How long a driver waits for a refresh request before it reads the shutdown
/// flag again.
pub const REFRESH_WAIT_MILLIS: u64 = 1000;

/// Where the control loop stands: which outcome it expects next.
#[derive(Debug, Clone, Copy, PartialEq, Eq, Structural)]
pub enum Phase {
    /// At the top of the loop: the shutdown flag is being read.
    Polling,
    /// Waiting, for a bounded time, for a refresh request.
    AwaitingRefresh,
    /// The cache is being read. Only the first cycle does this.
    LoadingCache,
    /// A fetch is in flight.
    Fetching,
    /// The cached snapshot is being handed to the consumer.
    DeliveringCached,
    /// The fetched snapshot is being handed to the consumer.
    DeliveringFetched,
    /// Shutdown was observed. Terminal.
    Stopped,
}

/// Mathematical value of a [`Coordinator`].
pub struct CoordinatorState {
    pub phase: Phase,
    pub first_cycle: bool,
}

/// Outcome of the work that the coordinator last asked for.
#[derive(Debug, PartialEq, Eq)]
pub enum Event {
    /// The shutdown flag was read; `true` if shutdown is requested.
    ShutdownChecked(bool),
    /// The wait ended without a refresh request.
    WaitTimedOut,
    /// A refresh request arrived during the wait.
    RefreshRequested,
    /// The cache held a snapshot.
    CacheLoaded(StatisticsSnapshot),
    /// There is no cache, or it cannot be read.
    CacheUnavailable,
    /// The fetch returned a snapshot.
    Fetched(StatisticsSnapshot),
    /// The fetch failed, for the given reason.
    FetchFailed(String),
    /// The consumer has the snapshot.
    Delivered,
    /// The snapshot could not be handed over.
    DeliveryFailed,
}

/// Mathematical value of an [`Event`].
pub enum EventView {
    ShutdownChecked(bool),
    WaitTimedOut,
    RefreshRequested,
    CacheLoaded(SnapshotView),
    CacheUnavailable,
    Fetched(SnapshotView),
    FetchFailed(Seq<char>),
    Delivered,
    DeliveryFailed,
}

impl View for Event {
    type V = EventView;

    open spec fn view(&self) -> EventView {
        match *self {
            Event::ShutdownChecked(requested) => EventView::ShutdownChecked(requested),
            Event::WaitTimedOut => EventView::WaitTimedOut,
            Event::RefreshRequested => EventView::RefreshRequested,
            Event::CacheLoaded(snapshot) => EventView::CacheLoaded(snapshot@),
            Event::CacheUnavailable => EventView::CacheUnavailable,
            Event::Fetched(snapshot) => EventView::Fetched(snapshot@),
            Event::FetchFailed(reason) => EventView::FetchFailed(reason@),
            Event::Delivered => EventView::Delivered,
            Event::DeliveryFailed => EventView::DeliveryFailed,
        }
    }
}

/// The work that the driver performs next.
#[derive(Debug, PartialEq, Eq)]
pub enum Action {
    /// Read the shutdown flag and report `ShutdownChecked`.
    CheckShutdown,
    /// Wait up to `timeout_millis` for a refresh request and report
    /// `RefreshRequested` or `WaitTimedOut`.
    AwaitRefresh { timeout_millis: u64 },
    /// Read the cache and report `CacheLoaded` or `CacheUnavailable`.
    LoadCache,
    /// Fetch and aggregate, and report `Fetched` or `FetchFailed`.
    Fetch,
    /// Hand the snapshot to the consumer and report `Delivered` or
    /// `DeliveryFailed`.
    Deliver(StatisticsSnapshot),
    /// Stop: the coordinator has terminated.
    Halt,
}

/// Mathematical value of an [`Action`].
pub enum ActionView {
    CheckShutdown,
    AwaitRefresh { timeout_millis: int },
    LoadCache,
    Fetch,
    Deliver(SnapshotView),
    Halt,
}

impl View for Action {
    type V = ActionView;

    open spec fn view(&self) -> ActionView {
        match *self {
            Action::CheckShutdown => ActionView::CheckShutdown,
            Action::AwaitRefresh { timeout_millis } => ActionView::AwaitRefresh {
                timeout_millis: timeout_millis as int,
            },
            Action::LoadCache => ActionView::LoadCache,
            Action::Fetch => ActionView::Fetch,
            Action::Deliver(snapshot) => ActionView::Deliver(snapshot@),
            Action::Halt => ActionView::Halt,
        }
    }
}

/// The coordinator's answer to an event.
#[derive(Debug, PartialEq, Eq)]
pub struct Step {
    /// The status to publish, if any.
    pub status: Option<StatusUpdate>,
    /// The work to perform next.
    pub action: Action,
}

/// Mathematical value of a [`Step`].
pub struct StepView {
    pub status: Option<StatusView>,
    pub action: ActionView,
}

impl View for Step {
    type V = StepView;

    open spec fn view(&self) -> StepView {
        StepView {
            status: match self.status {
                Some(update) => Some(update@),
                None => None,
            },
            action: self.action@,
        }
    }
}

/// Why the coordinator did not take an event.
#[derive(Debug, Clone, Copy, PartialEq, Eq, Structural)]
pub enum ProtocolError {
    /// The coordinator has stopped and takes no more events.
    Stopped,
    /// The event is not an outcome of the work that was asked for.
    UnexpectedEvent,
}

impl CoordinatorState {
    /// The state of a coordinator that has not run yet.
    pub open spec fn initial() -> CoordinatorState {
        CoordinatorState { phase: Phase::Polling, first_cycle: true }
    }

    /// Whether a fetch is in flight.
    pub open spec fn fetch_in_flight(self) -> bool {
        self.phase == Phase::Fetching
    }
}

/// Back at the top of the loop, with `status` to publish.
pub open spec fn cycle_done(s: CoordinatorState, status: StatusView) -> (CoordinatorState, StepView) {
    (
        CoordinatorState { phase: Phase::Polling, first_cycle: s.first_cycle },
        StepView { status: Some(status), action: ActionView::CheckShutdown },
    )
}

/// What the coordinator does on `event` in state `s`: the next state and the
/// answer, or `None` if the event is not an outcome of the work that `s`
/// waits for.
pub open spec fn transition(s: CoordinatorState, event: EventView) -> Option<(CoordinatorState, StepView)> {
    match s.phase {
        Phase::Polling => match event {
            EventView::ShutdownChecked(requested) => Some(
                if requested {
                    (
                        CoordinatorState { phase: Phase::Stopped, first_cycle: s.first_cycle },
                        StepView { status: None, action: ActionView::Halt },
                    )
                } else if s.first_cycle {
                    (
                        CoordinatorState { phase: Phase::LoadingCache, first_cycle: false },
                        StepView { status: Some(StatusView::loading()), action: ActionView::LoadCache },
                    )
                } else {
                    (
                        CoordinatorState { phase: Phase::AwaitingRefresh, first_cycle: false },
                        StepView {
                            status: None,
                            action: ActionView::AwaitRefresh { timeout_millis: REFRESH_WAIT_MILLIS as int },
                        },
                    )
                },
            ),
            _ => None,
        },
        Phase::AwaitingRefresh => match event {
            EventView::WaitTimedOut => Some(
                (
                    CoordinatorState { phase: Phase::Polling, first_cycle: s.first_cycle },
                    StepView { status: None, action: ActionView::CheckShutdown },
                ),
            ),
            EventView::RefreshRequested => Some(
                (
                    CoordinatorState { phase: Phase::Fetching, first_cycle: s.first_cycle },
                    StepView { status: Some(StatusView::loading()), action: ActionView::Fetch },
                ),
            ),
            _ => None,
        },
        Phase::LoadingCache => match event {
            EventView::CacheLoaded(snapshot) => Some(
                (
                    CoordinatorState { phase: Phase::DeliveringCached, first_cycle: s.first_cycle },
                    StepView { status: None, action: ActionView::Deliver(snapshot) },
                ),
            ),
            EventView::CacheUnavailable => Some(
                (
                    CoordinatorState { phase: Phase::Fetching, first_cycle: s.first_cycle },
                    StepView { status: Some(StatusView::cache_missing()), action: ActionView::Fetch },
                ),
            ),
            _ => None,
        },
        Phase::Fetching => match event {
            EventView::Fetched(snapshot) => Some(
                (
                    CoordinatorState { phase: Phase::DeliveringFetched, first_cycle: s.first_cycle },
                    StepView { status: None, action: ActionView::Deliver(snapshot) },
                ),
            ),
            EventView::FetchFailed(reason) => Some(cycle_done(s, StatusView::fetch_failed(reason))),
            _ => None,
        },
        Phase::DeliveringCached => match event {
            EventView::Delivered => Some(cycle_done(s, StatusView::cached_shown())),
            EventView::DeliveryFailed => Some(cycle_done(s, StatusView::delivery_failed())),
            _ => None,
        },
        Phase::DeliveringFetched => match event {
            EventView::Delivered => Some(cycle_done(s, StatusView::fetch_complete())),
            EventView::DeliveryFailed => Some(cycle_done(s, StatusView::delivery_failed())),
            _ => None,
        },
        Phase::Stopped => None,
    }
}

/// The control state of the background task.
#[derive(Debug, PartialEq, Eq)]
pub struct Coordinator {
    phase: Phase,
    first_cycle: bool,
}

impl View for Coordinator {
    type V = CoordinatorState;

    closed spec fn view(&self) -> CoordinatorState {
        CoordinatorState { phase: self.phase, first_cycle: self.first_cycle }
    }
}

impl Coordinator {
    /// A coordinator at the top of its loop, before its first cycle.
    pub fn new() -> (c: Coordinator)
        ensures
            c@ == CoordinatorState::initial(),
    {
        Coordinator { phase: Phase::Polling, first_cycle: true }
    }

    /// Where the loop stands.
    pub fn phase(&self) -> (p: Phase)
        ensures
            p == self@.phase,
    {
        self.phase
    }

    /// Whether no cycle has begun yet.
    pub fn is_first_cycle(&self) -> (b: bool)
        ensures
            b == self@.first_cycle,
    {
        self.first_cycle
    }

    /// Whether the coordinator has terminated.
    pub fn is_stopped(&self) -> (b: bool)
        ensures
            b == (self@.phase == Phase::Stopped),
    {
        match self.phase {
            Phase::Stopped => true,
            _ => false,
        }
    }

    /// Takes the outcome of the work last asked for and says what to publish
    /// and what to do next.
    ///
    /// An event that is no outcome of that work changes nothing and is
    /// answered with `UnexpectedEvent`; a stopped coordinator answers every
    /// event with `Stopped`.
    pub fn step(&mut self, event: Event) -> (r: Result<Step, ProtocolError>)
        ensures
            match transition(old(self)@, event@) {
                Some((next, answer)) => {
                    &&& final(self)@ == next
                    &&& r is Ok
                    &&& r->Ok_0@ == answer
                },
                None => {
                    &&& final(self)@ == old(self)@
                    &&& r is Err
                    &&& r->Err_0 == if old(self)@.phase == Phase::Stopped {
                        ProtocolError::Stopped
                    } else {
                        ProtocolError::UnexpectedEvent
                    }
                },
            },
    {
        match self.phase {
            Phase::Polling => match event {
                Event::ShutdownChecked(requested) => {
                    if requested {
                        self.phase = Phase::Stopped;
                        Ok(Step { status: None, action: Action::Halt })
                    } else if self.first_cycle {
                        self.first_cycle = false;
                        self.phase = Phase::LoadingCache;
                        Ok(Step { status: Some(StatusUpdate::loading()), action: Action::LoadCache })
                    } else {
                        self.phase = Phase::AwaitingRefresh;
                        Ok(
                            Step {
                                status: None,
                                action: Action::AwaitRefresh { timeout_millis: REFRESH_WAIT_MILLIS },
                            },
                        )
                    }
                },
                _ => Err(ProtocolError::UnexpectedEvent),
            },
            Phase::AwaitingRefresh => match event {
                Event::WaitTimedOut => {
                    self.phase = Phase::Polling;
                    Ok(Step { status: None, action: Action::CheckShutdown })
                },
                Event::RefreshRequested => {
                    self.phase = Phase::Fetching;
                    Ok(Step { status: Some(StatusUpdate::loading()), action: Action::Fetch })
                },
                _ => Err(ProtocolError::UnexpectedEvent),
            },
            Phase::LoadingCache => match event {
                Event::CacheLoaded(snapshot) => {
                    self.phase = Phase::DeliveringCached;
                    Ok(Step { status: None, action: Action::Deliver(snapshot) })
                },
                Event::CacheUnavailable => {
                    self.phase = Phase::Fetching;
                    Ok(Step { status: Some(StatusUpdate::cache_missing()), action: Action::Fetch })
                },
                _ => Err(ProtocolError::UnexpectedEvent),
            },
            Phase::Fetching => match event {
                Event::Fetched(snapshot) => {
                    self.phase = Phase::DeliveringFetched;
                    Ok(Step { status: None, action: Action::Deliver(snapshot) })
                },
                Event::FetchFailed(reason) => {
                    self.phase = Phase::Polling;
                    Ok(
                        Step {
                            status: Some(StatusUpdate::fetch_failed(reason.as_str())),
                            action: Action::CheckShutdown,
                        },
                    )
                },
                _ => Err(ProtocolError::UnexpectedEvent),
            },
            Phase::DeliveringCached => match event {
                Event::Delivered => {
                    self.phase = Phase::Polling;
                    Ok(Step { status: Some(StatusUpdate::cached_shown()), action: Action::CheckShutdown })
                },
                Event::DeliveryFailed => {
                    self.phase = Phase::Polling;
                    Ok(Step { status: Some(StatusUpdate::delivery_failed()), action: Action::CheckShutdown })
                },
                _ => Err(ProtocolError::UnexpectedEvent),
            },
            Phase::DeliveringFetched => match event {
                Event::Delivered => {
                    self.phase = Phase::Polling;
                    Ok(Step { status: Some(StatusUpdate::fetch_complete()), action: Action::CheckShutdown })
                },
                Event::DeliveryFailed => {
                    self.phase = Phase::Polling;
                    Ok(Step { status: Some(StatusUpdate::delivery_failed()), action: Action::CheckShutdown })
                },
                _ => Err(ProtocolError::UnexpectedEvent),
            },
            Phase::Stopped => Err(ProtocolError::Stopped),
        }
    }
}

} // verus!
