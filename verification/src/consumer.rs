//! The consumer's side: what the polling loop keeps between frames.
//!
//! A [`Consumer`] owns the snapshot last received, the status last received
//! and the cached view model. It takes what the channels delivered, as plain
//! values, and keeps the view model in step: the cache is emptied when a
//! snapshot arrives or a refresh is requested, and built again the next time
//! the view is prepared. A cache that holds render units always holds those
//! of the current snapshot.

use crate::snapshot::{SnapshotView, StatisticsSnapshot};
use crate::status::{StatusUpdate, StatusView};
use crate::view_model::{refreshed, render_units, unit_views, RenderUnit, RenderUnitView, ViewModel};
use vstd::prelude::*;

verus! {

/// The signal that asks the coordinator for a new fetch cycle.
#[derive(Debug, Clone, Copy, PartialEq, Eq, Structural)]
pub struct RefreshRequest;

/// Mathematical value of a [`Consumer`].
pub struct ConsumerView {
    pub dark_mode: bool,
    pub status: StatusView,
    pub snapshot: SnapshotView,
    pub units: Seq<RenderUnitView>,
}

impl ConsumerView {
    /// The state before anything was received.
    pub open spec fn initial() -> ConsumerView {
        ConsumerView {
            dark_mode: false,
            status: StatusView::idle(),
            snapshot: SnapshotView::empty(),
            units: Seq::empty(),
        }
    }

    /// A cache that holds render units holds those of the current snapshot.
    pub open spec fn view_current(self) -> bool {
        self.units.len() == 0 || self.units == render_units(self.snapshot)
    }

    /// After a snapshot arrived: it replaces the one held, and the cache is
    /// emptied.
    pub open spec fn with_snapshot(self, snapshot: SnapshotView) -> ConsumerView {
        ConsumerView { snapshot, units: Seq::empty(), ..self }
    }

    /// After a status arrived: it replaces the one held.
    pub open spec fn with_status(self, status: StatusView) -> ConsumerView {
        ConsumerView { status, ..self }
    }

    /// After a refresh was requested: the cache is emptied.
    pub open spec fn invalidated(self) -> ConsumerView {
        ConsumerView { units: Seq::empty(), ..self }
    }

    /// After the view was prepared: an empty cache is built from the current
    /// snapshot.
    pub open spec fn prepared(self) -> ConsumerView {
        ConsumerView { units: refreshed(self.units, self.snapshot), ..self }
    }

    /// After one frame: a snapshot that arrived is taken, then a click on
    /// refresh empties the cache, then a status that arrived is taken, then
    /// the view is prepared.
    pub open spec fn after_frame(
        self,
        snapshot: Option<SnapshotView>,
        refresh_clicked: bool,
        status: Option<StatusView>,
    ) -> ConsumerView {
        let a = match snapshot {
            Some(s) => self.with_snapshot(s),
            None => self,
        };
        let b = if refresh_clicked {
            a.invalidated()
        } else {
            a
        };
        let c = match status {
            Some(u) => b.with_status(u),
            None => b,
        };
        c.prepared()
    }
}

/// The view of an optional snapshot.
pub open spec fn snapshot_option_view(snapshot: Option<StatisticsSnapshot>) -> Option<SnapshotView> {
    match snapshot {
        Some(s) => Some(s@),
        None => None,
    }
}

/// The view of an optional status.
pub open spec fn status_option_view(status: Option<StatusUpdate>) -> Option<StatusView> {
    match status {
        Some(u) => Some(u@),
        None => None,
    }
}

/// A prepared view shows the current snapshot, and preparing it again
/// changes nothing and builds nothing unless there is nothing to build.
pub proof fn lemma_prepared_view_is_stable(c: ConsumerView)
    requires
        c.view_current(),
    ensures
        c.prepared().units == render_units(c.snapshot),
        c.prepared().prepared() == c.prepared(),
        c.snapshot.len() > 0 ==> c.prepared().units.len() > 0,
{
}

/// A failed refresh keeps what was shown: after a refresh request and a
/// status, with no snapshot arriving, the consumer holds the snapshot it
/// held before, and the view prepared next is the view of that snapshot.
pub proof fn lemma_failed_refresh_keeps_view(c: ConsumerView, status: StatusView)
    requires
        c.view_current(),
    ensures
        c.invalidated().with_status(status).snapshot == c.snapshot,
        c.invalidated().with_status(status).prepared().units == render_units(c.snapshot),
        c.after_frame(None, true, Some(status)).snapshot == c.snapshot,
        c.after_frame(None, true, Some(status)).units == c.prepared().units,
{
}

/// After every frame the view is the view of the snapshot held.
pub proof fn lemma_frame_shows_current_snapshot(
    c: ConsumerView,
    snapshot: Option<SnapshotView>,
    refresh_clicked: bool,
    status: Option<StatusView>,
)
    requires
        c.view_current(),
    ensures
        ({
            let next = c.after_frame(snapshot, refresh_clicked, status);
            &&& next.units == render_units(next.snapshot)
            &&& next.snapshot == match snapshot {
                Some(s) => s,
                None => c.snapshot,
            }
            &&& next.status == match status {
                Some(u) => u,
                None => c.status,
            }
            &&& next.dark_mode == c.dark_mode
        }),
{
}

/// What the polling loop keeps between frames.
#[derive(Debug, PartialEq, Eq)]
pub struct Consumer {
    dark_mode: bool,
    status: StatusUpdate,
    snapshot: StatisticsSnapshot,
    view: ViewModel,
}

impl View for Consumer {
    type V = ConsumerView;

    closed spec fn view(&self) -> ConsumerView {
        ConsumerView {
            dark_mode: self.dark_mode,
            status: self.status@,
            snapshot: self.snapshot@,
            units: self.view@,
        }
    }
}

impl Consumer {
    /// Holds of every consumer.
    #[verifier::type_invariant]
    pub open spec fn cache_current(&self) -> bool {
        self@.view_current()
    }

    /// A consumer that has received nothing: light mode, no message, an
    /// empty snapshot, nothing cached.
    pub fn new() -> (c: Consumer)
        ensures
            c@ == ConsumerView::initial(),
    {
        Consumer {
            dark_mode: false,
            status: StatusUpdate::idle(),
            snapshot: StatisticsSnapshot::new(),
            view: ViewModel::new(),
        }
    }

    /// Whether the dark display mode is on.
    pub fn dark_mode(&self) -> (b: bool)
        ensures
            b == self@.dark_mode,
    {
        self.dark_mode
    }

    /// The status last received.
    pub fn status(&self) -> (u: &StatusUpdate)
        ensures
            u@ == self@.status,
    {
        &self.status
    }

    /// The snapshot last received.
    pub fn snapshot(&self) -> (s: &StatisticsSnapshot)
        ensures
            s@ == self@.snapshot,
    {
        &self.snapshot
    }

    /// The cached render units: none, or those of the current snapshot.
    pub fn units(&self) -> (units: &Vec<RenderUnit>)
        ensures
            unit_views(units@) == self@.units,
            self@.view_current(),
    {
        proof {
            use_type_invariant(self);
        }
        self.view.units()
    }

    /// Switches between the light and the dark display mode and returns the
    /// mode now on.
    pub fn toggle_dark_mode(&mut self) -> (dark: bool)
        ensures
            dark == !old(self)@.dark_mode,
            final(self)@ == (ConsumerView { dark_mode: dark, ..old(self)@ }),
    {
        proof {
            use_type_invariant(&*self);
        }
        self.dark_mode = !self.dark_mode;
        self.dark_mode
    }

    /// Takes a snapshot that arrived: it replaces the one held, whole, and
    /// the cached view is emptied.
    pub fn accept_snapshot(&mut self, snapshot: StatisticsSnapshot)
        ensures
            final(self)@ == old(self)@.with_snapshot(snapshot@),
    {
        self.view = ViewModel::new();
        self.snapshot = snapshot;
    }

    /// Takes a status that arrived: it replaces the one held. The snapshot
    /// and the cached view stay as they are.
    pub fn accept_status(&mut self, status: StatusUpdate)
        ensures
            final(self)@ == old(self)@.with_status(status@),
    {
        proof {
            use_type_invariant(&*self);
        }
        self.status = status;
    }

    /// Asks for a refresh: empties the cached view and returns the request
    /// to send to the coordinator. The snapshot stays as it is.
    pub fn request_refresh(&mut self) -> (request: RefreshRequest)
        ensures
            final(self)@ == old(self)@.invalidated(),
    {
        self.view = ViewModel::new();
        RefreshRequest
    }

    /// Makes the view ready for drawing and returns whether it had to be
    /// built. Afterwards the view is that of the snapshot held.
    pub fn prepare_view(&mut self) -> (rebuilt: bool)
        ensures
            final(self)@ == old(self)@.prepared(),
            final(self)@.units == render_units(final(self)@.snapshot),
            rebuilt == (old(self)@.units.len() == 0),
    {
        proof {
            use_type_invariant(&*self);
        }
        let mut view = ViewModel::new();
        std::mem::swap(&mut view, &mut self.view);
        let rebuilt = view.ensure_built(&self.snapshot);
        self.view = view;
        rebuilt
    }

    /// One frame of the polling loop: takes the snapshot and the status that
    /// the channels had, if any, with a click on refresh in between, and
    /// prepares the view. Returns the request to send if refresh was clicked.
    pub fn frame(
        &mut self,
        snapshot: Option<StatisticsSnapshot>,
        refresh_clicked: bool,
        status: Option<StatusUpdate>,
    ) -> (request: Option<RefreshRequest>)
        ensures
            final(self)@ == old(self)@.after_frame(
                snapshot_option_view(snapshot),
                refresh_clicked,
                status_option_view(status),
            ),
            final(self)@.units == render_units(final(self)@.snapshot),
            request is Some <==> refresh_clicked,
    {
        match snapshot {
            Some(s) => {
                self.accept_snapshot(s);
            },
            None => {},
        }
        let request = if refresh_clicked {
            Some(self.request_refresh())
        } else {
            None
        };
        match status {
            Some(u) => {
                self.accept_status(u);
            },
            None => {},
        }
        let _ = self.prepare_view();
        request
    }
}

} // verus!
