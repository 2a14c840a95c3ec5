//! User-facing status of the refresh in flight or just finished.
//!
//! A status is a message with a kind. Only the latest status matters: a newer
//! one supersedes whatever was shown before.

use vstd::prelude::*;

verus! {

/// Whether a status reports progress, a success or a failure.
#[derive(Debug, Clone, Copy, PartialEq, Eq, Structural)]
pub enum StatusKind {
    /// Work is under way; neither a success nor a failure.
    Progress,
    Success,
    Failure,
}

/// The latest known state of an operation.
#[derive(Debug, PartialEq, Eq)]
pub struct StatusUpdate {
    pub message: String,
    pub kind: StatusKind,
}

/// Mathematical value of a [`StatusUpdate`].
pub struct StatusView {
    pub message: Seq<char>,
    pub kind: StatusKind,
}

impl View for StatusUpdate {
    type V = StatusView;

    open spec fn view(&self) -> StatusView {
        StatusView { message: self.message@, kind: self.kind }
    }
}

impl StatusView {
    /// Nothing has happened yet.
    pub open spec fn idle() -> StatusView {
        StatusView { message: Seq::empty(), kind: StatusKind::Progress }
    }

    /// A cycle has begun.
    pub open spec fn loading() -> StatusView {
        StatusView { message: "loading"@, kind: StatusKind::Progress }
    }

    /// The cached snapshot was delivered.
    pub open spec fn cached_shown() -> StatusView {
        StatusView { message: "showing last cached data"@, kind: StatusKind::Success }
    }

    /// No cache could be read; a fetch follows.
    pub open spec fn cache_missing() -> StatusView {
        StatusView { message: "no cache, fetching from source"@, kind: StatusKind::Failure }
    }

    /// The fetched snapshot was delivered.
    pub open spec fn fetch_complete() -> StatusView {
        StatusView { message: "fetch complete"@, kind: StatusKind::Success }
    }

    /// The fetch failed for `reason`.
    pub open spec fn fetch_failed(reason: Seq<char>) -> StatusView {
        StatusView { message: "aggregation failed: "@ + reason, kind: StatusKind::Failure }
    }

    /// A snapshot could not be handed to the consumer.
    pub open spec fn delivery_failed() -> StatusView {
        StatusView { message: "internal error"@, kind: StatusKind::Failure }
    }
}

impl Clone for StatusUpdate {
    fn clone(&self) -> (u: StatusUpdate)
        ensures
            u@ == self@,
    {
        StatusUpdate { message: self.message.clone(), kind: self.kind }
    }
}

impl StatusUpdate {
    /// A status with the given message and kind.
    pub fn new(message: String, kind: StatusKind) -> (u: StatusUpdate)
        ensures
            u@ == (StatusView { message: message@, kind }),
    {
        StatusUpdate { message, kind }
    }

    /// The status shown before anything was reported: no message.
    pub fn idle() -> (u: StatusUpdate)
        ensures
            u@ == StatusView::idle(),
    {
        StatusUpdate { message: String::new(), kind: StatusKind::Progress }
    }

    /// "loading", as progress.
    pub fn loading() -> (u: StatusUpdate)
        ensures
            u@ == StatusView::loading(),
    {
        StatusUpdate { message: String::from_str("loading"), kind: StatusKind::Progress }
    }

    /// "showing last cached data", as a success.
    pub fn cached_shown() -> (u: StatusUpdate)
        ensures
            u@ == StatusView::cached_shown(),
    {
        StatusUpdate { message: String::from_str("showing last cached data"), kind: StatusKind::Success }
    }

    /// "no cache, fetching from source", as a failure.
    pub fn cache_missing() -> (u: StatusUpdate)
        ensures
            u@ == StatusView::cache_missing(),
    {
        StatusUpdate {
            message: String::from_str("no cache, fetching from source"),
            kind: StatusKind::Failure,
        }
    }

    /// "fetch complete", as a success.
    pub fn fetch_complete() -> (u: StatusUpdate)
        ensures
            u@ == StatusView::fetch_complete(),
    {
        StatusUpdate { message: String::from_str("fetch complete"), kind: StatusKind::Success }
    }

    /// "aggregation failed: " followed by `reason`, as a failure.
    pub fn fetch_failed(reason: &str) -> (u: StatusUpdate)
        ensures
            u@ == StatusView::fetch_failed(reason@),
    {
        StatusUpdate {
            message: String::from_str("aggregation failed: ").concat(reason),
            kind: StatusKind::Failure,
        }
    }

    /// "internal error", as a failure.
    pub fn delivery_failed() -> (u: StatusUpdate)
        ensures
            u@ == StatusView::delivery_failed(),
    {
        StatusUpdate { message: String::from_str("internal error"), kind: StatusKind::Failure }
    }

    /// Whether the status reports a success.
    pub fn is_success(&self) -> (b: bool)
        ensures
            b == (self@.kind == StatusKind::Success),
    {
        match self.kind {
            StatusKind::Success => true,
            _ => false,
        }
    }

    /// Whether the status reports a failure.
    pub fn is_failure(&self) -> (b: bool)
        ensures
            b == (self@.kind == StatusKind::Failure),
    {
        match self.kind {
            StatusKind::Failure => true,
            _ => false,
        }
    }
}

} // verus!
