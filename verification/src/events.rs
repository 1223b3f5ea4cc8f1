//! Events of the application's main loop.

use vstd::prelude::*;

verus! {

/// What woke the main loop up.
#[derive(Clone)]
pub enum QueueEvent {
    Tick,
    Notify,
    SpinnerUpdate,
}

/// Progress of a background syntax-highlighting job.
#[derive(Clone, Copy, Debug, PartialEq, Eq)]
pub enum SyntaxHighlightProgress {
    Progress,
    Done,
}

/// A notification from a background job of the application.
#[derive(Clone, Copy, Debug, PartialEq, Eq)]
pub enum AsyncAppNotification {
    SyntaxHighlighting(SyntaxHighlightProgress),
}

} // verus!
