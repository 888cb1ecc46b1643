use vstd::prelude::*;

verus! {

/// The startup state of a crawler: it moves forward only, once.
#[derive(Debug, Clone, Copy, PartialEq, Eq, Structural)]
pub enum StatusResponse {
    Inactive,
    Initializing,
    Ready,
}

/// The state after a request to start, and whether that request starts the
/// crawl: only an inactive crawler starts.
pub open spec fn start_step(s: StatusResponse) -> (StatusResponse, bool) {
    match s {
        StatusResponse::Inactive => (StatusResponse::Initializing, true),
        _ => (s, false),
    }
}

/// The state after a crawl completes.
pub open spec fn finish_step(s: StatusResponse) -> StatusResponse {
    match s {
        StatusResponse::Initializing => StatusResponse::Ready,
        _ => s,
    }
}

impl StatusResponse {
    /// Whether a crawl may still be started.
    pub fn is_inactive(&self) -> (r: bool)
        ensures
            r == (*self is Inactive),
    {
        matches!(self, StatusResponse::Inactive)
    }

    /// Starts a crawl if none was started: returns whether this call did.
    pub fn try_start(&mut self) -> (started: bool)
        ensures
            (*final(self), started) == start_step(*old(self)),
    {
        match self {
            StatusResponse::Inactive => {
                *self = StatusResponse::Initializing;
                true
            },
            _ => false,
        }
    }

    /// Marks a started crawl as complete.
    pub fn finish(&mut self)
        ensures
            *final(self) == finish_step(*old(self)),
    {
        if let StatusResponse::Initializing = self {
            *self = StatusResponse::Ready;
        }
    }
}

} // verus!
