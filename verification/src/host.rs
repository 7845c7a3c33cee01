//! The native operations that a priority operation asks of its host, and what
//! the host answers.
//!
//! The library decides; the host acts. A host performs one [`HostCall`] at a
//! time on the calling process or thread and hands back a [`HostReply`].

use vstd::prelude::*;

verus! {

/// The two host families, whose priority facilities differ in unit, in scope
/// and in how they signal failure.
#[derive(Clone, Copy, Debug, PartialEq, Eq, Structural)]
pub enum Platform {
    /// Niceness of the calling process.
    Unix,
    /// Priority level of the calling thread.
    Windows,
}

/// One native operation for the host to perform.
#[derive(Clone, Copy, Debug, PartialEq, Eq, Structural)]
pub enum HostCall {
    /// Set the calling thread's error indicator to zero.
    ClearErrorIndicator,
    /// Read the calling thread's error indicator: `errno` on Unix, the last
    /// error code on Windows.
    ReadErrorIndicator,
    /// Query the scheduling priority of `who` within the class `which`.
    QueryProcessPriority { which: i32, who: u32 },
    /// Add `increment` to the niceness of the calling process.
    AdjustNiceness { increment: i32 },
    /// Query the priority of the calling thread, through a handle acquired
    /// for this call.
    QueryThreadPriority,
    /// Set the priority of the calling thread to the native constant of value
    /// `priority`, through a handle acquired for this call.
    SetThreadPriority { priority: i32 },
}

impl HostCall {
    /// Whether a host of the family `platform` offers this call. Reading the
    /// error indicator is offered by both; every other call by one of them.
    pub open spec fn offered_by(self, platform: Platform) -> bool {
        match self {
            HostCall::ReadErrorIndicator => true,
            HostCall::ClearErrorIndicator => platform == Platform::Unix,
            HostCall::QueryProcessPriority { .. } => platform == Platform::Unix,
            HostCall::AdjustNiceness { .. } => platform == Platform::Unix,
            HostCall::QueryThreadPriority => platform == Platform::Windows,
            HostCall::SetThreadPriority { .. } => platform == Platform::Windows,
        }
    }
}

/// What the host hands back after a call.
#[derive(Debug, PartialEq, Eq)]
pub enum HostReply {
    /// The call was performed and returns nothing.
    Completed,
    /// The call returned this integer.
    Returned(i32),
    /// The call failed; the text is the host's own.
    Refused(String),
}

/// The mathematical content of a [`HostReply`].
pub enum ReplyView {
    Completed,
    Returned(i32),
    Refused(Seq<char>),
}

impl View for HostReply {
    type V = ReplyView;

    open spec fn view(&self) -> ReplyView {
        match *self {
            HostReply::Completed => ReplyView::Completed,
            HostReply::Returned(value) => ReplyView::Returned(value),
            HostReply::Refused(text) => ReplyView::Refused(text@),
        }
    }
}

/// Whether `reply` is a possible answer to `call`. Clearing the indicator
/// returns nothing, setting a thread priority returns nothing or is refused,
/// and every other call returns an integer.
pub open spec fn answers(call: HostCall, reply: ReplyView) -> bool {
    match call {
        HostCall::ClearErrorIndicator => reply is Completed,
        HostCall::SetThreadPriority { .. } => reply is Completed || reply is Refused,
        _ => reply is Returned,
    }
}

} // verus!
