//! A model of a Unix host, and what the operations achieve on it.
//!
//! The model holds what the operations can observe of a host: the niceness of
//! the calling process within the host's range, the error indicator of the
//! calling thread, and whether the priority facility is failing. It says how
//! such a host answers each native call. The laws below run the operations of
//! [`crate::protocol`] against it.

use crate::error::ErrorView;
use crate::host::{HostCall, Platform, ReplyView};
use crate::protocol::{
    begin_read, begin_write, calling_process, process_class, requested, step, unix_failure,
    ProgressView,
};
use vstd::prelude::*;

verus! {

/// The state of a Unix host as the operations observe it.
pub struct UnixHost {
    /// The niceness of the calling process.
    pub niceness: int,
    /// The least niceness that the host grants.
    pub lowest: int,
    /// The greatest niceness that the host grants.
    pub highest: int,
    /// The error indicator of the calling thread.
    pub error_indicator: int,
    /// The error code with which the priority facility fails, if it is failing.
    pub fault: Option<int>,
}

/// The error code of a host that does not know the queried process.
pub open spec fn no_such_process() -> int {
    3
}

impl UnixHost {
    /// The niceness lies within the host's range, everything fits a machine
    /// integer, and a failure has a nonzero code.
    pub open spec fn wf(self) -> bool {
        &&& i32::MIN <= self.lowest <= self.niceness <= self.highest <= i32::MAX
        &&& i32::MIN <= self.error_indicator <= i32::MAX
        &&& self.fault matches Some(code) ==> code != 0 && i32::MIN <= code <= i32::MAX
    }

    /// `value`, brought into the host's range.
    pub open spec fn clamp(self, value: int) -> int {
        if value < self.lowest {
            self.lowest
        } else if value > self.highest {
            self.highest
        } else {
            value
        }
    }

    /// The host after a priority call failed with `code`, and the call's
    /// reply: the failure value, with the code left in the error indicator.
    pub open spec fn fail(self, code: int) -> (UnixHost, ReplyView) {
        (UnixHost { error_indicator: code, ..self }, ReplyView::Returned(unix_failure()))
    }

    /// The host after `call`, and its reply.
    ///
    /// A call that succeeds leaves the error indicator as it was. A query of
    /// the calling process returns its niceness; the model knows no other
    /// process. An adjustment moves the niceness by the increment, as far as
    /// the range allows, and returns the new niceness. The thread priority
    /// calls of Windows are refused.
    pub open spec fn respond(self, call: HostCall) -> (UnixHost, ReplyView) {
        match call {
            HostCall::ClearErrorIndicator => (
                UnixHost { error_indicator: 0, ..self },
                ReplyView::Completed,
            ),
            HostCall::ReadErrorIndicator => (
                self,
                ReplyView::Returned(self.error_indicator as i32),
            ),
            HostCall::QueryProcessPriority { which, who } => {
                if which != process_class() || who != calling_process() {
                    self.fail(no_such_process())
                } else {
                    match self.fault {
                        Some(code) => self.fail(code),
                        None => (self, ReplyView::Returned(self.niceness as i32)),
                    }
                }
            },
            HostCall::AdjustNiceness { increment } => match self.fault {
                Some(code) => self.fail(code),
                None => {
                    let niceness = self.clamp(self.niceness + increment);
                    (UnixHost { niceness, ..self }, ReplyView::Returned(niceness as i32))
                },
            },
            HostCall::QueryThreadPriority => (self, ReplyView::Refused(Seq::empty())),
            HostCall::SetThreadPriority { .. } => (self, ReplyView::Refused(Seq::empty())),
        }
    }

    /// Runs an operation on this host for at most `calls` native calls: where
    /// it stands afterwards, and the host it leaves.
    pub open spec fn run(self, progress: ProgressView, calls: nat) -> (ProgressView, UnixHost)
        decreases calls,
    {
        match progress {
            ProgressView::Finished(_) => (progress, self),
            ProgressView::Pending(stage) => {
                if calls == 0 {
                    (progress, self)
                } else {
                    let (host, reply) = self.respond(stage.pending_call());
                    host.run(step(stage, reply), (calls - 1) as nat)
                }
            },
        }
    }

    /// A read on this host: its result, and the host it leaves.
    pub open spec fn read(self) -> (ProgressView, UnixHost) {
        self.run(begin_read(Platform::Unix), 3)
    }

    /// A write of `incr` on this host: its result, and the host it leaves.
    pub open spec fn write(self, incr: Option<i32>) -> (ProgressView, UnixHost) {
        self.run(begin_write(Platform::Unix, incr), 2)
    }

    /// Whether adjusting by `first` and by `second` in turn ends where one
    /// adjustment by their sum ends. It does where the range has one value
    /// only, where the first adjustment stays within the range, where the
    /// second pushes against the bound that the first ran into, and where the
    /// second pulls back so far that the other bound is met either way.
    pub open spec fn composes(self, first: int, second: int) -> bool {
        let between = self.niceness + first;
        ||| self.lowest == self.highest
        ||| self.lowest <= between <= self.highest
        ||| between > self.highest && (second >= 0 || between + second <= self.lowest)
        ||| between < self.lowest && (second <= 0 || between + second >= self.highest)
    }
}

/// A read never takes a priority for a failure. On a host that is not failing
/// it finishes within three calls with the niceness, be it negative or the
/// very value that a failing query returns, and whatever the error indicator
/// held before. It leaves the niceness as it was.
pub proof fn lemma_read_returns_niceness(host: UnixHost)
    requires
        host.wf(),
        host.fault is None,
    ensures
        host.read() == (
            ProgressView::Finished(Ok(host.niceness as i32)),
            UnixHost { error_indicator: 0, ..host },
        ),
{
    reveal_with_fuel(UnixHost::run, 4);
}

/// A read on a failing host finishes with the host's error code.
pub proof fn lemma_read_reports_failure(host: UnixHost, code: int)
    requires
        host.wf(),
        host.fault == Some(code),
    ensures
        host.read() == (
            ProgressView::Finished(Err(ErrorView::Os { code: code as i32 })),
            UnixHost { error_indicator: code, ..host },
        ),
{
    reveal_with_fuel(UnixHost::run, 4);
}

/// A write on a host that is not failing moves the niceness by the requested
/// amount, as far as the range allows, and finishes with the new niceness.
/// Where the new niceness is the failure value, it finishes instead with
/// whatever the error indicator holds.
pub proof fn lemma_write_moves_niceness(host: UnixHost, incr: Option<i32>)
    requires
        host.wf(),
        host.fault is None,
    ensures
        ({
            let niceness = host.clamp(host.niceness + requested(incr));
            host.write(incr) == (
                if niceness == unix_failure() {
                    ProgressView::Finished(
                        Err(ErrorView::Os { code: host.error_indicator as i32 }),
                    )
                } else {
                    ProgressView::Finished(Ok(niceness as i32))
                },
                UnixHost { niceness, ..host },
            )
        }),
{
    reveal_with_fuel(UnixHost::run, 3);
}

/// A write on a failing host finishes with the host's error code and leaves
/// the niceness as it was.
pub proof fn lemma_write_reports_failure(host: UnixHost, incr: Option<i32>, code: int)
    requires
        host.wf(),
        host.fault == Some(code),
    ensures
        host.write(incr) == (
            ProgressView::Finished(Err(ErrorView::Os { code: code as i32 })),
            UnixHost { error_indicator: code, ..host },
        ),
{
    reveal_with_fuel(UnixHost::run, 3);
}

/// Adjusting by zero, or by nothing, changes nothing and returns the niceness
/// that the process had. The one niceness for which this cannot hold is the
/// failure value of the adjustment, which a write reports as a failure.
pub proof fn lemma_adjusting_by_zero_changes_nothing(host: UnixHost)
    requires
        host.wf(),
        host.fault is None,
        host.niceness != unix_failure(),
    ensures
        host.write(Some(0)) == (ProgressView::Finished(Ok(host.niceness as i32)), host),
        host.write(None) == (ProgressView::Finished(Ok(host.niceness as i32)), host),
{
    lemma_write_moves_niceness(host, Some(0));
    lemma_write_moves_niceness(host, None);
}

/// Two adjustments in turn end as one adjustment by their sum does, with the
/// same result and the same host, wherever the host's range does not come
/// between them.
pub proof fn lemma_adjusting_twice_is_adjusting_by_the_sum(host: UnixHost, first: i32, second: i32)
    requires
        host.wf(),
        host.fault is None,
        i32::MIN <= first + second <= i32::MAX,
        host.composes(first as int, second as int),
    ensures
        host.write(Some(first)).1.write(Some(second)) == host.write(Some((first + second) as i32)),
{
    lemma_write_moves_niceness(host, Some(first));
    let between = host.write(Some(first)).1;
    lemma_write_moves_niceness(between, Some(second));
    lemma_write_moves_niceness(host, Some((first + second) as i32));
}

/// Where the host's range comes between two adjustments, they end at another
/// niceness than one adjustment by their sum.
pub proof fn lemma_range_comes_between_adjustments(host: UnixHost, first: i32, second: i32)
    requires
        host.wf(),
        host.fault is None,
        i32::MIN <= first + second <= i32::MAX,
        !host.composes(first as int, second as int),
    ensures
        host.write(Some(first)).1.write(Some(second)).1.niceness != host.write(
            Some((first + second) as i32),
        ).1.niceness,
{
    lemma_write_moves_niceness(host, Some(first));
    let between = host.write(Some(first)).1;
    lemma_write_moves_niceness(between, Some(second));
    lemma_write_moves_niceness(host, Some((first + second) as i32));
}

} // verus!
