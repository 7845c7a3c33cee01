//! The two priority operations, as decisions between native calls.
//!
//! An operation begins with [`get_current_process_priority`] or [`nice`] and
//! is either finished at once or pending on one native call. The host performs
//! that call and hands its reply to [`advance`], which decides what follows.
//! A [`Pending`] operation can be had in no other way, so a host that performs
//! the calls it is given performs them in the order decided here. No operation
//! holds state beyond its own [`Stage`].

use crate::error::{invalid_priority_text, outcome_view, ErrorView, PriorityError};
use crate::host::{answers, HostCall, HostReply, Platform, ReplyView};
use crate::level::{level_of_code, WindowsThreadPriority};
use vstd::prelude::*;

verus! {

/// Where a pending operation stands. Each stage waits for the reply to one
/// native call, [`Stage::pending_call`].
#[derive(Clone, Copy, Debug, PartialEq, Eq, Structural)]
pub enum Stage {
    /// Reading on Unix: the error indicator is being cleared.
    ClearingIndicator,
    /// Reading on Unix: the priority of the calling process is being queried.
    QueryingProcess,
    /// Reading on Unix: the query returned `value`, and the error indicator
    /// is being read to tell whether that is a priority or a failure.
    CheckingIndicator { value: i32 },
    /// Reading on Windows: the priority of the calling thread is being queried.
    QueryingThread,
    /// Writing on Unix: the niceness is being adjusted by `increment`.
    Adjusting { increment: i32 },
    /// Writing on Windows: the calling thread is being set to `level`.
    Setting { level: WindowsThreadPriority },
    /// A native call returned its failure value, and the error code is being
    /// read.
    ReadingFailure,
}

/// An operation that waits for the reply to one native call. Its content is
/// the [`Stage`] at which it stands.
#[derive(Clone, Copy, Debug, PartialEq, Eq)]
pub struct Pending {
    stage: Stage,
}

impl View for Pending {
    type V = Stage;

    closed spec fn view(&self) -> Stage {
        self.stage
    }
}

/// An operation after a decision: pending on a native call, or finished with
/// its result.
#[derive(Debug, PartialEq, Eq)]
pub enum Progress {
    Pending(Pending),
    Finished(Result<i32, PriorityError>),
}

/// The mathematical content of a [`Progress`].
pub enum ProgressView {
    Pending(Stage),
    Finished(Result<i32, ErrorView>),
}

impl View for Progress {
    type V = ProgressView;

    open spec fn view(&self) -> ProgressView {
        match *self {
            Progress::Pending(pending) => ProgressView::Pending(pending@),
            Progress::Finished(outcome) => ProgressView::Finished(outcome_view(outcome)),
        }
    }
}

/// The class of single processes among the targets of a priority query.
pub open spec fn process_class() -> i32 {
    0
}

/// The target that stands for the caller itself.
pub open spec fn calling_process() -> u32 {
    0
}

/// The value that a Unix priority call returns on failure. An adjustment that
/// returns it is taken to have failed; a query may return it as a priority.
pub open spec fn unix_failure() -> i32 {
    -1i32
}

/// The value that the thread priority query returns on failure.
pub open spec fn thread_priority_failure() -> i32 {
    0x7fff_ffff
}

/// `libc::PRIO_PROCESS`, which the libc crate defines as 0 on every target.
#[verifier::external_body]
fn prio_process() -> (which: i32)
    ensures
        which == process_class(),
{
    libc::PRIO_PROCESS as i32
}

/// `windows::Win32::System::WindowsProgramming::THREAD_PRIORITY_ERROR_RETURN`,
/// which the windows crate defines as `2147483647u32`, a value that an `i32`
/// holds unchanged.
#[verifier::external_body]
fn thread_priority_error_return() -> (value: i32)
    ensures
        value == thread_priority_failure(),
{
    windows::Win32::System::WindowsProgramming::THREAD_PRIORITY_ERROR_RETURN as i32
}

impl Stage {
    /// The native call whose reply this stage waits for.
    pub open spec fn pending_call(self) -> HostCall {
        match self {
            Stage::ClearingIndicator => HostCall::ClearErrorIndicator,
            Stage::QueryingProcess => HostCall::QueryProcessPriority {
                which: process_class(),
                who: calling_process(),
            },
            Stage::CheckingIndicator { .. } => HostCall::ReadErrorIndicator,
            Stage::QueryingThread => HostCall::QueryThreadPriority,
            Stage::Adjusting { increment } => HostCall::AdjustNiceness { increment },
            Stage::Setting { level } => HostCall::SetThreadPriority {
                priority: level.spec_code() as i32,
            },
            Stage::ReadingFailure => HostCall::ReadErrorIndicator,
        }
    }

    /// The greatest number of native calls that an operation at this stage
    /// can still need.
    pub open spec fn calls_left(self) -> nat {
        match self {
            Stage::ClearingIndicator => 3,
            Stage::QueryingProcess => 2,
            Stage::CheckingIndicator { .. } => 1,
            Stage::QueryingThread => 2,
            Stage::Adjusting { .. } => 2,
            Stage::Setting { .. } => 1,
            Stage::ReadingFailure => 1,
        }
    }

    /// Whether an operation on `platform` can be at this stage.
    pub open spec fn serves(self, platform: Platform) -> bool {
        match self {
            Stage::ReadingFailure => true,
            Stage::ClearingIndicator => platform == Platform::Unix,
            Stage::QueryingProcess => platform == Platform::Unix,
            Stage::CheckingIndicator { .. } => platform == Platform::Unix,
            Stage::Adjusting { .. } => platform == Platform::Unix,
            Stage::QueryingThread => platform == Platform::Windows,
            Stage::Setting { .. } => platform == Platform::Windows,
        }
    }
}

impl Pending {
    /// The native call that the host is to perform now.
    pub fn call(&self) -> (call: HostCall)
        ensures
            call == self@.pending_call(),
    {
        match self.stage {
            Stage::ClearingIndicator => HostCall::ClearErrorIndicator,
            Stage::QueryingProcess => HostCall::QueryProcessPriority {
                which: prio_process(),
                who: 0,
            },
            Stage::CheckingIndicator { .. } => HostCall::ReadErrorIndicator,
            Stage::QueryingThread => HostCall::QueryThreadPriority,
            Stage::Adjusting { increment } => HostCall::AdjustNiceness { increment },
            Stage::Setting { level } => HostCall::SetThreadPriority { priority: level.native() },
            Stage::ReadingFailure => HostCall::ReadErrorIndicator,
        }
    }
}

/// How a read begins. On Unix the error indicator is cleared first, because
/// the query's return value alone cannot tell a negative priority from a
/// failure. On Windows the thread is queried at once.
pub open spec fn begin_read(platform: Platform) -> ProgressView {
    match platform {
        Platform::Unix => ProgressView::Pending(Stage::ClearingIndicator),
        Platform::Windows => ProgressView::Pending(Stage::QueryingThread),
    }
}

/// The integer that a write works with: the caller's, or 0 where none was
/// given.
pub open spec fn requested(incr: Option<i32>) -> i32 {
    match incr {
        Some(value) => value,
        None => 0,
    }
}

/// How a write begins. On Unix the integer is handed to the host as it is,
/// whatever its size. On Windows it is validated first: a thread priority
/// code is set, and any other integer finishes the operation with an invalid
/// argument error before any native call.
pub open spec fn begin_write(platform: Platform, incr: Option<i32>) -> ProgressView {
    match platform {
        Platform::Unix => ProgressView::Pending(Stage::Adjusting { increment: requested(incr) }),
        Platform::Windows => match level_of_code(requested(incr) as int) {
            Some(level) => ProgressView::Pending(Stage::Setting { level }),
            None => ProgressView::Finished(
                Err(
                    ErrorView::InvalidArg {
                        reason: invalid_priority_text(requested(incr) as int),
                    },
                ),
            ),
        },
    }
}

/// What follows a reply.
///
/// - Unix read: clear, query, read the indicator. A nonzero indicator is a
///   failure with that code; with a zero indicator the queried value is the
///   priority, negative or not.
/// - Windows read: the failure value leads to the error code; any other
///   value is the priority.
/// - Unix write: the failure value leads to the error code; any other value
///   is the new niceness.
/// - Windows write: on completion the result is the code of the level that
///   was set; a refusal is relayed in the host's words.
/// - A reply that does not answer the pending call changes nothing: the call
///   is still owed.
pub open spec fn step(stage: Stage, reply: ReplyView) -> ProgressView {
    match (stage, reply) {
        (Stage::ClearingIndicator, ReplyView::Completed) => ProgressView::Pending(
            Stage::QueryingProcess,
        ),
        (Stage::QueryingProcess, ReplyView::Returned(value)) => ProgressView::Pending(
            Stage::CheckingIndicator { value },
        ),
        (Stage::CheckingIndicator { value }, ReplyView::Returned(indicator)) => {
            if indicator != 0 {
                ProgressView::Finished(Err(ErrorView::Os { code: indicator }))
            } else {
                ProgressView::Finished(Ok(value))
            }
        },
        (Stage::QueryingThread, ReplyView::Returned(value)) => {
            if value == thread_priority_failure() {
                ProgressView::Pending(Stage::ReadingFailure)
            } else {
                ProgressView::Finished(Ok(value))
            }
        },
        (Stage::Adjusting { .. }, ReplyView::Returned(value)) => {
            if value == unix_failure() {
                ProgressView::Pending(Stage::ReadingFailure)
            } else {
                ProgressView::Finished(Ok(value))
            }
        },
        (Stage::Setting { level }, ReplyView::Completed) => ProgressView::Finished(
            Ok(level.spec_code() as i32),
        ),
        (Stage::Setting { .. }, ReplyView::Refused(text)) => ProgressView::Finished(
            Err(ErrorView::GenericFailure { reason: text }),
        ),
        (Stage::ReadingFailure, ReplyView::Returned(code)) => ProgressView::Finished(
            Err(ErrorView::Os { code }),
        ),
        _ => ProgressView::Pending(stage),
    }
}

/// Every answered call brings an operation nearer to its end: it finishes,
/// or the stage that follows needs fewer calls. So no native call is made
/// twice, and an operation finishes after three answered calls at most,
/// whatever the host replies.
pub proof fn lemma_answered_call_makes_progress(stage: Stage, reply: ReplyView)
    requires
        answers(stage.pending_call(), reply),
    ensures
        step(stage, reply) matches ProgressView::Pending(next) ==> next.calls_left()
            < stage.calls_left(),
        step(stage, reply) != ProgressView::Pending(stage),
        stage.calls_left() <= 3,
{
}

/// An operation stays on the platform it began on: it begins at a stage of
/// that platform, every stage that follows is one, and the call that such a
/// stage waits for is offered by that platform's hosts.
pub proof fn lemma_operations_stay_on_their_platform(
    platform: Platform,
    incr: Option<i32>,
    stage: Stage,
    reply: ReplyView,
)
    ensures
        begin_read(platform) matches ProgressView::Pending(first) && first.serves(platform),
        begin_write(platform, incr) matches ProgressView::Pending(first) ==> first.serves(
            platform,
        ),
        stage.serves(platform) ==> stage.pending_call().offered_by(platform),
        stage.serves(platform) ==> (step(stage, reply) matches ProgressView::Pending(next)
            ==> next.serves(platform)),
{
}

/// Begins reading the current priority of the calling process (Unix) or
/// thread (Windows).
pub fn get_current_process_priority(platform: Platform) -> (progress: Progress)
    ensures
        progress@ == begin_read(platform),
        progress is Pending,
{
    match platform {
        Platform::Unix => Progress::Pending(Pending { stage: Stage::ClearingIndicator }),
        Platform::Windows => Progress::Pending(Pending { stage: Stage::QueryingThread }),
    }
}

/// Begins setting the priority. On Unix `incr` is added to the niceness of
/// the calling process; on Windows it is the code of the level to set on the
/// calling thread. Without an integer, 0 is used.
pub fn nice(platform: Platform, incr: Option<i32>) -> (progress: Progress)
    ensures
        progress@ == begin_write(platform, incr),
        progress is Finished <==> platform == Platform::Windows && level_of_code(
            requested(incr) as int,
        ) is None,
{
    let incr: i32 = match incr {
        Some(value) => value,
        None => 0,
    };
    match platform {
        Platform::Unix => Progress::Pending(
            Pending { stage: Stage::Adjusting { increment: incr } },
        ),
        Platform::Windows => match WindowsThreadPriority::try_from(incr) {
            Ok(level) => Progress::Pending(Pending { stage: Stage::Setting { level } }),
            Err(error) => Progress::Finished(Err(error)),
        },
    }
}

/// Decides what follows the host's reply to the call that `pending` waits for.
pub fn advance(pending: Pending, reply: HostReply) -> (progress: Progress)
    ensures
        progress@ == step(pending@, reply@),
        !answers(pending@.pending_call(), reply@) ==> progress@ == ProgressView::Pending(
            pending@,
        ),
{
    match (pending.stage, reply) {
        (Stage::ClearingIndicator, HostReply::Completed) => Progress::Pending(
            Pending { stage: Stage::QueryingProcess },
        ),
        (Stage::QueryingProcess, HostReply::Returned(value)) => Progress::Pending(
            Pending { stage: Stage::CheckingIndicator { value } },
        ),
        (Stage::CheckingIndicator { value }, HostReply::Returned(indicator)) => {
            if indicator != 0 {
                Progress::Finished(Err(PriorityError::Os { code: indicator }))
            } else {
                Progress::Finished(Ok(value))
            }
        },
        (Stage::QueryingThread, HostReply::Returned(value)) => {
            if value == thread_priority_error_return() {
                Progress::Pending(Pending { stage: Stage::ReadingFailure })
            } else {
                Progress::Finished(Ok(value))
            }
        },
        (Stage::Adjusting { .. }, HostReply::Returned(value)) => {
            if value == -1 {
                Progress::Pending(Pending { stage: Stage::ReadingFailure })
            } else {
                Progress::Finished(Ok(value))
            }
        },
        (Stage::Setting { level }, HostReply::Completed) => Progress::Finished(Ok(level.code())),
        (Stage::Setting { .. }, HostReply::Refused(text)) => Progress::Finished(
            Err(PriorityError::GenericFailure { reason: text }),
        ),
        (Stage::ReadingFailure, HostReply::Returned(code)) => Progress::Finished(
            Err(PriorityError::Os { code }),
        ),
        (_, _) => Progress::Pending(pending),
    }
}

} // verus!
