//! The closed set of thread priority levels that Windows accepts.

use crate::error::{invalid_priority, invalid_priority_text, ErrorView, PriorityError};
use vstd::prelude::*;

verus! {

/// A thread priority level of Windows: seven true priorities and the two
/// pseudo-levels that enter and leave background processing mode.
#[derive(Clone, Copy, Debug, PartialEq, Eq, Structural)]
pub enum WindowsThreadPriority {
    ThreadModeBackgroundBegin,
    ThreadModeBackgroundEnd,
    ThreadPriorityAboveNormal,
    ThreadPriorityBelowNormal,
    ThreadPriorityHighest,
    ThreadPriorityIdle,
    ThreadPriorityLowest,
    ThreadPriorityNormal,
    ThreadPriorityTimeCritical,
}

/// Whether `value` is one of the nine thread priority codes.
pub open spec fn is_priority_code(value: int) -> bool {
    value == 0x0001_0000 || value == 0x0002_0000 || value == 1 || value == -1 || value == 2
        || value == -15 || value == -2 || value == 0 || value == 15
}

/// The level that `value` stands for, if it is a thread priority code.
pub open spec fn level_of_code(value: int) -> Option<WindowsThreadPriority> {
    if value == 0x0001_0000 {
        Some(WindowsThreadPriority::ThreadModeBackgroundBegin)
    } else if value == 0x0002_0000 {
        Some(WindowsThreadPriority::ThreadModeBackgroundEnd)
    } else if value == 1 {
        Some(WindowsThreadPriority::ThreadPriorityAboveNormal)
    } else if value == -1 {
        Some(WindowsThreadPriority::ThreadPriorityBelowNormal)
    } else if value == 2 {
        Some(WindowsThreadPriority::ThreadPriorityHighest)
    } else if value == -15 {
        Some(WindowsThreadPriority::ThreadPriorityIdle)
    } else if value == -2 {
        Some(WindowsThreadPriority::ThreadPriorityLowest)
    } else if value == 0 {
        Some(WindowsThreadPriority::ThreadPriorityNormal)
    } else if value == 15 {
        Some(WindowsThreadPriority::ThreadPriorityTimeCritical)
    } else {
        None
    }
}

/// `windows::Win32::System::Threading::THREAD_MODE_BACKGROUND_BEGIN`, which
/// the windows crate defines as `THREAD_PRIORITY(65536)`.
#[verifier::external_body]
fn thread_mode_background_begin() -> (value: i32)
    ensures
        value == 0x0001_0000,
{
    windows::Win32::System::Threading::THREAD_MODE_BACKGROUND_BEGIN.0
}

/// `windows::Win32::System::Threading::THREAD_MODE_BACKGROUND_END`, which the
/// windows crate defines as `THREAD_PRIORITY(131072)`.
#[verifier::external_body]
fn thread_mode_background_end() -> (value: i32)
    ensures
        value == 0x0002_0000,
{
    windows::Win32::System::Threading::THREAD_MODE_BACKGROUND_END.0
}

/// `windows::Win32::System::Threading::THREAD_PRIORITY_ABOVE_NORMAL`, which
/// the windows crate defines as `THREAD_PRIORITY(1)`.
#[verifier::external_body]
fn thread_priority_above_normal() -> (value: i32)
    ensures
        value == 1,
{
    windows::Win32::System::Threading::THREAD_PRIORITY_ABOVE_NORMAL.0
}

/// `windows::Win32::System::Threading::THREAD_PRIORITY_BELOW_NORMAL`, which
/// the windows crate defines as `THREAD_PRIORITY(-1)`.
#[verifier::external_body]
fn thread_priority_below_normal() -> (value: i32)
    ensures
        value == -1,
{
    windows::Win32::System::Threading::THREAD_PRIORITY_BELOW_NORMAL.0
}

/// `windows::Win32::System::Threading::THREAD_PRIORITY_HIGHEST`, which the
/// windows crate defines as `THREAD_PRIORITY(2)`.
#[verifier::external_body]
fn thread_priority_highest() -> (value: i32)
    ensures
        value == 2,
{
    windows::Win32::System::Threading::THREAD_PRIORITY_HIGHEST.0
}

/// `windows::Win32::System::Threading::THREAD_PRIORITY_IDLE`, which the
/// windows crate defines as `THREAD_PRIORITY(-15)`.
#[verifier::external_body]
fn thread_priority_idle() -> (value: i32)
    ensures
        value == -15,
{
    windows::Win32::System::Threading::THREAD_PRIORITY_IDLE.0
}

/// `windows::Win32::System::Threading::THREAD_PRIORITY_LOWEST`, which the
/// windows crate defines as `THREAD_PRIORITY(-2)`.
#[verifier::external_body]
fn thread_priority_lowest() -> (value: i32)
    ensures
        value == -2,
{
    windows::Win32::System::Threading::THREAD_PRIORITY_LOWEST.0
}

/// `windows::Win32::System::Threading::THREAD_PRIORITY_NORMAL`, which the
/// windows crate defines as `THREAD_PRIORITY(0)`.
#[verifier::external_body]
fn thread_priority_normal() -> (value: i32)
    ensures
        value == 0,
{
    windows::Win32::System::Threading::THREAD_PRIORITY_NORMAL.0
}

/// `windows::Win32::System::Threading::THREAD_PRIORITY_TIME_CRITICAL`, which
/// the windows crate defines as `THREAD_PRIORITY(15)`.
#[verifier::external_body]
fn thread_priority_time_critical() -> (value: i32)
    ensures
        value == 15,
{
    windows::Win32::System::Threading::THREAD_PRIORITY_TIME_CRITICAL.0
}

impl WindowsThreadPriority {
    /// The integer code that stands for this level at the call boundary.
    pub open spec fn spec_code(self) -> int {
        match self {
            WindowsThreadPriority::ThreadModeBackgroundBegin => 0x0001_0000,
            WindowsThreadPriority::ThreadModeBackgroundEnd => 0x0002_0000,
            WindowsThreadPriority::ThreadPriorityAboveNormal => 1,
            WindowsThreadPriority::ThreadPriorityBelowNormal => -1,
            WindowsThreadPriority::ThreadPriorityHighest => 2,
            WindowsThreadPriority::ThreadPriorityIdle => -15,
            WindowsThreadPriority::ThreadPriorityLowest => -2,
            WindowsThreadPriority::ThreadPriorityNormal => 0,
            WindowsThreadPriority::ThreadPriorityTimeCritical => 15,
        }
    }

    /// The integer code of this level.
    pub fn code(self) -> (code: i32)
        ensures
            code == self.spec_code(),
    {
        match self {
            WindowsThreadPriority::ThreadModeBackgroundBegin => 0x0001_0000,
            WindowsThreadPriority::ThreadModeBackgroundEnd => 0x0002_0000,
            WindowsThreadPriority::ThreadPriorityAboveNormal => 1,
            WindowsThreadPriority::ThreadPriorityBelowNormal => -1,
            WindowsThreadPriority::ThreadPriorityHighest => 2,
            WindowsThreadPriority::ThreadPriorityIdle => -15,
            WindowsThreadPriority::ThreadPriorityLowest => -2,
            WindowsThreadPriority::ThreadPriorityNormal => 0,
            WindowsThreadPriority::ThreadPriorityTimeCritical => 15,
        }
    }

    /// The value of the native constant that Windows takes for this level.
    /// Every level has its own constant, and the constant's value is the
    /// level's code.
    pub fn native(self) -> (priority: i32)
        ensures
            priority == self.spec_code(),
    {
        match self {
            WindowsThreadPriority::ThreadModeBackgroundBegin => thread_mode_background_begin(),
            WindowsThreadPriority::ThreadModeBackgroundEnd => thread_mode_background_end(),
            WindowsThreadPriority::ThreadPriorityAboveNormal => thread_priority_above_normal(),
            WindowsThreadPriority::ThreadPriorityBelowNormal => thread_priority_below_normal(),
            WindowsThreadPriority::ThreadPriorityHighest => thread_priority_highest(),
            WindowsThreadPriority::ThreadPriorityIdle => thread_priority_idle(),
            WindowsThreadPriority::ThreadPriorityLowest => thread_priority_lowest(),
            WindowsThreadPriority::ThreadPriorityNormal => thread_priority_normal(),
            WindowsThreadPriority::ThreadPriorityTimeCritical => thread_priority_time_critical(),
        }
    }

    /// Validates an integer as a thread priority code. Exactly the nine codes
    /// succeed, each with the level it stands for; every other integer is
    /// rejected with a message that names it. Nothing is clamped or rounded.
    pub fn try_from(value: i32) -> (result: Result<WindowsThreadPriority, PriorityError>)
        ensures
            result is Ok <==> is_priority_code(value as int),
            result matches Ok(level) ==> level.spec_code() == value,
            match level_of_code(value as int) {
                Some(level) => result == Ok::<WindowsThreadPriority, PriorityError>(level),
                None => result matches Err(error) && error@ == (ErrorView::InvalidArg {
                    reason: invalid_priority_text(value as int),
                }),
            },
    {
        match value {
            0x0001_0000 => Ok(WindowsThreadPriority::ThreadModeBackgroundBegin),
            0x0002_0000 => Ok(WindowsThreadPriority::ThreadModeBackgroundEnd),
            1 => Ok(WindowsThreadPriority::ThreadPriorityAboveNormal),
            -1 => Ok(WindowsThreadPriority::ThreadPriorityBelowNormal),
            2 => Ok(WindowsThreadPriority::ThreadPriorityHighest),
            -15 => Ok(WindowsThreadPriority::ThreadPriorityIdle),
            -2 => Ok(WindowsThreadPriority::ThreadPriorityLowest),
            0 => Ok(WindowsThreadPriority::ThreadPriorityNormal),
            15 => Ok(WindowsThreadPriority::ThreadPriorityTimeCritical),
            _ => Err(invalid_priority(value)),
        }
    }
}

/// Codes and levels correspond one to one: a level's code is a thread priority
/// code and stands for that level, an integer stands for a level only if it is
/// that level's code, and no two levels share a code.
pub proof fn lemma_codes_and_levels_correspond(
    level: WindowsThreadPriority,
    other: WindowsThreadPriority,
    value: int,
)
    ensures
        is_priority_code(level.spec_code()),
        level_of_code(level.spec_code()) == Some(level),
        level_of_code(value) == Some(level) <==> value == level.spec_code(),
        is_priority_code(value) <==> level_of_code(value) is Some,
        level.spec_code() == other.spec_code() ==> level == other,
{
}

} // verus!
