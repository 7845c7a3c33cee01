//! Reading and adjusting the scheduling priority of the calling process or
//! thread, on two host families whose facilities differ: the niceness of a
//! process on Unix, the priority level of a thread on Windows.
//!
//! The library decides and the host acts. [`get_current_process_priority`]
//! and [`nice`] begin an operation, [`Pending::call`] names the native call
//! that is owed, and [`advance`] takes the host's reply and decides what
//! follows, until the operation is finished with its result.
//!
//! - [`level`]: the thread priority levels of Windows and their codes.
//! - [`error`]: the failures that an operation ends with.
//! - [`decimal`]: the decimal text of integers, for messages.
//! - [`host`]: native calls and replies.
//! - [`protocol`]: the operations, as decisions between native calls.
//! - [`unix_model`]: a model of a Unix host, and what the operations achieve
//!   on it.

pub mod decimal;
pub mod error;
pub mod host;
pub mod level;
pub mod protocol;
pub mod unix_model;

pub use error::PriorityError;
pub use host::{HostCall, HostReply, Platform};
pub use level::WindowsThreadPriority;
pub use protocol::{advance, get_current_process_priority, nice, Pending, Progress, Stage};
