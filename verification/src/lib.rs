//! Building blocks for a cancellable background service.
//!
//! A service performs one step of work at a time. Every step either yields a
//! value, asks to be run again, or asks for the work loop to end
//! ([`CancellationResult`]). The work loop races each step against a
//! cancellation signal and decides, round by round, whether it goes on
//! ([`work_loop`]). Whoever started the service holds a
//! [`CancellableHandle`], through which the service is fed, cancelled and
//! awaited.

pub mod cancellable_handle;
pub mod cancellation_result;
pub mod loop_run;
pub mod sender_handle;
pub mod work_loop;

pub use crate::cancellable_handle::CancellableHandle;
pub use crate::cancellation_result::CancellationResult;
pub use crate::sender_handle::SenderHandle;
pub use crate::work_loop::{accept_all, after_callback, settle, LoopEvent};
pub use tokio_util::sync::CancellationToken;
