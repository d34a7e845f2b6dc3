//! A common interface for handles that feed values to their services.

use vstd::prelude::*;

verus! {

/// Helper trait that can be used to define a common interface for handles to
/// send values to their services.
///
/// How a value reaches the service (a queue, a channel, a shared slot) is up
/// to the handle. An implementation neither buffers behind the caller's back
/// nor retries: it makes one attempt per call.
pub trait SenderHandle {
    /// Type of values sent to the service.
    type Item;

    /// Sends `item` to the service.
    ///
    /// Returns `Ok(())` if the operation succeeded. If it failed to send the
    /// value, it hands the very same value back, wrapped as `Err`, so that
    /// the caller still owns it and may retry, drop or escalate.
    fn send(&mut self, item: Self::Item) -> (outcome: Result<(), Self::Item>)
        ensures
            outcome matches Err(returned) ==> returned == item,
    ;
}

} // verus!
