use vstd::prelude::*;

verus! {

/// Externally observable lifecycle flags of one client instance.
///
/// The flags are exclusively owned by one [`crate::client::Client`] and are
/// mutated only from within the sync loop's per-response dispatch;
/// `has_first_synced` is monotonic (once set it never reverts) and
/// `is_syncing` is cleared exactly when the loop is asked to stop.
#[derive(Clone, Copy, Debug, PartialEq, Eq, Structural)]
pub struct ClientState {
    pub is_guest: bool,
    pub has_first_synced: bool,
    pub is_syncing: bool,
    pub should_stop_syncing: bool,
}

impl Default for ClientState {
    /// A fresh client has seen no sync response and no stop request.
    fn default() -> (r: Self)
        ensures
            r == (ClientState {
                is_guest: false,
                has_first_synced: false,
                is_syncing: false,
                should_stop_syncing: false,
            }),
    {
        ClientState {
            is_guest: false,
            has_first_synced: false,
            is_syncing: false,
            should_stop_syncing: false,
        }
    }
}

} // verus!
