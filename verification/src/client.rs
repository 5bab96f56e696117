use vstd::prelude::*;

use crate::channels::{FirstSyncedReceiver, TypingNotification, TypingReceiver};
use crate::controllers::{DeviceListsController, SessionVerificationController};
use crate::state::ClientState;
use crate::sync::SyncRunner;

verus! {

/// The one-shot hand-off object produced once per sync start. Each receiver
/// can be retrieved by exactly one caller; every later retrieval attempt
/// observes "already taken".
#[derive(Debug)]
pub struct SyncState {
    pub typing_notification_rx: Option<TypingReceiver>,
    pub first_synced_rx: Option<FirstSyncedReceiver>,
}

impl SyncState {
    pub fn new(
        typing_notification_rx: TypingReceiver,
        first_synced_rx: FirstSyncedReceiver,
    ) -> (r: Self)
        ensures
            r.typing_notification_rx == Some(typing_notification_rx),
            r.first_synced_rx == Some(first_synced_rx),
    {
        SyncState {
            typing_notification_rx: Some(typing_notification_rx),
            first_synced_rx: Some(first_synced_rx),
        }
    }

    /// Hand the typing receiver over: the first call obtains it, every later
    /// call observes it already taken.
    pub fn get_typing_notification_rx(&mut self) -> (r: Option<TypingReceiver>)
        ensures
            r == old(self).typing_notification_rx,
            final(self).typing_notification_rx is None,
            final(self).first_synced_rx == old(self).first_synced_rx,
    {
        self.typing_notification_rx.take()
    }

    /// Hand the first-synced receiver over, with the same one-time
    /// discipline as the typing receiver.
    pub fn get_first_synced_rx(&mut self) -> (r: Option<FirstSyncedReceiver>)
        ensures
            r == old(self).first_synced_rx,
            final(self).first_synced_rx is None,
            final(self).typing_notification_rx == old(self).typing_notification_rx,
    {
        self.first_synced_rx.take()
    }
}

/// A slot that is populated at most once: get-or-create leaves a populated
/// slot untouched, so however many callers reach it in turn, exactly one
/// stored value ever exists.
pub open spec fn slot_after_get<T>(slot: Option<T>, fresh: T) -> Option<T> {
    if slot is Some {
        slot
    } else {
        Some(fresh)
    }
}

/// Get-or-create populates an empty slot and never overwrites a populated
/// one: after the first call the stored value is fixed, whatever later
/// calls would have constructed.
pub proof fn lemma_get_or_create_at_most_once<T>(slot: Option<T>, first: T, later: T)
    ensures
        slot_after_get(slot_after_get(slot, first), later) == slot_after_get(slot, first),
        slot is Some ==> slot_after_get(slot, first) == slot,
{
}

/// A client façade: the lifecycle flags, the two lazily created processing
/// controllers, and the per-start state of the sync loop, if one was
/// started. Flags and slots are exclusively owned by this value; the sync
/// loop mutates them only through [`Client::process_response`].
#[derive(Debug)]
pub struct Client {
    pub state: ClientState,
    pub session_verification_controller: Option<SessionVerificationController>,
    pub device_lists_controller: Option<DeviceListsController>,
    pub sync_runner: Option<SyncRunner>,
}

impl Client {
    pub fn new(state: ClientState) -> (r: Self)
        ensures
            r.state == state,
            r.session_verification_controller is None,
            r.device_lists_controller is None,
            r.sync_runner is None,
    {
        Client {
            state,
            session_verification_controller: None,
            device_lists_controller: None,
            sync_runner: None,
        }
    }

    /// Whether a first sync response has been received since the client was
    /// established. Pure read; no side effects.
    pub fn has_first_synced(&self) -> (b: bool)
        ensures
            b == self.state.has_first_synced,
    {
        self.state.has_first_synced
    }

    /// Whether the sync loop is currently running. Pure read.
    pub fn is_syncing(&self) -> (b: bool)
        ensures
            b == self.state.is_syncing,
    {
        self.state.is_syncing
    }

    /// Whether this is a guest account. Pure read.
    pub fn is_guest(&self) -> (b: bool)
        ensures
            b == self.state.is_guest,
    {
        self.state.is_guest
    }

    /// Start the sync loop: arm the per-start "initial response" marker and
    /// produce the one-shot hand-off object with an empty typing queue and
    /// the first-synced signal at its initial value. The external driver
    /// then feeds every response delivered by the sync transport to
    /// [`Client::process_response`], in delivery order. Starting twice
    /// re-arms the marker; callers are expected not to run two loops over
    /// one client.
    pub fn start_sync(&mut self) -> (r: SyncState)
        ensures
            final(self).sync_runner is Some,
            final(self).sync_runner.unwrap().initial,
            final(self).state == old(self).state,
            final(self).session_verification_controller
                == old(self).session_verification_controller,
            final(self).device_lists_controller == old(self).device_lists_controller,
            r.typing_notification_rx matches Some(t) && t@
                == Seq::<TypingNotification>::empty() && t.wf(),
            r.first_synced_rx matches Some(f) && f@ == false,
    {
        self.sync_runner = Some(SyncRunner { initial: true });
        SyncState::new(TypingReceiver::new(), FirstSyncedReceiver::new())
    }

    /// Get-or-create for the session-verification controller slot: return
    /// the stored controller, constructing and storing a fresh one only if
    /// the slot is still empty. The slot is never cleared, so construction
    /// happens at most once per client.
    pub fn get_session_verification_controller(&mut self) -> (r: &SessionVerificationController)
        ensures
            final(self).session_verification_controller is Some,
            r == final(self).session_verification_controller.unwrap(),
            final(self).session_verification_controller == slot_after_get(
                old(self).session_verification_controller,
                *r,
            ),
            old(self).session_verification_controller is Some
                ==> final(self).session_verification_controller
                    == old(self).session_verification_controller,
            old(self).session_verification_controller is None ==> r.sync_batches@
                == Seq::<usize>::empty() && r.to_device_batches@.len() == 0,
            final(self).state == old(self).state,
            final(self).device_lists_controller == old(self).device_lists_controller,
            final(self).sync_runner == old(self).sync_runner,
    {
        if self.session_verification_controller.is_none() {
            self.session_verification_controller = Some(SessionVerificationController::new());
        }
        self.session_verification_controller.as_ref().unwrap()
    }

    /// Get-or-create for the device-lists controller slot, with the same
    /// at-most-once construction discipline as the session-verification
    /// slot.
    pub fn get_device_lists_controller(&mut self) -> (r: &DeviceListsController)
        ensures
            final(self).device_lists_controller is Some,
            r == final(self).device_lists_controller.unwrap(),
            final(self).device_lists_controller == slot_after_get(
                old(self).device_lists_controller,
                *r,
            ),
            old(self).device_lists_controller is Some ==> final(self).device_lists_controller
                == old(self).device_lists_controller,
            old(self).device_lists_controller is None ==> r.processed@.len() == 0,
            final(self).state == old(self).state,
            final(self).session_verification_controller
                == old(self).session_verification_controller,
            final(self).sync_runner == old(self).sync_runner,
    {
        if self.device_lists_controller.is_none() {
            self.device_lists_controller = Some(DeviceListsController::new());
        }
        self.device_lists_controller.as_ref().unwrap()
    }
}

} // verus!
