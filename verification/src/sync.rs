use vstd::prelude::*;

use crate::channels::{enqueue_all, FirstSyncedReceiver, TypingNotification, TypingReceiver};
use crate::client::Client;
use crate::response::{
    typing_of_events, typing_of_rooms, EphemeralEvent, JoinedRoomUpdate, SyncResponse,
};
use crate::state::ClientState;

verus! {

/// The continue/stop control value handed back to the external sync
/// primitive after each response; the primitive requests another response
/// only on `Continue`.
#[derive(Clone, Copy, Debug, PartialEq, Eq, Structural)]
pub enum LoopCtrl {
    Continue,
    Break,
}

/// Per-start state of the orchestrator: whether the next response is the
/// first one received since this start.
#[derive(Clone, Copy, Debug, PartialEq, Eq, Structural)]
pub struct SyncRunner {
    pub initial: bool,
}

/// The lifecycle flags after one fully processed response: the first-synced
/// marker is set (a one-way transition), syncing continues exactly when no
/// stop was requested, and the remaining flags are untouched.
pub open spec fn state_after_response(s: ClientState) -> ClientState {
    ClientState {
        is_guest: s.is_guest,
        has_first_synced: true,
        is_syncing: !s.should_stop_syncing,
        should_stop_syncing: s.should_stop_syncing,
    }
}

/// The continuation decision for one response: the loop stops exactly when
/// a stop was requested before the response completed.
pub open spec fn ctrl_after_response(s: ClientState) -> LoopCtrl {
    if s.should_stop_syncing {
        LoopCtrl::Break
    } else {
        LoopCtrl::Continue
    }
}

/// The lifecycle flags after `n` responses processed in sequence.
pub open spec fn state_after_responses(s: ClientState, n: nat) -> ClientState
    decreases n,
{
    if n == 0 {
        s
    } else {
        state_after_response(state_after_responses(s, (n - 1) as nat))
    }
}

/// `has_first_synced` transitions false to true at most once per client
/// lifetime: it holds after the first processed response and never reverts,
/// however many further responses arrive.
pub proof fn lemma_first_synced_monotonic(s: ClientState, n: nat)
    ensures
        n >= 1 ==> state_after_responses(s, n).has_first_synced,
        s.has_first_synced ==> state_after_responses(s, n).has_first_synced,
        state_after_responses(s, n).has_first_synced ==> state_after_responses(
            s,
            n + 1,
        ).has_first_synced,
    decreases n,
{
    if n > 0 {
        lemma_first_synced_monotonic(s, (n - 1) as nat);
    }
}

/// The typing-queue contents after a scripted sequence of responses is
/// processed from a given runner state: the initial catch-up response
/// contributes nothing, every later response enqueues its typing
/// notifications in order, within the queue's capacity.
pub open spec fn queue_after_script(
    q: Seq<TypingNotification>,
    initial: bool,
    responses: Seq<SyncResponse>,
) -> Seq<TypingNotification>
    decreases responses.len(),
{
    if responses.len() == 0 {
        q
    } else {
        let q2 = if initial {
            q
        } else {
            enqueue_all(q, typing_of_rooms(responses[0].rooms.join@))
        };
        queue_after_script(q2, false, responses.skip(1))
    }
}

/// A stop request raised before a response completes is honoured at that
/// very response: syncing is reported ended and the decision handed to the
/// transport is to break, so no further response is requested.
pub proof fn lemma_stop_request_honoured(s: ClientState)
    requires
        s.should_stop_syncing,
    ensures
        !state_after_response(s).is_syncing,
        ctrl_after_response(s) == LoopCtrl::Break,
{
}

impl Client {
    /// Process one response of the external sync primitive, in the fixed
    /// per-response order:
    ///
    /// 1. dispatch the device-list delta to the device-lists controller, if
    ///    present — on every response, the initial catch-up one included;
    /// 2. unless this is the initial response, dispatch the room-membership
    ///    data to the session-verification controller, if present, and push
    ///    one typing notification per typing event of every joined room onto
    ///    the bounded queue, dropping whatever exceeds its capacity;
    /// 3. clear the initial marker;
    /// 4. publish `true` on the first-synced signal;
    /// 5. record that a first sync completed (one-way transition);
    /// 6. if a stop was requested, report syncing ended and decide to stop
    ///    — the work above has already completed, so cancellation is
    ///    cooperative, never preemptive;
    /// 7. otherwise report syncing live;
    /// 8. on a continuing iteration, dispatch the to-device messages to the
    ///    session-verification controller, if present — even on the initial
    ///    response, so verification requests are never suppressed;
    /// 9. decide to continue.
    pub fn process_response(
        &mut self,
        response: SyncResponse,
        typing: &mut TypingReceiver,
        first_synced: &mut FirstSyncedReceiver,
    ) -> (ctrl: LoopCtrl)
        requires
            old(self).sync_runner is Some,
            old(typing).wf(),
        ensures
            final(self).state == state_after_response(old(self).state),
            ctrl == ctrl_after_response(old(self).state),
            final(self).sync_runner is Some && !final(self).sync_runner.unwrap().initial,
            old(self).device_lists_controller is None ==> final(self).device_lists_controller
                is None,
            old(self).device_lists_controller matches Some(c)
                ==> final(self).device_lists_controller matches Some(c2)
                    && c2.processed@ == c.processed@.push(response.device_lists),
            old(self).session_verification_controller is None
                ==> final(self).session_verification_controller is None,
            old(self).session_verification_controller matches Some(c)
                ==> final(self).session_verification_controller matches Some(c2)
                    && c2.sync_batches@ == (
            if old(self).sync_runner.unwrap().initial {
                c.sync_batches@
            } else {
                c.sync_batches@.push(response.rooms.join@.len() as usize)
            }) && c2.to_device_batches@ == (
            if old(self).state.should_stop_syncing {
                c.to_device_batches@
            } else {
                c.to_device_batches@.push(response.to_device)
            }),
            final(typing)@ == (
            if old(self).sync_runner.unwrap().initial {
                old(typing)@
            } else {
                enqueue_all(old(typing)@, typing_of_rooms(response.rooms.join@))
            }),
            final(typing).wf(),
            final(first_synced)@ == true,
    {
        let initial = self.sync_runner.as_ref().unwrap().initial;
        let SyncResponse { device_lists, rooms, to_device } = response;

        // Step 1: device-list state must be current before any later
        // encryption-dependent operation, so this runs even on the initial
        // catch-up response.
        if let Some(dlc) = &mut self.device_lists_controller {
            dlc.process_events(device_lists);
        }

        // Step 2: room-membership dispatch and typing extraction are
        // suppressed on the initial response.
        if !initial {
            if let Some(svc) = &mut self.session_verification_controller {
                svc.process_sync_messages(&rooms);
            }
            let mut join = rooms.join;
            let ghost q0 = typing@;
            let ghost join0 = join@;
            while join.len() > 0
                invariant
                    typing.wf(),
                    enqueue_all(typing@, typing_of_rooms(join@)) == enqueue_all(
                        q0,
                        typing_of_rooms(join0),
                    ),
                decreases join.len(),
            {
                let ghost jbefore = join@;
                let room = join.remove(0);
                proof {
                    assert(jbefore.remove(0) =~= jbefore.skip(1));
                }
                let JoinedRoomUpdate { room_id, ephemeral } = room;
                let mut events = ephemeral;
                while events.len() > 0
                    invariant
                        typing.wf(),
                        enqueue_all(
                            typing@,
                            typing_of_events(room_id, events@) + typing_of_rooms(jbefore.skip(1)),
                        ) == enqueue_all(q0, typing_of_rooms(join0)),
                    decreases events.len(),
                {
                    let ghost ebefore = events@;
                    let ev = events.remove(0);
                    proof {
                        assert(ebefore.remove(0) =~= ebefore.skip(1));
                    }
                    let ghost t1 = typing_of_events(room_id, ebefore.skip(1));
                    let ghost t2 = typing_of_rooms(jbefore.skip(1));
                    match ev {
                        EphemeralEvent::Typing { user_ids } => {
                            let n = TypingNotification { room_id: room_id.clone(), user_ids };
                            proof {
                                assert(typing_of_events(room_id, ebefore) == seq![n] + t1);
                                assert((seq![n] + t1) + t2 =~= seq![n] + (t1 + t2));
                                assert((seq![n] + (t1 + t2)).skip(1) =~= t1 + t2);
                                assert((seq![n] + (t1 + t2))[0] == n);
                            }
                            let _ = typing.push(n);
                        },
                        _ => {
                            proof {
                                assert(typing_of_events(room_id, ebefore)
                                    =~= Seq::<TypingNotification>::empty() + t1);
                                assert(Seq::<TypingNotification>::empty() + t1 =~= t1);
                            }
                        },
                    }
                }
                proof {
                    assert(typing_of_events(room_id, events@) + typing_of_rooms(jbefore.skip(1))
                        =~= typing_of_rooms(jbefore.skip(1)));
                }
            }
            proof {
                assert(enqueue_all(typing@, typing_of_rooms(join@)) == typing@);
            }
        }
        // Step 3: after the first response the initial marker stays clear.
        self.sync_runner = Some(SyncRunner { initial: false });

        // Step 4: the signal is latest-value-wins; `true` overwrites
        // whatever was there.
        first_synced.publish(true);

        // Step 5: one-way transition.
        if !self.state.has_first_synced {
            self.state.has_first_synced = true;
        }
        // Step 6: the stop check comes once per completed iteration, after
        // all dispatch of steps 1 to 5.
        if self.state.should_stop_syncing {
            self.state.is_syncing = false;
            return LoopCtrl::Break;
        } else if !self.state.is_syncing {
            // Step 7.
            self.state.is_syncing = true;
        }
        // Step 8: to-device messages are dispatched on every continuing
        // response, the initial one included.
        if let Some(svc) = &mut self.session_verification_controller {
            svc.process_to_device_messages(to_device);
        }
        // Step 9.
        LoopCtrl::Continue
    }

    /// Drive the loop over a scripted sequence of responses, as the external
    /// transport would: each response is fully processed, in delivery order,
    /// before the next is requested, and once the continuation decision is
    /// to stop, no further response is requested. Returns how many responses
    /// were processed: with a stop request pending from the start, exactly
    /// the one response in flight completes; otherwise the whole script
    /// runs.
    pub fn run_scripted_sync(
        &mut self,
        responses: Vec<SyncResponse>,
        typing: &mut TypingReceiver,
        first_synced: &mut FirstSyncedReceiver,
    ) -> (processed: usize)
        requires
            old(self).sync_runner is Some,
            old(typing).wf(),
        ensures
            processed as nat == (
            if old(self).state.should_stop_syncing {
                if responses@.len() == 0 {
                    0nat
                } else {
                    1nat
                }
            } else {
                responses@.len()
            }),
            final(self).state == state_after_responses(old(self).state, processed as nat),
            processed >= 1 ==> final(self).state.has_first_synced,
            final(self).sync_runner is Some,
            final(typing).wf(),
            final(typing)@ == queue_after_script(
                old(typing)@,
                old(self).sync_runner.unwrap().initial,
                responses@.take(processed as int),
            ),
    {
        let ghost s0 = self.state;
        let ghost q0 = typing@;
        let ghost init0 = self.sync_runner.unwrap().initial;
        let mut responses = responses;
        let ghost rs0 = responses@;
        let total: usize = responses.len();
        let mut processed: usize = 0;
        let mut stopped = false;
        while !stopped && responses.len() > 0
            invariant
                self.sync_runner is Some,
                typing.wf(),
                self.state == state_after_responses(s0, processed as nat),
                self.state.should_stop_syncing == s0.should_stop_syncing,
                rs0.len() == total as int,
                !stopped ==> processed as int + responses@.len() == total as int,
                !stopped && s0.should_stop_syncing ==> processed == 0,
                stopped ==> s0.should_stop_syncing && processed == 1 && total >= 1,
                processed <= total,
                processed == 0 ==> typing@ == q0 && self.sync_runner.unwrap().initial == init0
                    && responses@ == rs0,
                !stopped ==> queue_after_script(
                    typing@,
                    self.sync_runner.unwrap().initial,
                    responses@,
                ) == queue_after_script(q0, init0, rs0),
                stopped ==> typing@ == queue_after_script(q0, init0, rs0.take(1)),
            decreases responses.len(),
        {
            let ghost rbefore = responses@;
            let ghost tbefore = typing@;
            let ghost cur_init = self.sync_runner.unwrap().initial;
            let response = responses.remove(0);
            proof {
                assert(rbefore.remove(0) =~= rbefore.skip(1));
            }
            let ctrl = self.process_response(response, typing, first_synced);
            processed = processed + 1;
            proof {
                assert(state_after_responses(s0, processed as nat) == state_after_response(
                    state_after_responses(s0, (processed - 1) as nat),
                ));
                assert(queue_after_script(tbefore, cur_init, rbefore) == queue_after_script(
                    typing@,
                    false,
                    rbefore.skip(1),
                ));
            }
            if ctrl == LoopCtrl::Break {
                stopped = true;
                proof {
                    let q2 = if init0 {
                        q0
                    } else {
                        enqueue_all(q0, typing_of_rooms(rs0[0].rooms.join@))
                    };
                    assert(typing@ == q2);
                    assert(rs0.take(1).len() == 1);
                    assert(rs0.take(1)[0] == rs0[0]);
                    assert(rs0.take(1).skip(1) =~= Seq::<SyncResponse>::empty());
                    assert(queue_after_script(q2, false, Seq::<SyncResponse>::empty()) == q2);
                    assert(queue_after_script(q0, init0, rs0.take(1)) == queue_after_script(
                        q2,
                        false,
                        rs0.take(1).skip(1),
                    ));
                    assert(typing@ == queue_after_script(q0, init0, rs0.take(1)));
                }
            }
        }
        proof {
            if processed >= 1 {
                lemma_first_synced_monotonic(s0, processed as nat);
            }
            if stopped {
                assert(rs0.take(processed as int) == rs0.take(1));
            } else {
                assert(responses@.len() == 0);
                assert(rs0.take(processed as int) =~= rs0);
            }
        }
        processed
    }
}

} // verus!
