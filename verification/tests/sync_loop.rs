use effektio_sync::channels::{
    FirstSyncedReceiver, TypingNotification, TypingReceiver, TYPING_QUEUE_CAPACITY,
};
use effektio_sync::client::Client;
use effektio_sync::response::{
    DeviceLists, EphemeralEvent, JoinedRoomUpdate, RoomUpdates, SyncResponse, ToDeviceMessage,
};
use effektio_sync::state::ClientState;
use effektio_sync::sync::LoopCtrl;

fn notification(room: &str, user: &str) -> TypingNotification {
    TypingNotification { room_id: room.to_string(), user_ids: vec![user.to_string()] }
}

fn empty_response() -> SyncResponse {
    SyncResponse {
        device_lists: DeviceLists { changed: Vec::new(), left: Vec::new() },
        rooms: RoomUpdates { join: Vec::new() },
        to_device: Vec::new(),
    }
}

fn response_with_typing(room: &str, users: Vec<&str>) -> SyncResponse {
    let mut r = empty_response();
    r.rooms.join.push(JoinedRoomUpdate {
        room_id: room.to_string(),
        ephemeral: vec![EphemeralEvent::Typing {
            user_ids: users.into_iter().map(|u| u.to_string()).collect(),
        }],
    });
    r
}

#[test]
fn typing_queue_caps_at_ten_and_drops_eleventh() {
    let mut q = TypingReceiver::new();
    for i in 0..TYPING_QUEUE_CAPACITY {
        let delivered = q.push(notification("room", &format!("user-{}", i)));
        assert!(delivered);
    }
    assert_eq!(q.len(), TYPING_QUEUE_CAPACITY);
    let delivered = q.push(notification("room", "one-too-many"));
    assert!(!delivered);
    assert_eq!(q.len(), TYPING_QUEUE_CAPACITY);
}

#[test]
fn typing_queue_is_fifo() {
    let mut q = TypingReceiver::new();
    assert!(q.push(notification("room", "alice")));
    assert!(q.push(notification("room", "bob")));
    assert_eq!(q.recv().unwrap().user_ids, vec!["alice".to_string()]);
    assert_eq!(q.recv().unwrap().user_ids, vec!["bob".to_string()]);
    assert!(q.recv().is_none());
}

#[test]
fn first_synced_signal_keeps_latest_value() {
    let mut s = FirstSyncedReceiver::new();
    assert!(!s.current());
    s.publish(true);
    assert!(s.current());
    s.publish(true);
    assert!(s.current());
}

#[test]
fn receivers_are_handed_out_exactly_once() {
    let mut client = Client::new(ClientState::default());
    let mut sync_state = client.start_sync();
    assert!(sync_state.get_typing_notification_rx().is_some());
    assert!(sync_state.get_typing_notification_rx().is_none());
    assert!(sync_state.get_first_synced_rx().is_some());
    assert!(sync_state.get_first_synced_rx().is_none());
}

#[test]
fn client_state_defaults_to_all_clear() {
    let s = ClientState::default();
    assert!(!s.is_guest);
    assert!(!s.has_first_synced);
    assert!(!s.is_syncing);
    assert!(!s.should_stop_syncing);
}

#[test]
fn accessors_reflect_the_flags() {
    let client = Client::new(ClientState {
        is_guest: true,
        has_first_synced: false,
        is_syncing: false,
        should_stop_syncing: false,
    });
    assert!(client.is_guest());
    assert!(!client.has_first_synced());
    assert!(!client.is_syncing());
}

#[test]
fn controller_slots_are_created_at_most_once() {
    let mut client = Client::new(ClientState::default());
    assert!(client.session_verification_controller.is_none());
    assert_eq!(client.get_session_verification_controller().sync_batches.len(), 0);
    let mut sync_state = client.start_sync();
    let mut typing = sync_state.get_typing_notification_rx().unwrap();
    let mut first_synced = sync_state.get_first_synced_rx().unwrap();
    // Two responses leave a dispatch history in the stored controller ...
    client.process_response(empty_response(), &mut typing, &mut first_synced);
    client.process_response(empty_response(), &mut typing, &mut first_synced);
    // ... which a later get-or-create returns instead of a fresh value.
    assert_eq!(client.get_session_verification_controller().to_device_batches.len(), 2);
    assert_eq!(client.get_device_lists_controller().processed.len(), 0);
    client.process_response(empty_response(), &mut typing, &mut first_synced);
    assert_eq!(client.get_device_lists_controller().processed.len(), 1);
}

#[test]
fn initial_response_runs_device_lists_and_to_device_only() {
    let mut client = Client::new(ClientState::default());
    client.get_session_verification_controller();
    client.get_device_lists_controller();
    let mut sync_state = client.start_sync();
    let mut typing = sync_state.get_typing_notification_rx().unwrap();
    let mut first_synced = sync_state.get_first_synced_rx().unwrap();

    let mut response = response_with_typing("lobby", vec!["alice"]);
    response.to_device.push(ToDeviceMessage { content: "verify-me".to_string() });
    let ctrl = client.process_response(response, &mut typing, &mut first_synced);

    assert_eq!(ctrl, LoopCtrl::Continue);
    let svc = client.session_verification_controller.as_ref().unwrap();
    // Room data is suppressed on the initial catch-up response ...
    assert_eq!(svc.sync_batches.len(), 0);
    assert_eq!(typing.len(), 0);
    // ... but device-list and to-device dispatch are not.
    assert_eq!(svc.to_device_batches.len(), 1);
    assert_eq!(client.device_lists_controller.as_ref().unwrap().processed.len(), 1);
    assert!(client.has_first_synced());
    assert!(client.is_syncing());
    assert!(first_synced.current());
}

#[test]
fn two_scripted_responses_end_to_end() {
    let mut client = Client::new(ClientState::default());
    client.get_session_verification_controller();
    let mut sync_state = client.start_sync();
    let mut typing = sync_state.get_typing_notification_rx().unwrap();
    let mut first_synced = sync_state.get_first_synced_rx().unwrap();

    // First response: no typing, no to-device payload.
    let ctrl = client.process_response(empty_response(), &mut typing, &mut first_synced);
    assert_eq!(ctrl, LoopCtrl::Continue);
    assert!(client.has_first_synced());

    // Second response: one typing event and one to-device message.
    let mut response = response_with_typing("lobby", vec!["alice"]);
    response.to_device.push(ToDeviceMessage { content: "verify-me".to_string() });
    let ctrl = client.process_response(response, &mut typing, &mut first_synced);
    assert_eq!(ctrl, LoopCtrl::Continue);

    // Exactly one typing notification is observable.
    let n = typing.recv().unwrap();
    assert_eq!(n.room_id, "lobby");
    assert_eq!(n.user_ids, vec!["alice".to_string()]);
    assert!(typing.recv().is_none());

    // To-device dispatch ran on both responses: an empty batch, then one
    // carrying the message.
    let svc = client.session_verification_controller.as_ref().unwrap();
    assert_eq!(svc.to_device_batches.len(), 2);
    assert!(svc.to_device_batches[0].is_empty());
    assert_eq!(svc.to_device_batches[1].len(), 1);
    assert_eq!(svc.to_device_batches[1][0].content, "verify-me");
    // Room-membership dispatch ran only on the second response.
    assert_eq!(svc.sync_batches, vec![1]);
    assert!(first_synced.current());
}

#[test]
fn malformed_and_other_events_are_skipped() {
    let mut client = Client::new(ClientState::default());
    let mut sync_state = client.start_sync();
    let mut typing = sync_state.get_typing_notification_rx().unwrap();
    let mut first_synced = sync_state.get_first_synced_rx().unwrap();
    client.process_response(empty_response(), &mut typing, &mut first_synced);

    let mut response = empty_response();
    response.rooms.join.push(JoinedRoomUpdate {
        room_id: "lobby".to_string(),
        ephemeral: vec![
            EphemeralEvent::Malformed,
            EphemeralEvent::Typing { user_ids: vec!["bob".to_string()] },
            EphemeralEvent::Other,
        ],
    });
    client.process_response(response, &mut typing, &mut first_synced);
    assert_eq!(typing.len(), 1);
    assert_eq!(typing.recv().unwrap().user_ids, vec!["bob".to_string()]);
}

#[test]
fn eleventh_typing_notification_is_dropped_by_the_loop() {
    let mut client = Client::new(ClientState::default());
    let mut sync_state = client.start_sync();
    let mut typing = sync_state.get_typing_notification_rx().unwrap();
    let mut first_synced = sync_state.get_first_synced_rx().unwrap();
    client.process_response(empty_response(), &mut typing, &mut first_synced);

    let mut response = empty_response();
    let mut ephemeral = Vec::new();
    for i in 0..(TYPING_QUEUE_CAPACITY + 1) {
        ephemeral.push(EphemeralEvent::Typing { user_ids: vec![format!("user-{}", i)] });
    }
    response.rooms.join.push(JoinedRoomUpdate { room_id: "busy".to_string(), ephemeral });
    let ctrl = client.process_response(response, &mut typing, &mut first_synced);
    assert_eq!(ctrl, LoopCtrl::Continue);
    assert_eq!(typing.len(), TYPING_QUEUE_CAPACITY);
    assert_eq!(typing.recv().unwrap().user_ids, vec!["user-0".to_string()]);
}

#[test]
fn stop_request_breaks_after_the_response_in_flight() {
    let mut client = Client::new(ClientState::default());
    client.get_session_verification_controller();
    let mut sync_state = client.start_sync();
    let mut typing = sync_state.get_typing_notification_rx().unwrap();
    let mut first_synced = sync_state.get_first_synced_rx().unwrap();

    client.state.should_stop_syncing = true;
    let ctrl = client.process_response(empty_response(), &mut typing, &mut first_synced);
    assert_eq!(ctrl, LoopCtrl::Break);
    assert!(!client.is_syncing());
    // The loop broke before step 8, so no to-device batch was dispatched.
    let svc = client.session_verification_controller.as_ref().unwrap();
    assert_eq!(svc.to_device_batches.len(), 0);
    // Work from earlier steps of the same iteration still completed.
    assert!(client.has_first_synced());
    assert!(first_synced.current());
}

#[test]
fn stop_request_raised_mid_stream_breaks_at_the_next_response() {
    let mut client = Client::new(ClientState::default());
    let mut sync_state = client.start_sync();
    let mut typing = sync_state.get_typing_notification_rx().unwrap();
    let mut first_synced = sync_state.get_first_synced_rx().unwrap();

    let ctrl = client.process_response(empty_response(), &mut typing, &mut first_synced);
    assert_eq!(ctrl, LoopCtrl::Continue);
    assert!(client.is_syncing());

    client.state.should_stop_syncing = true;
    let ctrl = client.process_response(empty_response(), &mut typing, &mut first_synced);
    assert_eq!(ctrl, LoopCtrl::Break);
    assert!(!client.is_syncing());
    assert!(client.has_first_synced());
}

#[test]
fn scripted_run_stops_after_one_response_on_stop_request() {
    let mut client = Client::new(ClientState::default());
    let mut sync_state = client.start_sync();
    let mut typing = sync_state.get_typing_notification_rx().unwrap();
    let mut first_synced = sync_state.get_first_synced_rx().unwrap();

    client.state.should_stop_syncing = true;
    let script = vec![empty_response(), empty_response(), empty_response()];
    let processed = client.run_scripted_sync(script, &mut typing, &mut first_synced);
    assert_eq!(processed, 1);
    assert!(!client.is_syncing());
}

#[test]
fn scripted_run_processes_every_response_without_stop() {
    let mut client = Client::new(ClientState::default());
    let mut sync_state = client.start_sync();
    let mut typing = sync_state.get_typing_notification_rx().unwrap();
    let mut first_synced = sync_state.get_first_synced_rx().unwrap();

    let script = vec![empty_response(), empty_response(), empty_response()];
    let processed = client.run_scripted_sync(script, &mut typing, &mut first_synced);
    assert_eq!(processed, 3);
    assert!(client.is_syncing());
    assert!(client.has_first_synced());
    assert!(first_synced.current());
}

#[test]
fn scripted_run_collects_typing_after_the_initial_response() {
    let mut client = Client::new(ClientState::default());
    let mut sync_state = client.start_sync();
    let mut typing = sync_state.get_typing_notification_rx().unwrap();
    let mut first_synced = sync_state.get_first_synced_rx().unwrap();

    let script = vec![
        response_with_typing("early", vec!["ada"]),
        response_with_typing("lobby", vec!["bob"]),
        response_with_typing("lobby", vec!["eve"]),
    ];
    let processed = client.run_scripted_sync(script, &mut typing, &mut first_synced);
    assert_eq!(processed, 3);
    // The first response is the initial catch-up one: its typing event is
    // suppressed, the later two are delivered in order.
    assert_eq!(typing.len(), 2);
    assert_eq!(typing.recv().unwrap().user_ids, vec!["bob".to_string()]);
    assert_eq!(typing.recv().unwrap().user_ids, vec!["eve".to_string()]);
}

#[test]
fn absent_controllers_stay_absent() {
    let mut client = Client::new(ClientState::default());
    let mut sync_state = client.start_sync();
    let mut typing = sync_state.get_typing_notification_rx().unwrap();
    let mut first_synced = sync_state.get_first_synced_rx().unwrap();
    client.process_response(empty_response(), &mut typing, &mut first_synced);
    client.process_response(response_with_typing("lobby", vec!["alice"]), &mut typing, &mut first_synced);
    assert!(client.session_verification_controller.is_none());
    assert!(client.device_lists_controller.is_none());
    // Typing extraction does not depend on any controller being present.
    assert_eq!(typing.len(), 1);
}

#[test]
fn has_first_synced_never_reverts() {
    let mut client = Client::new(ClientState::default());
    let mut sync_state = client.start_sync();
    let mut typing = sync_state.get_typing_notification_rx().unwrap();
    let mut first_synced = sync_state.get_first_synced_rx().unwrap();

    assert!(!client.has_first_synced());
    for _ in 0..5 {
        client.process_response(empty_response(), &mut typing, &mut first_synced);
        assert!(client.has_first_synced());
    }
}
