use vstd::prelude::*;

use crate::channels::TypingNotification;

verus! {

/// The device-list delta of one sync response: which users' cryptographic
/// device lists changed, and which users left shared rooms, since the last
/// response.
#[derive(Debug)]
pub struct DeviceLists {
    pub changed: Vec<String>,
    pub left: Vec<String>,
}

/// One ephemeral event attached to a joined room, as the typing extractor
/// sees it after attempting deserialization.
#[derive(Debug)]
pub enum EphemeralEvent {
    /// A typing event carrying the ids of the users currently typing.
    Typing { user_ids: Vec<String> },
    /// A well-formed event of some other kind; not a typing notification.
    Other,
    /// An event whose deserialization failed; skipped on its own, without
    /// aborting the rest of the batch.
    Malformed,
}

/// The portion of one joined room's sync delta that the loop reads.
#[derive(Debug)]
pub struct JoinedRoomUpdate {
    pub room_id: String,
    pub ephemeral: Vec<EphemeralEvent>,
}

/// The room-membership part of one sync response.
#[derive(Debug)]
pub struct RoomUpdates {
    pub join: Vec<JoinedRoomUpdate>,
}

/// A message addressed to a specific device rather than a room, used for
/// out-of-band protocols such as session verification.
#[derive(Debug)]
pub struct ToDeviceMessage {
    pub content: String,
}

/// One response delivered by the external sync primitive.
#[derive(Debug)]
pub struct SyncResponse {
    pub device_lists: DeviceLists,
    pub rooms: RoomUpdates,
    pub to_device: Vec<ToDeviceMessage>,
}

/// The typing notifications carried by one room's ephemeral events: one
/// notification per typing event, in event order; other and malformed
/// events contribute nothing.
pub open spec fn typing_of_events(
    room_id: String,
    events: Seq<EphemeralEvent>,
) -> Seq<TypingNotification>
    decreases events.len(),
{
    if events.len() == 0 {
        Seq::<TypingNotification>::empty()
    } else {
        (match events[0] {
            EphemeralEvent::Typing { user_ids } => seq![
                TypingNotification { room_id, user_ids },
            ],
            _ => Seq::<TypingNotification>::empty(),
        }) + typing_of_events(room_id, events.skip(1))
    }
}

/// The typing notifications carried by a whole response, room by room in
/// delivery order.
pub open spec fn typing_of_rooms(rooms: Seq<JoinedRoomUpdate>) -> Seq<TypingNotification>
    decreases rooms.len(),
{
    if rooms.len() == 0 {
        Seq::<TypingNotification>::empty()
    } else {
        typing_of_events(rooms[0].room_id, rooms[0].ephemeral@) + typing_of_rooms(rooms.skip(1))
    }
}

} // verus!
