use vstd::prelude::*;

use crate::response::{DeviceLists, RoomUpdates, ToDeviceMessage};

verus! {

/// The device-list tracking controller. It is dispatched the device-list
/// delta of every response, including the initial catch-up response, so that
/// device-list state is current before any encryption-dependent operation;
/// it records each delta in dispatch order.
#[derive(Debug)]
pub struct DeviceListsController {
    pub processed: Vec<DeviceLists>,
}

impl DeviceListsController {
    pub fn new() -> (r: Self)
        ensures
            r.processed@ == Seq::<DeviceLists>::empty(),
    {
        DeviceListsController { processed: Vec::new() }
    }

    /// Dispatch one response's device-list delta to the controller.
    pub fn process_events(&mut self, device_lists: DeviceLists)
        ensures
            final(self).processed@ == old(self).processed@.push(device_lists),
    {
        self.processed.push(device_lists);
    }
}

/// The session-verification controller. It is dispatched the
/// room-membership data of every response after the initial one, and the
/// to-device messages of every response the loop continues past; it records
/// both streams in dispatch order.
#[derive(Debug)]
pub struct SessionVerificationController {
    /// For each room-membership batch dispatched, the number of joined rooms
    /// it carried.
    pub sync_batches: Vec<usize>,
    /// Each batch of to-device messages dispatched, in order.
    pub to_device_batches: Vec<Vec<ToDeviceMessage>>,
}

impl SessionVerificationController {
    pub fn new() -> (r: Self)
        ensures
            r.sync_batches@ == Seq::<usize>::empty(),
            r.to_device_batches@ == Seq::<Vec<ToDeviceMessage>>::empty(),
    {
        SessionVerificationController { sync_batches: Vec::new(), to_device_batches: Vec::new() }
    }

    /// Dispatch one response's room-membership data to the controller.
    pub fn process_sync_messages(&mut self, rooms: &RoomUpdates)
        ensures
            final(self).sync_batches@ == old(self).sync_batches@.push(rooms.join.len() as usize),
            final(self).to_device_batches@ == old(self).to_device_batches@,
    {
        let count = rooms.join.len();
        self.sync_batches.push(count);
    }

    /// Dispatch one response's to-device messages to the controller.
    pub fn process_to_device_messages(&mut self, to_device: Vec<ToDeviceMessage>)
        ensures
            final(self).to_device_batches@ == old(self).to_device_batches@.push(to_device),
            final(self).sync_batches@ == old(self).sync_batches@,
    {
        self.to_device_batches.push(to_device);
    }
}

} // verus!
