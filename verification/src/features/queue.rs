//! The announcement queues of the devices: what a device is told to do with
//! its announcements, the JSON payload of that instruction, and the
//! messages that creating, deleting or resyncing announcements pushes onto
//! the device queues.
use vstd::prelude::*;
use vstd::string::*;

use crate::features::announcement::device_queue_name;
use crate::text::{int_to_decimal, push_i64};

verus! {

/// What a device does with the announcements of an instruction.
#[derive(Debug, Clone, Copy, PartialEq, Eq, Structural)]
pub enum AnnouncementSyncAction {
    Create,
    Delete,
    Resync,
}

impl AnnouncementSyncAction {
    /// The action as the payload names it.
    pub open spec fn text(self) -> Seq<char> {
        match self {
            AnnouncementSyncAction::Create => "create"@,
            AnnouncementSyncAction::Delete => "delete"@,
            AnnouncementSyncAction::Resync => "resync"@,
        }
    }

    /// The action as the payload names it.
    pub fn as_str(self) -> (r: &'static str)
        ensures
            r@ == self.text(),
    {
        match self {
            AnnouncementSyncAction::Create => "create",
            AnnouncementSyncAction::Delete => "delete",
            AnnouncementSyncAction::Resync => "resync",
        }
    }
}

/// Failure to queue an instruction.
#[derive(Debug)]
pub enum AnnouncementQueueError {
    PayloadSerializationError(String),
    InternalServerError,
}

impl AnnouncementQueueError {
    /// The message of the error.
    pub open spec fn message(&self) -> Seq<char> {
        match self {
            AnnouncementQueueError::PayloadSerializationError(m) => m@,
            AnnouncementQueueError::InternalServerError => "Internal Server Error"@,
        }
    }

    /// The message of the error.
    pub fn to_string(&self) -> (r: String)
        ensures
            r@ == self.message(),
    {
        match self {
            AnnouncementQueueError::PayloadSerializationError(m) => m.clone(),
            AnnouncementQueueError::InternalServerError => String::from_str("Internal Server Error"),
        }
    }
}

/// An instruction to a device: an action and its data (one announcement id,
/// or the ids of a resync).
#[derive(Debug)]
pub struct DeviceSynchronizationParams<T> {
    pub action: AnnouncementSyncAction,
    pub data: T,
}

/// Ids as a JSON array body: decimal ids separated by commas.
pub open spec fn ids_body(ids: Seq<i32>) -> Seq<char>
    decreases ids.len(),
{
    if ids.len() == 0 {
        Seq::empty()
    } else if ids.len() == 1 {
        int_to_decimal(ids[0] as int)
    } else {
        ids_body(ids.drop_last()) + ","@ + int_to_decimal(ids.last() as int)
    }
}

/// The JSON of an instruction with the JSON of its data:
/// `{"action":"<action>","data":<data>}`.
pub open spec fn sync_json(action: AnnouncementSyncAction, data: Seq<char>) -> Seq<char> {
    "{\"action\":\""@ + action.text() + "\",\"data\":"@ + data + "}"@
}

fn open_payload(action: AnnouncementSyncAction) -> (r: String)
    ensures
        r@ == "{\"action\":\""@ + action.text() + "\",\"data\":"@,
{
    let mut s = String::from_str("{\"action\":\"");
    s.append(action.as_str());
    s.append("\",\"data\":");
    s
}

/// The payload of an instruction about one announcement.
pub fn single_payload(params: &DeviceSynchronizationParams<i32>) -> (r: String)
    ensures
        r@ == sync_json(params.action, int_to_decimal(params.data as int)),
{
    let mut s = open_payload(params.action);
    push_i64(&mut s, params.data as i64);
    s.append("}");
    s
}

/// The payload of an instruction about several announcements.
pub fn list_payload(params: &DeviceSynchronizationParams<Vec<i32>>) -> (r: String)
    ensures
        r@ == sync_json(params.action, "["@ + ids_body(params.data@) + "]"@),
{
    let mut s = open_payload(params.action);
    let ghost head = s@;
    s.append("[");
    let ids = &params.data;
    let n = ids.len();
    let mut i: usize = 0;
    while i < n
        invariant
            n == ids@.len(),
            i <= n,
            s@ == head + "["@ + ids_body(ids@.take(i as int)),
        decreases n - i,
    {
        proof {
            assert(ids@.take(i + 1).drop_last() =~= ids@.take(i as int));
            assert(ids@.take(i + 1).last() == ids@[i as int]);
        }
        if i > 0 {
            s.append(",");
        }
        push_i64(&mut s, ids[i] as i64);
        proof {
            if i == 0 {
                assert(ids@.take(1) =~= seq![ids@[0]]);
            }
        }
        i = i + 1;
    }
    proof {
        assert(ids@.take(n as int) =~= ids@);
    }
    s.append("]");
    s.append("}");
    s
}

/// The fields of a queued message: the payload under the name `data`.
pub fn payload_fields(payload: &String) -> (r: Vec<(String, String)>)
    ensures
        r.deep_view() == seq![("data"@, payload@)],
{
    let mut v: Vec<(String, String)> = Vec::new();
    v.push((String::from_str("data"), payload.clone()));
    proof {
        assert(v.deep_view() =~= seq![("data"@, payload@)]);
    }
    v
}

/// A message to push: the queue it goes to and its payload.
#[derive(Debug)]
pub struct QueueMessage {
    pub queue: String,
    pub payload: String,
}

/// The messages that creating or deleting an announcement pushes: one per
/// device, in order, each to that device's queue with the same payload.
pub fn announcement_messages(action: AnnouncementSyncAction, device_ids: &Vec<i32>, announcement_id: i32) -> (r: Vec<QueueMessage>)
    ensures
        r@.len() == device_ids@.len(),
        forall|i: int| 0 <= i < device_ids@.len() ==> {
            let m = #[trigger] r@[i];
            &&& m.queue@ == "device-queue-"@ + int_to_decimal(device_ids@[i] as int)
            &&& m.payload@ == sync_json(action, int_to_decimal(announcement_id as int))
        },
{
    let params = DeviceSynchronizationParams { action, data: announcement_id };
    let payload = single_payload(&params);
    let mut out: Vec<QueueMessage> = Vec::new();
    let n = device_ids.len();
    let mut i: usize = 0;
    while i < n
        invariant
            n == device_ids@.len(),
            i <= n,
            out@.len() == i,
            payload@ == sync_json(action, int_to_decimal(announcement_id as int)),
            forall|k: int| 0 <= k < i ==> {
                let m = #[trigger] out@[k];
                &&& m.queue@ == "device-queue-"@ + int_to_decimal(device_ids@[k] as int)
                &&& m.payload@ == sync_json(action, int_to_decimal(announcement_id as int))
            },
        decreases n - i,
    {
        out.push(QueueMessage { queue: device_queue_name(device_ids[i]), payload: payload.clone() });
        i = i + 1;
    }
    out
}

/// The message that resyncing a device pushes: to its queue, naming every
/// announcement it should show.
pub fn resync_message(device_id: i32, announcement_ids: Vec<i32>) -> (r: QueueMessage)
    ensures
        r.queue@ == "device-queue-"@ + int_to_decimal(device_id as int),
        r.payload@ == sync_json(AnnouncementSyncAction::Resync, "["@ + ids_body(announcement_ids@) + "]"@),
{
    let params = DeviceSynchronizationParams { action: AnnouncementSyncAction::Resync, data: announcement_ids };
    QueueMessage { queue: device_queue_name(device_id), payload: list_payload(&params) }
}

} // verus!
