//! Announcements: their life-cycle statuses, the errors of the announcement
//! API, where the device queues live, and the jobs that the scheduler hands
//! to the device queues.
use vstd::prelude::*;
use vstd::string::*;

use crate::database::{StoreError, StoreErrorKind};
use crate::features::request::{CreateRequestParams, RequestActionType};
use crate::cloud_storage::TmpFile;
use crate::text::{
    i32_list_outcome, int_error_message, int_to_decimal, parse_i32_list, push_i64, split_char,
    split_spec, str_eq,
};
use crate::time::{calendar_date, calendar_date_start, parse_calendar_date, Timestamp};

verus! {

/// Where an announcement stands in its life-cycle.
#[derive(Debug, Clone, Copy, PartialEq, Eq, Structural)]
pub enum AnnouncementStatus {
    WaitingForApproval,
    WaitingForSync,
    Active,
    Done,
    Canceled,
    Rejected,
}

/// A status as the API shows it: its stored value and its label.
#[derive(Debug)]
pub struct AnnouncementStatusObject {
    pub value: String,
    pub label: String,
}

impl AnnouncementStatus {
    /// The label shown to users.
    pub open spec fn label_text(self) -> Seq<char> {
        match self {
            AnnouncementStatus::WaitingForApproval => "Waiting For Approval"@,
            AnnouncementStatus::WaitingForSync => "Waiting For Sync"@,
            AnnouncementStatus::Active => "Active"@,
            AnnouncementStatus::Done => "Done"@,
            AnnouncementStatus::Canceled => "Canceled"@,
            AnnouncementStatus::Rejected => "Rejected"@,
        }
    }

    /// The value stored in the database and used in queries.
    pub open spec fn value_text(self) -> Seq<char> {
        match self {
            AnnouncementStatus::WaitingForApproval => "waiting_for_approval"@,
            AnnouncementStatus::WaitingForSync => "waiting_for_sync"@,
            AnnouncementStatus::Active => "active"@,
            AnnouncementStatus::Done => "done"@,
            AnnouncementStatus::Canceled => "canceled"@,
            AnnouncementStatus::Rejected => "rejected"@,
        }
    }

    /// The label shown to users.
    pub fn label(self) -> (r: &'static str)
        ensures
            r@ == self.label_text(),
    {
        match self {
            AnnouncementStatus::WaitingForApproval => "Waiting For Approval",
            AnnouncementStatus::WaitingForSync => "Waiting For Sync",
            AnnouncementStatus::Active => "Active",
            AnnouncementStatus::Done => "Done",
            AnnouncementStatus::Canceled => "Canceled",
            AnnouncementStatus::Rejected => "Rejected",
        }
    }

    /// The value stored in the database and used in queries.
    pub fn value(self) -> (r: &'static str)
        ensures
            r@ == self.value_text(),
    {
        match self {
            AnnouncementStatus::WaitingForApproval => "waiting_for_approval",
            AnnouncementStatus::WaitingForSync => "waiting_for_sync",
            AnnouncementStatus::Active => "active",
            AnnouncementStatus::Done => "done",
            AnnouncementStatus::Canceled => "canceled",
            AnnouncementStatus::Rejected => "rejected",
        }
    }

    /// The status as the API shows it.
    pub fn object(self) -> (r: AnnouncementStatusObject)
        ensures
            r.value@ == self.value_text(),
            r.label@ == self.label_text(),
    {
        AnnouncementStatusObject {
            value: String::from_str(self.value()),
            label: String::from_str(self.label()),
        }
    }
}

/// A device that shows an announcement.
#[derive(Debug)]
pub struct AnnouncementDetailDevices {
    pub id: i32,
    pub name: String,
    pub description: String,
    pub floor_id: i32,
}

/// Error codes of the announcement API.
#[derive(Debug, Clone, Copy, PartialEq, Eq, Structural)]
pub enum AnnouncementErrorCode {
    AnnouncementNotFound,
    UserNotFound,
    InternalServerError,
}

impl AnnouncementErrorCode {
    /// The code as the API writes it.
    pub open spec fn text(self) -> Seq<char> {
        match self {
            AnnouncementErrorCode::AnnouncementNotFound => "ANNOUNCEMENT_NOT_FOUND"@,
            AnnouncementErrorCode::UserNotFound => "USER_NOT_FOUND"@,
            AnnouncementErrorCode::InternalServerError => "INTERNAL_SERVER_ERROR"@,
        }
    }

    /// The code as the API writes it.
    pub fn to_string(&self) -> (r: String)
        ensures
            r@ == self.text(),
    {
        match self {
            AnnouncementErrorCode::AnnouncementNotFound => String::from_str("ANNOUNCEMENT_NOT_FOUND"),
            AnnouncementErrorCode::UserNotFound => String::from_str("USER_NOT_FOUND"),
            AnnouncementErrorCode::InternalServerError => String::from_str("INTERNAL_SERVER_ERROR"),
        }
    }
}

/// Failure to create an announcement.
#[derive(Debug)]
pub enum CreateAnnouncementError {
    UserNotFound(String),
    InternalServerError,
}

/// Failure to list announcements.
#[derive(Debug)]
pub enum ListAnnouncementError {
    InternalServerError,
}

/// Failure to read one announcement.
#[derive(Debug)]
pub enum GetAnnouncementDetailError {
    AnnouncementNotFound(String),
    InternalServerError,
}

/// Failure to sign the media address of an announcement.
#[derive(Debug)]
pub enum GetAnnouncementMediaPresignedURLError {
    AnnouncementNotFound(String),
    InternalServerError,
}

/// Failure of a scheduled pass over the announcements.
#[derive(Debug)]
pub enum HandleScheduledAnnouncementsError {
    InternalServerError,
}

impl CreateAnnouncementError {
    /// The message of the error, as the API writes it.
    pub fn to_string(&self) -> (r: String)
        ensures
            match self {
                CreateAnnouncementError::UserNotFound(m) => r@ == m@,
                CreateAnnouncementError::InternalServerError => r@ == "Internal Server Error"@,
            },
    {
        match self {
            CreateAnnouncementError::UserNotFound(m) => m.clone(),
            CreateAnnouncementError::InternalServerError => String::from_str("Internal Server Error"),
        }
    }
}

impl ListAnnouncementError {
    /// The message of the error, as the API writes it.
    pub fn to_string(&self) -> (r: String)
        ensures
            r@ == "Internal Server Error"@,
    {
        String::from_str("Internal Server Error")
    }
}

impl GetAnnouncementDetailError {
    /// The message of the error, as the API writes it.
    pub fn to_string(&self) -> (r: String)
        ensures
            match self {
                GetAnnouncementDetailError::AnnouncementNotFound(m) => r@ == m@,
                GetAnnouncementDetailError::InternalServerError => r@ == "Internal Server Error"@,
            },
    {
        match self {
            GetAnnouncementDetailError::AnnouncementNotFound(m) => m.clone(),
            GetAnnouncementDetailError::InternalServerError => String::from_str("Internal Server Error"),
        }
    }
}

impl GetAnnouncementMediaPresignedURLError {
    /// The message of the error, as the API writes it.
    pub fn to_string(&self) -> (r: String)
        ensures
            match self {
                GetAnnouncementMediaPresignedURLError::AnnouncementNotFound(m) => r@ == m@,
                GetAnnouncementMediaPresignedURLError::InternalServerError => r@
                    == "Internal Server Error"@,
            },
    {
        match self {
            GetAnnouncementMediaPresignedURLError::AnnouncementNotFound(m) => m.clone(),
            GetAnnouncementMediaPresignedURLError::InternalServerError => String::from_str(
                "Internal Server Error",
            ),
        }
    }
}

/// The error of a failed announcement insert: a foreign key violation means
/// the author does not exist; anything else is internal.
pub fn create_announcement_error(e: &StoreError) -> (r: CreateAnnouncementError)
    ensures
        e.kind() == StoreErrorKind::ForeignKey ==> (r matches CreateAnnouncementError::UserNotFound(
            m,
        ) && m@ == "User not found"@),
        e.kind() != StoreErrorKind::ForeignKey ==> r is InternalServerError,
{
    if e.classify() == StoreErrorKind::ForeignKey {
        CreateAnnouncementError::UserNotFound(String::from_str("User not found"))
    } else {
        CreateAnnouncementError::InternalServerError
    }
}

/// The error of a failed announcement lookup: a missing row is reported as
/// such; anything else is internal.
pub fn announcement_detail_error(e: &StoreError) -> (r: GetAnnouncementDetailError)
    ensures
        e is RowNotFound ==> (r matches GetAnnouncementDetailError::AnnouncementNotFound(m) && m@
            == "Announcement not found"@),
        !(e is RowNotFound) ==> r is InternalServerError,
{
    match e {
        StoreError::RowNotFound => GetAnnouncementDetailError::AnnouncementNotFound(
            String::from_str("Announcement not found"),
        ),
        _ => GetAnnouncementDetailError::InternalServerError,
    }
}

/// The error of a failed lookup while signing a media address.
pub fn media_presigned_url_error(e: &StoreError) -> (r: GetAnnouncementMediaPresignedURLError)
    ensures
        e is RowNotFound ==> (r matches GetAnnouncementMediaPresignedURLError::AnnouncementNotFound(
            m,
        ) && m@ == "Announcement not found"@),
        !(e is RowNotFound) ==> r is InternalServerError,
{
    match e {
        StoreError::RowNotFound => GetAnnouncementMediaPresignedURLError::AnnouncementNotFound(
            String::from_str("Announcement not found"),
        ),
        _ => GetAnnouncementMediaPresignedURLError::InternalServerError,
    }
}

/// The file name of an announcement's media: the part of its storage key
/// after the first `/` and before the next one.
pub fn media_filename(media: &str) -> (r: String)
    requires
        split_spec(media@, '/').len() >= 2,
    ensures
        r@ == split_spec(media@, '/')[1],
{
    let parts = split_char(media, '/');
    proof {
        assert(parts.deep_view()[1] == parts@[1]@);
    }
    parts[1].clone()
}

/// The device ids that the rows `(announcement_id, device_id)` attach to
/// one announcement, in row order.
pub open spec fn devices_of(rows: Seq<(i32, i32)>, announcement_id: i32) -> Seq<i32> {
    rows.filter_map(|r: (i32, i32)| if r.0 == announcement_id { Some(r.1) } else { None })
}

/// The device ids attached to an announcement, or `None` when no row names
/// it (a lookup in the map built from the rows, keyed by announcement).
pub fn device_ids_of(rows: &Vec<(i32, i32)>, announcement_id: i32) -> (r: Option<Vec<i32>>)
    ensures
        match r {
            Some(ids) => ids@ == devices_of(rows@, announcement_id) && ids@.len() > 0,
            None => devices_of(rows@, announcement_id).len() == 0,
        },
{
    let mut ids: Vec<i32> = Vec::new();
    let n = rows.len();
    let mut i: usize = 0;
    while i < n
        invariant
            n == rows@.len(),
            i <= n,
            ids@ == devices_of(rows@.take(i as int), announcement_id),
        decreases n - i,
    {
        let (a, d) = rows[i];
        proof {
            assert(rows@.take(i + 1).drop_last() =~= rows@.take(i as int));
            assert(rows@.take(i + 1).last() == rows@[i as int]);
        }
        if a == announcement_id {
            ids.push(d);
        }
        i = i + 1;
    }
    proof {
        assert(rows@.take(n as int) =~= rows@);
    }
    if ids.len() == 0 {
        None
    } else {
        Some(ids)
    }
}

/// Queue jobs for a scheduled pass: one per announcement, with the devices
/// to notify, in the order of the announcements, stopping at the first
/// announcement that has no devices (`complete` is then false and the pass
/// fails after running the jobs before it).
#[derive(Debug)]
pub struct DeviceJobPlan {
    pub jobs: Vec<(i32, Vec<i32>)>,
    pub complete: bool,
}

/// Plans the queue jobs of a scheduled pass.
pub fn plan_device_jobs(announcement_ids: &Vec<i32>, rows: &Vec<(i32, i32)>) -> (r: DeviceJobPlan)
    ensures
        r.jobs@.len() <= announcement_ids@.len(),
        forall|k: int|
            0 <= k < r.jobs@.len() ==> (#[trigger] r.jobs@[k]).0 == announcement_ids@[k]
                && r.jobs@[k].1@ == devices_of(rows@, announcement_ids@[k])
                && r.jobs@[k].1@.len() > 0,
        r.complete <==> r.jobs@.len() == announcement_ids@.len(),
        !r.complete ==> devices_of(rows@, announcement_ids@[r.jobs@.len() as int]).len() == 0,
{
    let mut jobs: Vec<(i32, Vec<i32>)> = Vec::new();
    let n = announcement_ids.len();
    let mut i: usize = 0;
    while i < n
        invariant
            n == announcement_ids@.len(),
            i <= n,
            jobs@.len() == i,
            forall|k: int|
                0 <= k < i ==> (#[trigger] jobs@[k]).0 == announcement_ids@[k] && jobs@[k].1@
                    == devices_of(rows@, announcement_ids@[k]) && jobs@[k].1@.len() > 0,
        decreases n - i,
    {
        let id = announcement_ids[i];
        match device_ids_of(rows, id) {
            Some(ids) => {
                jobs.push((id, ids));
            },
            None => {
                return DeviceJobPlan { jobs, complete: false };
            },
        }
        i = i + 1;
    }
    DeviceJobPlan { jobs, complete: true }
}

/// The two scheduled passes that talk to the device queues: `Start` takes
/// the announcements waiting for sync whose start date is at or after the
/// pass's instant, queues them on their devices and makes them active;
/// `Finish` takes the active ones whose end date is at or before it, removes
/// them from their devices' queues, marks them done and rejects their
/// pending requests.
#[derive(Debug, Clone, Copy, PartialEq, Eq, Structural)]
pub enum DevicePass {
    Start,
    Finish,
}

/// The status a pass looks for.
pub open spec fn pass_source(pass: DevicePass) -> AnnouncementStatus {
    match pass {
        DevicePass::Start => AnnouncementStatus::WaitingForSync,
        DevicePass::Finish => AnnouncementStatus::Active,
    }
}

/// The status a pass leaves its announcements in.
pub open spec fn pass_target(pass: DevicePass) -> AnnouncementStatus {
    match pass {
        DevicePass::Start => AnnouncementStatus::Active,
        DevicePass::Finish => AnnouncementStatus::Done,
    }
}

/// The lower bound on the start date a pass at `now` selects by.
pub open spec fn pass_start_bound(pass: DevicePass, now: Timestamp) -> Option<Timestamp> {
    match pass {
        DevicePass::Start => Some(now),
        DevicePass::Finish => None,
    }
}

/// The upper bound on the end date a pass at `now` selects by.
pub open spec fn pass_end_bound(pass: DevicePass, now: Timestamp) -> Option<Timestamp> {
    match pass {
        DevicePass::Start => None,
        DevicePass::Finish => Some(now),
    }
}

/// Where a pass stands: counting its announcements, listing them, reading
/// their devices, handing the queue jobs out one by one (`next` is the job
/// to hand out after the one under way), updating their status, rejecting
/// their pending requests, or over. The announcements are kept with their
/// media types, in the order they were listed.
#[derive(Debug)]
pub enum PassStage {
    Counting,
    Listing,
    Mapping { ids: Vec<i32>, media_types: Vec<String> },
    Queueing {
        ids: Vec<i32>,
        media_types: Vec<String>,
        jobs: Vec<(i32, Vec<i32>)>,
        complete: bool,
        next: usize,
    },
    Updating { ids: Vec<i32> },
    Rejecting,
    Finished,
}

/// What the store, the queue or the request service answered to the last
/// action (`None` or `false` for a failure). A listing gives each
/// announcement's id and media type.
#[derive(Debug)]
pub enum PassEvent {
    Counted(Option<i32>),
    Listed(Option<Vec<(i32, String)>>),
    Mapped(Option<Vec<(i32, i32)>>),
    Queued(bool),
    Updated(bool),
    Rejected(bool),
}

/// What the pass asks for next: a count, or a page of the list, of the
/// announcements in a status within the date bounds; the device rows of some
/// announcements; a queue job for one announcement (created with its media
/// type for `Start`, deleted for `Finish`); a status update; the rejection
/// of the pending requests of some announcements; or the end of the pass
/// with its outcome.
#[derive(Debug)]
pub enum PassAction {
    Count { status: AnnouncementStatus, start_date_gte: Option<Timestamp>, end_date_lte: Option<Timestamp> },
    List {
        status: AnnouncementStatus,
        start_date_gte: Option<Timestamp>,
        end_date_lte: Option<Timestamp>,
        page: i32,
        limit: i32,
    },
    FetchDevices { ids: Vec<i32> },
    Enqueue { announcement_id: i32, device_ids: Vec<i32>, media_type: String },
    UpdateStatus { ids: Vec<i32>, status: AnnouncementStatus },
    RejectRequests { ids: Vec<i32> },
    Done { ok: bool },
}

/// The stages a pass can be in: the media types go with the ids one for
/// one, and a queueing stage has handed out at least one of its planned jobs
/// and at most all of them.
pub open spec fn pass_stage_ok(stage: PassStage) -> bool {
    &&& stage matches PassStage::Mapping { ids, media_types } ==> ids@.len() == media_types@.len()
    &&& stage matches PassStage::Queueing { ids, media_types, jobs, next, .. } ==> ids@.len() == media_types@.len()
        && 1 <= next <= jobs@.len() && jobs@.len() <= ids@.len()
}

/// Whether the pass is over with this outcome.
pub open spec fn pass_over(r: (PassStage, PassAction), ok: bool) -> bool {
    r.0 is Finished && (r.1 matches PassAction::Done { ok: o } && o == ok)
}

/// Whether the pass goes on to update `ids` to the pass's target status.
pub open spec fn pass_updates(r: (PassStage, PassAction), pass: DevicePass, ids: Seq<i32>) -> bool {
    (r.0 matches PassStage::Updating { ids: kept } && kept@ == ids) && (r.1 matches PassAction::UpdateStatus {
        ids: u,
        status,
    } && u@ == ids && status == pass_target(pass))
}

/// Whether the pass hands out the job `jobs[next - 1]`, with the media type
/// of that announcement, and then waits in a queueing stage over the same
/// announcements and jobs, with `next` to hand out after.
pub open spec fn pass_enqueues(
    r: (PassStage, PassAction),
    ids: Seq<i32>,
    media_types: Seq<String>,
    jobs: Seq<(i32, Vec<i32>)>,
    complete: bool,
    next: int,
) -> bool {
    &&& r.0 matches PassStage::Queueing { ids: q, media_types: m, jobs: j, complete: c, next: n } && q@ == ids
        && m@ == media_types && j@ == jobs && c == complete && n == next
    &&& r.1 matches PassAction::Enqueue { announcement_id, device_ids, media_type } && announcement_id
        == jobs[next - 1].0 && device_ids@ == jobs[next - 1].1@ && media_type@ == media_types[next - 1]@
}

/// The first step of a pass at the instant `now`: count the announcements
/// it looks for.
pub fn pass_begin(pass: DevicePass, now: Timestamp) -> (r: (PassStage, PassAction))
    ensures
        r.0 is Counting,
        r.1 matches PassAction::Count { status, start_date_gte, end_date_lte } && status == pass_source(pass)
            && start_date_gte == pass_start_bound(pass, now) && end_date_lte == pass_end_bound(pass, now),
{
    match pass {
        DevicePass::Start => (
            PassStage::Counting,
            PassAction::Count { status: AnnouncementStatus::WaitingForSync, start_date_gte: Some(now), end_date_lte: None },
        ),
        DevicePass::Finish => (
            PassStage::Counting,
            PassAction::Count { status: AnnouncementStatus::Active, start_date_gte: None, end_date_lte: Some(now) },
        ),
    }
}

fn target_of(pass: DevicePass) -> (r: AnnouncementStatus)
    ensures
        r == pass_target(pass),
{
    match pass {
        DevicePass::Start => AnnouncementStatus::Active,
        DevicePass::Finish => AnnouncementStatus::Done,
    }
}

fn copy_ids(ids: &Vec<i32>) -> (r: Vec<i32>)
    ensures
        r@ == ids@,
{
    let r = ids.clone();
    assert(r@ =~= ids@);
    r
}

/// The ids and the media types of listed announcements, one for one.
fn split_found(found: &Vec<(i32, String)>) -> (r: (Vec<i32>, Vec<String>))
    ensures
        r.0@.len() == found@.len(),
        r.1@.len() == found@.len(),
        forall|k: int| 0 <= k < found@.len() ==> r.0@[k] == (#[trigger] found@[k]).0 && r.1@[k]@ == found@[k].1@,
{
    let mut ids: Vec<i32> = Vec::new();
    let mut types: Vec<String> = Vec::new();
    let n = found.len();
    let mut i: usize = 0;
    while i < n
        invariant
            n == found@.len(),
            i <= n,
            ids@.len() == i,
            types@.len() == i,
            forall|k: int| 0 <= k < i ==> ids@[k] == (#[trigger] found@[k]).0 && types@[k]@ == found@[k].1@,
        decreases n - i,
    {
        ids.push(found[i].0);
        types.push(found[i].1.clone());
        i = i + 1;
    }
    (ids, types)
}

/// One step of a scheduled pass at the instant `now`: from where it stands
/// and what the last action gave, where it goes and what it asks for next.
/// The list asked for is the first page, as long as the count, under the
/// same status and date bounds as the count. A failure at any point ends the
/// pass as failed; no announcement ends it at once as done; the jobs are
/// handed out in the order of the announcements, the status is updated only
/// once every announcement has had its job, and a finishing pass then
/// rejects the announcements' pending requests. An answer that does not fit
/// the stage ends the pass as failed.
pub fn pass_step(pass: DevicePass, now: Timestamp, stage: PassStage, event: PassEvent) -> (r: (PassStage, PassAction))
    requires
        pass_stage_ok(stage),
    ensures
        pass_stage_ok(r.0),
        match (stage, event) {
            (PassStage::Counting, PassEvent::Counted(None)) => pass_over(r, false),
            (PassStage::Counting, PassEvent::Counted(Some(c))) => if c == 0 {
                pass_over(r, true)
            } else {
                r.0 is Listing && (r.1 matches PassAction::List { status, start_date_gte, end_date_lte, page, limit }
                    && status == pass_source(pass) && start_date_gte == pass_start_bound(pass, now) && end_date_lte
                    == pass_end_bound(pass, now) && page == 1 && limit == c)
            },
            (PassStage::Listing, PassEvent::Listed(None)) => pass_over(r, false),
            (PassStage::Listing, PassEvent::Listed(Some(found))) => (r.0 matches PassStage::Mapping { ids, media_types }
                && ids@.len() == found@.len() && media_types@.len() == found@.len() && (forall|k: int|
                0 <= k < found@.len() ==> ids@[k] == (#[trigger] found@[k]).0 && media_types@[k]@ == found@[k].1@))
                && (r.1 matches PassAction::FetchDevices { ids: asked } && asked@.len() == found@.len() && (forall|k: int|
                0 <= k < found@.len() ==> asked@[k] == (#[trigger] found@[k]).0)),
            (PassStage::Mapping { .. }, PassEvent::Mapped(None)) => pass_over(r, false),
            (PassStage::Mapping { ids, media_types }, PassEvent::Mapped(Some(rows))) => if ids@.len() == 0 {
                pass_updates(r, pass, ids@)
            } else if devices_of(rows@, ids@[0]).len() == 0 {
                pass_over(r, false)
            } else {
                exists|jobs: Seq<(i32, Vec<i32>)>, complete: bool|
                    #[trigger] pass_enqueues(r, ids@, media_types@, jobs, complete, 1) && jobs.len() <= ids@.len()
                        && (forall|k: int| 0 <= k < jobs.len() ==> (#[trigger] jobs[k]).0 == ids@[k]
                        && jobs[k].1@ == devices_of(rows@, ids@[k]) && jobs[k].1@.len() > 0) && (complete
                        <==> jobs.len() == ids@.len()) && (!complete ==> devices_of(rows@, ids@[jobs.len() as int]).len()
                        == 0)
            },
            (PassStage::Queueing { .. }, PassEvent::Queued(false)) => pass_over(r, false),
            (PassStage::Queueing { ids, media_types, jobs, complete, next }, PassEvent::Queued(true)) => if next
                < jobs@.len() {
                pass_enqueues(r, ids@, media_types@, jobs@, complete, next + 1)
            } else if complete {
                pass_updates(r, pass, ids@)
            } else {
                pass_over(r, false)
            },
            (PassStage::Updating { .. }, PassEvent::Updated(false)) => pass_over(r, false),
            (PassStage::Updating { ids }, PassEvent::Updated(true)) => match pass {
                DevicePass::Start => pass_over(r, true),
                DevicePass::Finish => r.0 is Rejecting && (r.1 matches PassAction::RejectRequests { ids: i } && i@
                    == ids@),
            },
            (PassStage::Rejecting, PassEvent::Rejected(ok)) => pass_over(r, ok),
            _ => pass_over(r, false),
        },
{
    match (stage, event) {
        (PassStage::Counting, PassEvent::Counted(None)) => (PassStage::Finished, PassAction::Done { ok: false }),
        (PassStage::Counting, PassEvent::Counted(Some(c))) => {
            if c == 0 {
                (PassStage::Finished, PassAction::Done { ok: true })
            } else {
                match pass {
                    DevicePass::Start => (
                        PassStage::Listing,
                        PassAction::List {
                            status: AnnouncementStatus::WaitingForSync,
                            start_date_gte: Some(now),
                            end_date_lte: None,
                            page: 1,
                            limit: c,
                        },
                    ),
                    DevicePass::Finish => (
                        PassStage::Listing,
                        PassAction::List {
                            status: AnnouncementStatus::Active,
                            start_date_gte: None,
                            end_date_lte: Some(now),
                            page: 1,
                            limit: c,
                        },
                    ),
                }
            }
        },
        (PassStage::Listing, PassEvent::Listed(None)) => (PassStage::Finished, PassAction::Done { ok: false }),
        (PassStage::Listing, PassEvent::Listed(Some(found))) => {
            let (ids, media_types) = split_found(&found);
            let asked = copy_ids(&ids);
            (PassStage::Mapping { ids, media_types }, PassAction::FetchDevices { ids: asked })
        },
        (PassStage::Mapping { .. }, PassEvent::Mapped(None)) => (PassStage::Finished, PassAction::Done { ok: false }),
        (PassStage::Mapping { ids, media_types }, PassEvent::Mapped(Some(rows))) => {
            if ids.len() == 0 {
                let status = target_of(pass);
                let kept = copy_ids(&ids);
                return (PassStage::Updating { ids: kept }, PassAction::UpdateStatus { ids, status });
            }
            let plan = plan_device_jobs(&ids, &rows);
            if plan.jobs.len() == 0 {
                return (PassStage::Finished, PassAction::Done { ok: false });
            }
            let announcement_id = plan.jobs[0].0;
            let device_ids = copy_ids(&plan.jobs[0].1);
            let media_type = media_types[0].clone();
            let ghost jobs = plan.jobs@;
            let ghost complete = plan.complete;
            let ghost idv = ids@;
            let ghost mv = media_types@;
            let r = (
                PassStage::Queueing { ids, media_types, jobs: plan.jobs, complete: plan.complete, next: 1 },
                PassAction::Enqueue { announcement_id, device_ids, media_type },
            );
            assert(pass_enqueues(r, idv, mv, jobs, complete, 1));
            r
        },
        (PassStage::Queueing { .. }, PassEvent::Queued(false)) => (PassStage::Finished, PassAction::Done { ok: false }),
        (PassStage::Queueing { ids, media_types, jobs, complete, next }, PassEvent::Queued(true)) => {
            if next < jobs.len() {
                let announcement_id = jobs[next].0;
                let device_ids = copy_ids(&jobs[next].1);
                let media_type = media_types[next].clone();
                (
                    PassStage::Queueing { ids, media_types, jobs, complete, next: next + 1 },
                    PassAction::Enqueue { announcement_id, device_ids, media_type },
                )
            } else if complete {
                let status = target_of(pass);
                let kept = copy_ids(&ids);
                (PassStage::Updating { ids: kept }, PassAction::UpdateStatus { ids, status })
            } else {
                (PassStage::Finished, PassAction::Done { ok: false })
            }
        },
        (PassStage::Updating { .. }, PassEvent::Updated(false)) => (PassStage::Finished, PassAction::Done { ok: false }),
        (PassStage::Updating { ids }, PassEvent::Updated(true)) => match pass {
            DevicePass::Start => (PassStage::Finished, PassAction::Done { ok: true }),
            DevicePass::Finish => (PassStage::Rejecting, PassAction::RejectRequests { ids }),
        },
        (PassStage::Rejecting, PassEvent::Rejected(ok)) => (PassStage::Finished, PassAction::Done { ok }),
        _ => (PassStage::Finished, PassAction::Done { ok: false }),
    }
}

/// Where the pass that expires announcements still waiting for approval
/// stands: finding them, marking them rejected, rejecting their pending
/// requests, or over.
#[derive(Debug)]
pub enum ExpiryStage {
    Finding,
    Updating { ids: Vec<i32> },
    Rejecting,
    Finished,
}

/// What the store or the request service answered (`None` or `false` for
/// a failure).
#[derive(Debug)]
pub enum ExpiryEvent {
    Found(Option<Vec<i32>>),
    Updated(bool),
    Rejected(bool),
}

/// What the expiry pass asks for next: the announcements still waiting for
/// approval whose time ran out by `now`, a status update, the rejection of
/// the pending requests of some announcements, or the end of the pass.
#[derive(Debug)]
pub enum ExpiryAction {
    FindExpired { now: Timestamp },
    UpdateStatus { ids: Vec<i32>, status: AnnouncementStatus },
    RejectRequests { ids: Vec<i32> },
    Done { ok: bool },
}

/// Whether the expiry pass is over with this outcome.
pub open spec fn expiry_over(r: (ExpiryStage, ExpiryAction), ok: bool) -> bool {
    r.0 is Finished && (r.1 matches ExpiryAction::Done { ok: o } && o == ok)
}

/// The first step of the expiry pass at `now`: find what has expired.
pub fn expiry_begin(now: Timestamp) -> (r: (ExpiryStage, ExpiryAction))
    ensures
        r.0 is Finding,
        r.1 matches ExpiryAction::FindExpired { now: n } && n == now,
{
    (ExpiryStage::Finding, ExpiryAction::FindExpired { now })
}

/// One step of the expiry pass: no expired announcement ends it at once as
/// done; otherwise they are marked rejected, then their pending requests
/// are rejected. A failure, or an answer that does not fit the stage, ends
/// the pass as failed.
pub fn expiry_step(stage: ExpiryStage, event: ExpiryEvent) -> (r: (ExpiryStage, ExpiryAction))
    ensures
        match (stage, event) {
            (ExpiryStage::Finding, ExpiryEvent::Found(None)) => expiry_over(r, false),
            (ExpiryStage::Finding, ExpiryEvent::Found(Some(ids))) => if ids@.len() == 0 {
                expiry_over(r, true)
            } else {
                (r.0 matches ExpiryStage::Updating { ids: kept } && kept@ == ids@) && (r.1 matches ExpiryAction::UpdateStatus {
                    ids: u,
                    status,
                } && u@ == ids@ && status == AnnouncementStatus::Rejected)
            },
            (ExpiryStage::Updating { .. }, ExpiryEvent::Updated(false)) => expiry_over(r, false),
            (ExpiryStage::Updating { ids }, ExpiryEvent::Updated(true)) => r.0 is Rejecting && (r.1 matches ExpiryAction::RejectRequests {
                ids: i,
            } && i@ == ids@),
            (ExpiryStage::Rejecting, ExpiryEvent::Rejected(ok)) => expiry_over(r, ok),
            _ => expiry_over(r, false),
        },
{
    match (stage, event) {
        (ExpiryStage::Finding, ExpiryEvent::Found(None)) => (ExpiryStage::Finished, ExpiryAction::Done { ok: false }),
        (ExpiryStage::Finding, ExpiryEvent::Found(Some(ids))) => {
            if ids.len() == 0 {
                (ExpiryStage::Finished, ExpiryAction::Done { ok: true })
            } else {
                let kept = copy_ids(&ids);
                (ExpiryStage::Updating { ids: kept }, ExpiryAction::UpdateStatus { ids, status: AnnouncementStatus::Rejected })
            }
        },
        (ExpiryStage::Updating { .. }, ExpiryEvent::Updated(false)) => (ExpiryStage::Finished, ExpiryAction::Done { ok: false }),
        (ExpiryStage::Updating { ids }, ExpiryEvent::Updated(true)) => (ExpiryStage::Rejecting, ExpiryAction::RejectRequests { ids }),
        (ExpiryStage::Rejecting, ExpiryEvent::Rejected(ok)) => (ExpiryStage::Finished, ExpiryAction::Done { ok }),
        _ => (ExpiryStage::Finished, ExpiryAction::Done { ok: false }),
    }
}

/// The name of a device's announcement queue: `device-queue-<id>`.
pub fn device_queue_name(device_id: i32) -> (r: String)
    ensures
        r@ == "device-queue-"@ + int_to_decimal(device_id as int),
{
    let mut s = String::from_str("device-queue-");
    push_i64(&mut s, device_id as i64);
    s
}


/// The body of an announcement creation request: dates as `yyyy-mm-dd`.
#[derive(Debug)]
pub struct CreateAnnouncementBody {
    pub title: String,
    pub media_id: i32,
    pub start_date: String,
    pub end_date: String,
    pub notes: String,
    pub device_ids: Vec<i32>,
}

/// The start and end of a new announcement, each the midnight (UTC) of its
/// `yyyy-mm-dd` date; the first date that does not read is reported.
pub fn announcement_dates(body: &CreateAnnouncementBody) -> (r: Result<(Timestamp, Timestamp), String>)
    ensures
        match (calendar_date_start(body.start_date@), calendar_date_start(body.end_date@)) {
            (Some(s), Some(e)) => r == Ok::<(Timestamp, Timestamp), String>((s, e)),
            (None, _) => r matches Err(m) && m@ == "Start date is invalid"@,
            (Some(_), None) => r matches Err(m) && m@ == "End date is invalid"@,
        },
{
    let start = match parse_calendar_date(body.start_date.as_str()) {
        Ok(t) => t,
        Err(_) => return Err(String::from_str("Start date is invalid")),
    };
    let end = match parse_calendar_date(body.end_date.as_str()) {
        Ok(t) => t,
        Err(_) => return Err(String::from_str("End date is invalid")),
    };
    Ok((start, end))
}

/// A new announcement as its multipart form gives it: the medium has
/// already been staged as a temporary file, the dates are midnights in UTC.
#[derive(Debug)]
pub struct CreateAnnouncementFormData {
    pub title: String,
    pub media: TmpFile,
    pub start_date: Timestamp,
    pub end_date: Timestamp,
    pub notes: String,
    pub device_ids: Vec<i32>,
}

/// What the text fields of an announcement form have set so far.
pub struct FormFields {
    pub title: Option<Seq<char>>,
    pub start_date: Option<Timestamp>,
    pub end_date: Option<Timestamp>,
    pub notes: Option<Seq<char>>,
    pub device_ids: Option<Seq<i32>>,
}

/// A form with no field read yet.
pub open spec fn no_fields() -> FormFields {
    FormFields { title: None, start_date: None, end_date: None, notes: None, device_ids: None }
}

/// What one more field does to the form: `title` and `notes` take the text,
/// `startDate` and `endDate` the midnight of their `yyyy-mm-dd` date,
/// `deviceIds` the comma-separated ids read as `i32`; a later field of the
/// same name replaces an earlier one. A date or an id that does not read
/// stops the form with its error text. Any other name changes nothing.
pub open spec fn form_step(f: FormFields, name: Seq<char>, value: Seq<char>) -> Result<FormFields, Seq<char>> {
    if name == "title"@ {
        Ok(FormFields { title: Some(value), start_date: f.start_date, end_date: f.end_date, notes: f.notes, device_ids: f.device_ids })
    } else if name == "startDate"@ {
        match calendar_date(value) {
            Ok(t) => Ok(FormFields { title: f.title, start_date: Some(t), end_date: f.end_date, notes: f.notes, device_ids: f.device_ids }),
            Err(e) => Err(e),
        }
    } else if name == "endDate"@ {
        match calendar_date(value) {
            Ok(t) => Ok(FormFields { title: f.title, start_date: f.start_date, end_date: Some(t), notes: f.notes, device_ids: f.device_ids }),
            Err(e) => Err(e),
        }
    } else if name == "notes"@ {
        Ok(FormFields { title: f.title, start_date: f.start_date, end_date: f.end_date, notes: Some(value), device_ids: f.device_ids })
    } else if name == "deviceIds"@ {
        match i32_list_outcome(split_spec(value, ',')) {
            Ok(ids) => Ok(FormFields { title: f.title, start_date: f.start_date, end_date: f.end_date, notes: f.notes, device_ids: Some(ids) }),
            Err(k) => Err(int_error_message(k)),
        }
    } else {
        Ok(f)
    }
}

/// The form after its fields, in the order they came, or the error of the
/// first field that stopped it.
pub open spec fn form_fold(fields: Seq<(Seq<char>, Seq<char>)>) -> Result<FormFields, Seq<char>>
    decreases fields.len(),
{
    if fields.len() == 0 {
        Ok(no_fields())
    } else {
        match form_fold(fields.drop_last()) {
            Err(e) => Err(e),
            Ok(f) => form_step(f, fields.last().0, fields.last().1),
        }
    }
}

/// The first missing part of a read form, in the order title, start date,
/// end date, notes, device ids, medium.
pub open spec fn form_missing(f: FormFields, has_media: bool) -> Option<Seq<char>> {
    if f.title is None {
        Some("title is required"@)
    } else if f.start_date is None {
        Some("startDate is required"@)
    } else if f.end_date is None {
        Some("endDate is required"@)
    } else if f.notes is None {
        Some("notes is required"@)
    } else if f.device_ids is None {
        Some("deviceIds is required"@)
    } else if !has_media {
        Some("media is required"@)
    } else {
        None
    }
}

/// The ids held so far, as a sequence.
pub open spec fn ids_view(ids: Option<Vec<i32>>) -> Option<Seq<i32>> {
    match ids {
        Some(v) => Some(v@),
        None => None,
    }
}

proof fn lemma_form_prefix_err(fields: Seq<(Seq<char>, Seq<char>)>, i: int)
    requires
        0 <= i <= fields.len(),
        form_fold(fields.take(i)) is Err,
    ensures
        form_fold(fields) == form_fold(fields.take(i)),
    decreases fields.len() - i,
{
    if i < fields.len() {
        assert(fields.take(i + 1).drop_last() =~= fields.take(i));
        lemma_form_prefix_err(fields, i + 1);
    } else {
        assert(fields.take(i) =~= fields);
    }
}

/// A field whose name is none of the form's has no effect: inserting it
/// anywhere among the fields leaves what the form reads unchanged.
pub proof fn law_unknown_form_field_ignored(
    fields: Seq<(Seq<char>, Seq<char>)>,
    i: int,
    name: Seq<char>,
    value: Seq<char>,
)
    requires
        0 <= i <= fields.len(),
        name != "title"@,
        name != "startDate"@,
        name != "endDate"@,
        name != "notes"@,
        name != "deviceIds"@,
        name != "media"@,
    ensures
        form_fold(fields.insert(i, (name, value))) == form_fold(fields),
    decreases fields.len(),
{
    let longer = fields.insert(i, (name, value));
    if i == fields.len() {
        assert(longer.drop_last() =~= fields);
        assert(longer.last() == (name, value));
    } else {
        assert(longer.drop_last() =~= fields.drop_last().insert(i, (name, value)));
        assert(longer.last() == fields.last());
        law_unknown_form_field_ignored(fields.drop_last(), i, name, value);
    }
}

/// Reads an announcement creation form from its text fields, each a name
/// and its text in the order they came, and the staged medium, if one came.
/// The fields are read in order; a date or an id list that does not read
/// stops the form with its error text. Then the first missing part is
/// reported as `<field> is required`, else the form is complete.
pub fn announcement_form(fields: &Vec<(String, String)>, media: Option<TmpFile>) -> (r: Result<CreateAnnouncementFormData, String>)
    ensures
        match form_fold(fields.deep_view()) {
            Err(e) => r matches Err(m) && m@ == e,
            Ok(f) => match form_missing(f, media is Some) {
                Some(e) => r matches Err(m) && m@ == e,
                None => r matches Ok(d) && Some(d.title@) == f.title && Some(d.start_date) == f.start_date
                    && Some(d.end_date) == f.end_date && Some(d.notes@) == f.notes && Some(d.device_ids@)
                    == f.device_ids && Some(d.media) == media,
            },
        },
{
    let ghost fv = fields.deep_view();
    let mut title: Option<String> = None;
    let mut start_date: Option<Timestamp> = None;
    let mut end_date: Option<Timestamp> = None;
    let mut notes: Option<String> = None;
    let mut device_ids: Option<Vec<i32>> = None;
    let mut i: usize = 0;
    proof {
        assert(fv.take(0) =~= Seq::<(Seq<char>, Seq<char>)>::empty());
    }
    while i < fields.len()
        invariant
            i <= fields.len(),
            fv == fields.deep_view(),
            form_fold(fv.take(i as int)) == Ok::<FormFields, Seq<char>>(
                FormFields {
                    title: title.deep_view(),
                    start_date,
                    end_date,
                    notes: notes.deep_view(),
                    device_ids: ids_view(device_ids),
                },
            ),
        decreases fields.len() - i,
    {
        let name = fields[i].0.as_str();
        let value = fields[i].1.as_str();
        proof {
            assert(fv.take(i + 1).drop_last() =~= fv.take(i as int));
            assert(fv.take(i + 1).last() == (name@, value@));
        }
        if str_eq(name, "title") {
            title = Some(value.to_owned());
        } else if str_eq(name, "startDate") {
            match parse_calendar_date(value) {
                Ok(t) => {
                    start_date = Some(t);
                },
                Err(e) => {
                    proof {
                        lemma_form_prefix_err(fv, i + 1);
                    }
                    return Err(e);
                },
            }
        } else if str_eq(name, "endDate") {
            match parse_calendar_date(value) {
                Ok(t) => {
                    end_date = Some(t);
                },
                Err(e) => {
                    proof {
                        lemma_form_prefix_err(fv, i + 1);
                    }
                    return Err(e);
                },
            }
        } else if str_eq(name, "notes") {
            notes = Some(value.to_owned());
        } else if str_eq(name, "deviceIds") {
            match parse_i32_list(value) {
                Ok(ids) => {
                    device_ids = Some(ids);
                },
                Err(e) => {
                    proof {
                        lemma_form_prefix_err(fv, i + 1);
                    }
                    return Err(e);
                },
            }
        }
        i = i + 1;
    }
    proof {
        assert(fv.take(fields.len() as int) =~= fv);
    }
    let title = match title {
        Some(t) => t,
        None => return Err(String::from_str("title is required")),
    };
    let start_date = match start_date {
        Some(t) => t,
        None => return Err(String::from_str("startDate is required")),
    };
    let end_date = match end_date {
        Some(t) => t,
        None => return Err(String::from_str("endDate is required")),
    };
    let notes = match notes {
        Some(n) => n,
        None => return Err(String::from_str("notes is required")),
    };
    let device_ids = match device_ids {
        Some(ids) => ids,
        None => return Err(String::from_str("deviceIds is required")),
    };
    let media = match media {
        Some(m) => m,
        None => return Err(String::from_str("media is required")),
    };
    Ok(CreateAnnouncementFormData { title, media, start_date, end_date, notes, device_ids })
}

/// The announcement list's query string.
#[derive(Debug)]
pub struct ListAnnouncementQueryParams {
    pub page: Option<i32>,
    pub limit: Option<i32>,
    pub query: Option<String>,
    pub status: Option<AnnouncementStatus>,
    pub user_id: Option<i32>,
    pub device_id: Option<i32>,
    pub start_date: Option<String>,
    pub end_date: Option<String>,
    pub populate_media: Option<bool>,
}

/// The page, the page size and the date bounds of an announcement list
/// query: page 1 and 25 a page unless given; a date that is given must
/// read as `yyyy-mm-dd` (the start is checked first).
#[derive(Debug)]
pub struct ListAnnouncementWindow {
    pub page: i32,
    pub limit: i32,
    pub start_date: Option<Timestamp>,
    pub end_date: Option<Timestamp>,
}

/// Whether a given date reads (an absent one always does).
pub open spec fn date_reads(d: Option<String>) -> bool {
    match d {
        Some(s) => calendar_date_start(s@) is Some,
        None => true,
    }
}

/// The instant of a given date.
pub open spec fn date_of(d: Option<String>) -> Option<Timestamp> {
    match d {
        Some(s) => calendar_date_start(s@),
        None => None,
    }
}

fn optional_date(d: &Option<String>) -> (r: Option<Option<Timestamp>>)
    ensures
        date_reads(*d) ==> r == Some(date_of(*d)),
        !date_reads(*d) ==> r is None,
{
    match d {
        Some(s) => match parse_calendar_date(s.as_str()) {
            Ok(t) => Some(Some(t)),
            Err(_) => None,
        },
        None => Some(None),
    }
}

/// Reads the window of an announcement list query.
pub fn list_announcement_window(q: &ListAnnouncementQueryParams) -> (r: Result<ListAnnouncementWindow, String>)
    ensures
        !date_reads(q.start_date) ==> (r matches Err(m) && m@ == "start_date must follow yyyy-mm-dd format"@),
        date_reads(q.start_date) && !date_reads(q.end_date) ==> (r matches Err(m) && m@
            == "end_date must follow yyyy-mm-dd format"@),
        date_reads(q.start_date) && date_reads(q.end_date) ==> (r matches Ok(w) && w.page == (match q.page {
            Some(p) => p,
            None => 1,
        }) && w.limit == (match q.limit {
            Some(l) => l,
            None => 25,
        }) && w.start_date == date_of(q.start_date) && w.end_date == date_of(q.end_date)),
{
    let start_date = match optional_date(&q.start_date) {
        Some(d) => d,
        None => return Err(String::from_str("start_date must follow yyyy-mm-dd format")),
    };
    let end_date = match optional_date(&q.end_date) {
        Some(d) => d,
        None => return Err(String::from_str("end_date must follow yyyy-mm-dd format")),
    };
    let page = match q.page {
        Some(p) => p,
        None => 1,
    };
    let limit = match q.limit {
        Some(l) => l,
        None => 25,
    };
    Ok(ListAnnouncementWindow { page, limit, start_date, end_date })
}

/// The author of an announcement, as shown.
#[derive(Debug)]
pub struct AnnouncementAuthorObject {
    pub id: i32,
    pub name: String,
}

/// A device an announcement is shown on, as the detail shows it.
#[derive(Debug)]
pub struct GetAnnouncementDetailDevice {
    pub id: i32,
    pub name: String,
    pub description: String,
    pub floor_id: i32,
}

/// The signed address of an announcement's medium and its file name.
#[derive(Debug)]
pub struct GetAnnouncementMediaPresignedURLResponse {
    pub filename: String,
    pub media: String,
}

/// The filters of an announcement count.
#[derive(Debug)]
pub struct CountAnnouncementParams {
    pub query: Option<String>,
    pub status: Option<AnnouncementStatus>,
    pub user_id: Option<i32>,
    pub device_id: Option<i32>,
    pub start_date_gte: Option<Timestamp>,
    pub start_date_lt: Option<Timestamp>,
    pub end_date_lte: Option<Timestamp>,
}

impl CountAnnouncementParams {
    /// No filter.
    pub fn default() -> (r: CountAnnouncementParams)
        ensures
            r.query is None,
            r.status is None,
            r.user_id is None,
            r.device_id is None,
            r.start_date_gte is None,
            r.start_date_lt is None,
            r.end_date_lte is None,
    {
        CountAnnouncementParams {
            query: None,
            status: None,
            user_id: None,
            device_id: None,
            start_date_gte: None,
            start_date_lt: None,
            end_date_lte: None,
        }
    }

    /// Filters on `query`.
    pub fn query(self, query: String) -> (r: CountAnnouncementParams)
        ensures
            r.query == Some(query),
            r.status == self.status,
            r.user_id == self.user_id,
            r.device_id == self.device_id,
            r.start_date_gte == self.start_date_gte,
            r.start_date_lt == self.start_date_lt,
            r.end_date_lte == self.end_date_lte,
    {
        CountAnnouncementParams { query: Some(query), ..self }
    }

    /// Filters on `status`.
    pub fn status(self, status: AnnouncementStatus) -> (r: CountAnnouncementParams)
        ensures
            r.status == Some(status),
            r.query == self.query,
            r.user_id == self.user_id,
            r.device_id == self.device_id,
            r.start_date_gte == self.start_date_gte,
            r.start_date_lt == self.start_date_lt,
            r.end_date_lte == self.end_date_lte,
    {
        CountAnnouncementParams { status: Some(status), ..self }
    }

    /// Filters on `user_id`.
    pub fn user_id(self, user_id: i32) -> (r: CountAnnouncementParams)
        ensures
            r.user_id == Some(user_id),
            r.query == self.query,
            r.status == self.status,
            r.device_id == self.device_id,
            r.start_date_gte == self.start_date_gte,
            r.start_date_lt == self.start_date_lt,
            r.end_date_lte == self.end_date_lte,
    {
        CountAnnouncementParams { user_id: Some(user_id), ..self }
    }

    /// Filters on `device_id`.
    pub fn device_id(self, device_id: i32) -> (r: CountAnnouncementParams)
        ensures
            r.device_id == Some(device_id),
            r.query == self.query,
            r.status == self.status,
            r.user_id == self.user_id,
            r.start_date_gte == self.start_date_gte,
            r.start_date_lt == self.start_date_lt,
            r.end_date_lte == self.end_date_lte,
    {
        CountAnnouncementParams { device_id: Some(device_id), ..self }
    }

    /// Filters on `start_date_gte`.
    pub fn start_date_gte(self, start_date_gte: Timestamp) -> (r: CountAnnouncementParams)
        ensures
            r.start_date_gte == Some(start_date_gte),
            r.query == self.query,
            r.status == self.status,
            r.user_id == self.user_id,
            r.device_id == self.device_id,
            r.start_date_lt == self.start_date_lt,
            r.end_date_lte == self.end_date_lte,
    {
        CountAnnouncementParams { start_date_gte: Some(start_date_gte), ..self }
    }

    /// Filters on announcements starting before the given instant (the
    /// bound is kept as `start_date_lt`).
    pub fn start_date_gt(self, start_date_gt: Timestamp) -> (r: CountAnnouncementParams)
        ensures
            r.start_date_lt == Some(start_date_gt),
            r.query == self.query,
            r.status == self.status,
            r.user_id == self.user_id,
            r.device_id == self.device_id,
            r.start_date_gte == self.start_date_gte,
            r.end_date_lte == self.end_date_lte,
    {
        CountAnnouncementParams { start_date_lt: Some(start_date_gt), ..self }
    }

    /// Filters on announcements ending at or before the given instant.
    pub fn end_date_lte(self, end_date_lte: Timestamp) -> (r: CountAnnouncementParams)
        ensures
            r.end_date_lte == Some(end_date_lte),
            r.query == self.query,
            r.status == self.status,
            r.user_id == self.user_id,
            r.device_id == self.device_id,
            r.start_date_gte == self.start_date_gte,
            r.start_date_lt == self.start_date_lt,
    {
        CountAnnouncementParams { end_date_lte: Some(end_date_lte), ..self }
    }
}

/// An announcement list request as the service takes it: the window that
/// `list_announcement_window` read, the filters, and whether to sign the
/// media addresses.
#[derive(Debug)]
pub struct ListAnnouncementParams {
    pub page: i32,
    pub limit: i32,
    pub query: Option<String>,
    pub status: Option<AnnouncementStatus>,
    pub user_id: Option<i32>,
    pub device_id: Option<i32>,
    pub start_date: Option<Timestamp>,
    pub end_date: Option<Timestamp>,
    pub populate_media: Option<bool>,
}

/// The repository query of an announcement list: the page and size as
/// given, each given filter passed on (the start date as a lower bound of
/// the start, the end date as an upper bound of the end), nothing else.
pub fn list_find_params(params: ListAnnouncementParams) -> (r: FindListAnnouncementParams)
    ensures
        r.page == params.page,
        r.limit == params.limit,
        r.query == params.query,
        r.status == params.status,
        r.user_id == params.user_id,
        r.device_id == params.device_id,
        r.start_date_gte == params.start_date,
        r.start_date_lt is None,
        r.end_date_lte == params.end_date,
{
    FindListAnnouncementParams {
        page: params.page,
        limit: params.limit,
        query: params.query,
        status: params.status,
        user_id: params.user_id,
        device_id: params.device_id,
        start_date_gte: params.start_date,
        start_date_lt: None,
        end_date_lte: params.end_date,
    }
}

/// An announcement as the list shows it.
#[derive(Debug)]
pub struct Announcement {
    pub id: i32,
    pub title: String,
    pub start_date: Timestamp,
    pub end_date: Timestamp,
    pub status: AnnouncementStatus,
    pub user_id: i32,
    pub user_name: String,
    pub media: String,
    pub created_at: Timestamp,
    pub updated_at: Timestamp,
}

/// Whether `b` is `a` with its medium replaced by `media`.
pub open spec fn with_media(a: Announcement, b: Announcement, media: Seq<char>) -> bool {
    &&& b.id == a.id
    &&& b.title@ == a.title@
    &&& b.start_date == a.start_date
    &&& b.end_date == a.end_date
    &&& b.status == a.status
    &&& b.user_id == a.user_id
    &&& b.user_name@ == a.user_name@
    &&& b.media@ == media
    &&& b.created_at == a.created_at
    &&& b.updated_at == a.updated_at
}

/// The listed announcements with each medium replaced by its signed
/// address, given what signing each one gave (`None` for a failed lookup),
/// in the same order: any failed lookup fails the list as internal.
pub fn populate_media(contents: &Vec<Announcement>, signed: &Vec<Option<String>>) -> (r: Result<Vec<Announcement>, ListAnnouncementError>)
    requires
        signed@.len() == contents@.len(),
    ensures
        (exists|k: int| 0 <= k < signed@.len() && #[trigger] signed@[k] is None) ==> (r matches Err(e) && e is InternalServerError),
        (forall|k: int| 0 <= k < signed@.len() ==> #[trigger] signed@[k] is Some) ==> (r matches Ok(v) && v@.len()
            == contents@.len() && forall|k: int| 0 <= k < contents@.len() ==> with_media(
            contents@[k],
            #[trigger] v@[k],
            signed@[k]->0@,
        )),
{
    let mut out: Vec<Announcement> = Vec::new();
    let n = contents.len();
    let mut i: usize = 0;
    while i < n
        invariant
            n == contents@.len(),
            n == signed@.len(),
            i <= n,
            out@.len() == i,
            forall|k: int| 0 <= k < i ==> #[trigger] signed@[k] is Some,
            forall|k: int| 0 <= k < i ==> with_media(contents@[k], #[trigger] out@[k], signed@[k]->0@),
        decreases n - i,
    {
        let media = match &signed[i] {
            Some(m) => m.clone(),
            None => return Err(ListAnnouncementError::InternalServerError),
        };
        let c = &contents[i];
        out.push(Announcement {
            id: c.id,
            title: c.title.clone(),
            start_date: c.start_date,
            end_date: c.end_date,
            status: c.status,
            user_id: c.user_id,
            user_name: c.user_name.clone(),
            media,
            created_at: c.created_at,
            updated_at: c.updated_at,
        });
        i = i + 1;
    }
    Ok(out)
}

/// A new announcement as the service takes it, from its author.
#[derive(Debug)]
pub struct CreateAnnouncementParams {
    pub title: String,
    pub media_id: i32,
    pub start_date: Timestamp,
    pub end_date: Timestamp,
    pub notes: String,
    pub device_ids: Vec<i32>,
    pub user_id: i32,
}

/// What a new announcement is stored with.
#[derive(Debug)]
pub struct InsertAnnouncementParams {
    pub title: String,
    pub notes: String,
    pub start_date: Timestamp,
    pub end_date: Timestamp,
    pub device_ids: Vec<i32>,
    pub user_id: i32,
    pub media_id: i32,
}

/// The row a new announcement is inserted as: every field as given.
pub fn announcement_insert(params: CreateAnnouncementParams) -> (r: InsertAnnouncementParams)
    ensures
        r.title@ == params.title@,
        r.notes@ == params.notes@,
        r.start_date == params.start_date,
        r.end_date == params.end_date,
        r.device_ids@ == params.device_ids@,
        r.user_id == params.user_id,
        r.media_id == params.media_id,
{
    InsertAnnouncementParams {
        title: params.title,
        notes: params.notes,
        start_date: params.start_date,
        end_date: params.end_date,
        device_ids: params.device_ids,
        user_id: params.user_id,
        media_id: params.media_id,
    }
}

/// The approval request a new announcement is filed with once it is
/// stored as `announcement_id`: a creation request by its author, described
/// by its notes.
pub fn creation_request(params: &CreateAnnouncementParams, announcement_id: i32) -> (r: CreateRequestParams)
    ensures
        r.action == RequestActionType::Create,
        r.description@ == params.notes@,
        r.announcement_id == announcement_id,
        r.user_id == params.user_id,
        r.extended_end_date is None,
        r.new_device_ids is None,
{
    CreateRequestParams::new(RequestActionType::Create, params.notes.clone(), announcement_id, params.user_id)
}

/// The page and filters of an announcement list query.
#[derive(Debug)]
pub struct FindListAnnouncementParams {
    pub page: i32,
    pub limit: i32,
    pub query: Option<String>,
    pub status: Option<AnnouncementStatus>,
    pub user_id: Option<i32>,
    pub device_id: Option<i32>,
    pub start_date_gte: Option<Timestamp>,
    pub start_date_lt: Option<Timestamp>,
    pub end_date_lte: Option<Timestamp>,
}

impl FindListAnnouncementParams {
    /// The first page of 25, with no filter.
    pub fn default() -> (r: FindListAnnouncementParams)
        ensures
            r.page == 1,
            r.limit == 25,
            r.query is None,
            r.status is None,
            r.user_id is None,
            r.device_id is None,
            r.start_date_gte is None,
            r.start_date_lt is None,
            r.end_date_lte is None,
    {
        FindListAnnouncementParams {
            page: 1,
            limit: 25,
            query: None,
            status: None,
            user_id: None,
            device_id: None,
            start_date_gte: None,
            start_date_lt: None,
            end_date_lte: None,
        }
    }

    /// Sets `limit`.
    pub fn limit(self, limit: i32) -> (r: FindListAnnouncementParams)
        ensures
            r.limit == limit,
            r.page == self.page,
            r.query == self.query,
            r.status == self.status,
            r.user_id == self.user_id,
            r.device_id == self.device_id,
            r.start_date_gte == self.start_date_gte,
            r.start_date_lt == self.start_date_lt,
            r.end_date_lte == self.end_date_lte,
    {
        FindListAnnouncementParams { limit, ..self }
    }

    /// Sets `page`.
    pub fn page(self, page: i32) -> (r: FindListAnnouncementParams)
        ensures
            r.page == page,
            r.limit == self.limit,
            r.query == self.query,
            r.status == self.status,
            r.user_id == self.user_id,
            r.device_id == self.device_id,
            r.start_date_gte == self.start_date_gte,
            r.start_date_lt == self.start_date_lt,
            r.end_date_lte == self.end_date_lte,
    {
        FindListAnnouncementParams { page, ..self }
    }

    /// Filters on `query`.
    pub fn query(self, query: String) -> (r: FindListAnnouncementParams)
        ensures
            r.query == Some(query),
            r.page == self.page,
            r.limit == self.limit,
            r.status == self.status,
            r.user_id == self.user_id,
            r.device_id == self.device_id,
            r.start_date_gte == self.start_date_gte,
            r.start_date_lt == self.start_date_lt,
            r.end_date_lte == self.end_date_lte,
    {
        FindListAnnouncementParams { query: Some(query), ..self }
    }

    /// Filters on `status`.
    pub fn status(self, status: AnnouncementStatus) -> (r: FindListAnnouncementParams)
        ensures
            r.status == Some(status),
            r.page == self.page,
            r.limit == self.limit,
            r.query == self.query,
            r.user_id == self.user_id,
            r.device_id == self.device_id,
            r.start_date_gte == self.start_date_gte,
            r.start_date_lt == self.start_date_lt,
            r.end_date_lte == self.end_date_lte,
    {
        FindListAnnouncementParams { status: Some(status), ..self }
    }

    /// Filters on `user_id`.
    pub fn user_id(self, user_id: i32) -> (r: FindListAnnouncementParams)
        ensures
            r.user_id == Some(user_id),
            r.page == self.page,
            r.limit == self.limit,
            r.query == self.query,
            r.status == self.status,
            r.device_id == self.device_id,
            r.start_date_gte == self.start_date_gte,
            r.start_date_lt == self.start_date_lt,
            r.end_date_lte == self.end_date_lte,
    {
        FindListAnnouncementParams { user_id: Some(user_id), ..self }
    }

    /// Filters on `device_id`.
    pub fn device_id(self, device_id: i32) -> (r: FindListAnnouncementParams)
        ensures
            r.device_id == Some(device_id),
            r.page == self.page,
            r.limit == self.limit,
            r.query == self.query,
            r.status == self.status,
            r.user_id == self.user_id,
            r.start_date_gte == self.start_date_gte,
            r.start_date_lt == self.start_date_lt,
            r.end_date_lte == self.end_date_lte,
    {
        FindListAnnouncementParams { device_id: Some(device_id), ..self }
    }

    /// Filters on `start_date_gte`.
    pub fn start_date_gte(self, start_date_gte: Timestamp) -> (r: FindListAnnouncementParams)
        ensures
            r.start_date_gte == Some(start_date_gte),
            r.page == self.page,
            r.limit == self.limit,
            r.query == self.query,
            r.status == self.status,
            r.user_id == self.user_id,
            r.device_id == self.device_id,
            r.start_date_lt == self.start_date_lt,
            r.end_date_lte == self.end_date_lte,
    {
        FindListAnnouncementParams { start_date_gte: Some(start_date_gte), ..self }
    }

    /// Filters on announcements starting before the given instant (the
    /// bound is kept as `start_date_lt`).
    pub fn start_date_gt(self, start_date_gt: Timestamp) -> (r: FindListAnnouncementParams)
        ensures
            r.start_date_lt == Some(start_date_gt),
            r.page == self.page,
            r.limit == self.limit,
            r.query == self.query,
            r.status == self.status,
            r.user_id == self.user_id,
            r.device_id == self.device_id,
            r.start_date_gte == self.start_date_gte,
            r.end_date_lte == self.end_date_lte,
    {
        FindListAnnouncementParams { start_date_lt: Some(start_date_gt), ..self }
    }

    /// Filters on announcements ending at or before the given instant.
    pub fn end_date_lte(self, end_date_lte: Timestamp) -> (r: FindListAnnouncementParams)
        ensures
            r.end_date_lte == Some(end_date_lte),
            r.page == self.page,
            r.limit == self.limit,
            r.query == self.query,
            r.status == self.status,
            r.user_id == self.user_id,
            r.device_id == self.device_id,
            r.start_date_gte == self.start_date_gte,
            r.start_date_lt == self.start_date_lt,
    {
        FindListAnnouncementParams { end_date_lte: Some(end_date_lte), ..self }
    }
}
} // verus!
