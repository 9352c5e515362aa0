//! Change requests on announcements and their two-party approval: who may
//! decide, what a decision records, and what the announcement undergoes
//! once both parties have decided.
use vstd::prelude::*;
use vstd::string::*;

use crate::database::{StoreError, StoreErrorKind};
use crate::features::announcement::AnnouncementStatus;
use crate::text::str_eq;
use crate::time::{before, calendar_date_start, is_at_or_before, parse_calendar_date, Timestamp};

verus! {

/// What a request asks to do with an announcement.
#[derive(Debug, Clone, Copy, PartialEq, Eq, Structural)]
pub enum RequestActionType {
    Create,
    ExtendDate,
    Delete,
    ChangeDevices,
}

impl RequestActionType {
    /// The label shown to users.
    pub open spec fn label_text(self) -> Seq<char> {
        match self {
            RequestActionType::Create => "Create"@,
            RequestActionType::ExtendDate => "Extend Date"@,
            RequestActionType::Delete => "Delete"@,
            RequestActionType::ChangeDevices => "Change Devices"@,
        }
    }

    /// The value stored in the database and used in queries.
    pub open spec fn value_text(self) -> Seq<char> {
        match self {
            RequestActionType::Create => "create"@,
            RequestActionType::ExtendDate => "extend_date"@,
            RequestActionType::Delete => "delete"@,
            RequestActionType::ChangeDevices => "change_devices"@,
        }
    }

    /// The label shown to users.
    pub fn label(self) -> (r: &'static str)
        ensures
            r@ == self.label_text(),
    {
        match self {
            RequestActionType::Create => "Create",
            RequestActionType::ExtendDate => "Extend Date",
            RequestActionType::Delete => "Delete",
            RequestActionType::ChangeDevices => "Change Devices",
        }
    }

    /// The value stored in the database and used in queries.
    pub fn value(self) -> (r: &'static str)
        ensures
            r@ == self.value_text(),
    {
        match self {
            RequestActionType::Create => "create",
            RequestActionType::ExtendDate => "extend_date",
            RequestActionType::Delete => "delete",
            RequestActionType::ChangeDevices => "change_devices",
        }
    }
}

/// Extra data a request carries: the new end date of an extension and the
/// new device set of a device change.
#[derive(Debug)]
pub struct RequestMetadata {
    pub extended_end_date: Option<Timestamp>,
    pub new_device_ids: Option<Vec<i32>>,
}

impl RequestMetadata {
    /// Metadata with nothing set.
    pub fn default() -> (r: RequestMetadata)
        ensures
            r.extended_end_date is None,
            r.new_device_ids is None,
    {
        RequestMetadata { extended_end_date: None, new_device_ids: None }
    }

    /// Sets the new end date.
    pub fn extended_end_date(self, extended_end_date: Timestamp) -> (r: RequestMetadata)
        ensures
            r.extended_end_date == Some(extended_end_date),
            r.new_device_ids == self.new_device_ids,
    {
        RequestMetadata { extended_end_date: Some(extended_end_date), new_device_ids: self.new_device_ids }
    }

    /// Sets the new device set.
    pub fn new_device_ids(self, new_device_ids: Vec<i32>) -> (r: RequestMetadata)
        ensures
            r.extended_end_date == self.extended_end_date,
            r.new_device_ids == Some(new_device_ids),
    {
        RequestMetadata { extended_end_date: self.extended_end_date, new_device_ids: Some(new_device_ids) }
    }
}

/// Metadata as read from the database, before its date is parsed.
#[derive(Debug)]
pub struct RawRequestMetadata {
    pub extended_end_date: Option<String>,
    pub new_device_ids: Option<Vec<i32>>,
}

/// The two decisions on a request: by the LSC and by the building manager,
/// each with who made it.
#[derive(Debug, Clone, Copy, PartialEq, Eq, Structural)]
pub struct RequestApproval {
    pub approved_by_lsc: Option<bool>,
    pub approved_by_bm: Option<bool>,
    pub lsc_approver: Option<i32>,
    pub bm_approver: Option<i32>,
}

/// The role under which a user decides on requests.
#[derive(Debug, Clone, Copy, PartialEq, Eq, Structural)]
pub enum ApproverRole {
    Lsc,
    BuildingManager,
    Admin,
    NotAllowed,
}

/// The approver role of a role value: `lsc`, `bm` and `admin` may decide.
pub open spec fn approver_role_spec(value: Seq<char>) -> ApproverRole {
    if value == "lsc"@ {
        ApproverRole::Lsc
    } else if value == "bm"@ {
        ApproverRole::BuildingManager
    } else if value == "admin"@ {
        ApproverRole::Admin
    } else {
        ApproverRole::NotAllowed
    }
}

/// The approver role of a user's role value.
pub fn approver_role(value: &str) -> (r: ApproverRole)
    ensures
        r == approver_role_spec(value@),
{
    if str_eq(value, "lsc") {
        ApproverRole::Lsc
    } else if str_eq(value, "bm") {
        ApproverRole::BuildingManager
    } else if str_eq(value, "admin") {
        ApproverRole::Admin
    } else {
        ApproverRole::NotAllowed
    }
}

/// What a decision does to the recorded approval.
#[derive(Debug, Clone, Copy, PartialEq, Eq, Structural)]
pub enum ApprovalDecision {
    Forbidden,
    AlreadyDecided,
    Recorded(RequestApproval),
}

/// A decision by `approver` under `role`: the LSC and the building manager
/// each fill their own slot once; an admin fills whichever slots are still
/// empty; anyone else may not decide.
pub open spec fn decide(cur: RequestApproval, role: ApproverRole, approver: i32, approval: bool) -> ApprovalDecision {
    match role {
        ApproverRole::Lsc => if cur.approved_by_lsc is Some {
            ApprovalDecision::AlreadyDecided
        } else {
            ApprovalDecision::Recorded(
                RequestApproval { approved_by_lsc: Some(approval), lsc_approver: Some(approver), ..cur },
            )
        },
        ApproverRole::BuildingManager => if cur.approved_by_bm is Some {
            ApprovalDecision::AlreadyDecided
        } else {
            ApprovalDecision::Recorded(
                RequestApproval { approved_by_bm: Some(approval), bm_approver: Some(approver), ..cur },
            )
        },
        ApproverRole::Admin => if cur.approved_by_lsc is Some && cur.approved_by_bm is Some {
            ApprovalDecision::AlreadyDecided
        } else {
            ApprovalDecision::Recorded(
                RequestApproval {
                    approved_by_lsc: if cur.approved_by_lsc is None { Some(approval) } else { cur.approved_by_lsc },
                    lsc_approver: if cur.approved_by_lsc is None { Some(approver) } else { cur.lsc_approver },
                    approved_by_bm: if cur.approved_by_bm is None { Some(approval) } else { cur.approved_by_bm },
                    bm_approver: if cur.approved_by_bm is None { Some(approver) } else { cur.bm_approver },
                },
            )
        },
        ApproverRole::NotAllowed => ApprovalDecision::Forbidden,
    }
}

/// Both parties approved.
pub open spec fn fully_approved(a: RequestApproval) -> bool {
    a.approved_by_bm == Some(true) && a.approved_by_lsc == Some(true)
}

/// At least one party rejected.
pub open spec fn rejected_by_someone(a: RequestApproval) -> bool {
    a.approved_by_bm == Some(false) || a.approved_by_lsc == Some(false)
}

/// Error codes of the request API.
#[derive(Debug, Clone, Copy, PartialEq, Eq, Structural)]
pub enum RequestErrorCode {
    EntityNotFound,
    RequestNotFound,
    UserNotFound,
    UserForbiddenToApprove,
    AnnouncementNotFound,
    RequestAlreadyApproved,
    InvalidAnnouncementStatus,
    InvalidExtendedEndDate,
    InvalidDeviceIds,
    InternalServerError,
}

impl RequestErrorCode {
    /// The code as the API writes it.
    pub open spec fn text(self) -> Seq<char> {
        match self {
            RequestErrorCode::EntityNotFound => "ENTITY_NOT_FOUND"@,
            RequestErrorCode::RequestNotFound => "REQUEST_NOT_FOUND"@,
            RequestErrorCode::UserNotFound => "USER_NOT_FOUND"@,
            RequestErrorCode::UserForbiddenToApprove => "USER_FORBIDDEN_TO_APPROVE"@,
            RequestErrorCode::AnnouncementNotFound => "ANNOUNCEMENT_NOT_FOUND"@,
            RequestErrorCode::RequestAlreadyApproved => "REQUEST_ALREADY_APPROVED"@,
            RequestErrorCode::InvalidAnnouncementStatus => "INVALID_ANNOUNCEMENT_STATUS"@,
            RequestErrorCode::InvalidExtendedEndDate => "INVALID_EXTENDED_END_DATE"@,
            RequestErrorCode::InvalidDeviceIds => "INVALID_DEVICE_IDS"@,
            RequestErrorCode::InternalServerError => "INTERNAL_SERVER_ERROR"@,
        }
    }

    /// The code as the API writes it.
    pub fn to_string(&self) -> (r: String)
        ensures
            r@ == self.text(),
    {
        match self {
            RequestErrorCode::EntityNotFound => String::from_str("ENTITY_NOT_FOUND"),
            RequestErrorCode::RequestNotFound => String::from_str("REQUEST_NOT_FOUND"),
            RequestErrorCode::UserNotFound => String::from_str("USER_NOT_FOUND"),
            RequestErrorCode::UserForbiddenToApprove => String::from_str("USER_FORBIDDEN_TO_APPROVE"),
            RequestErrorCode::AnnouncementNotFound => String::from_str("ANNOUNCEMENT_NOT_FOUND"),
            RequestErrorCode::RequestAlreadyApproved => String::from_str("REQUEST_ALREADY_APPROVED"),
            RequestErrorCode::InvalidAnnouncementStatus => String::from_str(
                "INVALID_ANNOUNCEMENT_STATUS",
            ),
            RequestErrorCode::InvalidExtendedEndDate => String::from_str("INVALID_EXTENDED_END_DATE"),
            RequestErrorCode::InvalidDeviceIds => String::from_str("INVALID_DEVICE_IDS"),
            RequestErrorCode::InternalServerError => String::from_str("INTERNAL_SERVER_ERROR"),
        }
    }
}

/// Failure to create a request.
#[derive(Debug)]
pub enum CreateRequestError {
    EntityNotFound(String),
    AnnouncementNotFound(&'static str),
    InvalidExtendedEndDate(&'static str),
    InvalidAnnouncementStatus(&'static str),
    InvalidDeviceIds(&'static str),
    InternalServerError,
}

impl CreateRequestError {
    /// The message of the error, as the API writes it.
    pub fn to_string(&self) -> (r: String)
        ensures
            match self {
                CreateRequestError::EntityNotFound(m) => r@ == m@,
                CreateRequestError::AnnouncementNotFound(m) => r@ == m@,
                CreateRequestError::InvalidExtendedEndDate(m) => r@ == m@,
                CreateRequestError::InvalidAnnouncementStatus(m) => r@ == m@,
                CreateRequestError::InvalidDeviceIds(m) => r@ == m@,
                CreateRequestError::InternalServerError => r@ == "Internal Server Error"@,
            },
    {
        match self {
            CreateRequestError::EntityNotFound(m) => m.clone(),
            CreateRequestError::AnnouncementNotFound(m) => String::from_str(m),
            CreateRequestError::InvalidExtendedEndDate(m) => String::from_str(m),
            CreateRequestError::InvalidAnnouncementStatus(m) => String::from_str(m),
            CreateRequestError::InvalidDeviceIds(m) => String::from_str(m),
            CreateRequestError::InternalServerError => String::from_str("Internal Server Error"),
        }
    }
}

/// Failure to list requests.
#[derive(Debug)]
pub enum ListRequestError {
    InternalServerError,
}

impl ListRequestError {
    /// The message of the error, as the API writes it.
    pub fn to_string(&self) -> (r: String)
        ensures
            r@ == "Internal Server Error"@,
    {
        String::from_str("Internal Server Error")
    }
}

/// Failure to record a decision on a request.
#[derive(Debug)]
pub enum UpdateRequestApprovalError {
    RequestNotFound(String),
    UserNotFound(String),
    UserForbiddenToApprove(String),
    AnnouncementNotFound(String),
    RequestAlreadyApproved(String),
    InvalidAnnouncementStatus(String),
    InternalServerError,
}

impl UpdateRequestApprovalError {
    /// The message of the error, as the API writes it.
    pub fn to_string(&self) -> (r: String)
        ensures
            match self {
                UpdateRequestApprovalError::RequestNotFound(m) => r@ == m@,
                UpdateRequestApprovalError::UserNotFound(m) => r@ == m@,
                UpdateRequestApprovalError::UserForbiddenToApprove(m) => r@ == m@,
                UpdateRequestApprovalError::AnnouncementNotFound(m) => r@ == m@,
                UpdateRequestApprovalError::RequestAlreadyApproved(m) => r@ == m@,
                UpdateRequestApprovalError::InvalidAnnouncementStatus(m) => r@ == m@,
                UpdateRequestApprovalError::InternalServerError => r@ == "Internal Server Error"@,
            },
    {
        match self {
            UpdateRequestApprovalError::RequestNotFound(m) => m.clone(),
            UpdateRequestApprovalError::UserNotFound(m) => m.clone(),
            UpdateRequestApprovalError::UserForbiddenToApprove(m) => m.clone(),
            UpdateRequestApprovalError::AnnouncementNotFound(m) => m.clone(),
            UpdateRequestApprovalError::RequestAlreadyApproved(m) => m.clone(),
            UpdateRequestApprovalError::InvalidAnnouncementStatus(m) => m.clone(),
            UpdateRequestApprovalError::InternalServerError => String::from_str("Internal Server Error"),
        }
    }
}

/// Failure to reject the pending requests of announcements.
#[derive(Debug)]
pub enum BatchRejectRequestsFromAnnouncementIdsError {
    InternalServerError,
}

impl BatchRejectRequestsFromAnnouncementIdsError {
    /// The message of the error, as the API writes it.
    pub fn to_string(&self) -> (r: String)
        ensures
            r@ == "Internal Server Error"@,
    {
        String::from_str("Internal Server Error")
    }
}

/// Records a decision on a request, or says why it cannot be recorded.
pub fn resolve_approval(cur: &RequestApproval, role: ApproverRole, approver_id: i32, approval: bool) -> (r: Result<RequestApproval, UpdateRequestApprovalError>)
    ensures
        match decide(*cur, role, approver_id, approval) {
            ApprovalDecision::Forbidden => r matches Err(
                UpdateRequestApprovalError::UserForbiddenToApprove(m),
            ) && m@ == "User is not allowed to approve a request"@,
            ApprovalDecision::AlreadyDecided => r matches Err(
                UpdateRequestApprovalError::RequestAlreadyApproved(m),
            ) && m@ == "Request already approved"@,
            ApprovalDecision::Recorded(a) => r == Ok::<RequestApproval, UpdateRequestApprovalError>(a),
        },
{
    let mut next = *cur;
    match role {
        ApproverRole::NotAllowed => {
            return Err(
                UpdateRequestApprovalError::UserForbiddenToApprove(
                    String::from_str("User is not allowed to approve a request"),
                ),
            );
        },
        ApproverRole::Lsc => {
            if cur.approved_by_lsc.is_some() {
                return Err(
                    UpdateRequestApprovalError::RequestAlreadyApproved(
                        String::from_str("Request already approved"),
                    ),
                );
            }
            next.approved_by_lsc = Some(approval);
            next.lsc_approver = Some(approver_id);
        },
        ApproverRole::BuildingManager => {
            if cur.approved_by_bm.is_some() {
                return Err(
                    UpdateRequestApprovalError::RequestAlreadyApproved(
                        String::from_str("Request already approved"),
                    ),
                );
            }
            next.approved_by_bm = Some(approval);
            next.bm_approver = Some(approver_id);
        },
        ApproverRole::Admin => {
            if cur.approved_by_lsc.is_some() && cur.approved_by_bm.is_some() {
                return Err(
                    UpdateRequestApprovalError::RequestAlreadyApproved(
                        String::from_str("Request already approved"),
                    ),
                );
            }
            if cur.approved_by_lsc.is_none() {
                next.approved_by_lsc = Some(approval);
                next.lsc_approver = Some(approver_id);
            }
            if cur.approved_by_bm.is_none() {
                next.approved_by_bm = Some(approval);
                next.bm_approver = Some(approver_id);
            }
        },
    }
    Ok(next)
}

/// Ids of `old` that `new` no longer holds, in the order of `old`.
pub open spec fn removed_ids(old: Seq<i32>, new: Seq<i32>) -> Seq<i32> {
    old.filter(|id: i32| !new.contains(id))
}

/// Ids of `new` that `old` did not hold, in the order of `new`.
pub open spec fn added_ids(old: Seq<i32>, new: Seq<i32>) -> Seq<i32> {
    new.filter(|id: i32| !old.contains(id))
}

fn contains_id(ids: &Vec<i32>, id: i32) -> (r: bool)
    ensures
        r == ids@.contains(id),
{
    let n = ids.len();
    let mut i: usize = 0;
    while i < n
        invariant
            n == ids@.len(),
            i <= n,
            forall|k: int| 0 <= k < i ==> ids@[k] != id,
        decreases n - i,
    {
        if ids[i] == id {
            return true;
        }
        i = i + 1;
    }
    false
}

/// The ids of `from` that `other` does not hold, in the order of `from`.
fn ids_missing_from(from: &Vec<i32>, other: &Vec<i32>) -> (r: Vec<i32>)
    ensures
        r@ == from@.filter(|id: i32| !other@.contains(id)),
{
    let ghost pred = |id: i32| !other@.contains(id);
    let mut out: Vec<i32> = Vec::new();
    let n = from.len();
    let mut i: usize = 0;
    while i < n
        invariant
            n == from@.len(),
            i <= n,
            pred == (|id: i32| !other@.contains(id)),
            out@ == from@.take(i as int).filter(pred),
        decreases n - i,
    {
        let id = from[i];
        proof {
            reveal_with_fuel(Seq::<_>::filter, 1);
            assert(from@.take(i + 1).drop_last() =~= from@.take(i as int));
            assert(from@.take(i + 1).last() == id);
        }
        if !contains_id(other, id) {
            out.push(id);
        }
        i = i + 1;
    }
    proof {
        assert(from@.take(n as int) =~= from@);
    }
    out
}

/// Splits a device change into the devices to drop the announcement from
/// (held before, not after) and the devices to push it to (held after, not
/// before).
pub fn device_changes(old: &Vec<i32>, new: &Vec<i32>) -> (r: (Vec<i32>, Vec<i32>))
    ensures
        r.0@ == removed_ids(old@, new@),
        r.1@ == added_ids(old@, new@),
{
    (ids_missing_from(old, new), ids_missing_from(new, old))
}

/// What an announcement undergoes once a decision is recorded.
#[derive(Debug)]
pub enum ApprovalEffect {
    /// Nothing changes but the recorded approval.
    Unchanged,
    /// The announcement becomes active and is pushed to these devices.
    Activate(Vec<i32>),
    /// The announcement waits for its start day to be pushed to devices.
    AwaitSync,
    /// The announcement is rejected.
    Reject,
    /// The announcement is withdrawn from these devices, canceled, and its
    /// other pending requests are rejected.
    Cancel(Vec<i32>),
    /// The announcement's end date moves to the given day.
    ExtendEndDate(Timestamp),
    /// The announcement is withdrawn from the first devices and pushed to
    /// the second.
    ChangeDevices(Vec<i32>, Vec<i32>),
}

/// The status an announcement must have for a request of this action to be
/// decided on.
pub open spec fn required_status(action: RequestActionType) -> AnnouncementStatus {
    if action == RequestActionType::Create {
        AnnouncementStatus::WaitingForApproval
    } else {
        AnnouncementStatus::Active
    }
}

/// Whether `effect` is what a recorded `approval` brings about for a request
/// of `action` on an announcement starting at `start_date` and shown on
/// `devices`, on day `today`.
pub open spec fn effect_of(
    effect: ApprovalEffect,
    action: RequestActionType,
    start_date: Timestamp,
    devices: Seq<i32>,
    today: Timestamp,
    metadata: RequestMetadata,
    approval: RequestApproval,
) -> bool {
    if !fully_approved(approval) {
        if action == RequestActionType::Create && rejected_by_someone(approval) {
            effect is Reject
        } else {
            effect is Unchanged
        }
    } else {
        match action {
            RequestActionType::Create => if start_date == today {
                effect matches ApprovalEffect::Activate(ids) && ids@ == devices
            } else {
                effect is AwaitSync
            },
            RequestActionType::Delete => effect matches ApprovalEffect::Cancel(ids) && ids@ == devices,
            RequestActionType::ExtendDate => effect == ApprovalEffect::ExtendEndDate(
                metadata.extended_end_date->0,
            ),
            RequestActionType::ChangeDevices => effect matches ApprovalEffect::ChangeDevices(
                gone,
                added,
            ) && gone@ == removed_ids(devices, metadata.new_device_ids->0@) && added@ == added_ids(
                devices,
                metadata.new_device_ids->0@,
            ),
        }
    }
}

/// The ids a device change drops are exactly those the announcement was
/// shown on and the new set leaves out, and the ids it adds exactly those
/// of the new set it was not shown on.
pub proof fn law_device_change_sets(old: Seq<i32>, new: Seq<i32>)
    ensures
        forall|x: i32| #[trigger] removed_ids(old, new).contains(x) <==> old.contains(x) && !new.contains(x),
        forall|x: i32| #[trigger] added_ids(old, new).contains(x) <==> new.contains(x) && !old.contains(x),
{
    let keep_old = |id: i32| !new.contains(id);
    let keep_new = |id: i32| !old.contains(id);
    assert(removed_ids(old, new) == old.filter(keep_old));
    assert(added_ids(old, new) == new.filter(keep_new));
    assert forall|x: i32| #[trigger] removed_ids(old, new).contains(x) <==> old.contains(x) && !new.contains(x) by {
        let f = old.filter(keep_old);
        if f.contains(x) {
            old.lemma_filter_contains_rev(keep_old, x);
            let j = choose|j: int| 0 <= j < f.len() && f[j] == x;
            old.lemma_filter_pred(keep_old, j);
        }
        if old.contains(x) && !new.contains(x) {
            let i = choose|i: int| 0 <= i < old.len() && old[i] == x;
            old.lemma_filter_contains(keep_old, i);
        }
    }
    assert forall|x: i32| #[trigger] added_ids(old, new).contains(x) <==> new.contains(x) && !old.contains(x) by {
        let f = new.filter(keep_new);
        if f.contains(x) {
            new.lemma_filter_contains_rev(keep_new, x);
            let j = choose|j: int| 0 <= j < f.len() && f[j] == x;
            new.lemma_filter_pred(keep_new, j);
        }
        if new.contains(x) && !old.contains(x) {
            let i = choose|i: int| 0 <= i < new.len() && new[i] == x;
            new.lemma_filter_contains(keep_new, i);
        }
    }
}

/// What a decision both parties approve does to an announcement is made of
/// the devices it is shown on: a deletion withdraws it from exactly those
/// devices, a creation starting today pushes it to exactly those, and a
/// device change drops exactly the shown devices the new set leaves out and
/// adds exactly the new devices it was not shown on.
pub proof fn law_approved_effects_follow_the_devices(
    effect: ApprovalEffect,
    action: RequestActionType,
    start_date: Timestamp,
    devices: Seq<i32>,
    today: Timestamp,
    metadata: RequestMetadata,
    approval: RequestApproval,
)
    requires
        effect_of(effect, action, start_date, devices, today, metadata, approval),
        fully_approved(approval),
        action == RequestActionType::ChangeDevices ==> metadata.new_device_ids is Some,
    ensures
        action == RequestActionType::Delete ==> (effect matches ApprovalEffect::Cancel(ids) && ids@ == devices),
        action == RequestActionType::Create && start_date == today ==> (effect matches ApprovalEffect::Activate(ids) && ids@
            == devices),
        action == RequestActionType::ChangeDevices ==> (effect matches ApprovalEffect::ChangeDevices(gone, added) && (forall|x: i32|
            #[trigger] gone@.contains(x) <==> devices.contains(x) && !metadata.new_device_ids->0@.contains(x)) && (forall|x: i32|
            #[trigger] added@.contains(x) <==> metadata.new_device_ids->0@.contains(x) && !devices.contains(x))),
{
    if action == RequestActionType::ChangeDevices {
        law_device_change_sets(devices, metadata.new_device_ids->0@);
    }
}

/// Decides what a recorded approval does to the announcement, or refuses
/// when the announcement is not in the status the action requires.
pub fn plan_approval(
    action: RequestActionType,
    status: AnnouncementStatus,
    start_date: Timestamp,
    devices: &Vec<i32>,
    today: Timestamp,
    metadata: &RequestMetadata,
    approval: &RequestApproval,
) -> (r: Result<ApprovalEffect, UpdateRequestApprovalError>)
    requires
        status == required_status(action) && fully_approved(*approval) ==> (action
            == RequestActionType::ExtendDate ==> metadata.extended_end_date is Some) && (action
            == RequestActionType::ChangeDevices ==> metadata.new_device_ids is Some),
    ensures
        action == RequestActionType::Delete && status == AnnouncementStatus::Active && fully_approved(*approval) ==> (r matches Ok(
            ApprovalEffect::Cancel(ids),
        ) && ids@ == devices@),
        action == RequestActionType::Create && status == AnnouncementStatus::WaitingForApproval && fully_approved(*approval)
            && start_date == today ==> (r matches Ok(ApprovalEffect::Activate(ids)) && ids@ == devices@),
        action == RequestActionType::ChangeDevices && status == AnnouncementStatus::Active && fully_approved(*approval)
            ==> (r matches Ok(ApprovalEffect::ChangeDevices(gone, added)) && (forall|x: i32| #[trigger] gone@.contains(x)
            <==> devices@.contains(x) && !metadata.new_device_ids->0@.contains(x)) && (forall|x: i32| #[trigger] added@.contains(x)
            <==> metadata.new_device_ids->0@.contains(x) && !devices@.contains(x))),
        status != required_status(action) ==> (r matches Err(
            UpdateRequestApprovalError::InvalidAnnouncementStatus(m),
        ) && m@ == (if action == RequestActionType::Create {
            "Announcement status should be Waiting for Approval"@
        } else {
            "Announcement status should be Active"@
        })),
        status == required_status(action) ==> (r matches Ok(effect) && effect_of(
            effect,
            action,
            start_date,
            devices@,
            today,
            *metadata,
            *approval,
        )),
{
    let fully = approval.approved_by_bm == Some(true) && approval.approved_by_lsc == Some(true);
    match action {
        RequestActionType::Create => {
            if status != AnnouncementStatus::WaitingForApproval {
                return Err(
                    UpdateRequestApprovalError::InvalidAnnouncementStatus(
                        String::from_str("Announcement status should be Waiting for Approval"),
                    ),
                );
            }
            if fully {
                if today == start_date {
                    Ok(ApprovalEffect::Activate(devices.clone()))
                } else {
                    Ok(ApprovalEffect::AwaitSync)
                }
            } else if approval.approved_by_bm == Some(false) || approval.approved_by_lsc == Some(
                false,
            ) {
                Ok(ApprovalEffect::Reject)
            } else {
                Ok(ApprovalEffect::Unchanged)
            }
        },
        _ => {
            if status != AnnouncementStatus::Active {
                return Err(
                    UpdateRequestApprovalError::InvalidAnnouncementStatus(
                        String::from_str("Announcement status should be Active"),
                    ),
                );
            }
            if !fully {
                return Ok(ApprovalEffect::Unchanged);
            }
            match action {
                RequestActionType::Delete => Ok(ApprovalEffect::Cancel(devices.clone())),
                RequestActionType::ExtendDate => {
                    let end = match metadata.extended_end_date {
                        Some(d) => d,
                        None => start_date,
                    };
                    Ok(ApprovalEffect::ExtendEndDate(end))
                },
                _ => {
                    match &metadata.new_device_ids {
                        Some(new_ids) => {
                            let (gone, added) = device_changes(devices, new_ids);
                            proof {
                                law_device_change_sets(devices@, new_ids@);
                            }
                            Ok(ApprovalEffect::ChangeDevices(gone, added))
                        },
                        None => Ok(ApprovalEffect::Unchanged),
                    }
                },
            }
        },
    }
}

/// One write that recording a decision makes, on the announcement the
/// request is about (or, for the last one, on the request itself).
#[derive(Debug)]
pub enum ApprovalWrite {
    /// Move the announcement to a status.
    UpdateStatus(AnnouncementStatus),
    /// Push the announcement to the queues of these devices.
    QueueCreate(Vec<i32>),
    /// Withdraw the announcement from the queues of these devices.
    QueueDelete(Vec<i32>),
    /// Reject the announcement's other pending requests.
    RejectRequests,
    /// Move the announcement's end date.
    ExtendEndDate(Timestamp),
    /// Drop the first devices from the announcement's targets, add the second.
    UpdateTargetDevices(Vec<i32>, Vec<i32>),
    /// Record the approval on the request.
    RecordApproval,
}

/// Whether `w` moves the announcement to `status`.
pub open spec fn writes_status(w: ApprovalWrite, status: AnnouncementStatus) -> bool {
    w matches ApprovalWrite::UpdateStatus(st) && st == status
}

/// Whether `writes` is, in order, what recording a decision with `effect`
/// does: the announcement's writes first, the approval on the request last.
pub open spec fn writes_for(writes: Seq<ApprovalWrite>, effect: ApprovalEffect) -> bool {
    &&& writes.len() > 0
    &&& writes.last() is RecordApproval
    &&& match effect {
        ApprovalEffect::Unchanged => writes.len() == 1,
        ApprovalEffect::Activate(ids) => writes.len() == 3 && writes_status(writes[0], AnnouncementStatus::Active)
            && (writes[1] matches ApprovalWrite::QueueCreate(d) && d@ == ids@),
        ApprovalEffect::AwaitSync => writes.len() == 2 && writes_status(writes[0], AnnouncementStatus::WaitingForSync),
        ApprovalEffect::Reject => writes.len() == 2 && writes_status(writes[0], AnnouncementStatus::Rejected),
        ApprovalEffect::Cancel(ids) => writes.len() == 4 && (writes[0] matches ApprovalWrite::QueueDelete(d) && d@
            == ids@) && writes_status(writes[1], AnnouncementStatus::Canceled) && writes[2] is RejectRequests,
        ApprovalEffect::ExtendEndDate(end) => writes.len() == 2 && writes[0] == ApprovalWrite::ExtendEndDate(end),
        ApprovalEffect::ChangeDevices(gone, added) => writes.len() == 4 && (writes[0] matches ApprovalWrite::UpdateTargetDevices(
            g,
            a,
        ) && g@ == gone@ && a@ == added@) && (writes[1] matches ApprovalWrite::QueueDelete(d) && d@ == gone@)
            && (writes[2] matches ApprovalWrite::QueueCreate(c) && c@ == added@),
    }
}

/// The writes that recording a decision with `effect` makes, in the order
/// they are made: the changes to the announcement and its device queues
/// first, then the approval on the request.
pub fn approval_writes(effect: &ApprovalEffect) -> (r: Vec<ApprovalWrite>)
    ensures
        writes_for(r@, *effect),
{
    let mut w: Vec<ApprovalWrite> = Vec::new();
    match effect {
        ApprovalEffect::Unchanged => {},
        ApprovalEffect::Activate(ids) => {
            w.push(ApprovalWrite::UpdateStatus(AnnouncementStatus::Active));
            let d = ids.clone();
            proof { assert(d@ =~= ids@); }
            w.push(ApprovalWrite::QueueCreate(d));
        },
        ApprovalEffect::AwaitSync => {
            w.push(ApprovalWrite::UpdateStatus(AnnouncementStatus::WaitingForSync));
        },
        ApprovalEffect::Reject => {
            w.push(ApprovalWrite::UpdateStatus(AnnouncementStatus::Rejected));
        },
        ApprovalEffect::Cancel(ids) => {
            let d = ids.clone();
            proof { assert(d@ =~= ids@); }
            w.push(ApprovalWrite::QueueDelete(d));
            w.push(ApprovalWrite::UpdateStatus(AnnouncementStatus::Canceled));
            w.push(ApprovalWrite::RejectRequests);
        },
        ApprovalEffect::ExtendEndDate(end) => {
            w.push(ApprovalWrite::ExtendEndDate(*end));
        },
        ApprovalEffect::ChangeDevices(gone, added) => {
            let g = gone.clone();
            let a = added.clone();
            let g2 = gone.clone();
            let a2 = added.clone();
            proof {
                assert(g@ =~= gone@);
                assert(a@ =~= added@);
                assert(g2@ =~= gone@);
                assert(a2@ =~= added@);
            }
            w.push(ApprovalWrite::UpdateTargetDevices(g, a));
            w.push(ApprovalWrite::QueueDelete(g2));
            w.push(ApprovalWrite::QueueCreate(a2));
        },
    }
    w.push(ApprovalWrite::RecordApproval);
    w
}

/// What recording a decision does next, after `done` of its writes went
/// through and the last one answered `succeeded`.
#[derive(Debug)]
pub enum ApprovalNext {
    /// Make the write at this position.
    Perform(usize),
    /// The decision is over with this answer.
    Finish(Result<(), UpdateRequestApprovalError>),
}

/// One step of recording a decision: the writes are made one after the
/// other in their order; the first that fails answers
/// `InternalServerError` and no later write is made; once the last one
/// (the approval) went through the answer is `Ok(())`. The first step is
/// `approval_step(n, 0, true)`.
pub fn approval_step(write_count: usize, done: usize, succeeded: bool) -> (r: ApprovalNext)
    requires
        done <= write_count,
    ensures
        !succeeded ==> (r matches ApprovalNext::Finish(Err(e)) && e is InternalServerError),
        succeeded && done < write_count ==> r == ApprovalNext::Perform(done),
        succeeded && done == write_count ==> r matches ApprovalNext::Finish(Ok(())),
{
    if !succeeded {
        ApprovalNext::Finish(Err(UpdateRequestApprovalError::InternalServerError))
    } else if done < write_count {
        ApprovalNext::Perform(done)
    } else {
        ApprovalNext::Finish(Ok(()))
    }
}

/// Checks a new request against its announcement: extending, deleting and
/// changing devices need an active announcement, and an extension must end
/// after the current end date.
pub fn check_new_request(
    action: RequestActionType,
    status: AnnouncementStatus,
    end_date: Timestamp,
    extended_end_date: Option<Timestamp>,
) -> (r: Result<(), CreateRequestError>)
    ensures
        action != RequestActionType::Create && status != AnnouncementStatus::Active ==> (r matches Err(
            CreateRequestError::InvalidAnnouncementStatus(m),
        ) && m@ == "Unable to create request, announcement status must be active"@),
        !(action != RequestActionType::Create && status != AnnouncementStatus::Active) ==> match extended_end_date {
            Some(d) => if !before(end_date, d) {
                r matches Err(CreateRequestError::InvalidExtendedEndDate(m)) && m@
                    == "Extended end date must be after the current announcement end date"@
            } else {
                r is Ok
            },
            None => r is Ok,
        },
{
    if action != RequestActionType::Create && status != AnnouncementStatus::Active {
        return Err(
            CreateRequestError::InvalidAnnouncementStatus(
                "Unable to create request, announcement status must be active",
            ),
        );
    }
    if let Some(d) = extended_end_date {
        if is_at_or_before(d, end_date) {
            return Err(
                CreateRequestError::InvalidExtendedEndDate(
                    "Extended end date must be after the current announcement end date",
                ),
            );
        }
    }
    Ok(())
}

/// Whether every requested device exists: the store counts the requested ids
/// that match a live device, and the count must equal the number of ids (as
/// an `i32`, the way the store compares them).
pub fn check_new_devices(found: i32, device_ids: &Vec<i32>) -> (r: Result<(), CreateRequestError>)
    ensures
        found == (device_ids@.len() as i32) ==> r is Ok,
        found != (device_ids@.len() as i32) ==> (r matches Err(CreateRequestError::InvalidDeviceIds(m))
            && m@ == "Invalid device ids, some of the ids don't exist in the system"@),
{
    if found == device_ids.len() as i32 {
        Ok(())
    } else {
        Err(
            CreateRequestError::InvalidDeviceIds(
                "Invalid device ids, some of the ids don't exist in the system",
            ),
        )
    }
}

/// The error of a failed announcement lookup while creating a request.
pub fn request_announcement_lookup_error(e: &StoreError) -> (r: CreateRequestError)
    ensures
        e is RowNotFound ==> (r matches CreateRequestError::AnnouncementNotFound(m) && m@
            == "Unable to find the corresponding announcement"@),
        !(e is RowNotFound) ==> r is InternalServerError,
{
    match e {
        StoreError::RowNotFound => CreateRequestError::AnnouncementNotFound(
            "Unable to find the corresponding announcement",
        ),
        _ => CreateRequestError::InternalServerError,
    }
}

/// The error of a failed request insert: a foreign key violation means the
/// announcement or the author is gone.
pub fn request_insert_error(e: &StoreError) -> (r: CreateRequestError)
    ensures
        e.kind() == StoreErrorKind::ForeignKey ==> (r matches CreateRequestError::EntityNotFound(m)
            && m@ == "Announcement or User not found"@),
        e.kind() != StoreErrorKind::ForeignKey ==> r is InternalServerError,
{
    if e.classify() == StoreErrorKind::ForeignKey {
        CreateRequestError::EntityNotFound(String::from_str("Announcement or User not found"))
    } else {
        CreateRequestError::InternalServerError
    }
}

/// Which lookup failed while recording a decision.
#[derive(Debug, Clone, Copy, PartialEq, Eq, Structural)]
pub enum ApprovalLookup {
    Request,
    Approver,
    Announcement,
}

/// The error of a failed lookup while recording a decision: a missing row
/// names what is missing; anything else is internal.
pub fn approval_lookup_error(what: ApprovalLookup, e: &StoreError) -> (r: UpdateRequestApprovalError)
    ensures
        e is RowNotFound ==> match what {
            ApprovalLookup::Request => r matches UpdateRequestApprovalError::RequestNotFound(m) && m@
                == "Request not found"@,
            ApprovalLookup::Approver => r matches UpdateRequestApprovalError::UserNotFound(m) && m@
                == "Approver not found"@,
            ApprovalLookup::Announcement => r matches UpdateRequestApprovalError::AnnouncementNotFound(
                m,
            ) && m@ == "Announcement not found"@,
        },
        !(e is RowNotFound) ==> r is InternalServerError,
{
    match e {
        StoreError::RowNotFound => match what {
            ApprovalLookup::Request => UpdateRequestApprovalError::RequestNotFound(
                String::from_str("Request not found"),
            ),
            ApprovalLookup::Approver => UpdateRequestApprovalError::UserNotFound(
                String::from_str("Approver not found"),
            ),
            ApprovalLookup::Announcement => UpdateRequestApprovalError::AnnouncementNotFound(
                String::from_str("Announcement not found"),
            ),
        },
        _ => UpdateRequestApprovalError::InternalServerError,
    }
}

/// A recorded decision never changes a decision that was already there.
pub proof fn law_decisions_are_final(cur: RequestApproval, role: ApproverRole, approver: i32, approval: bool)
    ensures
        decide(cur, role, approver, approval) matches ApprovalDecision::Recorded(next) ==> {
            &&& cur.approved_by_lsc is Some ==> next.approved_by_lsc == cur.approved_by_lsc
                && next.lsc_approver == cur.lsc_approver
            &&& cur.approved_by_bm is Some ==> next.approved_by_bm == cur.approved_by_bm
                && next.bm_approver == cur.bm_approver
        },
{
}

/// A recorded decision fills at least one empty slot with the decision and
/// its author.
pub proof fn law_decision_fills_a_slot(cur: RequestApproval, role: ApproverRole, approver: i32, approval: bool)
    ensures
        decide(cur, role, approver, approval) matches ApprovalDecision::Recorded(next) ==> {
            ||| cur.approved_by_lsc is None && next.approved_by_lsc == Some(approval)
                && next.lsc_approver == Some(approver)
            ||| cur.approved_by_bm is None && next.approved_by_bm == Some(approval)
                && next.bm_approver == Some(approver)
        },
{
}

/// No one decides twice under the same role: once a decision is recorded,
/// the same role is refused as having already decided.
pub proof fn law_no_second_decision(cur: RequestApproval, role: ApproverRole, approver: i32, approval: bool, again: i32, second: bool)
    ensures
        decide(cur, role, approver, approval) matches ApprovalDecision::Recorded(next)
            ==> decide(next, role, again, second) == ApprovalDecision::AlreadyDecided,
{
}

/// Only the LSC, building manager and admin roles may decide.
pub proof fn law_only_approvers_decide(value: Seq<char>, cur: RequestApproval, approver: i32, approval: bool)
    ensures
        decide(cur, approver_role_spec(value), approver, approval) == ApprovalDecision::Forbidden
            <==> !(value == "lsc"@ || value == "bm"@ || value == "admin"@),
{
}

/// After a device change the announcement is on exactly the new devices:
/// every new device was either kept or added, nothing removed is still
/// wanted, and nothing added was already there.
pub proof fn law_device_change_reaches_new_set(old: Seq<i32>, new: Seq<i32>)
    ensures
        forall|id: i32| #[trigger] new.contains(id) ==> (old.contains(id) && !removed_ids(old, new).contains(id)) || added_ids(old, new).contains(id),
        forall|id: i32| #[trigger] removed_ids(old, new).contains(id) ==> old.contains(id) && !new.contains(id),
        forall|id: i32| #[trigger] added_ids(old, new).contains(id) ==> new.contains(id) && !old.contains(id),
{
    broadcast use vstd::seq_lib::group_filter_ensures;
    assert forall|id: i32| #[trigger] new.contains(id) implies (old.contains(id) && !removed_ids(old, new).contains(id)) || added_ids(old, new).contains(id) by {
        if !old.contains(id) {
            let k = choose|k: int| 0 <= k < new.len() && new[k] == id;
            new.lemma_filter_contains(|x: i32| !old.contains(x), k);
        } else if removed_ids(old, new).contains(id) {
            old.lemma_filter_contains_rev(|x: i32| !new.contains(x), id);
            let k = choose|k: int| 0 <= k < removed_ids(old, new).len() && removed_ids(old, new)[k] == id;
            old.lemma_filter_pred(|x: i32| !new.contains(x), k);
        }
    }
    assert forall|id: i32| #[trigger] removed_ids(old, new).contains(id) implies old.contains(id) && !new.contains(id) by {
        old.lemma_filter_contains_rev(|x: i32| !new.contains(x), id);
        let k = choose|k: int| 0 <= k < removed_ids(old, new).len() && removed_ids(old, new)[k] == id;
        old.lemma_filter_pred(|x: i32| !new.contains(x), k);
    }
    assert forall|id: i32| #[trigger] added_ids(old, new).contains(id) implies new.contains(id) && !old.contains(id) by {
        new.lemma_filter_contains_rev(|x: i32| !old.contains(x), id);
        let k = choose|k: int| 0 <= k < added_ids(old, new).len() && added_ids(old, new)[k] == id;
        new.lemma_filter_pred(|x: i32| !old.contains(x), k);
    }
}


/// The body of an approval decision: `approve` or `reject`.
#[derive(Debug)]
pub struct UpdateRequestApprovalBody {
    pub action: String,
}

/// The decision an approval body states: `approve` approves, `reject`
/// rejects, anything else is refused.
pub fn approval_of_action(action: &str) -> (r: Result<bool, String>)
    ensures
        action@ == "approve"@ ==> r == Ok::<bool, String>(true),
        action@ == "reject"@ ==> r == Ok::<bool, String>(false),
        action@ != "approve"@ && action@ != "reject"@ ==> (r matches Err(m) && m@
            == "action should be approve or reject"@),
{
    proof {
        reveal_strlit("approve");
        reveal_strlit("reject");
        assert("reject"@.len() != "approve"@.len());
    }
    if str_eq(action, "approve") {
        Ok(true)
    } else if str_eq(action, "reject") {
        Ok(false)
    } else {
        Err(String::from_str("action should be approve or reject"))
    }
}

/// What an approval decision is made with.
#[derive(Debug, Clone, Copy)]
pub struct UpdateRequestApprovalParams {
    pub request_id: i32,
    pub approver_id: i32,
    pub approval: bool,
}

/// The body of a new request: the action, why, on which announcement, and
/// for an extension the new end date as `yyyy-mm-dd`.
#[derive(Debug)]
pub struct CreateRequestBody {
    pub action: RequestActionType,
    pub description: String,
    pub announcement_id: i32,
    pub extended_end_date: Option<String>,
}

/// The new end date a request with this action and date carries, or why
/// the request is refused: an extension needs a readable `yyyy-mm-dd` date,
/// a creation cannot be requested, the other actions carry none.
pub open spec fn end_date_outcome(action: RequestActionType, date: Option<String>) -> Result<Option<Timestamp>, Seq<char>> {
    match action {
        RequestActionType::ExtendDate => match date {
            None => Err("Extended end date is required when request action type is for extending the date"@),
            Some(d) => match calendar_date_start(d@) {
                None => Err("Date format must be yyyy-mm-dd"@),
                Some(t) => Ok(Some(t)),
            },
        },
        RequestActionType::Create => Err("Unable to create new request with action \"create\""@),
        _ => Ok(None),
    }
}

/// Only an extension carries a new end date: a deletion or a device change
/// is accepted with none whatever date it came with, a creation is never
/// filed this way, and an extension is accepted exactly when its date reads,
/// with the midnight of that date.
pub proof fn law_only_extensions_carry_an_end_date(action: RequestActionType, date: Option<String>)
    ensures
        action == RequestActionType::Delete || action == RequestActionType::ChangeDevices ==> end_date_outcome(action, date)
            == Ok::<Option<Timestamp>, Seq<char>>(None),
        action == RequestActionType::Create ==> end_date_outcome(action, date) is Err,
        action == RequestActionType::ExtendDate ==> match date {
            Some(d) => match calendar_date_start(d@) {
                Some(t) => end_date_outcome(action, date) == Ok::<Option<Timestamp>, Seq<char>>(Some(t)),
                None => end_date_outcome(action, date) is Err,
            },
            None => end_date_outcome(action, date) is Err,
        },
{
}

/// The new end date a request body carries, checked against its action: an
/// extension needs a readable date, a creation cannot be requested, the
/// other actions carry none.
pub fn requested_end_date(body: &CreateRequestBody) -> (r: Result<Option<Timestamp>, String>)
    ensures
        body.action == RequestActionType::Delete || body.action == RequestActionType::ChangeDevices ==> (r matches Ok(
            d,
        ) && d is None),
        body.action == RequestActionType::ExtendDate ==> (r is Ok <==> (body.extended_end_date matches Some(d)
            && calendar_date_start(d@) is Some)),
        body.action == RequestActionType::ExtendDate && r is Ok ==> (r matches Ok(Some(t)) && Some(t)
            == calendar_date_start(body.extended_end_date->0@)),
        body.action == RequestActionType::Create ==> r is Err,
        match end_date_outcome(body.action, body.extended_end_date) {
            Ok(e) => r matches Ok(x) && x == e,
            Err(m) => r matches Err(x) && x@ == m,
        },
{
    match body.action {
        RequestActionType::ExtendDate => {
            let date = match &body.extended_end_date {
                Some(d) => d,
                None => return Err(String::from_str(
                    "Extended end date is required when request action type is for extending the date",
                )),
            };
            match parse_calendar_date(date.as_str()) {
                Ok(t) => Ok(Some(t)),
                Err(_) => Err(String::from_str("Date format must be yyyy-mm-dd")),
            }
        },
        RequestActionType::Create => Err(String::from_str("Unable to create new request with action \"create\"")),
        _ => Ok(None),
    }
}

/// The request list's query string.
#[derive(Debug)]
pub struct ListRequestQueryParams {
    pub page: Option<i32>,
    pub limit: Option<i32>,
    pub request_id: Option<i32>,
    pub announcement_id: Option<i32>,
    pub user_id: Option<i32>,
    pub action_type: Option<RequestActionType>,
    pub approved_by_lsc: Option<bool>,
    pub approved_by_bm: Option<bool>,
}

/// What the request list is asked for.
#[derive(Debug)]
pub struct ListRequestParams {
    pub page: i32,
    pub limit: i32,
    pub request_id: Option<i32>,
    pub announcement_id: Option<i32>,
    pub user_id: Option<i32>,
    pub action_type: Option<RequestActionType>,
    pub approved_by_lsc: Option<bool>,
    pub approved_by_bm: Option<bool>,
}

/// The list request a query string makes: page 1 and 25 requests a page
/// unless the query says otherwise; the filters pass through.
pub fn list_request_params(q: ListRequestQueryParams) -> (r: ListRequestParams)
    ensures
        r.page == (match q.page {
            Some(p) => p,
            None => 1,
        }),
        r.limit == (match q.limit {
            Some(l) => l,
            None => 25,
        }),
        r.request_id == q.request_id,
        r.announcement_id == q.announcement_id,
        r.user_id == q.user_id,
        r.action_type == q.action_type,
        r.approved_by_lsc == q.approved_by_lsc,
        r.approved_by_bm == q.approved_by_bm,
{
    let page = match q.page {
        Some(p) => p,
        None => 1,
    };
    let limit = match q.limit {
        Some(l) => l,
        None => 25,
    };
    ListRequestParams {
        page,
        limit,
        request_id: q.request_id,
        announcement_id: q.announcement_id,
        user_id: q.user_id,
        action_type: q.action_type,
        approved_by_lsc: q.approved_by_lsc,
        approved_by_bm: q.approved_by_bm,
    }
}

/// The announcement a listed request is about.
#[derive(Debug)]
pub struct ListRequestContentAnnouncement {
    pub id: i32,
    pub title: String,
}

/// The author of a listed request.
#[derive(Debug)]
pub struct ListRequestContentAuthor {
    pub id: i32,
    pub name: String,
}

/// How far a listed request is approved: by each party, if they decided.
#[derive(Debug, Clone, Copy)]
pub struct ListRequestContentApprovalStatus {
    pub lsc: Option<bool>,
    pub bm: Option<bool>,
}

/// The action of a listed request: its label and value.
#[derive(Debug)]
pub struct ListRequestContentAction {
    pub label: String,
    pub value: String,
}

/// The action of a listed request as shown.
pub fn request_action_object(action: RequestActionType) -> (r: ListRequestContentAction)
    ensures
        r.label@ == action.label_text(),
        r.value@ == action.value_text(),
{
    ListRequestContentAction { label: String::from_str(action.label()), value: String::from_str(action.value()) }
}

/// What a new request is made from: the action, why, on which announcement,
/// by whom, and what the action needs (a new end date, a new device set).
#[derive(Debug)]
pub struct CreateRequestParams {
    pub action: RequestActionType,
    pub description: String,
    pub announcement_id: i32,
    pub user_id: i32,
    pub extended_end_date: Option<Timestamp>,
    pub new_device_ids: Option<Vec<i32>>,
}

impl CreateRequestParams {
    /// A request with no new end date and no new device set yet.
    pub fn new(action: RequestActionType, description: String, announcement_id: i32, user_id: i32) -> (r: CreateRequestParams)
        ensures
            r.action == action,
            r.description@ == description@,
            r.announcement_id == announcement_id,
            r.user_id == user_id,
            r.extended_end_date is None,
            r.new_device_ids is None,
    {
        CreateRequestParams {
            action,
            description,
            announcement_id,
            user_id,
            extended_end_date: None,
            new_device_ids: None,
        }
    }

    /// Sets the new end date.
    pub fn extended_end_date(self, extended_end_date: Timestamp) -> (r: CreateRequestParams)
        ensures
            r.extended_end_date == Some(extended_end_date),
            r.action == self.action,
            r.description == self.description,
            r.announcement_id == self.announcement_id,
            r.user_id == self.user_id,
            r.new_device_ids == self.new_device_ids,
    {
        CreateRequestParams { extended_end_date: Some(extended_end_date), ..self }
    }

    /// Sets the new device set.
    pub fn new_device_ids(self, new_device_ids: Vec<i32>) -> (r: CreateRequestParams)
        ensures
            r.new_device_ids == Some(new_device_ids),
            r.action == self.action,
            r.description == self.description,
            r.announcement_id == self.announcement_id,
            r.user_id == self.user_id,
            r.extended_end_date == self.extended_end_date,
    {
        CreateRequestParams { new_device_ids: Some(new_device_ids), ..self }
    }
}

/// The request a body asks for, by `user_id`: refused as
/// `requested_end_date` refuses it, else with the body's action,
/// description and announcement and, for an extension, its new end date.
pub fn create_request_params(body: CreateRequestBody, user_id: i32) -> (r: Result<CreateRequestParams, String>)
    ensures
        body.action == RequestActionType::Delete || body.action == RequestActionType::ChangeDevices ==> (r matches Ok(p)
            && p.extended_end_date is None && p.action == body.action),
        match end_date_outcome(body.action, body.extended_end_date) {
            Ok(end) => r matches Ok(p) && p.action == body.action && p.description@ == body.description@
                && p.announcement_id == body.announcement_id && p.user_id == user_id && p.new_device_ids is None
                && p.extended_end_date == end,
            Err(m) => r matches Err(x) && x@ == m,
        },
{
    let end = match requested_end_date(&body) {
        Ok(e) => e,
        Err(m) => return Err(m),
    };
    let params = CreateRequestParams::new(body.action, body.description, body.announcement_id, user_id);
    match end {
        Some(t) => Ok(params.extended_end_date(t)),
        None => Ok(params),
    }
}
} // verus!
