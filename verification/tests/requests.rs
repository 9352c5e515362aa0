use enchiridion::database::StoreError;
use enchiridion::features::announcement::AnnouncementStatus;
use enchiridion::features::request::{
    approval_lookup_error, approval_of_action, approver_role, check_new_devices, check_new_request,
    device_changes, list_request_params, plan_approval, request_action_object,
    request_announcement_lookup_error, request_insert_error, requested_end_date, resolve_approval,
    ApprovalEffect, ApprovalLookup, ApproverRole, CreateRequestBody, CreateRequestError,
    ListRequestQueryParams, RequestActionType, RequestApproval, RequestErrorCode, RequestMetadata,
    UpdateRequestApprovalError, create_request_params, CreateRequestParams, approval_writes, approval_step,
    ApprovalWrite, ApprovalNext,
};
use enchiridion::time::Timestamp;

fn pending() -> RequestApproval {
    RequestApproval { approved_by_lsc: None, approved_by_bm: None, lsc_approver: None, bm_approver: None }
}

fn day(secs: i64) -> Timestamp {
    Timestamp { secs, nanos: 0 }
}

#[test]
fn request_actions_have_labels_and_values() {
    assert_eq!(RequestActionType::ExtendDate.label(), "Extend Date");
    assert_eq!(RequestActionType::ChangeDevices.value(), "change_devices");
    let o = request_action_object(RequestActionType::Delete);
    assert_eq!((o.label.as_str(), o.value.as_str()), ("Delete", "delete"));
    assert!(!RequestErrorCode::InternalServerError.to_string().is_empty());
}

#[test]
fn approver_roles_from_role_values() {
    assert_eq!(approver_role("lsc"), ApproverRole::Lsc);
    assert_eq!(approver_role("bm"), ApproverRole::BuildingManager);
    assert_eq!(approver_role("admin"), ApproverRole::Admin);
    assert_eq!(approver_role("staff"), ApproverRole::NotAllowed);
}

#[test]
fn each_party_decides_once() {
    let a = resolve_approval(&pending(), ApproverRole::Lsc, 5, true).unwrap();
    assert_eq!(a.approved_by_lsc, Some(true));
    assert_eq!(a.lsc_approver, Some(5));
    assert_eq!(a.approved_by_bm, None);
    match resolve_approval(&a, ApproverRole::Lsc, 6, false) {
        Err(UpdateRequestApprovalError::RequestAlreadyApproved(m)) => assert_eq!(m, "Request already approved"),
        other => panic!("unexpected {:?}", other),
    }
    let b = resolve_approval(&a, ApproverRole::BuildingManager, 7, false).unwrap();
    assert_eq!(b.approved_by_bm, Some(false));
    assert_eq!(b.approved_by_lsc, Some(true));
    match resolve_approval(&pending(), ApproverRole::NotAllowed, 1, true) {
        Err(UpdateRequestApprovalError::UserForbiddenToApprove(m)) => {
            assert_eq!(m, "User is not allowed to approve a request")
        }
        other => panic!("unexpected {:?}", other),
    }
}

#[test]
fn an_admin_fills_the_empty_slots() {
    let a = resolve_approval(&pending(), ApproverRole::Lsc, 5, false).unwrap();
    let b = resolve_approval(&a, ApproverRole::Admin, 1, true).unwrap();
    assert_eq!(b.approved_by_lsc, Some(false));
    assert_eq!(b.lsc_approver, Some(5));
    assert_eq!(b.approved_by_bm, Some(true));
    assert_eq!(b.bm_approver, Some(1));
    assert!(resolve_approval(&b, ApproverRole::Admin, 1, true).is_err());
}

#[test]
fn approval_body_action() {
    assert_eq!(approval_of_action("approve"), Ok(true));
    assert_eq!(approval_of_action("reject"), Ok(false));
    assert_eq!(approval_of_action("maybe"), Err("action should be approve or reject".to_string()));
}

#[test]
fn approved_creation_activates_today_or_waits() {
    let both = RequestApproval {
        approved_by_lsc: Some(true),
        approved_by_bm: Some(true),
        lsc_approver: Some(1),
        bm_approver: Some(2),
    };
    let meta = RequestMetadata::default();
    let devices = vec![3, 4];
    match plan_approval(RequestActionType::Create, AnnouncementStatus::WaitingForApproval, day(100), &devices, day(100), &meta, &both) {
        Ok(ApprovalEffect::Activate(ids)) => assert_eq!(ids, vec![3, 4]),
        other => panic!("unexpected {:?}", other),
    }
    assert!(matches!(
        plan_approval(RequestActionType::Create, AnnouncementStatus::WaitingForApproval, day(200), &devices, day(100), &meta, &both),
        Ok(ApprovalEffect::AwaitSync)
    ));
    let rejected = RequestApproval { approved_by_bm: Some(false), ..both };
    assert!(matches!(
        plan_approval(RequestActionType::Create, AnnouncementStatus::WaitingForApproval, day(100), &devices, day(100), &meta, &rejected),
        Ok(ApprovalEffect::Reject)
    ));
    match plan_approval(RequestActionType::Delete, AnnouncementStatus::WaitingForApproval, day(100), &devices, day(100), &meta, &both) {
        Err(UpdateRequestApprovalError::InvalidAnnouncementStatus(m)) => {
            assert_eq!(m, "Announcement status should be Active")
        }
        other => panic!("unexpected {:?}", other),
    }
}

#[test]
fn approved_device_change_splits_old_and_new_devices() {
    let both = RequestApproval {
        approved_by_lsc: Some(true),
        approved_by_bm: Some(true),
        lsc_approver: Some(1),
        bm_approver: Some(2),
    };
    let meta = RequestMetadata::default().new_device_ids(vec![2, 5]);
    match plan_approval(RequestActionType::ChangeDevices, AnnouncementStatus::Active, day(0), &vec![1, 2], day(0), &meta, &both) {
        Ok(ApprovalEffect::ChangeDevices(gone, added)) => {
            assert_eq!(gone, vec![1]);
            assert_eq!(added, vec![5]);
        }
        other => panic!("unexpected {:?}", other),
    }
    assert_eq!(device_changes(&vec![1, 2, 3], &vec![3, 4]), (vec![1, 2], vec![4]));
    let ext = RequestMetadata::default().extended_end_date(day(999));
    assert!(matches!(
        plan_approval(RequestActionType::ExtendDate, AnnouncementStatus::Active, day(0), &vec![], day(0), &ext, &both),
        Ok(ApprovalEffect::ExtendEndDate(d)) if d == day(999)
    ));
}

#[test]
fn new_requests_need_an_active_announcement_and_a_later_end() {
    match check_new_request(RequestActionType::Delete, AnnouncementStatus::Done, day(10), None) {
        Err(CreateRequestError::InvalidAnnouncementStatus(m)) => {
            assert_eq!(m, "Unable to create request, announcement status must be active")
        }
        other => panic!("unexpected {:?}", other),
    }
    match check_new_request(RequestActionType::ExtendDate, AnnouncementStatus::Active, day(10), Some(day(10))) {
        Err(CreateRequestError::InvalidExtendedEndDate(m)) => {
            assert_eq!(m, "Extended end date must be after the current announcement end date")
        }
        other => panic!("unexpected {:?}", other),
    }
    assert!(check_new_request(RequestActionType::ExtendDate, AnnouncementStatus::Active, day(10), Some(day(11))).is_ok());
    assert!(check_new_devices(2, &vec![1, 2]).is_ok());
    assert!(matches!(check_new_devices(1, &vec![1, 2]), Err(CreateRequestError::InvalidDeviceIds(_))));
}

#[test]
fn request_body_end_dates() {
    let body = CreateRequestBody {
        action: RequestActionType::ExtendDate,
        description: "d".to_string(),
        announcement_id: 1,
        extended_end_date: Some("2023-05-02".to_string()),
    };
    assert_eq!(requested_end_date(&body).unwrap().unwrap().secs, 1682985600);
    let body = CreateRequestBody { extended_end_date: None, ..body };
    assert_eq!(
        requested_end_date(&body).unwrap_err(),
        "Extended end date is required when request action type is for extending the date"
    );
    let body = CreateRequestBody { extended_end_date: Some("2023-13-01".to_string()), ..body };
    assert_eq!(requested_end_date(&body).unwrap_err(), "Date format must be yyyy-mm-dd");
    let body = CreateRequestBody { action: RequestActionType::Create, ..body };
    assert_eq!(requested_end_date(&body).unwrap_err(), "Unable to create new request with action \"create\"");
    let body = CreateRequestBody { action: RequestActionType::Delete, ..body };
    assert_eq!(requested_end_date(&body).unwrap(), None);
}

#[test]
fn request_list_query_defaults() {
    let p = list_request_params(ListRequestQueryParams {
        page: None,
        limit: None,
        request_id: None,
        announcement_id: Some(3),
        user_id: None,
        action_type: Some(RequestActionType::Delete),
        approved_by_lsc: Some(true),
        approved_by_bm: None,
    });
    assert_eq!((p.page, p.limit), (1, 25));
    assert_eq!(p.announcement_id, Some(3));
    assert_eq!(p.action_type, Some(RequestActionType::Delete));
    assert_eq!(p.approved_by_lsc, Some(true));
}

#[test]
fn request_errors_from_failed_queries() {
    assert!(matches!(
        request_announcement_lookup_error(&StoreError::RowNotFound),
        CreateRequestError::AnnouncementNotFound("Unable to find the corresponding announcement")
    ));
    match request_insert_error(&StoreError::Database(Some("23503".to_string()))) {
        CreateRequestError::EntityNotFound(m) => assert_eq!(m, "Announcement or User not found"),
        other => panic!("unexpected {:?}", other),
    }
    match approval_lookup_error(ApprovalLookup::Approver, &StoreError::RowNotFound) {
        UpdateRequestApprovalError::UserNotFound(m) => assert_eq!(m, "Approver not found"),
        other => panic!("unexpected {:?}", other),
    }
    assert!(matches!(
        approval_lookup_error(ApprovalLookup::Request, &StoreError::Other),
        UpdateRequestApprovalError::InternalServerError
    ));
}

#[test]
fn request_params_from_a_body() {
    let body = CreateRequestBody {
        action: RequestActionType::ExtendDate,
        description: "longer".to_string(),
        announcement_id: 4,
        extended_end_date: Some("2023-05-02".to_string()),
    };
    let p = create_request_params(body, 9).unwrap();
    assert_eq!((p.action, p.announcement_id, p.user_id), (RequestActionType::ExtendDate, 4, 9));
    assert_eq!(p.description, "longer");
    assert_eq!(p.extended_end_date.unwrap().secs, 1682985600);
    assert!(p.new_device_ids.is_none());
    let body = CreateRequestBody {
        action: RequestActionType::Create,
        description: String::new(),
        announcement_id: 4,
        extended_end_date: None,
    };
    assert!(create_request_params(body, 9).is_err());
    let p = CreateRequestParams::new(RequestActionType::ChangeDevices, "d".to_string(), 1, 2).new_device_ids(vec![3]);
    assert_eq!(p.new_device_ids, Some(vec![3]));
    assert!(p.extended_end_date.is_none());
}

#[test]
fn refused_request_params_carry_their_message() {
    let body = CreateRequestBody {
        action: RequestActionType::ExtendDate,
        description: "longer".to_string(),
        announcement_id: 4,
        extended_end_date: Some("2/5/2023".to_string()),
    };
    assert_eq!(create_request_params(body, 9).unwrap_err(), "Date format must be yyyy-mm-dd");
    let body = CreateRequestBody {
        action: RequestActionType::ExtendDate,
        description: "longer".to_string(),
        announcement_id: 4,
        extended_end_date: None,
    };
    assert_eq!(
        create_request_params(body, 9).unwrap_err(),
        "Extended end date is required when request action type is for extending the date"
    );
    let body = CreateRequestBody {
        action: RequestActionType::Create,
        description: String::new(),
        announcement_id: 4,
        extended_end_date: None,
    };
    assert_eq!(create_request_params(body, 9).unwrap_err(), "Unable to create new request with action \"create\"");
    let body = CreateRequestBody {
        action: RequestActionType::Delete,
        description: "gone".to_string(),
        announcement_id: 4,
        extended_end_date: Some("2023-05-02".to_string()),
    };
    let p = create_request_params(body, 9).unwrap();
    assert!(p.extended_end_date.is_none());
}

#[test]
fn decisions_write_in_order_and_record_the_approval_last() {
    let w = approval_writes(&ApprovalEffect::ChangeDevices(vec![1], vec![4]));
    assert_eq!(w.len(), 4);
    assert!(matches!(&w[0], ApprovalWrite::UpdateTargetDevices(g, a) if g == &vec![1] && a == &vec![4]));
    assert!(matches!(&w[1], ApprovalWrite::QueueDelete(d) if d == &vec![1]));
    assert!(matches!(&w[2], ApprovalWrite::QueueCreate(c) if c == &vec![4]));
    assert!(matches!(&w[3], ApprovalWrite::RecordApproval));
    let w = approval_writes(&ApprovalEffect::Activate(vec![2, 3]));
    assert!(matches!(&w[0], ApprovalWrite::UpdateStatus(AnnouncementStatus::Active)));
    assert!(matches!(&w[1], ApprovalWrite::QueueCreate(c) if c == &vec![2, 3]));
    assert!(matches!(&w[2], ApprovalWrite::RecordApproval));
    let w = approval_writes(&ApprovalEffect::Cancel(vec![5]));
    assert!(matches!(&w[0], ApprovalWrite::QueueDelete(d) if d == &vec![5]));
    assert!(matches!(&w[1], ApprovalWrite::UpdateStatus(AnnouncementStatus::Canceled)));
    assert!(matches!(&w[2], ApprovalWrite::RejectRequests));
    assert!(matches!(&w[3], ApprovalWrite::RecordApproval));
    let w = approval_writes(&ApprovalEffect::ExtendEndDate(day(3)));
    assert!(matches!(&w[0], ApprovalWrite::ExtendEndDate(d) if *d == day(3)));
    assert_eq!(w.len(), 2);
    let w = approval_writes(&ApprovalEffect::AwaitSync);
    assert!(matches!(&w[0], ApprovalWrite::UpdateStatus(AnnouncementStatus::WaitingForSync)));
    let w = approval_writes(&ApprovalEffect::Reject);
    assert!(matches!(&w[0], ApprovalWrite::UpdateStatus(AnnouncementStatus::Rejected)));
    let w = approval_writes(&ApprovalEffect::Unchanged);
    assert_eq!(w.len(), 1);
    assert!(matches!(&w[0], ApprovalWrite::RecordApproval));
}

#[test]
fn a_failed_write_stops_the_decision() {
    assert!(matches!(approval_step(3, 0, true), ApprovalNext::Perform(0)));
    assert!(matches!(approval_step(3, 2, true), ApprovalNext::Perform(2)));
    assert!(matches!(approval_step(3, 3, true), ApprovalNext::Finish(Ok(()))));
    assert!(matches!(
        approval_step(3, 1, false),
        ApprovalNext::Finish(Err(UpdateRequestApprovalError::InternalServerError))
    ));
}
