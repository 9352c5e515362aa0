use enchiridion::database::StoreError;
use enchiridion::time::Timestamp;
use enchiridion::features::announcement::{
    announcement_dates, announcement_detail_error, create_announcement_error, device_ids_of,
    device_queue_name, list_announcement_window, media_filename, media_presigned_url_error,
    plan_device_jobs, AnnouncementErrorCode, AnnouncementStatus, CreateAnnouncementBody,
    CreateAnnouncementError, GetAnnouncementDetailError, ListAnnouncementQueryParams,
    CountAnnouncementParams, FindListAnnouncementParams, list_find_params, ListAnnouncementParams,
    announcement_insert, CreateAnnouncementParams, populate_media, Announcement, ListAnnouncementError, creation_request,
};
use enchiridion::features::queue::{
    announcement_messages, list_payload, payload_fields, resync_message, single_payload,
    AnnouncementQueueError, AnnouncementSyncAction, DeviceSynchronizationParams,
};

#[test]
fn announcement_status_labels_and_values() {
    assert_eq!(AnnouncementStatus::WaitingForApproval.label(), "Waiting For Approval");
    assert_eq!(AnnouncementStatus::WaitingForApproval.value(), "waiting_for_approval");
    assert_eq!(AnnouncementStatus::Rejected.value(), "rejected");
    let o = AnnouncementStatus::Active.object();
    assert_eq!(o.value, AnnouncementStatus::Active.value());
    assert_eq!(o.label, AnnouncementStatus::Active.label());
    assert_eq!(AnnouncementErrorCode::UserNotFound.to_string(), "USER_NOT_FOUND");
}

#[test]
fn announcement_errors_from_failed_queries() {
    let fk = StoreError::Database(Some("23503".to_string()));
    match create_announcement_error(&fk) {
        CreateAnnouncementError::UserNotFound(m) => assert_eq!(m, "User not found"),
        _ => panic!("expected a missing user"),
    }
    assert!(matches!(create_announcement_error(&StoreError::Other), CreateAnnouncementError::InternalServerError));
    match announcement_detail_error(&StoreError::RowNotFound) {
        GetAnnouncementDetailError::AnnouncementNotFound(m) => assert_eq!(m, "Announcement not found"),
        _ => panic!("expected a missing announcement"),
    }
    let e = media_presigned_url_error(&StoreError::Other);
    assert_eq!(e.to_string(), "Internal Server Error");
}

#[test]
fn media_filename_is_the_part_after_the_key() {
    assert_eq!(media_filename("announcement/1700000000.png"), "1700000000.png");
}

#[test]
fn device_ids_are_grouped_by_announcement() {
    let rows = vec![(1, 10), (2, 20), (1, 11)];
    assert_eq!(device_ids_of(&rows, 1), Some(vec![10, 11]));
    assert_eq!(device_ids_of(&rows, 3), None);
    let plan = plan_device_jobs(&vec![2, 1], &rows);
    assert!(plan.complete);
    assert_eq!(plan.jobs, vec![(2, vec![20]), (1, vec![10, 11])]);
    let plan = plan_device_jobs(&vec![1, 5, 2], &rows);
    assert!(!plan.complete);
    assert_eq!(plan.jobs, vec![(1, vec![10, 11])]);
}

#[test]
fn queue_names_and_payloads() {
    assert_eq!(device_queue_name(7), "device-queue-7");
    assert_eq!(device_queue_name(-1), "device-queue--1");
    let one = DeviceSynchronizationParams { action: AnnouncementSyncAction::Create, data: 5 };
    assert_eq!(single_payload(&one), "{\"action\":\"create\",\"data\":5}");
    let many = DeviceSynchronizationParams { action: AnnouncementSyncAction::Resync, data: vec![1, 22, 3] };
    assert_eq!(list_payload(&many), "{\"action\":\"resync\",\"data\":[1,22,3]}");
    let none = DeviceSynchronizationParams { action: AnnouncementSyncAction::Resync, data: vec![] };
    assert_eq!(list_payload(&none), "{\"action\":\"resync\",\"data\":[]}");
    assert_eq!(payload_fields(&"p".to_string()), vec![("data".to_string(), "p".to_string())]);
    assert_eq!(AnnouncementQueueError::InternalServerError.to_string(), "Internal Server Error");
}

#[test]
fn creating_an_announcement_queues_it_on_every_device() {
    let msgs = announcement_messages(AnnouncementSyncAction::Delete, &vec![3, 4], 9);
    assert_eq!(msgs.len(), 2);
    assert_eq!(msgs[0].queue, "device-queue-3");
    assert_eq!(msgs[1].queue, "device-queue-4");
    assert_eq!(msgs[1].payload, "{\"action\":\"delete\",\"data\":9}");
    let m = resync_message(4, vec![9, 10]);
    assert_eq!(m.queue, "device-queue-4");
    assert_eq!(m.payload, "{\"action\":\"resync\",\"data\":[9,10]}");
}

#[test]
fn announcement_dates_are_calendar_days() {
    let body = CreateAnnouncementBody {
        title: "t".to_string(),
        media_id: 1,
        start_date: "2023-05-01".to_string(),
        end_date: "2023-05-02".to_string(),
        notes: String::new(),
        device_ids: vec![1],
    };
    let (s, e) = announcement_dates(&body).unwrap();
    assert_eq!((s.secs, s.nanos), (1682899200, 0));
    assert_eq!(e.secs, 1682985600);
    let bad_start = CreateAnnouncementBody { start_date: "01/05/2023".to_string(), ..body };
    assert_eq!(announcement_dates(&bad_start).unwrap_err(), "Start date is invalid");
    let bad_end = CreateAnnouncementBody {
        start_date: "2023-05-01".to_string(),
        end_date: "2023-02-30".to_string(),
        ..bad_start
    };
    assert_eq!(announcement_dates(&bad_end).unwrap_err(), "End date is invalid");
}

#[test]
fn announcement_list_window() {
    let q = ListAnnouncementQueryParams {
        page: None,
        limit: Some(5),
        query: None,
        status: Some(AnnouncementStatus::Active),
        user_id: None,
        device_id: None,
        start_date: Some("2023-05-01".to_string()),
        end_date: None,
        populate_media: None,
    };
    let w = list_announcement_window(&q).unwrap();
    assert_eq!((w.page, w.limit), (1, 5));
    assert_eq!(w.start_date.unwrap().secs, 1682899200);
    assert!(w.end_date.is_none());
    let q = ListAnnouncementQueryParams { start_date: Some("yesterday".to_string()), ..q };
    assert_eq!(list_announcement_window(&q).unwrap_err(), "start_date must follow yyyy-mm-dd format");
    let q = ListAnnouncementQueryParams { start_date: None, end_date: Some("x".to_string()), ..q };
    assert_eq!(list_announcement_window(&q).unwrap_err(), "end_date must follow yyyy-mm-dd format");
}

#[test]
fn announcement_query_builders() {
    let c = CountAnnouncementParams::default().status(AnnouncementStatus::Active).start_date_gt(enchiridion::time::Timestamp::new(5, 0));
    assert_eq!(c.status, Some(AnnouncementStatus::Active));
    assert_eq!(c.start_date_lt, Some(enchiridion::time::Timestamp::new(5, 0)));
    assert!(c.start_date_gte.is_none() && c.query.is_none());
    let f = FindListAnnouncementParams::default().limit(7).user_id(3).end_date_lte(enchiridion::time::Timestamp::new(9, 0));
    assert_eq!((f.page, f.limit, f.user_id), (1, 7, Some(3)));
    assert_eq!(f.end_date_lte, Some(enchiridion::time::Timestamp::new(9, 0)));
}

#[test]
fn list_filters_reach_the_query() {
    let q = list_find_params(ListAnnouncementParams {
        page: 2,
        limit: 10,
        query: Some("open".to_string()),
        status: Some(AnnouncementStatus::Active),
        user_id: None,
        device_id: Some(4),
        start_date: Some(Timestamp { secs: 1682985600, nanos: 0 }),
        end_date: None,
        populate_media: Some(true),
    });
    assert_eq!((q.page, q.limit), (2, 10));
    assert_eq!(q.query.as_deref(), Some("open"));
    assert_eq!(q.status, Some(AnnouncementStatus::Active));
    assert_eq!(q.user_id, None);
    assert_eq!(q.device_id, Some(4));
    assert_eq!(q.start_date_gte.map(|t| t.secs), Some(1682985600));
    assert!(q.start_date_lt.is_none());
    assert!(q.end_date_lte.is_none());
}

#[test]
fn new_announcement_row_keeps_its_fields() {
    let row = announcement_insert(CreateAnnouncementParams {
        title: "Open house".to_string(),
        media_id: 8,
        start_date: Timestamp { secs: 10, nanos: 0 },
        end_date: Timestamp { secs: 20, nanos: 0 },
        notes: "n".to_string(),
        device_ids: vec![2, 2, 1],
        user_id: 5,
    });
    assert_eq!(row.title, "Open house");
    assert_eq!(row.notes, "n");
    assert_eq!((row.start_date.secs, row.end_date.secs), (10, 20));
    assert_eq!(row.device_ids, vec![2, 2, 1]);
    assert_eq!((row.user_id, row.media_id), (5, 8));
}

#[test]
fn listed_media_are_replaced_by_signed_addresses() {
    fn item(id: i32, media: &str) -> Announcement {
        Announcement {
            id,
            title: format!("t{}", id),
            start_date: Timestamp { secs: 1, nanos: 0 },
            end_date: Timestamp { secs: 2, nanos: 0 },
            status: AnnouncementStatus::Active,
            user_id: 3,
            user_name: "Jane".to_string(),
            media: media.to_string(),
            created_at: Timestamp { secs: 0, nanos: 0 },
            updated_at: Timestamp { secs: 0, nanos: 0 },
        }
    }
    let contents = vec![item(1, "a.png"), item(2, "b.mp4")];
    let signed = vec![Some("https://s/a".to_string()), Some("https://s/b".to_string())];
    let out = populate_media(&contents, &signed).unwrap();
    assert_eq!(out.len(), 2);
    assert_eq!(out[0].media, "https://s/a");
    assert_eq!(out[1].media, "https://s/b");
    assert_eq!(out[1].title, "t2");
    assert_eq!(out[0].id, 1);
    let signed = vec![Some("https://s/a".to_string()), None];
    assert!(matches!(populate_media(&contents, &signed), Err(ListAnnouncementError::InternalServerError)));
}

#[test]
fn new_announcement_is_filed_as_a_creation_request() {
    let params = CreateAnnouncementParams {
        title: "Open house".to_string(),
        media_id: 8,
        start_date: Timestamp { secs: 10, nanos: 0 },
        end_date: Timestamp { secs: 20, nanos: 0 },
        notes: "please".to_string(),
        device_ids: vec![1],
        user_id: 5,
    };
    let r = creation_request(&params, 42);
    assert_eq!(r.action, enchiridion::features::request::RequestActionType::Create);
    assert_eq!(r.description, "please");
    assert_eq!((r.announcement_id, r.user_id), (42, 5));
    assert!(r.extended_end_date.is_none() && r.new_device_ids.is_none());
}
