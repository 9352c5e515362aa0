use enchiridion::features::announcement::{
    expiry_begin, expiry_step, pass_begin, pass_step, AnnouncementStatus, DevicePass, ExpiryAction, ExpiryEvent,
    ExpiryStage, PassAction, PassEvent, PassStage,
};
use enchiridion::time::Timestamp;

fn now() -> Timestamp {
    Timestamp { secs: 1_700_000_000, nanos: 0 }
}

fn listed(items: &[(i32, &str)]) -> PassEvent {
    PassEvent::Listed(Some(items.iter().map(|(id, t)| (*id, t.to_string())).collect()))
}

#[test]
fn start_pass_queues_every_announcement_then_activates() {
    let (stage, action) = pass_begin(DevicePass::Start, now());
    match &action {
        PassAction::Count { status, start_date_gte, end_date_lte } => {
            assert_eq!(*status, AnnouncementStatus::WaitingForSync);
            assert_eq!(start_date_gte.map(|t| t.secs), Some(now().secs));
            assert!(end_date_lte.is_none());
        },
        other => panic!("unexpected {:?}", other),
    }
    let (stage, action) = pass_step(DevicePass::Start, now(), stage, PassEvent::Counted(Some(2)));
    match &action {
        PassAction::List { status, start_date_gte, end_date_lte, page, limit } => {
            assert_eq!(*status, AnnouncementStatus::WaitingForSync);
            assert_eq!(start_date_gte.map(|t| t.secs), Some(now().secs));
            assert!(end_date_lte.is_none());
            assert_eq!((*page, *limit), (1, 2));
        },
        other => panic!("unexpected {:?}", other),
    }
    let (stage, action) = pass_step(DevicePass::Start, now(), stage, listed(&[(7, "image"), (9, "video")]));
    match &action {
        PassAction::FetchDevices { ids } => assert_eq!(ids, &vec![7, 9]),
        other => panic!("unexpected {:?}", other),
    }
    let (stage, action) =
        pass_step(DevicePass::Start, now(), stage, PassEvent::Mapped(Some(vec![(7, 1), (9, 2), (7, 3)])));
    match &action {
        PassAction::Enqueue { announcement_id, device_ids, media_type } => {
            assert_eq!(*announcement_id, 7);
            assert_eq!(device_ids, &vec![1, 3]);
            assert_eq!(media_type, "image");
        },
        other => panic!("unexpected {:?}", other),
    }
    let (stage, action) = pass_step(DevicePass::Start, now(), stage, PassEvent::Queued(true));
    match &action {
        PassAction::Enqueue { announcement_id, device_ids, media_type } => {
            assert_eq!(*announcement_id, 9);
            assert_eq!(device_ids, &vec![2]);
            assert_eq!(media_type, "video");
        },
        other => panic!("unexpected {:?}", other),
    }
    let (stage, action) = pass_step(DevicePass::Start, now(), stage, PassEvent::Queued(true));
    match &action {
        PassAction::UpdateStatus { ids, status } => {
            assert_eq!(ids, &vec![7, 9]);
            assert_eq!(*status, AnnouncementStatus::Active);
        },
        other => panic!("unexpected {:?}", other),
    }
    let (stage, action) = pass_step(DevicePass::Start, now(), stage, PassEvent::Updated(true));
    assert!(matches!(stage, PassStage::Finished));
    assert!(matches!(action, PassAction::Done { ok: true }));
}

#[test]
fn pass_with_nothing_to_do_ends_at_once() {
    let (stage, _) = pass_begin(DevicePass::Finish, now());
    let (stage, action) = pass_step(DevicePass::Finish, now(), stage, PassEvent::Counted(Some(0)));
    assert!(matches!(stage, PassStage::Finished));
    assert!(matches!(action, PassAction::Done { ok: true }));
}

#[test]
fn finish_pass_marks_done_then_rejects_requests() {
    let (stage, action) = pass_begin(DevicePass::Finish, now());
    match &action {
        PassAction::Count { status, start_date_gte, end_date_lte } => {
            assert_eq!(*status, AnnouncementStatus::Active);
            assert!(start_date_gte.is_none());
            assert_eq!(end_date_lte.map(|t| t.secs), Some(now().secs));
        },
        other => panic!("unexpected {:?}", other),
    }
    let (stage, _) = pass_step(DevicePass::Finish, now(), stage, PassEvent::Counted(Some(1)));
    let (stage, _) = pass_step(DevicePass::Finish, now(), stage, listed(&[(4, "image")]));
    let (stage, _) = pass_step(DevicePass::Finish, now(), stage, PassEvent::Mapped(Some(vec![(4, 8)])));
    let (stage, action) = pass_step(DevicePass::Finish, now(), stage, PassEvent::Queued(true));
    match &action {
        PassAction::UpdateStatus { ids, status } => {
            assert_eq!(ids, &vec![4]);
            assert_eq!(*status, AnnouncementStatus::Done);
        },
        other => panic!("unexpected {:?}", other),
    }
    let (stage, action) = pass_step(DevicePass::Finish, now(), stage, PassEvent::Updated(true));
    match &action {
        PassAction::RejectRequests { ids } => assert_eq!(ids, &vec![4]),
        other => panic!("unexpected {:?}", other),
    }
    assert!(matches!(stage, PassStage::Rejecting));
    let (stage, action) = pass_step(DevicePass::Finish, now(), stage, PassEvent::Rejected(true));
    assert!(matches!(stage, PassStage::Finished));
    assert!(matches!(action, PassAction::Done { ok: true }));
    let (_, action) = pass_step(DevicePass::Finish, now(), PassStage::Rejecting, PassEvent::Rejected(false));
    assert!(matches!(action, PassAction::Done { ok: false }));
}

#[test]
fn announcement_without_devices_fails_the_pass_after_earlier_jobs() {
    let (stage, _) = pass_begin(DevicePass::Start, now());
    let (stage, _) = pass_step(DevicePass::Start, now(), stage, PassEvent::Counted(Some(2)));
    let (stage, _) = pass_step(DevicePass::Start, now(), stage, listed(&[(1, "image"), (2, "image")]));
    let (stage, action) = pass_step(DevicePass::Start, now(), stage, PassEvent::Mapped(Some(vec![(1, 5)])));
    assert!(matches!(action, PassAction::Enqueue { announcement_id: 1, .. }));
    let (stage, action) = pass_step(DevicePass::Start, now(), stage, PassEvent::Queued(true));
    assert!(matches!(stage, PassStage::Finished));
    assert!(matches!(action, PassAction::Done { ok: false }));
    let (stage, _) = pass_begin(DevicePass::Start, now());
    let (stage, _) = pass_step(DevicePass::Start, now(), stage, PassEvent::Counted(Some(1)));
    let (stage, _) = pass_step(DevicePass::Start, now(), stage, listed(&[(3, "image")]));
    let (_, action) = pass_step(DevicePass::Start, now(), stage, PassEvent::Mapped(Some(vec![(1, 5)])));
    assert!(matches!(action, PassAction::Done { ok: false }));
}

#[test]
fn any_failure_ends_the_pass() {
    let (stage, _) = pass_begin(DevicePass::Start, now());
    let (_, action) = pass_step(DevicePass::Start, now(), stage, PassEvent::Counted(None));
    assert!(matches!(action, PassAction::Done { ok: false }));
    let (stage, _) = pass_begin(DevicePass::Start, now());
    let (stage, _) = pass_step(DevicePass::Start, now(), stage, PassEvent::Counted(Some(1)));
    let (stage, _) = pass_step(DevicePass::Start, now(), stage, listed(&[(3, "image")]));
    let (stage, _) = pass_step(DevicePass::Start, now(), stage, PassEvent::Mapped(Some(vec![(3, 5)])));
    let (_, action) = pass_step(DevicePass::Start, now(), stage, PassEvent::Queued(false));
    assert!(matches!(action, PassAction::Done { ok: false }));
    let (_, action) =
        pass_step(DevicePass::Start, now(), PassStage::Updating { ids: vec![3] }, PassEvent::Updated(false));
    assert!(matches!(action, PassAction::Done { ok: false }));
    let (_, action) = pass_step(DevicePass::Start, now(), PassStage::Counting, PassEvent::Queued(true));
    assert!(matches!(action, PassAction::Done { ok: false }));
}

#[test]
fn expired_waiting_announcements_are_rejected_with_their_requests() {
    let (stage, action) = expiry_begin(now());
    assert!(matches!(action, ExpiryAction::FindExpired { now: t } if t.secs == now().secs));
    let (stage, action) = expiry_step(stage, ExpiryEvent::Found(Some(vec![5, 6])));
    match &action {
        ExpiryAction::UpdateStatus { ids, status } => {
            assert_eq!(ids, &vec![5, 6]);
            assert_eq!(*status, AnnouncementStatus::Rejected);
        },
        other => panic!("unexpected {:?}", other),
    }
    let (stage, action) = expiry_step(stage, ExpiryEvent::Updated(true));
    match &action {
        ExpiryAction::RejectRequests { ids } => assert_eq!(ids, &vec![5, 6]),
        other => panic!("unexpected {:?}", other),
    }
    let (stage, action) = expiry_step(stage, ExpiryEvent::Rejected(true));
    assert!(matches!(stage, ExpiryStage::Finished));
    assert!(matches!(action, ExpiryAction::Done { ok: true }));
    let (_, action) = expiry_step(ExpiryStage::Finding, ExpiryEvent::Found(Some(vec![])));
    assert!(matches!(action, ExpiryAction::Done { ok: true }));
    let (_, action) = expiry_step(ExpiryStage::Finding, ExpiryEvent::Found(None));
    assert!(matches!(action, ExpiryAction::Done { ok: false }));
}
