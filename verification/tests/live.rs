use enchiridion::features::device_status::{
    current_device_status, device_status_from_record, heartbeat_value, is_stale, DeviceStatus, DeviceStatusTracker,
    DEVICE_STATUS_REDIS_KEY, TIMEOUT_DURATION_SECS,
};
use enchiridion::features::livestream::{
    current_timeline, match_buckets, parse_livestream_message, query_plan, timeline, InsertLivestreamError,
    LivestreamErrorCode, LivestreamInterval, LivestreamRange, QueryLivestreamError,
    DEVICE_LIVESTREAM_QUEUE_NAME,
};
use enchiridion::features::session::SessionRegistry;
use enchiridion::time::Timestamp;

fn at(secs: i64, nanos: u32) -> Timestamp {
    Timestamp { secs, nanos }
}

#[test]
fn device_status_texts_and_constants() {
    assert_eq!(DeviceStatus::Connected.to_string(), "Connected");
    assert_eq!(DeviceStatus::Unregistered.to_string(), "Unregistered");
    assert_eq!(DEVICE_STATUS_REDIS_KEY, "device_status");
    assert_eq!(TIMEOUT_DURATION_SECS, 3);
}

#[test]
fn a_heartbeat_goes_stale_after_three_seconds() {
    assert!(!is_stale(at(100, 0), at(103, 0)));
    assert!(is_stale(at(100, 0), at(103, 1)));
    assert!(is_stale(at(100, 0), at(104, 0)));
    let now = at(1682935203, 500);
    assert_eq!(device_status_from_record(None, now), DeviceStatus::Unregistered);
    assert_eq!(device_status_from_record(Some(""), now), DeviceStatus::Unregistered);
    assert_eq!(device_status_from_record(Some("2023-05-01T10:00:00Z"), now), DeviceStatus::Disconnected);
    assert_eq!(device_status_from_record(Some("2023-05-01T10:00:01Z"), now), DeviceStatus::Connected);
}

#[test]
fn the_tracker_reports_every_device_seen() {
    let mut t = DeviceStatusTracker::new();
    let now = at(1682935204, 0);
    let records = vec![
        (1, "2023-05-01T10:00:00Z".to_string()),
        (2, "2023-05-01T10:00:02Z".to_string()),
        (3, "garbage".to_string()),
    ];
    let r = t.observe(&records, now);
    assert_eq!(r.connected, vec![2]);
    assert_eq!(r.disconnected, vec![1]);
    assert_eq!(r.unregistered, vec![3]);
    let later = t.observe(&vec![(1, "2023-05-01T10:00:06Z".to_string())], at(1682935207, 0));
    let mut connected = later.connected.clone();
    connected.sort();
    assert_eq!(connected, vec![1]);
    assert_eq!(later.disconnected, vec![2]);
    assert!(later.unregistered.is_empty());
}

#[test]
fn sessions_hear_the_devices_they_follow() {
    let mut s = SessionRegistry::new();
    s.connect(1, 10);
    s.connect(2, 10);
    s.connect(3, 11);
    let mut r = s.recipients(10);
    r.sort();
    assert_eq!(r, vec![1, 2]);
    assert!(s.disconnect(1));
    assert!(!s.disconnect(1));
    assert_eq!(s.recipients(10), vec![2]);
    assert_eq!(s.recipients(11), vec![3]);
    assert!(s.recipients(12).is_empty());
}

#[test]
fn livestream_query_plans() {
    assert_eq!(query_plan(LivestreamInterval::Minute, LivestreamRange::Hour).ok(), Some((60, 60)));
    assert_eq!(query_plan(LivestreamInterval::Hour, LivestreamRange::Day).ok(), Some((24, 3600)));
    assert_eq!(query_plan(LivestreamInterval::Day, LivestreamRange::Week).ok(), Some((7, 86400)));
    assert!(matches!(
        query_plan(LivestreamInterval::Minute, LivestreamRange::Week),
        Err(QueryLivestreamError::UnsupportedQuery)
    ));
    assert_eq!(LivestreamInterval::Minute.to_string(), "1 minute");
    assert_eq!(LivestreamRange::Week.to_string(), "7 days");
    assert_eq!(LivestreamErrorCode::UnsupportedQuery.to_string(), "UNSUPPORTED_QUERY");
    assert_eq!(QueryLivestreamError::UnsupportedQuery.to_string(), "Query is not supported");
    assert_eq!(DEVICE_LIVESTREAM_QUEUE_NAME, "device_livestream");
    let _ = InsertLivestreamError::DatabaseError(enchiridion::database::StoreError::Other).to_string();
}

#[test]
fn the_timeline_counts_back_from_the_present() {
    let now = at(1682935321, 42);
    let ts = timeline(now, LivestreamInterval::Hour, LivestreamRange::Day).ok().unwrap();
    assert_eq!(ts.len(), 24);
    assert_eq!(ts[0], at(1682935200, 0));
    assert_eq!(ts[1], at(1682931600, 0));
    assert_eq!(ts[23], at(1682935200 - 23 * 3600, 0));
    let days = timeline(now, LivestreamInterval::Day, LivestreamRange::Week).ok().unwrap();
    assert_eq!(days[0], at(1682899200, 0));
    assert_eq!(days.len(), 7);
}

#[test]
fn buckets_take_the_first_matching_row() {
    let buckets = vec![at(300, 0), at(200, 0), at(100, 0)];
    let rows = vec![at(100, 0), at(300, 0), at(100, 0)];
    assert_eq!(match_buckets(&buckets, &rows), vec![Some(1), None, Some(0)]);
}

#[test]
fn livestream_messages_are_read() {
    let p = parse_livestream_message("2023-05-01T10:00:00+07:00 12 3").unwrap();
    assert_eq!(p.timestamp, "2023-05-01T10:00:00+07:00");
    assert_eq!(p.instant, at(1682935200 - 7 * 3600, 0));
    assert_eq!((p.device_id, p.num_of_faces), (12, 3));
    assert!(parse_livestream_message("2023-05-01T10:00:00Z 12").is_none());
    assert!(parse_livestream_message("yesterday 12 3").is_none());
    assert!(parse_livestream_message("2023-05-01T10:00:00Z x 3").is_none());
}

#[test]
fn present_timeline_and_status() {
    let ts = current_timeline(LivestreamInterval::Minute, LivestreamRange::Hour).unwrap().ok().unwrap();
    assert_eq!(ts.len(), 60);
    assert_eq!(ts[0].secs % 60, 0);
    assert_eq!(ts[0].secs - ts[1].secs, 60);
    assert!(matches!(
        current_timeline(LivestreamInterval::Day, LivestreamRange::Hour),
        Some(Err(QueryLivestreamError::UnsupportedQuery))
    ));
    assert_eq!(current_device_status(Some("1999-01-01T00:00:00Z")), DeviceStatus::Disconnected);
    assert_eq!(current_device_status(None), DeviceStatus::Unregistered);
}

#[test]
fn the_tracker_reads_against_the_clock() {
    let mut t = DeviceStatusTracker::new();
    let r = t.observe_now(&vec![(5, "2000-01-01T00:00:00Z".to_string()), (6, "nope".to_string())]);
    assert_eq!(r.disconnected, vec![5]);
    assert!(r.connected.is_empty());
    assert_eq!(r.unregistered, vec![6]);
}

#[test]
fn written_heartbeat_reads_back() {
    let seen = at(1_700_000_000, 250_000_000);
    let text = heartbeat_value(Some(seen));
    assert_eq!(text, "2023-11-14T22:13:20.250+00:00");
    assert_eq!(device_status_from_record(Some(&text), at(1_700_000_002, 0)), DeviceStatus::Connected);
    assert_eq!(device_status_from_record(Some(&text), at(1_700_000_004, 0)), DeviceStatus::Disconnected);
    let cleared = heartbeat_value(None);
    assert_eq!(cleared, "");
    assert_eq!(device_status_from_record(Some(&cleared), at(1_700_000_002, 0)), DeviceStatus::Unregistered);
    assert_eq!(device_status_from_record(None, at(1_700_000_002, 0)), DeviceStatus::Unregistered);
}
