//! Device presence: devices report a heartbeat time; a device whose last
//! heartbeat is older than the timeout counts as disconnected, and one whose
//! record does not read as a time counts as unregistered.
use std::collections::HashMap;
use vstd::prelude::*;
use vstd::std_specs::hash::spec_hash_map_iter;
use vstd::std_specs::iter::IteratorSpec;
use vstd::string::*;

use crate::time::{
    clock_instant, stamp_nanos,
    format_rfc3339, now, parse_rfc3339, rfc3339_instant, rfc3339_text, Timestamp, FIRST_FOUR_DIGIT_SECOND, LAST_FOUR_DIGIT_SECOND,
    MAX_TIMESTAMP, MIN_TIMESTAMP, RFC3339_SECONDS_BOUND,
};

verus! {

broadcast use vstd::std_specs::hash::group_hash_axioms;

/// Key of the hash that holds every device's last heartbeat.
pub const DEVICE_STATUS_REDIS_KEY: &'static str = "device_status";

/// Seconds after the last heartbeat at which a device counts as gone.
pub const TIMEOUT_DURATION_SECS: i64 = 3i64;

/// The presence of a device.
#[derive(Debug, Clone, Copy, PartialEq, Eq, Structural)]
pub enum DeviceStatus {
    Connected,
    Disconnected,
    Unregistered,
}

impl DeviceStatus {
    /// The status as it is sent to listeners.
    pub open spec fn text(self) -> Seq<char> {
        match self {
            DeviceStatus::Connected => "Connected"@,
            DeviceStatus::Disconnected => "Disconnected"@,
            DeviceStatus::Unregistered => "Unregistered"@,
        }
    }

    /// The status as it is sent to listeners.
    pub fn to_string(&self) -> (r: String)
        ensures
            r@ == self.text(),
    {
        match self {
            DeviceStatus::Connected => String::from_str("Connected"),
            DeviceStatus::Disconnected => String::from_str("Disconnected"),
            DeviceStatus::Unregistered => String::from_str("Unregistered"),
        }
    }
}

/// The heartbeat at `seen`, plus the timeout, lies before `now`.
pub open spec fn stale(seen: Timestamp, now: Timestamp) -> bool {
    let due = seen.secs + TIMEOUT_DURATION_SECS;
    due < now.secs || (due == now.secs && seen.nanos < now.nanos)
}

/// Whether a heartbeat is older than the timeout.
pub fn is_stale(seen: Timestamp, now: Timestamp) -> (r: bool)
    requires
        seen.secs <= RFC3339_SECONDS_BOUND,
    ensures
        r == stale(seen, now),
{
    let due = seen.secs + TIMEOUT_DURATION_SECS;
    due < now.secs || (due == now.secs && seen.nanos < now.nanos)
}

/// The status of a heartbeat that reads as `seen` (or does not read).
pub open spec fn status_of(seen: Option<Timestamp>, now: Timestamp) -> DeviceStatus {
    match seen {
        None => DeviceStatus::Unregistered,
        Some(t) => if stale(t, now) { DeviceStatus::Disconnected } else { DeviceStatus::Connected },
    }
}

/// The status read from a stored heartbeat text: the empty text (a cleared
/// heartbeat) is unregistered, otherwise the instant it reads as decides.
pub open spec fn read_status(written: Seq<char>, now: Timestamp) -> DeviceStatus {
    if written.len() == 0 {
        DeviceStatus::Unregistered
    } else {
        status_of(rfc3339_instant(written), now)
    }
}

/// A heartbeat is judged by its age: read at an instant at most
/// `TIMEOUT_DURATION_SECS` seconds after it was written (or before), the
/// device is connected; read later, disconnected. In particular a heartbeat
/// read at the instant it was written is connected.
pub proof fn law_status_by_heartbeat_age(seen: Timestamp, now: Timestamp)
    requires
        seen.nanos < 1_000_000_000,
        now.nanos < 1_000_000_000,
    ensures
        status_of(Some(seen), now) == (if stamp_nanos(now) <= stamp_nanos(seen) + TIMEOUT_DURATION_SECS * 1_000_000_000 {
            DeviceStatus::Connected
        } else {
            DeviceStatus::Disconnected
        }),
        status_of(Some(seen), seen) == DeviceStatus::Connected,
{
    let due = seen.secs + TIMEOUT_DURATION_SECS;
    if due < now.secs {
        assert(stamp_nanos(now) >= (due + 1) * 1_000_000_000) by (nonlinear_arith)
            requires
                due < now.secs,
                now.nanos >= 0,
                stamp_nanos(now) == now.secs * 1_000_000_000 + now.nanos,
        ;
        assert((due + 1) * 1_000_000_000 > stamp_nanos(seen) + TIMEOUT_DURATION_SECS * 1_000_000_000) by (nonlinear_arith)
            requires
                due == seen.secs + TIMEOUT_DURATION_SECS,
                seen.nanos < 1_000_000_000,
                stamp_nanos(seen) == seen.secs * 1_000_000_000 + seen.nanos,
        ;
    } else if due > now.secs {
        assert(stamp_nanos(now) < (now.secs + 1) * 1_000_000_000) by (nonlinear_arith)
            requires
                now.nanos < 1_000_000_000,
                stamp_nanos(now) == now.secs * 1_000_000_000 + now.nanos,
        ;
        assert((now.secs + 1) * 1_000_000_000 <= due * 1_000_000_000) by (nonlinear_arith)
            requires
                due > now.secs,
        ;
        assert(due * 1_000_000_000 <= stamp_nanos(seen) + TIMEOUT_DURATION_SECS * 1_000_000_000) by (nonlinear_arith)
            requires
                due == seen.secs + TIMEOUT_DURATION_SECS,
                seen.nanos >= 0,
                stamp_nanos(seen) == seen.secs * 1_000_000_000 + seen.nanos,
        ;
    } else {
        assert(stamp_nanos(now) - (stamp_nanos(seen) + TIMEOUT_DURATION_SECS * 1_000_000_000) == now.nanos - seen.nanos) by (nonlinear_arith)
            requires
                due == seen.secs + TIMEOUT_DURATION_SECS,
                due == now.secs,
                stamp_nanos(seen) == seen.secs * 1_000_000_000 + seen.nanos,
                stamp_nanos(now) == now.secs * 1_000_000_000 + now.nanos,
        ;
    }
}

/// The status of a device from its stored heartbeat: no record or a record
/// that is not an RFC 3339 time means unregistered.
pub fn device_status_from_record(record: Option<&str>, now: Timestamp) -> (r: DeviceStatus)
    ensures
        r == match record {
            None => DeviceStatus::Unregistered,
            Some(text) => status_of(rfc3339_instant(text@), now),
        },
        record matches Some(text) ==> r == read_status(text@, now),
{
    match record {
        None => DeviceStatus::Unregistered,
        Some(text) => match parse_rfc3339(text) {
            None => DeviceStatus::Unregistered,
            Some(t) => {
                if is_stale(t, now) {
                    DeviceStatus::Disconnected
                } else {
                    DeviceStatus::Connected
                }
            },
        },
    }
}

/// Whether `written` is what storing the heartbeat `seen` leaves: the
/// non-empty RFC 3339 text that reads back as the instant, or the empty
/// text when the heartbeat is cleared.
pub open spec fn heartbeat_written(seen: Option<Timestamp>, written: Seq<char>) -> bool {
    match seen {
        Some(t) => written.len() > 0 && rfc3339_instant(written) == Some(t),
        None => written.len() == 0,
    }
}

/// The text stored as a device's heartbeat: the RFC 3339 form of the
/// instant it was last seen, or the empty text to clear it.
pub fn heartbeat_value(seen: Option<Timestamp>) -> (r: String)
    requires
        seen matches Some(t) ==> MIN_TIMESTAMP <= t.secs <= MAX_TIMESTAMP && t.nanos < 1_000_000_000,
    ensures
        seen matches Some(t) ==> r@ == rfc3339_text(t),
        seen is None ==> r@.len() == 0,
        (seen matches Some(t) ==> FIRST_FOUR_DIGIT_SECOND <= t.secs <= LAST_FOUR_DIGIT_SECOND) ==> heartbeat_written(seen, r@),
{
    match seen {
        Some(t) => format_rfc3339(t),
        None => String::new(),
    }
}

/// What a stored heartbeat is read back as: the status of the instant that
/// was written (connected, or disconnected once the timeout has passed), and
/// unregistered for a cleared heartbeat; a device never written is
/// unregistered too.
pub proof fn law_heartbeat_read_back(seen: Option<Timestamp>, written: Seq<char>, now: Timestamp)
    requires
        heartbeat_written(seen, written),
    ensures
        read_status(written, now) == status_of(seen, now),
{
}

/// The status of a device from its stored heartbeat, read against the
/// present instant: no heartbeat, or one that does not read as an RFC 3339
/// time, is unregistered; otherwise the age of the heartbeat decides.
pub fn current_device_status(record: Option<&str>) -> (r: DeviceStatus)
    ensures
        match record {
            None => r == DeviceStatus::Unregistered,
            Some(text) => match rfc3339_instant(text@) {
                None => r == DeviceStatus::Unregistered,
                Some(seen) => exists|t: Timestamp| clock_instant(t) && #[trigger] status_of(Some(seen), t) == r,
            },
        },
{
    let t = now();
    let r = device_status_from_record(record, t);
    proof {
        if let Some(text) = record {
            if let Some(seen) = rfc3339_instant(text@) {
                assert(status_of(Some(seen), t) == r);
            }
        }
    }
    r
}


/// The last heartbeat seen for each device, across polls of the store.
pub struct DeviceStatusTracker {
    last_seen: HashMap<i32, Timestamp>,
}

/// The devices of one poll, by status.
#[derive(Debug)]
pub struct StatusReport {
    pub connected: Vec<i32>,
    pub disconnected: Vec<i32>,
    pub unregistered: Vec<i32>,
}

/// The map after reading one poll's records in order: a record that reads
/// as a time replaces the device's last heartbeat; other records leave it.
pub open spec fn after_records(seen: Map<i32, Timestamp>, records: Seq<(i32, Seq<char>)>) -> Map<i32, Timestamp>
    decreases records.len(),
{
    if records.len() == 0 {
        seen
    } else {
        let before = after_records(seen, records.drop_last());
        let (id, text) = records.last();
        match rfc3339_instant(text) {
            Some(t) => before.insert(id, t),
            None => before,
        }
    }
}

impl DeviceStatusTracker {
    /// The last heartbeat of each device seen so far.
    pub closed spec fn view(&self) -> Map<i32, Timestamp> {
        self.last_seen@
    }

    /// Every heartbeat kept is an RFC 3339 instant.
    pub closed spec fn well_formed(&self) -> bool {
        forall|id: i32| #[trigger] self.last_seen@.contains_key(id) ==> self.last_seen@[id].secs <= RFC3339_SECONDS_BOUND
    }

    /// A tracker that has seen nothing.
    pub fn new() -> (r: DeviceStatusTracker)
        ensures
            r.well_formed(),
            r@ == Map::<i32, Timestamp>::empty(),
    {
        DeviceStatusTracker { last_seen: HashMap::new() }
    }

    /// Reads one poll of heartbeat records: records that read as times update
    /// the devices' last heartbeats, the others are reported unregistered;
    /// then every device seen so far is reported connected or disconnected
    /// by the age of its last heartbeat.
    pub fn observe(&mut self, records: &Vec<(i32, String)>, now: Timestamp) -> (r: StatusReport)
        requires
            old(self).well_formed(),
        ensures
            final(self).well_formed(),
            final(self)@ == after_records(old(self)@, records.deep_view()),
            forall|id: i32|
                #[trigger] r.unregistered@.contains(id) <==> exists|k: int|
                    0 <= k < records@.len() && records@[k].0 == id && rfc3339_instant(
                        records@[k].1@,
                    ) is None,
            forall|id: i32|
                #[trigger] r.connected@.contains(id) <==> final(self)@.contains_key(id) && !stale(
                    final(self)@[id],
                    now,
                ),
            forall|id: i32|
                #[trigger] r.disconnected@.contains(id) <==> final(self)@.contains_key(id) && stale(
                    final(self)@[id],
                    now,
                ),
    {
        let mut unregistered: Vec<i32> = Vec::new();
        let n = records.len();
        let mut i: usize = 0;
        while i < n
            invariant
                n == records@.len(),
                i <= n,
                self.well_formed(),
                self@ == after_records(old(self)@, records.deep_view().take(i as int)),
                forall|id: i32|
                    #[trigger] unregistered@.contains(id) <==> exists|k: int|
                        0 <= k < i && records@[k].0 == id && rfc3339_instant(records@[k].1@) is None,
            decreases n - i,
        {
            let id = records[i].0;
            let parsed = parse_rfc3339(records[i].1.as_str());
            proof {
                let dv = records.deep_view();
                assert(dv.take(i + 1).drop_last() =~= dv.take(i as int));
                assert(dv.take(i + 1).last() == (id, records@[i as int].1@));
            }
            match parsed {
                Some(t) => {
                    self.last_seen.insert(id, t);
                    proof {
                        assert forall|x: i32| #[trigger] unregistered@.contains(x) <==> exists|k: int|
                            0 <= k < i + 1 && records@[k].0 == x && rfc3339_instant(records@[k].1@) is None by {
                            if exists|k: int| 0 <= k < i + 1 && records@[k].0 == x && rfc3339_instant(records@[k].1@) is None {
                                let k = choose|k: int| 0 <= k < i + 1 && records@[k].0 == x && rfc3339_instant(records@[k].1@) is None;
                                assert(k != i);
                            }
                        }
                    }
                },
                None => {
                    let ghost prev = unregistered@;
                    unregistered.push(id);
                    proof {
                        broadcast use vstd::seq_lib::lemma_seq_contains_after_push;
                        assert(records@[i as int].0 == id);
                        assert forall|x: i32| #[trigger] unregistered@.contains(x) <==> exists|k: int|
                            0 <= k < i + 1 && records@[k].0 == x && rfc3339_instant(records@[k].1@) is None by {
                            if x == id {
                                assert(records@[i as int].0 == x);
                            }
                            if exists|k: int| 0 <= k < i + 1 && records@[k].0 == x && rfc3339_instant(records@[k].1@) is None {
                                let k = choose|k: int| 0 <= k < i + 1 && records@[k].0 == x && rfc3339_instant(records@[k].1@) is None;
                                if k < i {
                                    assert(prev.contains(x));
                                }
                            }
                        }
                    }
                },
            }
            i = i + 1;
        }
        proof {
            assert(records.deep_view().take(n as int) =~= records.deep_view());
        }
        let mut connected: Vec<i32> = Vec::new();
        let mut disconnected: Vec<i32> = Vec::new();
        let ghost seen = self.last_seen@;
        let ghost s = spec_hash_map_iter(&self.last_seen).remaining();
        for (k, v) in it: self.last_seen.iter()
            invariant
                it.seq() == s,
                s == spec_hash_map_iter(&self.last_seen).remaining(),
                seen == self.last_seen@,
                self.well_formed(),
                forall|id: i32|
                    #[trigger] connected@.contains(id) <==> exists|j: int|
                        0 <= j < it.index() && *s[j].0 == id && !stale(*s[j].1, now),
                forall|id: i32|
                    #[trigger] disconnected@.contains(id) <==> exists|j: int|
                        0 <= j < it.index() && *s[j].0 == id && stale(*s[j].1, now),
        {
            let id = *k;
            let t = *v;
            let ghost at = it.index();
            proof {
                assert(seen.contains_key(*s[at].0) && seen[*s[at].0] == *s[at].1);
                assert(self.last_seen@.contains_key(id));
            }
            if is_stale(t, now) {
                let ghost prev = disconnected@;
                disconnected.push(id);
                proof {
                    broadcast use vstd::seq_lib::lemma_seq_contains_after_push;
                    assert forall|x: i32| #[trigger] disconnected@.contains(x) <==> exists|j: int|
                        0 <= j < at + 1 && *s[j].0 == x && stale(*s[j].1, now) by {
                        if exists|j: int| 0 <= j < at + 1 && *s[j].0 == x && stale(*s[j].1, now) {
                            let j = choose|j: int| 0 <= j < at + 1 && *s[j].0 == x && stale(*s[j].1, now);
                            if j < at {
                                assert(prev.contains(x));
                            }
                        }
                    }
                }
            } else {
                let ghost prev = connected@;
                connected.push(id);
                proof {
                    broadcast use vstd::seq_lib::lemma_seq_contains_after_push;
                    assert forall|x: i32| #[trigger] connected@.contains(x) <==> exists|j: int|
                        0 <= j < at + 1 && *s[j].0 == x && !stale(*s[j].1, now) by {
                        if exists|j: int| 0 <= j < at + 1 && *s[j].0 == x && !stale(*s[j].1, now) {
                            let j = choose|j: int| 0 <= j < at + 1 && *s[j].0 == x && !stale(*s[j].1, now);
                            if j < at {
                                assert(prev.contains(x));
                            }
                        }
                    }
                }
            }
        }
        proof {
            assert forall|id: i32| #[trigger] connected@.contains(id) <==> seen.contains_key(id) && !stale(seen[id], now) by {
                if connected@.contains(id) {
                    let j = choose|j: int| 0 <= j < s.len() && *s[j].0 == id && !stale(*s[j].1, now);
                    assert(seen.contains_key(*s[j].0) && seen[*s[j].0] == *s[j].1);
                }
                if seen.contains_key(id) && !stale(seen[id], now) {
                    assert(s.contains((&id, &seen[id])));
                    let j = choose|j: int| 0 <= j < s.len() && s[j] == (&id, &seen[id]);
                    assert(*s[j].0 == id);
                }
            }
            assert forall|id: i32| #[trigger] disconnected@.contains(id) <==> seen.contains_key(id) && stale(seen[id], now) by {
                if disconnected@.contains(id) {
                    let j = choose|j: int| 0 <= j < s.len() && *s[j].0 == id && stale(*s[j].1, now);
                    assert(seen.contains_key(*s[j].0) && seen[*s[j].0] == *s[j].1);
                }
                if seen.contains_key(id) && stale(seen[id], now) {
                    assert(s.contains((&id, &seen[id])));
                    let j = choose|j: int| 0 <= j < s.len() && s[j] == (&id, &seen[id]);
                    assert(*s[j].0 == id);
                }
            }
        }
        StatusReport { connected, disconnected, unregistered }
    }
}


/// Whether a report splits the devices seen so far by the age of their last
/// heartbeat at `now`.
pub open spec fn reports_at(r: StatusReport, seen: Map<i32, Timestamp>, now: Timestamp) -> bool {
    &&& forall|id: i32| #[trigger] r.connected@.contains(id) <==> seen.contains_key(id) && !stale(seen[id], now)
    &&& forall|id: i32| #[trigger] r.disconnected@.contains(id) <==> seen.contains_key(id) && stale(seen[id], now)
}

impl DeviceStatusTracker {
    /// Reads one poll of heartbeat records against the present instant (see
    /// `observe`).
    pub fn observe_now(&mut self, records: &Vec<(i32, String)>) -> (r: StatusReport)
        requires
            old(self).well_formed(),
        ensures
            final(self).well_formed(),
            final(self)@ == after_records(old(self)@, records.deep_view()),
            forall|id: i32|
                #[trigger] r.unregistered@.contains(id) <==> exists|k: int|
                    0 <= k < records@.len() && records@[k].0 == id && rfc3339_instant(records@[k].1@) is None,
            exists|t: Timestamp| clock_instant(t) && #[trigger] reports_at(r, final(self)@, t),
    {
        let t = now();
        let r = self.observe(records, t);
        assert(reports_at(r, self@, t));
        r
    }
}
} // verus!
