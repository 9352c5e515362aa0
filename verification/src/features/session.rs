//! Live listeners of device events: each websocket session follows one or
//! more devices, and an event of a device goes to every connected session
//! that follows it.
use std::collections::{HashMap, HashSet};
use vstd::prelude::*;
use vstd::std_specs::hash::{spec_hash_keys_iter, spec_hash_map_iter};
use vstd::std_specs::iter::IteratorSpec;

verus! {

broadcast use vstd::seq_lib::lemma_seq_contains_after_push, vstd::std_specs::hash::group_hash_axioms;

/// The sessions that are connected and which device each follows.
pub struct SessionsView {
    pub sessions: Set<usize>,
    pub follows: Set<(i32, usize)>,
}

/// The state after session `id` connects to follow `device` (a reused id
/// keeps what it already followed).
pub open spec fn after_connect(v: SessionsView, id: usize, device: i32) -> SessionsView {
    SessionsView { sessions: v.sessions.insert(id), follows: v.follows.insert((device, id)) }
}

/// The follow relation without the follows of session `id`.
pub open spec fn without_session(follows: Set<(i32, usize)>, id: usize) -> Set<(i32, usize)> {
    follows.filter(|f: (i32, usize)| f.1 != id)
}

/// The state after session `id` disconnects: a connected session is removed
/// and follows nothing any more; an unknown id changes nothing.
pub open spec fn after_disconnect(v: SessionsView, id: usize) -> SessionsView {
    if v.sessions.contains(id) {
        SessionsView {
            sessions: v.sessions.remove(id),
            follows: without_session(v.follows, id),
        }
    } else {
        v
    }
}

/// The sessions an event of `device` reaches.
pub open spec fn audience(v: SessionsView, device: i32) -> Set<usize> {
    Set::new(|s: usize| v.follows.contains((device, s)) && v.sessions.contains(s))
}

/// Connected sessions and, for each device, the sessions that follow it.
pub struct SessionRegistry {
    sessions: HashSet<usize>,
    devices: HashMap<i32, HashSet<usize>>,
}

/// Whether session `s` follows `device` in the device map.
pub open spec fn follows_in(devices: Map<i32, HashSet<usize>>, device: i32, s: usize) -> bool {
    devices.contains_key(device) && devices[device]@.contains(s)
}

/// The device ids of a map, as its iterator hands them out.
fn device_keys(devices: &HashMap<i32, HashSet<usize>>) -> (r: Vec<i32>)
    ensures
        forall|d: i32| #[trigger] r@.contains(d) <==> devices@.contains_key(d),
{
    let mut r: Vec<i32> = Vec::new();
    let ghost s = spec_hash_map_iter(devices).remaining();
    for (k, v) in it: devices.iter()
        invariant
            it.seq() == s,
            s == spec_hash_map_iter(devices).remaining(),
            forall|x: i32| #[trigger] r@.contains(x) <==> exists|j: int| 0 <= j < it.index() && *s[j].0 == x,
    {
        let ghost prev = r@;
        r.push(*k);
        proof {
            assert forall|x: i32| #[trigger] r@.contains(x) <==> exists|j: int| 0 <= j < it.index() + 1 && *s[j].0 == x by {
                if exists|j: int| 0 <= j < it.index() + 1 && *s[j].0 == x {
                    let j = choose|j: int| 0 <= j < it.index() + 1 && *s[j].0 == x;
                    if j < it.index() {
                        assert(prev.contains(x));
                    }
                }
            }
        }
    }
    proof {
        assert forall|d: i32| #[trigger] r@.contains(d) <==> devices@.contains_key(d) by {
            if devices@.contains_key(d) {
                assert(s.contains((&d, &devices@[d])));
                let j = choose|j: int| 0 <= j < s.len() && s[j] == (&d, &devices@[d]);
                assert(*s[j].0 == d);
            }
            if r@.contains(d) {
                let j = choose|j: int| 0 <= j < s.len() && *s[j].0 == d;
                assert(devices@.contains_key(*s[j].0));
            }
        }
    }
    r
}

impl SessionRegistry {
    /// Connected sessions and what they follow.
    pub closed spec fn view(&self) -> SessionsView {
        SessionsView {
            sessions: self.sessions@,
            follows: Set::new(|f: (i32, usize)| follows_in(self.devices@, f.0, f.1)),
        }
    }

    /// Only connected sessions follow devices.
    pub closed spec fn well_formed(&self) -> bool {
        forall|d: i32, s: usize| #[trigger] follows_in(self.devices@, d, s) ==> self.sessions@.contains(s)
    }

    /// No session is connected.
    pub fn new() -> (r: SessionRegistry)
        ensures
            r.well_formed(),
            r@.sessions == Set::<usize>::empty(),
            r@.follows == Set::<(i32, usize)>::empty(),
    {
        let r = SessionRegistry { sessions: HashSet::new(), devices: HashMap::new() };
        assert(r@.follows =~= Set::<(i32, usize)>::empty());
        r
    }

    /// Session `id` connects and follows `device`.
    pub fn connect(&mut self, id: usize, device: i32)
        requires
            old(self).well_formed(),
        ensures
            final(self).well_formed(),
            final(self)@ == after_connect(old(self)@, id, device),
    {
        self.sessions.insert(id);
        let mut followers = match self.devices.remove(&device) {
            Some(f) => f,
            None => HashSet::new(),
        };
        let ghost before = followers@;
        followers.insert(id);
        self.devices.insert(device, followers);
        proof {
            assert(self.devices@ == old(self).devices@.insert(device, followers));
            assert(followers@ == before.insert(id));
            assert(old(self).devices@.contains_key(device) ==> before == old(self).devices@[device]@);
            assert(!old(self).devices@.contains_key(device) ==> before == Set::<usize>::empty());
            assert forall|d: i32, s: usize| #[trigger] follows_in(self.devices@, d, s) implies self.sessions@.contains(s) by {
                if d != device {
                    assert(follows_in(old(self).devices@, d, s));
                } else if s != id {
                    assert(follows_in(old(self).devices@, d, s));
                }
            }
            assert forall|f: (i32, usize)| #[trigger] self@.follows.contains(f) <==> old(self)@.follows.insert((device, id)).contains(f) by {
                if f.0 != device {
                    assert(follows_in(self.devices@, f.0, f.1) == follows_in(old(self).devices@, f.0, f.1));
                }
            }
            assert(self@.follows =~= old(self)@.follows.insert((device, id)));
        }
    }

    /// Session `id` disconnects; returns whether it was connected.
    pub fn disconnect(&mut self, id: usize) -> (r: bool)
        requires
            old(self).well_formed(),
        ensures
            final(self).well_formed(),
            r == old(self)@.sessions.contains(id),
            final(self)@ == after_disconnect(old(self)@, id),
    {
        if !self.sessions.remove(&id) {
            proof {
                assert(self.sessions@ =~= old(self).sessions@);
                assert(self@.follows =~= old(self)@.follows);
            }
            return false;
        }
        let keys = device_keys(&self.devices);
        let ghost start = self.devices@;
        let n = keys.len();
        let mut i: usize = 0;
        while i < n
            invariant
                n == keys@.len(),
                i <= n,
                start == old(self).devices@,
                self.sessions@ == old(self).sessions@.remove(id),
                forall|d: i32| #[trigger] keys@.contains(d) <==> start.contains_key(d),
                self.devices@.dom() == start.dom(),
                forall|d: i32| #[trigger] self.devices@.contains_key(d) ==> self.devices@[d]@ == (if exists|j: int|
                    0 <= j < i && keys@[j] == d { start[d]@.remove(id) } else { start[d]@ }),
            decreases n - i,
        {
            let d = keys[i];
            proof {
                assert(keys@.contains(d));
            }
            let ghost here = self.devices@;
            match self.devices.remove(&d) {
                Some(mut followers) => {
                    let ghost before = followers@;
                    followers.remove(&id);
                    self.devices.insert(d, followers);
                    proof {
                        assert(before == here[d]@);
                        assert(self.devices@ == here.insert(d, followers));
                        assert(self.devices@.dom() =~= start.dom());
                        assert forall|x: i32| #[trigger] self.devices@.contains_key(x) implies self.devices@[x]@ == (if exists|j: int|
                            0 <= j < i + 1 && keys@[j] == x { start[x]@.remove(id) } else { start[x]@ }) by {
                            if x == d {
                                assert(keys@[i as int] == x);
                                assert(followers@ =~= start[x]@.remove(id));
                            } else {
                                if exists|j: int| 0 <= j < i + 1 && keys@[j] == x {
                                    let j = choose|j: int| 0 <= j < i + 1 && keys@[j] == x;
                                    assert(j < i);
                                }
                            }
                        }
                    }
                },
                None => {
                    proof {
                        assert(false);
                    }
                },
            }
            i = i + 1;
        }
        proof {
            assert forall|d: i32| #[trigger] self.devices@.contains_key(d) implies self.devices@[d]@ == start[d]@.remove(id) by {
                assert(keys@.contains(d));
                let j = choose|j: int| 0 <= j < keys@.len() && keys@[j] == d;
                assert(exists|j2: int| 0 <= j2 < n && keys@[j2] == d);
            }
            assert forall|d: i32, s: usize| #[trigger] follows_in(self.devices@, d, s) implies self.sessions@.contains(s) by {
                assert(follows_in(old(self).devices@, d, s));
            }
            assert forall|f: (i32, usize)| #[trigger] self@.follows.contains(f) <==> without_session(old(self)@.follows, id).contains(f) by {
                if start.contains_key(f.0) {
                    assert(self.devices@[f.0]@ == start[f.0]@.remove(id));
                }
            }
            assert(self@.follows =~= without_session(old(self)@.follows, id));
            assert(self@.sessions =~= old(self)@.sessions.remove(id));
        }
        true
    }

    /// The sessions that an event of `device` goes to, each once.
    pub fn recipients(&self, device: i32) -> (r: Vec<usize>)
        requires
            self.well_formed(),
        ensures
            forall|s: usize| #[trigger] r@.contains(s) <==> audience(self@, device).contains(s),
            r@.no_duplicates(),
    {
        let mut out: Vec<usize> = Vec::new();
        let followers = match self.devices.get(&device) {
            Some(f) => f,
            None => {
                proof {
                    assert forall|s: usize| #[trigger] out@.contains(s) <==> audience(self@, device).contains(s) by {
                        assert(!follows_in(self.devices@, device, s));
                    }
                }
                return out;
            },
        };
        let ghost seq = spec_hash_keys_iter(followers).remaining();
        proof {
            assert(followers@ == self.devices@[device]@);
        }
        for s in it: followers.iter()
            invariant
                it.seq() == seq,
                seq == spec_hash_keys_iter(followers).remaining(),
                seq.no_duplicates(),
                followers@ == self.devices@[device]@,
                self.devices@.contains_key(device),
                out@.no_duplicates(),
                forall|x: usize| #[trigger] out@.contains(x) <==> exists|j: int|
                    0 <= j < it.index() && *seq[j] == x && self.sessions@.contains(x),
        {
            let ghost at = it.index();
            if self.sessions.contains(s) {
                let ghost prev = out@;
                out.push(*s);
                proof {
                    if prev.contains(*s) {
                        let j = choose|j: int| 0 <= j < at && *seq[j] == *s && self.sessions@.contains(*s);
                        assert(seq[j] == seq[at]);
                    }
                    assert forall|a: int, b: int| 0 <= a < b < out@.len() implies out@[a] != out@[b] by {
                        if b == out@.len() - 1 {
                            assert(prev.contains(prev[a]));
                        } else {
                            assert(prev[a] != prev[b]);
                        }
                    }
                    assert forall|x: usize| #[trigger] out@.contains(x) <==> exists|j: int|
                        0 <= j < at + 1 && *seq[j] == x && self.sessions@.contains(x) by {
                        if exists|j: int| 0 <= j < at + 1 && *seq[j] == x && self.sessions@.contains(x) {
                            let j = choose|j: int| 0 <= j < at + 1 && *seq[j] == x && self.sessions@.contains(x);
                            if j < at {
                                assert(prev.contains(x));
                            }
                        }
                    }
                }
            } else {
                proof {
                    assert forall|x: usize| #[trigger] out@.contains(x) <==> exists|j: int|
                        0 <= j < at + 1 && *seq[j] == x && self.sessions@.contains(x) by {
                        if exists|j: int| 0 <= j < at + 1 && *seq[j] == x && self.sessions@.contains(x) {
                            let j = choose|j: int| 0 <= j < at + 1 && *seq[j] == x && self.sessions@.contains(x);
                            assert(j < at);
                        }
                    }
                }
            }
        }
        proof {
            assert forall|x: usize| #[trigger] out@.contains(x) <==> audience(self@, device).contains(x) by {
                if out@.contains(x) {
                    let j = choose|j: int| 0 <= j < seq.len() && *seq[j] == x && self.sessions@.contains(x);
                    assert(seq.unref().to_set().contains(x)) by {
                        assert(seq.unref()[j] == x);
                    }
                }
                if audience(self@, device).contains(x) {
                    assert(followers@.contains(x));
                    assert(seq.unref().to_set().contains(x));
                    let j = choose|j: int| 0 <= j < seq.unref().len() && seq.unref()[j] == x;
                    assert(*seq[j] == x);
                }
            }
        }
        out
    }
}

/// A session that connects to follow a device receives that device's
/// events.
pub proof fn law_connected_session_hears_device(v: SessionsView, id: usize, device: i32)
    ensures
        audience(after_connect(v, id, device), device).contains(id),
{
}

/// A session that disconnects receives no device's events any more, and
/// every other session keeps what it received.
pub proof fn law_disconnected_session_hears_nothing(v: SessionsView, id: usize, device: i32)
    ensures
        !audience(after_disconnect(v, id), device).contains(id) || !v.sessions.contains(id),
        forall|s: usize| s != id ==> (#[trigger] audience(after_disconnect(v, id), device).contains(s)
            <==> audience(v, device).contains(s)),
{
}

} // verus!
