//! The table of peers that are currently known, keyed by device id.
//!
//! The mathematical model of a `Registry` is a map from id to the device
//! record that was stored last under that id. The records are kept in a
//! vector in which no id occurs twice.

use vstd::prelude::*;
use crate::types::{Device, DeviceView};

verus! {

/// The model of a registry: the last record stored under each id.
pub type PeerMap = Map<Seq<char>, DeviceView>;

/// The records of a sequence of devices.
pub open spec fn views_of(devices: Seq<Device>) -> Seq<DeviceView> {
    devices.map_values(|d: Device| d@)
}

/// No two records of `s` carry the same id.
pub open spec fn distinct_ids(s: Seq<DeviceView>) -> bool {
    forall|i: int, j: int| 0 <= i < j < s.len() ==> s[i].id != s[j].id
}

/// Some record of `s` carries `id`.
pub open spec fn has_id(s: Seq<DeviceView>, id: Seq<char>) -> bool {
    exists|i: int| 0 <= i < s.len() && #[trigger] s[i].id == id
}

/// The map that a listing stands for. Where no id occurs twice, each record
/// of `s` is the value under its own id.
pub open spec fn as_map(s: Seq<DeviceView>) -> PeerMap {
    Map::new(
        |id: Seq<char>| has_id(s, id),
        |id: Seq<char>| s[choose|i: int| 0 <= i < s.len() && #[trigger] s[i].id == id],
    )
}

/// `s` lists the values of `m`, each exactly once and in any order.
pub open spec fn lists(s: Seq<DeviceView>, m: PeerMap) -> bool {
    &&& distinct_ids(s)
    &&& forall|i: int| 0 <= i < s.len() ==> m.contains_key(#[trigger] s[i].id) && m[s[i].id] == s[i]
    &&& forall|id: Seq<char>| #[trigger] m.contains_key(id) ==> has_id(s, id)
}

/// A record is stale once more than `ttl` seconds lie between the time it
/// carries and `now`. A record that carries a later time than `now` is not
/// stale.
pub open spec fn expired(d: DeviceView, ttl: u64, now: u64) -> bool {
    now - d.last_seen > ttl
}

/// `d` is not stale and stands among the first `upto` records of `s`.
pub open spec fn fresh_among(
    s: Seq<DeviceView>,
    upto: int,
    d: DeviceView,
    ttl: u64,
    now: u64,
) -> bool {
    !expired(d, ttl, now) && exists|j: int| 0 <= j < upto && #[trigger] s[j] == d
}

/// What an eviction sweep leaves of `m`: the records that are not stale.
pub open spec fn survivors(m: PeerMap, ttl: u64, now: u64) -> PeerMap {
    Map::new(
        |id: Seq<char>| m.contains_key(id) && !expired(m[id], ttl, now),
        |id: Seq<char>| m[id],
    )
}

/// In a listing without repeated ids, each record is the map's value under
/// its id, and the listing is one of the map.
pub proof fn lemma_as_map_lists(s: Seq<DeviceView>)
    requires
        distinct_ids(s),
    ensures
        lists(s, as_map(s)),
{
    let m = as_map(s);
    assert forall|i: int| 0 <= i < s.len() implies m.contains_key(#[trigger] s[i].id) && m[s[i].id]
        == s[i] by {
        let j = choose|j: int| 0 <= j < s.len() && #[trigger] s[j].id == s[i].id;
        assert(i == j);
    }
}

/// The peers that are currently known.
pub struct Registry {
    devices: Vec<Device>,
}

impl View for Registry {
    type V = PeerMap;

    closed spec fn view(&self) -> PeerMap {
        as_map(views_of(self.devices@))
    }
}

impl Registry {
    #[verifier::type_invariant]
    spec fn no_id_twice(&self) -> bool {
        distinct_ids(views_of(self.devices@))
    }

    /// A registry that knows no peer.
    pub fn new() -> (registry: Registry)
        ensures
            registry@ == PeerMap::empty(),
    {
        let registry = Registry { devices: Vec::new() };
        assert(registry@ =~= PeerMap::empty());
        registry
    }

    /// Where the record with this id stands, if there is one.
    fn position(&self, id: &String) -> (found: Option<usize>)
        ensures
            match found {
                Some(i) => i < self.devices@.len() && self.devices@[i as int]@.id == id@,
                None => !has_id(views_of(self.devices@), id@),
            },
    {
        let mut i: usize = 0;
        while i < self.devices.len()
            invariant
                i <= self.devices@.len(),
                forall|j: int| 0 <= j < i ==> self.devices@[j]@.id != id@,
            decreases self.devices@.len() - i,
        {
            if self.devices[i].id == *id {
                return Some(i);
            }
            i += 1;
        }
        None
    }

    /// Whether no peer is known.
    pub fn is_empty(&self) -> (empty: bool)
        ensures
            empty == (self@ == PeerMap::empty()),
    {
        let empty = self.devices.len() == 0;
        proof {
            use_type_invariant(self);
            let s = views_of(self.devices@);
            lemma_as_map_lists(s);
            if empty {
                assert(self@ =~= PeerMap::empty());
            } else {
                assert(self@.contains_key(s[0].id));
            }
        }
        empty
    }

    /// The record stored under `id`, if the peer is known.
    pub fn get(&self, id: &String) -> (found: Option<Device>)
        ensures
            match found {
                Some(device) => self@.contains_key(id@) && device@ == self@[id@],
                None => !self@.contains_key(id@),
            },
    {
        proof {
            use_type_invariant(self);
            lemma_as_map_lists(views_of(self.devices@));
        }
        match self.position(id) {
            Some(i) => {
                let device = self.devices[i].clone();
                assert(views_of(self.devices@)[i as int] == self.devices@[i as int]@);
                Some(device)
            },
            None => None,
        }
    }

    /// Stores `device` under its id. A record that was there under the same
    /// id is replaced whole; every other record stays as it was.
    pub fn upsert(&mut self, device: Device)
        ensures
            final(self)@ == old(self)@.insert(device@.id, device@),
    {
        proof {
            use_type_invariant(&*self);
        }
        let ghost before = views_of(self.devices@);
        let found = self.position(&device.id);
        let mut devices = Vec::new();
        std::mem::swap(&mut devices, &mut self.devices);
        match found {
            Some(i) => {
                devices.set(i, device);
            },
            None => {
                devices.push(device);
            },
        }
        proof {
            let after = views_of(devices@);
            match found {
                Some(i) => {
                    assert(after =~= before.update(i as int, device@));
                    assert(before[i as int].id == device@.id);
                },
                None => {
                    assert(after =~= before.push(device@));
                    assert forall|j: int| 0 <= j < before.len() implies before[j].id
                        != device@.id by {
                        if before[j].id == device@.id {
                            assert(has_id(before, device@.id));
                        }
                    }
                },
            }
            assert(distinct_ids(after));
            lemma_as_map_lists(before);
            lemma_as_map_lists(after);
            let target = as_map(before).insert(device@.id, device@);
            assert forall|id: Seq<char>| as_map(after).contains_key(id) implies target.contains_key(
                id,
            ) && target[id] == as_map(after)[id] by {
                let k = choose|k: int| 0 <= k < after.len() && #[trigger] after[k].id == id;
                assert(as_map(after)[after[k].id] == after[k]);
                if id != device@.id {
                    assert(after[k] == before[k]);
                    assert(as_map(before).contains_key(before[k].id));
                } else {
                    match found {
                        Some(i) => {
                            assert(after[i as int].id == id);
                        },
                        None => {
                            assert(after[after.len() - 1].id == id);
                        },
                    }
                }
            }
            assert forall|id: Seq<char>| target.contains_key(id) implies as_map(after).contains_key(
                id,
            ) by {
                if id == device@.id {
                    match found {
                        Some(i) => {
                            assert(after[i as int].id == id);
                        },
                        None => {
                            assert(after[after.len() - 1].id == id);
                        },
                    }
                } else {
                    let k = choose|k: int| 0 <= k < before.len() && #[trigger] before[k].id == id;
                    assert(after[k].id == id);
                }
            }
            assert(as_map(after) =~= target);
        }
        self.devices = devices;
    }

    /// Forgets the peer with this id and hands back its record. A peer that
    /// is not known is no error: the registry stays as it was.
    pub fn remove(&mut self, id: &String) -> (removed: Option<Device>)
        ensures
            final(self)@ == old(self)@.remove(id@),
            match removed {
                Some(device) => old(self)@.contains_key(id@) && device@ == old(self)@[id@],
                None => !old(self)@.contains_key(id@),
            },
    {
        proof {
            use_type_invariant(&*self);
        }
        let ghost before = views_of(self.devices@);
        proof {
            lemma_as_map_lists(before);
        }
        match self.position(id) {
            Some(i) => {
                let mut devices = Vec::new();
                std::mem::swap(&mut devices, &mut self.devices);
                let device = devices.remove(i);
                proof {
                    let after = views_of(devices@);
                    assert(after =~= before.remove(i as int));
                    assert(device@ == before[i as int]);
                    assert(distinct_ids(after)) by {
                        assert forall|a: int, b: int| 0 <= a < b < after.len() implies after[a].id
                            != after[b].id by {
                            let a0 = if a < i { a } else { a + 1 };
                            let b0 = if b < i { b } else { b + 1 };
                            assert(after[a] == before[a0]);
                            assert(after[b] == before[b0]);
                        }
                    }
                    lemma_as_map_lists(after);
                    let target = as_map(before).remove(id@);
                    assert forall|key: Seq<char>| as_map(after).contains_key(
                        key,
                    ) implies target.contains_key(key) && target[key] == as_map(after)[key] by {
                        let k = choose|k: int| 0 <= k < after.len() && #[trigger] after[k].id
                            == key;
                        let k0 = if k < i { k } else { k + 1 };
                        assert(after[k] == before[k0]);
                        assert(as_map(before).contains_key(before[k0].id));
                        assert(as_map(after)[after[k].id] == after[k]);
                    }
                    assert forall|key: Seq<char>| target.contains_key(key) implies as_map(
                        after,
                    ).contains_key(key) by {
                        let k0 = choose|k: int| 0 <= k < before.len() && #[trigger] before[k].id
                            == key;
                        let k = if k0 < i { k0 } else { k0 - 1 };
                        assert(after[k] == before[k0]);
                        assert(after[k].id == key);
                    }
                    assert(as_map(after) =~= target);
                }
                self.devices = devices;
                Some(device)
            },
            None => {
                assert(self@ =~= self@.remove(id@));
                None
            },
        }
    }

    /// Every known record, each once. The order carries no meaning.
    pub fn snapshot(&self) -> (listing: Vec<Device>)
        ensures
            lists(views_of(listing@), self@),
    {
        proof {
            use_type_invariant(self);
        }
        let mut listing: Vec<Device> = Vec::new();
        let mut i: usize = 0;
        while i < self.devices.len()
            invariant
                i <= self.devices@.len(),
                listing@.len() == i,
                forall|j: int| 0 <= j < i ==> listing@[j]@ == self.devices@[j]@,
            decreases self.devices@.len() - i,
        {
            listing.push(self.devices[i].clone());
            i += 1;
        }
        proof {
            assert(views_of(listing@) =~= views_of(self.devices@));
            lemma_as_map_lists(views_of(self.devices@));
        }
        listing
    }

    /// Drops every record that is stale at `now` under `ttl`, and no other.
    pub fn evict_older_than(&mut self, ttl: u64, now: u64)
        ensures
            final(self)@ == survivors(old(self)@, ttl, now),
    {
        proof {
            use_type_invariant(&*self);
        }
        let ghost before = views_of(self.devices@);
        let mut kept: Vec<Device> = Vec::new();
        let mut i: usize = 0;
        while i < self.devices.len()
            invariant
                i <= self.devices@.len(),
                before == views_of(self.devices@),
                distinct_ids(before),
                distinct_ids(views_of(kept@)),
                forall|k: int|
                    0 <= k < kept@.len() ==> fresh_among(
                        before,
                        i as int,
                        #[trigger] views_of(kept@)[k],
                        ttl,
                        now,
                    ),
                forall|j: int|
                    0 <= j < i && !expired(#[trigger] before[j], ttl, now) ==> has_id(
                        views_of(kept@),
                        before[j].id,
                    ),
            decreases self.devices@.len() - i,
        {
            let last_seen = self.devices[i].last_seen;
            let stale = now > last_seen && now - last_seen > ttl;
            assert(before[i as int] == self.devices@[i as int]@);
            assert(stale == expired(before[i as int], ttl, now));
            let ghost prior = views_of(kept@);
            if !stale {
                let device = self.devices[i].clone();
                kept.push(device);
                proof {
                    let next = views_of(kept@);
                    assert(next =~= prior.push(before[i as int]));
                    assert forall|a: int, b: int| 0 <= a < b < next.len() implies next[a].id
                        != next[b].id by {
                        if b == next.len() - 1 {
                            assert(fresh_among(before, i as int, prior[a], ttl, now));
                            let j = choose|j: int|
                                0 <= j < i && #[trigger] before[j] == prior[a];
                            assert(before[j].id != before[i as int].id);
                        } else {
                            assert(next[a] == prior[a] && next[b] == prior[b]);
                        }
                    }
                    assert forall|j: int|
                        0 <= j < i + 1 && !expired(#[trigger] before[j], ttl, now) implies has_id(
                        next,
                        before[j].id,
                    ) by {
                        if j == i {
                            assert(next[next.len() - 1].id == before[j].id);
                        } else {
                            assert(has_id(prior, before[j].id));
                            let k = choose|k: int|
                                0 <= k < prior.len() && #[trigger] prior[k].id == before[j].id;
                            assert(next[k].id == before[j].id);
                        }
                    }
                }
            }
            proof {
                let next = views_of(kept@);
                assert forall|k: int| 0 <= k < kept@.len() implies fresh_among(
                    before,
                    i + 1,
                    #[trigger] next[k],
                    ttl,
                    now,
                ) by {
                    if k < prior.len() {
                        assert(next[k] == prior[k]);
                        assert(fresh_among(before, i as int, prior[k], ttl, now));
                        let j = choose|j: int| 0 <= j < i && #[trigger] before[j] == prior[k];
                        assert(0 <= j < i + 1 && before[j] == next[k]);
                    } else {
                        assert(before[i as int] == next[k]);
                    }
                }
            }
            i += 1;
        }
        proof {
            let after = views_of(kept@);
            lemma_as_map_lists(before);
            lemma_as_map_lists(after);
            let target = survivors(as_map(before), ttl, now);
            assert forall|id: Seq<char>| as_map(after).contains_key(id) implies target.contains_key(
                id,
            ) && target[id] == as_map(after)[id] by {
                let k = choose|k: int| 0 <= k < after.len() && #[trigger] after[k].id == id;
                assert(as_map(after)[after[k].id] == after[k]);
                assert(fresh_among(before, i as int, after[k], ttl, now));
                let j = choose|j: int| 0 <= j < i && #[trigger] before[j] == after[k];
                assert(as_map(before).contains_key(before[j].id));
            }
            assert forall|id: Seq<char>| target.contains_key(id) implies as_map(after).contains_key(
                id,
            ) by {
                let j = choose|j: int| 0 <= j < before.len() && #[trigger] before[j].id == id;
                assert(as_map(before)[before[j].id] == before[j]);
                assert(!expired(before[j], ttl, now));
            }
            assert(as_map(after) =~= target);
        }
        self.devices = kept;
    }
}

} // verus!
