//! The interface registry: which host interfaces the proxy may send through,
//! and the stable identifier of each.
use vstd::prelude::*;
use crate::text::{chars_of, matches_at, occurs_at, same_chars};

verus! {

/// The identifier of a device: the hyphenated UUID, version 5, of the
/// device name in the URL namespace.
pub uninterp spec fn interface_id_of(name: Seq<char>) -> Seq<char>;

/// Relies on uuid's Uuid::new_v5 with NAMESPACE_URL over the name's UTF-8
/// bytes, and its hyphenated text: a function of the name alone.
#[verifier::external_body]
pub(crate) fn interface_id(name: &str) -> (r: String)
    ensures
        r@ == interface_id_of(name@),
{
    uuid::Uuid::new_v5(&uuid::Uuid::NAMESPACE_URL, name.as_bytes()).to_string()
}

/// One interface of the host as enumerated: its name and the presentation
/// form of one of its addresses.
pub struct InterfaceRecord {
    pub name: String,
    pub ip: String,
}

/// An interface as the control API lists it.
pub struct Device {
    pub id: String,
    pub name: String,
    pub ip: String,
}

/// `s` starts with `p`.
pub open spec fn has_prefix(s: Seq<char>, p: Seq<char>) -> bool {
    p.len() <= s.len() && s.subrange(0, p.len() as int) == p
}

/// A device name is kept when it starts with one of the prefixes.
pub open spec fn selected(name: Seq<char>, prefixes: Seq<Seq<char>>) -> bool {
    exists|j: int| 0 <= j < prefixes.len() && has_prefix(name, #[trigger] prefixes[j])
}

/// The texts of a vector of strings.
pub open spec fn texts(v: Seq<String>) -> Seq<Seq<char>> {
    v.map_values(|s: String| s@)
}

/// The names and addresses of enumerated interfaces.
pub open spec fn record_pairs(v: Seq<InterfaceRecord>) -> Seq<(Seq<char>, Seq<char>)> {
    v.map_values(|r: InterfaceRecord| (r.name@, r.ip@))
}

/// The identifiers, names and addresses of devices.
pub open spec fn device_triples(v: Seq<Device>) -> Seq<(Seq<char>, Seq<char>, Seq<char>)> {
    v.map_values(|d: Device| (d.id@, d.name@, d.ip@))
}

/// A device is listed when its name starts with one of the prefixes or is
/// the name of the default-route interface.
pub open spec fn listed(name: Seq<char>, prefixes: Seq<Seq<char>>, default_route: Option<Seq<char>>) -> bool {
    selected(name, prefixes) || default_route == Some(name)
}

/// The view of an optional string slice.
pub open spec fn opt_text(s: Option<&str>) -> Option<Seq<char>> {
    match s {
        Some(t) => Some(t@),
        None => None,
    }
}

/// The devices that the listed records make, in the order of enumeration.
pub open spec fn devices_of(
    records: Seq<(Seq<char>, Seq<char>)>,
    prefixes: Seq<Seq<char>>,
    default_route: Option<Seq<char>>,
) -> Seq<(Seq<char>, Seq<char>, Seq<char>)> {
    records.filter(|r: (Seq<char>, Seq<char>)| listed(r.0, prefixes, default_route)).map_values(
        |r: (Seq<char>, Seq<char>)| (interface_id_of(r.0), r.0, r.1),
    )
}

/// The map that entering each name under its identifier, in order, gives.
pub open spec fn id_map(names: Seq<Seq<char>>) -> Map<Seq<char>, Seq<char>>
    decreases names.len(),
{
    if names.len() == 0 {
        Map::empty()
    } else {
        id_map(names.drop_last()).insert(interface_id_of(names.last()), names.last())
    }
}

/// The interface map of the selected records.
pub open spec fn interface_map_of(
    records: Seq<(Seq<char>, Seq<char>)>,
    prefixes: Seq<Seq<char>>,
) -> Map<Seq<char>, Seq<char>> {
    id_map(
        records.filter(|r: (Seq<char>, Seq<char>)| selected(r.0, prefixes)).map_values(
            |r: (Seq<char>, Seq<char>)| r.0,
        ),
    )
}

/// Whether `name` starts with one of `prefixes`.
pub fn is_selected(name: &str, prefixes: &Vec<String>) -> (r: bool)
    ensures
        r == selected(name@, texts(prefixes@)),
{
    let chars = chars_of(name);
    let mut j: usize = 0;
    while j < prefixes.len()
        invariant
            j <= prefixes@.len(),
            chars@ == name@,
            forall|k: int| 0 <= k < j ==> !has_prefix(name@, #[trigger] texts(prefixes@)[k]),
        decreases prefixes@.len() - j,
    {
        let p = chars_of(prefixes[j].as_str());
        if matches_at(&chars, &p, 0) {
            assert(has_prefix(name@, texts(prefixes@)[j as int]));
            return true;
        }
        j = j + 1;
    }
    false
}

fn copy_string(s: &String) -> (r: String)
    ensures
        r@ == s@,
{
    s.as_str().to_owned()
}

/// Whether `name` is the default-route interface's name.
fn is_default_route(name: &str, default_route: Option<&str>) -> (r: bool)
    ensures
        r == (opt_text(default_route) == Some(name@)),
{
    match default_route {
        Some(d) => same_chars(&chars_of(d), &chars_of(name)),
        None => false,
    }
}

/// The devices among the enumerated interfaces whose names start with one
/// of `prefixes` or equal `default_route`, each with its identifier.
pub fn list_devices(records: &Vec<InterfaceRecord>, prefixes: &Vec<String>, default_route: Option<&str>) -> (r:
    Vec<Device>)
    ensures
        device_triples(r@) == devices_of(record_pairs(records@), texts(prefixes@), opt_text(default_route)),
{
    let ghost pred = |r: (Seq<char>, Seq<char>)| listed(r.0, texts(prefixes@), opt_text(default_route));
    let ghost make = |r: (Seq<char>, Seq<char>)| (interface_id_of(r.0), r.0, r.1);
    let mut out: Vec<Device> = Vec::new();
    let mut i: usize = 0;
    while i < records.len()
        invariant
            i <= records@.len(),
            pred == (|r: (Seq<char>, Seq<char>)| listed(r.0, texts(prefixes@), opt_text(default_route))),
            make == (|r: (Seq<char>, Seq<char>)| (interface_id_of(r.0), r.0, r.1)),
            device_triples(out@) == record_pairs(records@).subrange(0, i as int).filter(pred).map_values(make),
        decreases records@.len() - i,
    {
        let rec = &records[i];
        let ghost before = record_pairs(records@).subrange(0, i as int);
        let ghost after = record_pairs(records@).subrange(0, i + 1);
        assert(after.drop_last() =~= before);
        assert(after.last() == (rec.name@, rec.ip@));
        reveal_with_fuel(Seq::filter, 1);
        if is_selected(rec.name.as_str(), prefixes) || is_default_route(rec.name.as_str(), default_route) {
            let d = Device {
                id: interface_id(rec.name.as_str()),
                name: copy_string(&rec.name),
                ip: copy_string(&rec.ip),
            };
            let ghost old_out = out@;
            out.push(d);
            assert(device_triples(out@) =~= device_triples(old_out).push(make(after.last())));
            assert(after.filter(pred) == before.filter(pred).push(after.last()));
            assert(device_triples(out@) =~= after.filter(pred).map_values(make));
        } else {
            assert(after.filter(pred) == before.filter(pred));
        }
        i = i + 1;
    }
    assert(record_pairs(records@).subrange(0, i as int) =~= record_pairs(records@));
    out
}

/// The interface map of the enumerated interfaces whose names start with one
/// of `prefixes`: each such name under its identifier.
pub fn interface_map(records: &Vec<InterfaceRecord>, prefixes: &Vec<String>) -> (r: InterfaceMap)
    ensures
        r.wf(),
        r.view() == interface_map_of(record_pairs(records@), texts(prefixes@)),
{
    let ghost pred = |r: (Seq<char>, Seq<char>)| selected(r.0, texts(prefixes@));
    let ghost first = |r: (Seq<char>, Seq<char>)| r.0;
    let mut map = InterfaceMap::new();
    let mut i: usize = 0;
    while i < records.len()
        invariant
            i <= records@.len(),
            map.wf(),
            pred == (|r: (Seq<char>, Seq<char>)| selected(r.0, texts(prefixes@))),
            first == (|r: (Seq<char>, Seq<char>)| r.0),
            map.view() == id_map(record_pairs(records@).subrange(0, i as int).filter(pred).map_values(first)),
        decreases records@.len() - i,
    {
        let rec = &records[i];
        let ghost before = record_pairs(records@).subrange(0, i as int);
        let ghost after = record_pairs(records@).subrange(0, i + 1);
        assert(after.drop_last() =~= before);
        assert(after.last() == (rec.name@, rec.ip@));
        reveal_with_fuel(Seq::filter, 1);
        if is_selected(rec.name.as_str(), prefixes) {
            map.insert(interface_id(rec.name.as_str()), copy_string(&rec.name));
            assert(after.filter(pred) == before.filter(pred).push(after.last()));
            let ghost names = after.filter(pred).map_values(first);
            assert(names.drop_last() =~= before.filter(pred).map_values(first));
        } else {
            assert(after.filter(pred) == before.filter(pred));
        }
        i = i + 1;
    }
    assert(record_pairs(records@).subrange(0, i as int) =~= record_pairs(records@));
    map
}

/// One identifier and the name of the device it stands for.
pub struct InterfaceEntry {
    pub id: String,
    pub name: String,
}

/// A map from interface identifier to device name.
pub struct InterfaceMap {
    entries: Vec<InterfaceEntry>,
}

impl InterfaceMap {
    /// No identifier appears twice.
    pub closed spec fn wf(&self) -> bool {
        forall|i: int, j: int|
            0 <= i < j < self.entries@.len() ==> self.entries@[i].id@ != self.entries@[j].id@
    }

    /// The map from identifier to device name.
    pub closed spec fn view(&self) -> Map<Seq<char>, Seq<char>> {
        Map::new(
            |k: Seq<char>| exists|i: int| 0 <= i < self.entries@.len() && self.entries@[i].id@ == k,
            |k: Seq<char>|
                self.entries@[choose|i: int|
                    0 <= i < self.entries@.len() && self.entries@[i].id@ == k].name@,
        )
    }

    proof fn lemma_view_at(&self, i: int)
        requires
            self.wf(),
            0 <= i < self.entries@.len(),
        ensures
            self.view().contains_key(self.entries@[i].id@),
            self.view()[self.entries@[i].id@] == self.entries@[i].name@,
    {
        let k = self.entries@[i].id@;
        let c = choose|c: int| 0 <= c < self.entries@.len() && self.entries@[c].id@ == k;
        assert(0 <= c < self.entries@.len() && self.entries@[c].id@ == k);
        if c != i {
            if c < i {
                assert(self.entries@[c].id@ != self.entries@[i].id@);
            } else {
                assert(self.entries@[i].id@ != self.entries@[c].id@);
            }
        }
    }

    /// An empty map.
    pub fn new() -> (r: InterfaceMap)
        ensures
            r.wf(),
            r.view() == Map::<Seq<char>, Seq<char>>::empty(),
    {
        let r = InterfaceMap { entries: Vec::new() };
        assert(r.view() =~= Map::<Seq<char>, Seq<char>>::empty());
        r
    }

    /// The number of identifiers in the map.
    pub fn len(&self) -> (r: usize)
        requires
            self.wf(),
        ensures
            r == self.view().len(),
    {
        proof {
            self.lemma_len();
        }
        self.entries.len()
    }

    proof fn lemma_len(&self)
        requires
            self.wf(),
        ensures
            self.view().len() == self.entries@.len(),
        decreases self.entries@.len(),
    {
        let ids = self.entries@.map_values(|e: InterfaceEntry| e.id@);
        assert forall|i: int, j: int| 0 <= i < j < ids.len() implies ids[i] != ids[j] by {}
        ids.unique_seq_to_set();
        assert(self.view().dom() =~= ids.to_set()) by {
            assert forall|k: Seq<char>| self.view().dom().contains(k) implies ids.to_set().contains(k) by {
                let i = choose|i: int| 0 <= i < self.entries@.len() && self.entries@[i].id@ == k;
                assert(ids[i] == k);
            }
            assert forall|k: Seq<char>| ids.to_set().contains(k) implies self.view().dom().contains(k) by {
                let i = choose|i: int| 0 <= i < ids.len() && ids[i] == k;
                assert(self.entries@[i].id@ == k);
            }
        }
    }

    fn position(&self, id: &Vec<char>) -> (r: Option<usize>)
        ensures
            match r {
                Some(i) => i < self.entries@.len() && self.entries@[i as int].id@ == id@,
                None => forall|i: int| 0 <= i < self.entries@.len() ==> self.entries@[i].id@ != id@,
            },
    {
        let mut i: usize = 0;
        while i < self.entries.len()
            invariant
                i <= self.entries@.len(),
                forall|j: int| 0 <= j < i ==> self.entries@[j].id@ != id@,
            decreases self.entries@.len() - i,
        {
            if same_chars(&chars_of(self.entries[i].id.as_str()), id) {
                return Some(i);
            }
            i = i + 1;
        }
        None
    }

    /// The device name that `id` stands for.
    pub fn get(&self, id: &str) -> (r: Option<String>)
        requires
            self.wf(),
        ensures
            match r {
                Some(name) => self.view().contains_key(id@) && self.view()[id@] == name@,
                None => !self.view().contains_key(id@),
            },
    {
        match self.position(&chars_of(id)) {
            Some(i) => {
                proof {
                    self.lemma_view_at(i as int);
                }
                Some(self.entries[i].name.clone())
            },
            None => None,
        }
    }

    /// Whether `id` is in the map.
    pub fn contains_key(&self, id: &str) -> (r: bool)
        requires
            self.wf(),
        ensures
            r == self.view().contains_key(id@),
    {
        self.get(id).is_some()
    }

    /// Maps `id` to `name`, replacing what `id` stood for before.
    pub fn insert(&mut self, id: String, name: String)
        requires
            old(self).wf(),
        ensures
            final(self).wf(),
            final(self).view() == old(self).view().insert(id@, name@),
    {
        let ghost before = self.entries@;
        let ghost key = id@;
        let ghost value = name@;
        match self.position(&chars_of(id.as_str())) {
            Some(i) => {
                self.entries.set(i, InterfaceEntry { id, name });
                proof {
                    assert(self.wf());
                    assert forall|k: Seq<char>| #[trigger] self.view().contains_key(k)
                        == old(self).view().insert(key, value).contains_key(k) by {
                        if k != key {
                            if self.view().contains_key(k) {
                                let j = choose|j: int| 0 <= j < self.entries@.len() && self.entries@[j].id@ == k;
                                assert(before[j].id@ == k);
                            }
                            if old(self).view().contains_key(k) {
                                let j = choose|j: int| 0 <= j < before.len() && before[j].id@ == k;
                                assert(self.entries@[j].id@ == k);
                            }
                        } else {
                            self.lemma_view_at(i as int);
                        }
                    }
                    assert forall|k: Seq<char>| #[trigger] self.view().contains_key(k) implies
                        self.view()[k] == old(self).view().insert(key, value)[k] by {
                        let j = choose|j: int| 0 <= j < self.entries@.len() && self.entries@[j].id@ == k;
                        self.lemma_view_at(j);
                        if k != key {
                            old(self).lemma_view_at(j);
                        }
                    }
                    assert(self.view() =~= old(self).view().insert(key, value));
                }
            },
            None => {
                self.entries.push(InterfaceEntry { id, name });
                proof {
                    assert(self.wf());
                    let n = before.len() as int;
                    assert forall|k: Seq<char>| #[trigger] self.view().contains_key(k)
                        == old(self).view().insert(key, value).contains_key(k) by {
                        if k != key {
                            if self.view().contains_key(k) {
                                let j = choose|j: int| 0 <= j < self.entries@.len() && self.entries@[j].id@ == k;
                                assert(j < n);
                                assert(before[j].id@ == k);
                            }
                            if old(self).view().contains_key(k) {
                                let j = choose|j: int| 0 <= j < before.len() && before[j].id@ == k;
                                assert(self.entries@[j].id@ == k);
                            }
                        } else {
                            self.lemma_view_at(n);
                        }
                    }
                    assert forall|k: Seq<char>| #[trigger] self.view().contains_key(k) implies
                        self.view()[k] == old(self).view().insert(key, value)[k] by {
                        let j = choose|j: int| 0 <= j < self.entries@.len() && self.entries@[j].id@ == k;
                        self.lemma_view_at(j);
                        if k != key {
                            assert(j < n);
                            old(self).lemma_view_at(j);
                        }
                    }
                    assert(self.view() =~= old(self).view().insert(key, value));
                }
            },
        }
    }
}

} // verus!
