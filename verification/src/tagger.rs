//! Names of the sensors, by the id that the radio gives them. A sensor seen
//! for the first time gets a default name, which the operator may edit in the
//! stored tag file.
use crate::text::{decimal, push_decimal};
use std::collections::HashMap;
use vstd::prelude::*;

verus! {

broadcast use vstd::std_specs::hash::group_hash_axioms;

/// The default name of voltmeter `id`.
pub open spec fn default_voltimeter_tag(id: u8) -> Seq<char> {
    seq!['V', 'o', 'l', 't', 'i', 'm', 'e', 't', 'e', 'r', ' '] + decimal(id as nat)
}

/// The default name of thermometer `id`.
pub open spec fn default_thermometer_tag(id: u8) -> Seq<char> {
    seq!['T', 'h', 'e', 'r', 'm', 'o', 'm', 'e', 't', 'e', 'r', ' '] + decimal(id as nat)
}

/// The names that a list of `(id, name)` entries gives; a later entry for
/// the same id wins.
pub open spec fn entries_to_tags(entries: Seq<(u8, String)>) -> Map<u8, Seq<char>>
    decreases entries.len(),
{
    if entries.len() == 0 {
        Map::empty()
    } else {
        entries_to_tags(entries.drop_last()).insert(entries.last().0, entries.last().1@)
    }
}

/// The names held in a map, by id.
pub open spec fn tags_of(m: Map<u8, String>) -> Map<u8, Seq<char>> {
    Map::new(|id: u8| m.contains_key(id), |id: u8| m[id]@)
}

/// The entries of `tags` listed by increasing id.
pub open spec fn lists_tags(entries: Seq<(u8, String)>, tags: Map<u8, Seq<char>>) -> bool {
    &&& forall|i: int|
        0 <= i < entries.len() ==> #[trigger] tags.contains_key(entries[i].0) && tags[entries[i].0]
            == entries[i].1@
    &&& forall|id: u8| #[trigger]
        tags.contains_key(id) ==> exists|i: int| 0 <= i < entries.len() && entries[i].0 == id
    &&& forall|i: int, j: int| 0 <= i < j < entries.len() ==> entries[i].0 < entries[j].0
}

/// The name of sensor `id` among `tags`, and the names afterwards: a known
/// sensor keeps its name; an unknown one is given `default`.
pub open spec fn tag_lookup(tags: Map<u8, Seq<char>>, id: u8, default: Seq<char>) -> (
    Seq<char>,
    Map<u8, Seq<char>>,
) {
    if tags.contains_key(id) {
        (tags[id], tags)
    } else {
        (default, tags.insert(id, default))
    }
}

/// A known sensor keeps its stored name and the names stay as they are; an
/// unknown sensor is given the default name, which is added to the names.
pub proof fn lemma_tag_lookup_cases(tags: Map<u8, Seq<char>>, id: u8, default: Seq<char>)
    ensures
        tags.contains_key(id) ==> tag_lookup(tags, id, default).0 == tags[id] && tag_lookup(
            tags,
            id,
            default,
        ).1 == tags,
        !tags.contains_key(id) ==> tag_lookup(tags, id, default).0 == default && tag_lookup(
            tags,
            id,
            default,
        ).1 == tags.insert(id, default),
{
}

/// Appending an entry to a list names its sensor with the entry's name,
/// whatever came before, and leaves the other sensors' names alone: a later
/// entry for the same id wins.
pub proof fn lemma_entries_later_wins(entries: Seq<(u8, String)>, id: u8, name: String)
    ensures
        entries_to_tags(entries.push((id, name))) == entries_to_tags(entries).insert(id, name@),
        entries_to_tags(entries.push((id, name)))[id] == name@,
{
    let e = entries.push((id, name));
    assert(e.drop_last() =~= entries);
    assert(e.last() == (id, name));
}

/// Asking twice for a sensor's name gives the same name and changes
/// nothing the second time; the other sensors keep their names.
pub proof fn lemma_tag_lookup_stable(tags: Map<u8, Seq<char>>, id: u8, default: Seq<char>)
    ensures
        tag_lookup(tag_lookup(tags, id, default).1, id, default) == tag_lookup(tags, id, default),
        forall|k: u8|
            k != id ==> (#[trigger] tag_lookup(tags, id, default).1.contains_key(k) <==> tags.contains_key(k)),
        forall|k: u8|
            k != id && tags.contains_key(k) ==> #[trigger] tag_lookup(tags, id, default).1[k] == tags[k],
{
    let m = tag_lookup(tags, id, default).1;
    if !tags.contains_key(id) {
        assert(m.insert(id, default) =~= m);
    }
}

/// Listing the names and reading the list back gives the same names: the
/// stored tag file holds the tagger.
pub proof fn lemma_entries_roundtrip(entries: Seq<(u8, String)>, tags: Map<u8, Seq<char>>)
    requires
        lists_tags(entries, tags),
    ensures
        entries_to_tags(entries) == tags,
    decreases entries.len(),
{
    if entries.len() == 0 {
        assert forall|k: u8| !#[trigger] tags.contains_key(k) by {
            if tags.contains_key(k) {
                let w = choose|i: int| 0 <= i < entries.len() && entries[i].0 == k;
            }
        }
        assert(tags =~= Map::<u8, Seq<char>>::empty());
    } else {
        let init = entries.drop_last();
        let last = entries.last();
        let sub = tags.remove(last.0);
        assert forall|i: int| 0 <= i < init.len() implies #[trigger] sub.contains_key(init[i].0)
            && sub[init[i].0] == init[i].1@ by {
            assert(init[i] == entries[i]);
            assert(entries[i].0 < entries[entries.len() - 1].0);
            assert(tags.contains_key(entries[i].0));
        }
        assert forall|id: u8| #[trigger] sub.contains_key(id) implies exists|i: int|
            0 <= i < init.len() && init[i].0 == id by {
            let w = choose|i: int| 0 <= i < entries.len() && entries[i].0 == id;
            assert(w != entries.len() - 1);
            assert(init[w] == entries[w]);
        }
        assert forall|i: int, j: int| 0 <= i < j < init.len() implies init[i].0 < init[j].0 by {
            assert(init[i] == entries[i]);
            assert(init[j] == entries[j]);
        }
        lemma_entries_roundtrip(init, sub);
        assert(tags.contains_key(entries[entries.len() - 1].0));
        assert(sub.insert(last.0, last.1@) =~= tags);
    }
}

/// The names of the voltmeters and thermometers.
pub struct Tagger {
    voltimeters: HashMap<u8, String>,
    thermometers: HashMap<u8, String>,
    unsaved: bool,
}

impl Tagger {
    /// The voltmeters' names.
    pub closed spec fn voltimeter_tags(&self) -> Map<u8, Seq<char>> {
        tags_of(self.voltimeters@)
    }

    /// The thermometers' names.
    pub closed spec fn thermometer_tags(&self) -> Map<u8, Seq<char>> {
        tags_of(self.thermometers@)
    }

    /// A name was added since the tags were last stored.
    pub closed spec fn has_unsaved(&self) -> bool {
        self.unsaved
    }

    fn map_from_entries(entries: &Vec<(u8, String)>) -> (m: HashMap<u8, String>)
        ensures
            tags_of(m@) == entries_to_tags(entries@),
    {
        let mut m: HashMap<u8, String> = HashMap::new();
        assert(tags_of(m@) =~= entries_to_tags(entries@.take(0)));
        let mut i: usize = 0;
        while i < entries.len()
            invariant
                i <= entries@.len(),
                tags_of(m@) == entries_to_tags(entries@.take(i as int)),
            decreases entries@.len() - i,
        {
            let id = entries[i].0;
            let name = entries[i].1.clone();
            let ghost before = m@;
            m.insert(id, name);
            proof {
                let t = entries@.take(i + 1);
                assert(t.drop_last() =~= entries@.take(i as int));
                assert(t.last() == entries@[i as int]);
                assert(tags_of(m@) =~= tags_of(before).insert(id, name@));
            }
            i = i + 1;
        }
        assert(entries@.take(i as int) =~= entries@);
        m
    }

    fn entries_of(m: &HashMap<u8, String>) -> (r: Vec<(u8, String)>)
        ensures
            lists_tags(r@, tags_of(m@)),
    {
        let ghost tags = tags_of(m@);
        let mut r: Vec<(u8, String)> = Vec::new();
        let mut id: u16 = 0;
        while id < 256
            invariant
                id <= 256,
                tags == tags_of(m@),
                forall|i: int|
                    #![trigger r@[i]]
                    0 <= i < r@.len() ==> tags.contains_key(r@[i].0) && tags[r@[i].0] == r@[i].1@
                        && r@[i].0 < id,
                forall|k: u8| #[trigger]
                    tags.contains_key(k) && k < id ==> exists|i: int| 0 <= i < r@.len() && r@[i].0 == k,
                forall|i: int, j: int| 0 <= i < j < r@.len() ==> r@[i].0 < r@[j].0,
            decreases 256 - id,
        {
            let k = id as u8;
            match m.get(&k) {
                Some(name) => {
                    let ghost before = r@;
                    r.push((k, name.clone()));
                    proof {
                        assert(r@[r@.len() - 1].0 == k);
                        assert forall|a: int, b: int| 0 <= a < b < r@.len() implies r@[a].0 < r@[b].0 by {
                            if b == r@.len() - 1 {
                                assert(r@[a] == before[a]);
                                assert(before[a].0 < id);
                            } else {
                                assert(r@[a] == before[a]);
                                assert(r@[b] == before[b]);
                            }
                        }
                        assert forall|q: u8| #[trigger]
                            tags.contains_key(q) && q < id + 1 implies exists|i: int|
                                0 <= i < r@.len() && r@[i].0 == q by {
                            if q < id {
                                let w = choose|i: int| 0 <= i < before.len() && before[i].0 == q;
                                assert(r@[w] == before[w]);
                            } else {
                                assert(r@[r@.len() - 1].0 == q);
                            }
                        }
                    }
                },
                None => {
                    proof {
                        assert(!tags.contains_key(k));
                    }
                },
            }
            id = id + 1;
        }
        assert forall|k: u8| #[trigger] tags.contains_key(k) implies exists|i: int|
            0 <= i < r@.len() && r@[i].0 == k by {
            assert(k < id);
        }
        r
    }

    /// A tagger with the names listed in the stored tag file; a later entry
    /// for the same id wins.
    pub fn new(voltimeters: &Vec<(u8, String)>, thermometers: &Vec<(u8, String)>) -> (t:
        Tagger)
        ensures
            t.voltimeter_tags() == entries_to_tags(voltimeters@),
            t.thermometer_tags() == entries_to_tags(thermometers@),
            !t.has_unsaved(),
    {
        Tagger {
            voltimeters: Self::map_from_entries(voltimeters),
            thermometers: Self::map_from_entries(thermometers),
            unsaved: false,
        }
    }

    /// The voltmeters' names, by increasing id, for storing.
    pub fn voltimeter_entries(&self) -> (r: Vec<(u8, String)>)
        ensures
            lists_tags(r@, self.voltimeter_tags()),
    {
        Self::entries_of(&self.voltimeters)
    }

    /// The thermometers' names, by increasing id, for storing.
    pub fn thermometer_entries(&self) -> (r: Vec<(u8, String)>)
        ensures
            lists_tags(r@, self.thermometer_tags()),
    {
        Self::entries_of(&self.thermometers)
    }

    /// Whether a name was added since the last call; clears the mark.
    pub fn take_unsaved(&mut self) -> (r: bool)
        ensures
            r == old(self).has_unsaved(),
            !final(self).has_unsaved(),
            final(self).voltimeter_tags() == old(self).voltimeter_tags(),
            final(self).thermometer_tags() == old(self).thermometer_tags(),
    {
        let r = self.unsaved;
        self.unsaved = false;
        r
    }

    /// The name of voltmeter `id`. A voltmeter seen for the first time is
    /// named `Voltimeter <id>`, and the tags are marked for storing.
    pub fn voltimeter(&mut self, id: u8) -> (tag: String)
        ensures
            (tag@, final(self).voltimeter_tags()) == tag_lookup(
                old(self).voltimeter_tags(),
                id,
                default_voltimeter_tag(id),
            ),
            final(self).thermometer_tags() == old(self).thermometer_tags(),
            final(self).has_unsaved() == (old(self).has_unsaved() || !old(self).voltimeter_tags().contains_key(id)),
    {
        match self.voltimeters.get(&id) {
            Some(tag) => {
                let t = tag.clone();
                proof {
                    assert(self.voltimeter_tags().insert(id, t@) =~= self.voltimeter_tags());
                }
                return t;
            },
            None => {},
        }
        let mut tag = String::from_str("Voltimeter ");
        proof {
            reveal_strlit("Voltimeter ");
        }
        push_decimal(&mut tag, id as u32);
        assert(tag@ =~= default_voltimeter_tag(id));
        let ghost before = self.voltimeters@;
        self.voltimeters.insert(id, tag.clone());
        self.unsaved = true;
        assert(tags_of(self.voltimeters@) =~= tags_of(before).insert(id, tag@));
        tag
    }

    /// The name of thermometer `id`. A thermometer seen for the first time is
    /// named `Thermometer <id>`, and the tags are marked for storing.
    pub fn thermometer(&mut self, id: u8) -> (tag: String)
        ensures
            (tag@, final(self).thermometer_tags()) == tag_lookup(
                old(self).thermometer_tags(),
                id,
                default_thermometer_tag(id),
            ),
            final(self).voltimeter_tags() == old(self).voltimeter_tags(),
            final(self).has_unsaved() == (old(self).has_unsaved() || !old(self).thermometer_tags().contains_key(id)),
    {
        match self.thermometers.get(&id) {
            Some(tag) => {
                let t = tag.clone();
                proof {
                    assert(self.thermometer_tags().insert(id, t@) =~= self.thermometer_tags());
                }
                return t;
            },
            None => {},
        }
        let mut tag = String::from_str("Thermometer ");
        proof {
            reveal_strlit("Thermometer ");
        }
        push_decimal(&mut tag, id as u32);
        assert(tag@ =~= default_thermometer_tag(id));
        let ghost before = self.thermometers@;
        self.thermometers.insert(id, tag.clone());
        self.unsaved = true;
        assert(tags_of(self.thermometers@) =~= tags_of(before).insert(id, tag@));
        tag
    }
}

/// Storing a tagger's names and building a tagger from what was stored
/// gives the same names: for the lists that `voltimeter_entries` and
/// `thermometer_entries` return, `Tagger::new` restores `t`.
pub proof fn lemma_tagger_reload(t: Tagger, voltimeters: Seq<(u8, String)>, thermometers: Seq<(u8, String)>)
    requires
        lists_tags(voltimeters, t.voltimeter_tags()),
        lists_tags(thermometers, t.thermometer_tags()),
    ensures
        entries_to_tags(voltimeters) == t.voltimeter_tags(),
        entries_to_tags(thermometers) == t.thermometer_tags(),
{
    lemma_entries_roundtrip(voltimeters, t.voltimeter_tags());
    lemma_entries_roundtrip(thermometers, t.thermometer_tags());
}

impl Default for Tagger {
    /// A tagger that knows no sensor.
    fn default() -> (t: Tagger)
        ensures
            t.voltimeter_tags() == Map::<u8, Seq<char>>::empty(),
            t.thermometer_tags() == Map::<u8, Seq<char>>::empty(),
            !t.has_unsaved(),
    {
        let t = Tagger { voltimeters: HashMap::new(), thermometers: HashMap::new(), unsaved: false };
        assert(t.voltimeter_tags() =~= Map::<u8, Seq<char>>::empty());
        assert(t.thermometer_tags() =~= Map::<u8, Seq<char>>::empty());
        t
    }
}

} // verus!
