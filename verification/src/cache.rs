//! The base domains of the zones that were looked up during a run.

use vstd::prelude::*;

verus! {

/// The map that a sequence of pairs stands for. Where a key occurs twice,
/// the later pair counts.
pub open spec fn map_of(entries: Seq<(String, String)>) -> Map<Seq<char>, Seq<char>>
    decreases entries.len(),
{
    if entries.len() == 0 {
        Map::empty()
    } else {
        map_of(entries.drop_last()).insert(entries.last().0@, entries.last().1@)
    }
}

/// Pairs whose key is not `key` do not matter for what `key` maps to.
proof fn lemma_map_of_skips(entries: Seq<(String, String)>, from: int, key: Seq<char>)
    requires
        0 <= from <= entries.len(),
        forall|j: int| from <= j < entries.len() ==> (#[trigger] entries[j]).0@ != key,
    ensures
        map_of(entries).contains_key(key) == map_of(entries.take(from)).contains_key(key),
        map_of(entries).contains_key(key) ==> map_of(entries)[key] == map_of(
            entries.take(from),
        )[key],
    decreases entries.len() - from,
{
    if from == entries.len() {
        assert(entries.take(from) =~= entries);
    } else {
        let shorter = entries.drop_last();
        assert(shorter.take(from) =~= entries.take(from));
        lemma_map_of_skips(shorter, from, key);
    }
}

/// A memo from zone identifiers to base domains. Nothing is ever removed.
#[derive(Debug, PartialEq, Eq)]
pub struct ZoneNames {
    entries: Vec<(String, String)>,
}

impl View for ZoneNames {
    type V = Map<Seq<char>, Seq<char>>;

    closed spec fn view(&self) -> Map<Seq<char>, Seq<char>> {
        map_of(self.entries@)
    }
}

impl ZoneNames {
    /// The empty memo.
    pub fn new() -> (names: ZoneNames)
        ensures
            names@ == Map::<Seq<char>, Seq<char>>::empty(),
    {
        ZoneNames { entries: Vec::new() }
    }

    /// The base domain that is remembered for a zone.
    pub fn get(&self, zone_id: &str) -> (name: Option<String>)
        ensures
            name is Some <==> self@.contains_key(zone_id@),
            name matches Some(n) ==> self@[zone_id@] == n@,
    {
        let key: String = zone_id.to_owned();
        let mut i: usize = self.entries.len();
        while i > 0
            invariant
                i <= self.entries.len(),
                key@ == zone_id@,
                forall|j: int| i <= j < self.entries.len() ==> (#[trigger] self.entries@[j]).0@ != key@,
            decreases i,
        {
            i -= 1;
            if self.entries[i].0 == key {
                proof {
                    let upto = self.entries@.take(i + 1);
                    lemma_map_of_skips(self.entries@, i + 1, key@);
                    assert(upto.drop_last() =~= self.entries@.take(i as int));
                    assert(upto.last() == self.entries@[i as int]);
                }
                return Some(self.entries[i].1.clone());
            }
        }
        proof {
            lemma_map_of_skips(self.entries@, 0, key@);
        }
        None
    }

    /// Remembers the base domain of a zone.
    pub fn insert(&mut self, zone_id: String, name: String)
        ensures
            final(self)@ == old(self)@.insert(zone_id@, name@),
    {
        let ghost before = self.entries@;
        self.entries.push((zone_id, name));
        assert(self.entries@.drop_last() =~= before);
    }
}

} // verus!
