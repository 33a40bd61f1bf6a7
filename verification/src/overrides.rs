//! Caller-supplied manual replacements of sampled LCZ codes, keyed by
//! station identity.
//!
//! An [`OverrideMap`] abstracts to a mathematical map from identity to
//! code. Setting an identity twice keeps the later code: last write wins.

use vstd::prelude::*;

verus! {

/// A mapping from station identity to a manual LCZ code, applied after
/// raster sampling.
pub struct OverrideMap {
    entries: Vec<(String, u8)>,
}

/// The map an entry list denotes: later entries shadow earlier ones.
spec fn entries_view(s: Seq<(String, u8)>) -> Map<Seq<char>, u8>
    decreases s.len(),
{
    if s.len() == 0 {
        Map::<Seq<char>, u8>::empty()
    } else {
        entries_view(s.drop_last()).insert(s.last().0@, s.last().1)
    }
}

/// The greatest index whose entry bears key `k`, or -1 when none does.
spec fn last_key_index(s: Seq<(String, u8)>, k: Seq<char>) -> int
    decreases s.len(),
{
    if s.len() == 0 {
        -1
    } else if s.last().0@ == k {
        s.len() - 1
    } else {
        last_key_index(s.drop_last(), k)
    }
}

/// The denoted map holds key `k` exactly when some entry bears it, and
/// then maps it to the code of the greatest such entry.
proof fn lemma_entries_view_lookup(s: Seq<(String, u8)>, k: Seq<char>)
    ensures
        last_key_index(s, k) >= -1,
        entries_view(s).dom().contains(k) <==> last_key_index(s, k) >= 0,
        last_key_index(s, k) >= 0 ==> last_key_index(s, k) < s.len() && s[last_key_index(s, k)].0@
            == k && entries_view(s)[k] == s[last_key_index(s, k)].1 && (forall|j: int|
            last_key_index(s, k) < j < s.len() ==> s[j].0@ != k),
        last_key_index(s, k) == -1 ==> forall|j: int| 0 <= j < s.len() ==> s[j].0@ != k,
    decreases s.len(),
{
    if s.len() > 0 {
        lemma_entries_view_lookup(s.drop_last(), k);
        assert(forall|j: int| 0 <= j < s.len() - 1 ==> s[j] == s.drop_last()[j]);
    }
}

impl View for OverrideMap {
    type V = Map<Seq<char>, u8>;

    closed spec fn view(&self) -> Map<Seq<char>, u8> {
        entries_view(self.entries@)
    }
}

impl OverrideMap {
    /// An empty override map.
    pub fn new() -> (m: OverrideMap)
        ensures
            m@ == Map::<Seq<char>, u8>::empty(),
    {
        OverrideMap { entries: Vec::new() }
    }

    /// Record a manual code for a station identity; a later call for the
    /// same identity wins.
    pub fn insert(&mut self, station_id: String, code: u8)
        ensures
            final(self)@ == old(self)@.insert(station_id@, code),
    {
        let ghost sid = station_id@;
        let ghost old_entries = self.entries@;
        self.entries.push((station_id, code));
        proof {
            assert(self.entries@.drop_last() =~= old_entries);
            assert(self.entries@.last().0@ == sid);
        }
    }

    /// Look up the manual code for a station identity, if any.
    pub fn get(&self, station_id: &str) -> (r: Option<u8>)
        ensures
            match r {
                Some(code) => self@.dom().contains(station_id@) && code == self@[station_id@],
                None => !self@.dom().contains(station_id@),
            },
    {
        let key: String = station_id.to_owned();
        let n = self.entries.len();
        let mut i: usize = n;
        while i > 0
            invariant
                i <= n,
                n == self.entries@.len(),
                key@ == station_id@,
                forall|j: int| i <= j < n ==> self.entries@[j].0@ != station_id@,
            decreases i,
        {
            i -= 1;
            if self.entries[i].0 == key {
                proof {
                    lemma_entries_view_lookup(self.entries@, station_id@);
                    let lki = last_key_index(self.entries@, station_id@);
                    assert(self.entries@[i as int].0@ == station_id@);
                    assert(lki >= 0);
                    if lki < i as int {
                        assert(self.entries@[i as int].0@ != station_id@);
                    }
                    if lki > i as int {
                        assert(self.entries@[lki].0@ != station_id@);
                    }
                    assert(lki == i as int);
                }
                return Some(self.entries[i].1);
            }
        }
        proof {
            lemma_entries_view_lookup(self.entries@, station_id@);
        }
        None
    }
}

} // verus!
