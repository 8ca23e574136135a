use vstd::prelude::*;

verus! {

/// The in-memory friend-name to time-zone-identifier mapping built per
/// invocation.
///
/// Entries are kept in insertion order and a later entry for the same
/// name shadows every earlier one, so a directory abstracts to the map
/// in which the last entry for each name wins.
pub struct ZoneDirectory {
    entries: Vec<(String, String)>,
}

/// The map that a sequence of (name, zone) entries denotes when a later
/// entry for the same name shadows the earlier ones.
spec fn dir_map_of(entries: Seq<(String, String)>) -> Map<Seq<char>, Seq<char>>
    decreases entries.len(),
{
    if entries.len() == 0 {
        Map::empty()
    } else {
        dir_map_of(entries.drop_last()).insert(entries.last().0@, entries.last().1@)
    }
}

impl View for ZoneDirectory {
    type V = Map<Seq<char>, Seq<char>>;

    closed spec fn view(&self) -> Map<Seq<char>, Seq<char>> {
        dir_map_of(self.entries@)
    }
}

/// A name that no entry carries is not in the denoted map.
proof fn lemma_dir_map_absent(entries: Seq<(String, String)>, key: Seq<char>)
    requires
        forall|j: int| 0 <= j < entries.len() ==> entries[j].0@ != key,
    ensures
        !dir_map_of(entries).contains_key(key),
    decreases entries.len(),
{
    if entries.len() > 0 {
        lemma_dir_map_absent(entries.drop_last(), key);
    }
}

/// The entry whose name occurs nowhere later decides what the denoted
/// map holds for that name.
proof fn lemma_dir_map_found(entries: Seq<(String, String)>, i: int)
    requires
        0 <= i < entries.len(),
        forall|j: int| i < j < entries.len() ==> entries[j].0@ != entries[i].0@,
    ensures
        dir_map_of(entries).contains_key(entries[i].0@),
        dir_map_of(entries)[entries[i].0@] == entries[i].1@,
    decreases entries.len(),
{
    if i == entries.len() - 1 {
    } else {
        lemma_dir_map_found(entries.drop_last(), i);
    }
}

impl ZoneDirectory {
    /// An empty directory, denoting the empty map.
    pub fn new() -> (r: ZoneDirectory)
        ensures
            r@ == Map::<Seq<char>, Seq<char>>::empty(),
    {
        ZoneDirectory { entries: Vec::new() }
    }

    /// Records `zone` for `name`, overwriting whatever an earlier entry
    /// for the same name recorded.
    pub fn insert(&mut self, name: String, zone: String)
        ensures
            final(self)@ == old(self)@.insert(name@, zone@),
    {
        let ghost before = self.entries@;
        self.entries.push((name, zone));
        proof {
            assert(self.entries@.drop_last() =~= before);
        }
    }

    /// Looks the name up exactly as given; callers that want the
    /// case-insensitive behaviour lowercase the name first.
    pub fn get(&self, name: &str) -> (r: Option<&String>)
        ensures
            match r {
                Some(zone) => self@.contains_key(name@) && zone@ == self@[name@],
                None => !self@.contains_key(name@),
            },
    {
        let key: String = name.to_owned();
        let mut i: usize = self.entries.len();
        while i > 0
            invariant
                i <= self.entries@.len(),
                key@ == name@,
                forall|j: int| i <= j < self.entries@.len() ==> self.entries@[j].0@ != name@,
            decreases i,
        {
            i = i - 1;
            if self.entries[i].0 == key {
                proof {
                    lemma_dir_map_found(self.entries@, i as int);
                }
                return Some(&self.entries[i].1);
            }
        }
        proof {
            lemma_dir_map_absent(self.entries@, name@);
        }
        None
    }
}

} // verus!
