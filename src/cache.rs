//! The cache of resolved tool paths: a map from cache key to path, kept for
//! the lifetime of its owner.
use vstd::prelude::*;

verus! {

/// The value recorded last for `key` among `pairs`.
pub open spec fn pair_lookup(pairs: Seq<(Seq<char>, Seq<char>)>, key: Seq<char>) -> Option<Seq<char>>
    decreases pairs.len(),
{
    if pairs.len() == 0 {
        None
    } else if pairs.last().0 == key {
        Some(pairs.last().1)
    } else {
        pair_lookup(pairs.drop_last(), key)
    }
}

pub open spec fn pairs_map(pairs: Seq<(Seq<char>, Seq<char>)>) -> Map<Seq<char>, Seq<char>> {
    Map::new(|k: Seq<char>| pair_lookup(pairs, k) is Some, |k: Seq<char>| pair_lookup(pairs, k).unwrap())
}

/// Resolved tool paths by cache key.
pub struct ToolPathCache {
    entries: Vec<(String, String)>,
}

impl ToolPathCache {
    closed spec fn pairs(&self) -> Seq<(Seq<char>, Seq<char>)> {
        self.entries@.map_values(|e: (String, String)| (e.0@, e.1@))
    }
}

impl View for ToolPathCache {
    type V = Map<Seq<char>, Seq<char>>;

    closed spec fn view(&self) -> Map<Seq<char>, Seq<char>> {
        pairs_map(self.pairs())
    }
}

impl ToolPathCache {
    /// An empty cache.
    pub fn new() -> (r: ToolPathCache)
        ensures
            r@ == Map::<Seq<char>, Seq<char>>::empty(),
    {
        let r = ToolPathCache { entries: Vec::new() };
        proof {
            assert(r.pairs() =~= Seq::<(Seq<char>, Seq<char>)>::empty());
            assert(r@ =~= Map::<Seq<char>, Seq<char>>::empty());
        }
        r
    }

    /// The path cached under `key`.
    pub fn get(&self, key: &String) -> (r: Option<String>)
        ensures
            match r {
                Some(p) => self@.contains_key(key@) && self@[key@] == p@,
                None => !self@.contains_key(key@),
            },
    {
        let ghost s = self.pairs();
        let n = self.entries.len();
        let mut i: usize = n;
        proof {
            assert(s.subrange(0, n as int) =~= s);
        }
        while i > 0
            invariant
                i <= n,
                n == s.len(),
                s == self.pairs(),
                pair_lookup(s, key@) == pair_lookup(s.subrange(0, i as int), key@),
            decreases i,
        {
            proof {
                assert(s.subrange(0, i as int).drop_last() =~= s.subrange(0, i - 1));
            }
            if self.entries[i - 1].0 == *key {
                return Some(self.entries[i - 1].1.clone());
            }
            i = i - 1;
        }
        None
    }

    /// Caches `path` under `key`, in place of what was there.
    pub fn insert(&mut self, key: String, path: String)
        ensures
            final(self)@ == old(self)@.insert(key@, path@),
    {
        let ghost before = self.pairs();
        self.entries.push((key, path));
        proof {
            let after = self.pairs();
            assert(after =~= before.push((key@, path@)));
            assert(after.drop_last() =~= before);
            assert(pairs_map(after) =~= pairs_map(before).insert(key@, path@));
        }
    }
}

} // verus!
