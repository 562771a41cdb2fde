//! Resource map: redirects resource paths to their replacements.
use vstd::prelude::*;
use crate::core_engine::strmap::{StrMap, string_values, lemma_string_values_insert, lemma_string_values_empty};
use crate::text::owned;

verus! {

/// Maps resource paths to replacement paths.
pub struct ResourceMap {
    map: StrMap<String>,
}

/// The map built from a JSON object's entries: an entry whose value is a string
/// maps its key to that string; other entries are skipped; later keys win.
pub open spec fn string_entries_map(s: Seq<(Seq<char>, Option<Seq<char>>)>) -> Map<Seq<char>, Seq<char>>
    decreases s.len(),
{
    if s.len() == 0 {
        Map::empty()
    } else {
        let m = string_entries_map(s.drop_last());
        match s.last().1 {
            Some(v) => m.insert(s.last().0, v),
            None => m,
        }
    }
}

/// Each entry as characters: the key, and the value when it is a string.
pub open spec fn entries_chars(s: Seq<(String, Option<String>)>) -> Seq<(Seq<char>, Option<Seq<char>>)> {
    s.map_values(
        |e: (String, Option<String>)|
            (
                e.0@,
                match e.1 {
                    Some(v) => Some(v@),
                    None => None,
                },
            ),
    )
}

impl ResourceMap {
    /// The path each mapped path resolves to.
    pub closed spec fn paths(&self) -> Map<Seq<char>, Seq<char>> {
        string_values(self.map@)
    }

    /// Builds the map from the entries of a JSON object, each given as its key and,
    /// when the value is a string, that string.
    pub fn from_entries(entries: Vec<(String, Option<String>)>) -> (r: Self)
        ensures
            r.paths() == string_entries_map(entries_chars(entries@)),
    {
        let mut map: StrMap<String> = StrMap::new();
        proof {
            lemma_string_values_empty();
        }
        let ghost all = entries_chars(entries@);
        let n = entries.len();
        let mut i: usize = 0;
        while i < n
            invariant
                n == entries@.len(),
                i <= n,
                all == entries_chars(entries@),
                string_values(map@) == string_entries_map(all.subrange(0, i as int)),
            decreases n - i,
        {
            proof {
                let sub = all.subrange(0, i as int + 1);
                assert(sub.drop_last() =~= all.subrange(0, i as int));
                assert(sub.last() == all[i as int]);
            }
            match &entries[i].1 {
                Some(val) => {
                    let k = entries[i].0.clone();
                    let v = val.clone();
                    let ghost kv = k@;
                    proof {
                        lemma_string_values_insert(map@, kv, v);
                    }
                    map.insert(k, v);
                },
                None => {},
            }
            i = i + 1;
        }
        proof {
            assert(all.subrange(0, n as int) =~= all);
        }
        ResourceMap { map }
    }

    /// The replacement for `path`, or `path` itself when it is not mapped.
    pub fn resolve(&self, path: &str) -> (r: String)
        ensures
            r@ == (if self.paths().dom().contains(path@) {
                self.paths()[path@]
            } else {
                path@
            }),
    {
        match self.map.get(path) {
            Some(s) => s.clone(),
            None => owned(path),
        }
    }
}

} // verus!
