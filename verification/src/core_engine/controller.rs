//! Default keyboard configurations (action -> key).
use vstd::prelude::*;
use crate::core_engine::strmap::{StrMap, string_values, lemma_string_values_insert, lemma_string_values_empty};
use crate::text::owned;

verus! {

/// Adds `action -> key` to a configuration being built.
fn bind(m: &mut StrMap<String>, action: &str, key: &str)
    ensures
        string_values(final(m)@) == string_values(old(m)@).insert(action@, key@),
{
    let k = owned(key);
    proof {
        lemma_string_values_insert(m@, action@, k);
    }
    m.insert(owned(action), k);
}

/// Player 1's keys.
pub open spec fn p1_keys() -> Map<Seq<char>, Seq<char>> {
    Map::<Seq<char>, Seq<char>>::empty().insert("up"@, "w"@).insert("down"@, "x"@).insert(
        "left"@,
        "a"@,
    ).insert("right"@, "d"@).insert("def"@, "z"@).insert("jump"@, "q"@).insert("att"@, "s"@)
}

/// Player 2's keys.
pub open spec fn p2_keys() -> Map<Seq<char>, Seq<char>> {
    Map::<Seq<char>, Seq<char>>::empty().insert("up"@, "u"@).insert("down"@, "m"@).insert(
        "left"@,
        "h"@,
    ).insert("right"@, "k"@).insert("def"@, ","@).insert("jump"@, "i"@).insert("att"@, "j"@)
}

/// Player 1's default keyboard configuration.
pub fn default_p1_config() -> (r: StrMap<String>)
    ensures
        string_values(r@) == p1_keys(),
{
    let mut m: StrMap<String> = StrMap::new();
    proof {
        lemma_string_values_empty();
    }
    bind(&mut m, "up", "w");
    bind(&mut m, "down", "x");
    bind(&mut m, "left", "a");
    bind(&mut m, "right", "d");
    bind(&mut m, "def", "z");
    bind(&mut m, "jump", "q");
    bind(&mut m, "att", "s");
    m
}

/// Player 2's default keyboard configuration.
pub fn default_p2_config() -> (r: StrMap<String>)
    ensures
        string_values(r@) == p2_keys(),
{
    let mut m: StrMap<String> = StrMap::new();
    proof {
        lemma_string_values_empty();
    }
    bind(&mut m, "up", "u");
    bind(&mut m, "down", "m");
    bind(&mut m, "left", "h");
    bind(&mut m, "right", "k");
    bind(&mut m, "def", ",");
    bind(&mut m, "jump", "i");
    bind(&mut m, "att", "j");
    m
}

} // verus!
