//! Global game constants and the combo table.
use vstd::prelude::*;
use crate::text::{owned, str_eq};

verus! {

pub const UNSPECIFIED: i32 = -842150451;
pub const DEFAULT_HIT_STOP: i32 = 3;
pub const DEFAULT_AREST: i32 = 7;
pub const DEFAULT_VREST: i32 = 9;
pub const EFFECT_NUM_TO_ID: i32 = 300;
pub const EFFECT_DURATION: i32 = 3;
pub const COMBO_TIMEOUT: u32 = 10;

/// One combo: its name, its key actions, and whether it clears the input.
pub open spec fn combo_row(name: Seq<char>, keys: Seq<Seq<char>>, clear: bool) -> (Seq<char>, Seq<Seq<char>>, bool) {
    (name, keys, clear)
}

/// The combo table, in priority order.
pub open spec fn combo_table() -> Seq<(Seq<char>, Seq<Seq<char>>, bool)> {
    seq![
        combo_row("D<A"@, seq!["def"@, "left"@, "att"@], false),
        combo_row("D>A"@, seq!["def"@, "right"@, "att"@], false),
        combo_row("DvA"@, seq!["def"@, "down"@, "att"@], true),
        combo_row("D^A"@, seq!["def"@, "up"@, "att"@], true),
        combo_row("D<J"@, seq!["def"@, "left"@, "jump"@], true),
        combo_row("D>J"@, seq!["def"@, "right"@, "jump"@], true),
        combo_row("DvJ"@, seq!["def"@, "down"@, "jump"@], true),
        combo_row("D^J"@, seq!["def"@, "up"@, "jump"@], true),
        combo_row("D<AJ"@, seq!["def"@, "left"@, "att"@, "jump"@], true),
        combo_row("D>AJ"@, seq!["def"@, "right"@, "att"@, "jump"@], true),
        combo_row("DJA"@, seq!["def"@, "jump"@, "att"@], true),
    ]
}

/// A combo row as characters.
pub open spec fn row_view(r: (String, Vec<String>, bool)) -> (Seq<char>, Seq<Seq<char>>, bool) {
    (r.0@, r.1@.map_values(|s: String| s@), r.2)
}

fn row3(name: &str, a: &str, b: &str, c: &str, clear: bool) -> (r: (String, Vec<String>, bool))
    ensures
        row_view(r) == combo_row(name@, seq![a@, b@, c@], clear),
{
    let mut keys: Vec<String> = Vec::new();
    keys.push(owned(a));
    keys.push(owned(b));
    keys.push(owned(c));
    let r = (owned(name), keys, clear);
    assert(row_view(r).1 =~= seq![a@, b@, c@]);
    r
}

fn row4(name: &str, a: &str, b: &str, c: &str, d: &str, clear: bool) -> (r: (String, Vec<String>, bool))
    ensures
        row_view(r) == combo_row(name@, seq![a@, b@, c@, d@], clear),
{
    let mut keys: Vec<String> = Vec::new();
    keys.push(owned(a));
    keys.push(owned(b));
    keys.push(owned(c));
    keys.push(owned(d));
    let r = (owned(name), keys, clear);
    assert(row_view(r).1 =~= seq![a@, b@, c@, d@]);
    r
}

/// The combo table: name, key actions, and whether the combo clears the input.
pub fn combo_list() -> (r: Vec<(String, Vec<String>, bool)>)
    ensures
        r@.map_values(|x: (String, Vec<String>, bool)| row_view(x)) == combo_table(),
{
    let mut v: Vec<(String, Vec<String>, bool)> = Vec::new();
    v.push(row3("D<A", "def", "left", "att", false));
    v.push(row3("D>A", "def", "right", "att", false));
    v.push(row3("DvA", "def", "down", "att", true));
    v.push(row3("D^A", "def", "up", "att", true));
    v.push(row3("D<J", "def", "left", "jump", true));
    v.push(row3("D>J", "def", "right", "jump", true));
    v.push(row3("DvJ", "def", "down", "jump", true));
    v.push(row3("D^J", "def", "up", "jump", true));
    v.push(row4("D<AJ", "def", "left", "att", "jump", true));
    v.push(row4("D>AJ", "def", "right", "att", "jump", true));
    v.push(row3("DJA", "def", "jump", "att", true));
    assert(v@.map_values(|x: (String, Vec<String>, bool)| row_view(x)) =~= combo_table());
    v
}

/// The frame tag that an action or combo name triggers.
pub open spec fn tag_of(name: Seq<char>) -> Option<Seq<char>> {
    if name == "def"@ {
        Some("hit_d"@)
    } else if name == "jump"@ {
        Some("hit_j"@)
    } else if name == "att"@ {
        Some("hit_a"@)
    } else if name == "D<A"@ || name == "D>A"@ {
        Some("hit_Fa"@)
    } else if name == "DvA"@ {
        Some("hit_Da"@)
    } else if name == "D^A"@ {
        Some("hit_Ua"@)
    } else if name == "D<J"@ || name == "D>J"@ || name == "D<AJ"@ || name == "D>AJ"@ {
        Some("hit_Fj"@)
    } else if name == "DvJ"@ {
        Some("hit_Dj"@)
    } else if name == "D^J"@ {
        Some("hit_Uj"@)
    } else if name == "DJA"@ {
        Some("hit_ja"@)
    } else {
        None
    }
}

/// The frame tag (`hit_*`) that an action or combo name triggers, if any.
pub fn combo_tag(name: &str) -> (r: Option<&'static str>)
    ensures
        match (r, tag_of(name@)) {
            (Some(t), Some(u)) => t@ == u,
            (None, None) => true,
            _ => false,
        },
{
    if str_eq(name, "def") {
        Some("hit_d")
    } else if str_eq(name, "jump") {
        Some("hit_j")
    } else if str_eq(name, "att") {
        Some("hit_a")
    } else if str_eq(name, "D<A") || str_eq(name, "D>A") {
        Some("hit_Fa")
    } else if str_eq(name, "DvA") {
        Some("hit_Da")
    } else if str_eq(name, "D^A") {
        Some("hit_Ua")
    } else if str_eq(name, "D<J") || str_eq(name, "D>J") || str_eq(name, "D<AJ") || str_eq(
        name,
        "D>AJ",
    ) {
        Some("hit_Fj")
    } else if str_eq(name, "DvJ") {
        Some("hit_Dj")
    } else if str_eq(name, "D^J") {
        Some("hit_Uj")
    } else if str_eq(name, "DJA") {
        Some("hit_ja")
    } else {
        None
    }
}

} // verus!

verus! {

/// Every combo of the table triggers a frame tag.
pub proof fn law_every_combo_has_a_tag(i: int)
    requires
        0 <= i < combo_table().len(),
    ensures
        tag_of(combo_table()[i].0) is Some,
        combo_table()[i].1[0] == "def"@,
{
}

} // verus!
