//! Network session log.
use vstd::prelude::*;
use crate::text::{owned, chars_of, contains_str, ends_with, ends_with_str, has_occurrence, remove_all, remove_all_str, string_from_chars};

verus! {

/// The first line of every session log.
pub open spec fn greeting() -> Seq<char> {
    "Network: connect via lobby (optional)."@
}

pub struct NetworkSession {
    pub active: bool,
    pub log: Vec<String>,
}

impl NetworkSession {
    /// An inactive session whose log holds the greeting.
    pub fn new() -> (r: Self)
        ensures
            !r.active,
            r.log@.map_values(|s: String| s@) == seq![greeting()],
    {
        let mut log: Vec<String> = Vec::new();
        log.push(owned("Network: connect via lobby (optional)."));
        let r = NetworkSession { active: false, log };
        assert(r.log@.map_values(|s: String| s@) =~= seq![greeting()]);
        r
    }

    /// Append a line to the log.
    pub fn append_log(&mut self, line: &str)
        ensures
            final(self).log@.map_values(|s: String| s@) == old(self).log@.map_values(|s: String| s@).push(
                line@,
            ),
            final(self).active == old(self).active,
    {
        let ghost before = self.log@.map_values(|s: String| s@);
        self.log.push(owned(line));
        assert(self.log@.map_values(|s: String| s@) =~= before.push(line@));
    }
}

/// The lobby used when no address is given.
pub open spec fn default_lobby() -> Seq<char> {
    "http://lobby.projectf.hk"@
}

/// The lobby to connect to and whether this side is passive: an empty address means the
/// default lobby; an address holding `:passive` or ending in `/p` asks for the passive
/// role, and both markers are taken out of it.
pub open spec fn lobby_target_spec(addr: Seq<char>) -> (Seq<char>, bool) {
    let server = if addr.len() == 0 {
        default_lobby()
    } else {
        addr
    };
    let p = ":passive"@;
    let e = "/p"@;
    let passive = has_occurrence(server, p) || ends_with(server, e);
    (remove_all(remove_all(server, p), e), passive)
}

/// The lobby to connect to and whether this side is passive (see `lobby_target_spec`).
pub fn lobby_target(addr: &str) -> (r: (String, bool))
    ensures
        r.0@ == lobby_target_spec(addr@).0,
        r.1 == lobby_target_spec(addr@).1,
{
    let a = chars_of(addr);
    let server = if a.len() == 0 {
        chars_of("http://lobby.projectf.hk")
    } else {
        a
    };
    let p = chars_of(":passive");
    let e = chars_of("/p");
    proof {
        reveal_strlit(":passive");
        reveal_strlit("/p");
    }
    let passive = contains_str(&server, &p) || ends_with_str(&server, &e);
    let once = remove_all_str(&server, &p);
    let twice = remove_all_str(&once, &e);
    (string_from_chars(&twice), passive)
}

} // verus!
