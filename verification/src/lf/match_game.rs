//! Match setup records and the game-over timing.
use vstd::prelude::*;

verus! {

/// One player slot of a match: character id, team, controller and whether the computer plays it.
pub struct PlayerSetup {
    pub id: i32,
    pub team: i32,
    pub controller_index: Option<usize>,
    pub is_ai: bool,
}

/// How many TUs after the match is decided the game-over panel shows.
pub const GAMEOVER_DELAY: u32 = 30;

/// Whether the game-over panel shows at TU `tu`: exactly `GAMEOVER_DELAY` TUs after the TU
/// at which the match was decided, if it was.
pub fn gameover_fires_at(tu: u32, decided_at: Option<u32>) -> (r: bool)
    ensures
        r == (decided_at matches Some(t) && tu == t + GAMEOVER_DELAY),
{
    match decided_at {
        None => false,
        Some(t) => tu >= GAMEOVER_DELAY && tu - GAMEOVER_DELAY == t,
    }
}

} // verus!
