//! Scene query options.
use vstd::prelude::*;

verus! {

/// Filters for a character query: same team, other team, sorted by distance, reversed.
#[derive(Clone, Copy)]
pub struct QueryOpts {
    pub team: Option<i32>,
    pub not_team: Option<i32>,
    pub sort_distance: bool,
    pub reverse: bool,
}

} // verus!
