//! LF helpers shared across the game code.
use vstd::prelude::*;
use crate::core_engine::util::normalized_path;

verus! {

/// Normalizes a directory path: backslashes become slashes and a trailing `/` is ensured.
pub fn normalize_path(p: &str) -> (r: String)
    ensures
        r@ == normalized_path(p@),
{
    crate::core_engine::util::normalize_path(p)
}

} // verus!
