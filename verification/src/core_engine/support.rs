//! Browser feature support queries that need no browser.
use vstd::prelude::*;

verus! {

/// CSS 2D transforms are available in every browser the engine targets.
pub fn css2d_transform_supported() -> (r: bool)
    ensures
        r,
{
    true
}

} // verus!
