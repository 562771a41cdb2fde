//! AI bookkeeping kept between TUs.
use vstd::prelude::*;

verus! {

pub struct AiBrain {
    pub cc: u32,
    pub target_uid: Option<u32>,
    pub run_phase: u8,
    pub special_phase: u8,
}

impl Default for AiBrain {
    fn default() -> (r: Self)
        ensures
            r.cc == 0,
            r.target_uid is None,
            r.run_phase == 0,
            r.special_phase == 0,
    {
        AiBrain { cc: 0, target_uid: None, run_phase: 0, special_phase: 0 }
    }
}

} // verus!
