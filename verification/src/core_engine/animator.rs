//! Frame animator driving wait/next transitions (LF2 TU timing).
use vstd::prelude::*;

verus! {

#[derive(Clone, Debug)]
pub struct Animator {
    pub frame: i32,
    pub wait_left: i32,
    pub paused: bool,
}

impl Default for Animator {
    fn default() -> (r: Self)
        ensures
            r.frame == 0,
            r.wait_left == 0,
            !r.paused,
    {
        Animator { frame: 0, wait_left: 0, paused: false }
    }
}

impl Animator {
    /// The state after one TU.
    pub open spec fn after_tu(self) -> Self {
        if !self.paused && self.wait_left > 0 {
            Animator { wait_left: (self.wait_left - 1) as i32, ..self }
        } else {
            self
        }
    }

    /// Whether this TU ends the wait.
    pub open spec fn tu_fires(self) -> bool {
        !self.paused && self.wait_left <= 0
    }

    /// The state after `n` TUs.
    pub open spec fn after_tus(self, n: nat) -> Self
        decreases n,
    {
        if n == 0 {
            self
        } else {
            self.after_tu().after_tus((n - 1) as nat)
        }
    }

    pub fn set_frame(&mut self, frame: i32, wait: i32)
        ensures
            final(self).frame == frame,
            final(self).wait_left == wait,
            final(self).paused == old(self).paused,
    {
        self.frame = frame;
        self.wait_left = wait;
    }

    /// Advance one TU; true when the wait has run out (the caller then applies `next`).
    pub fn tu(&mut self) -> (r: bool)
        ensures
            *final(self) == old(self).after_tu(),
            r == old(self).tu_fires(),
    {
        if self.paused {
            return false;
        }
        if self.wait_left > 0 {
            self.wait_left = self.wait_left - 1;
            false
        } else {
            true
        }
    }
}

/// A frame set to wait `w` TUs holds for `w` TUs and fires on the next one.
pub proof fn law_frame_fires_after_wait(a: Animator, n: nat)
    requires
        !a.paused,
        0 <= n <= a.wait_left,
    ensures
        a.after_tus(n).wait_left == a.wait_left - n,
        a.after_tus(n).frame == a.frame,
        n < a.wait_left ==> !a.after_tus(n).tu_fires(),
        n == a.wait_left ==> a.after_tus(n).tu_fires(),
    decreases n,
{
    if n > 0 {
        law_frame_fires_after_wait(a.after_tu(), (n - 1) as nat);
    }
}

/// A paused animator never fires and never changes.
pub proof fn law_paused_holds(a: Animator, n: nat)
    requires
        a.paused,
    ensures
        a.after_tus(n) == a,
        !a.after_tus(n).tu_fires(),
    decreases n,
{
    if n > 0 {
        law_paused_holds(a.after_tu(), (n - 1) as nat);
    }
}

} // verus!
