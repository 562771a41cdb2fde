//! Frame transistor: the authority locks that decide which frame change wins.
use vstd::prelude::*;

verus! {

#[derive(Debug, Clone)]
pub struct FrameTransistor {
    pub wait: i32,
    pub next: i32,
    pub lock: i32,
    pub lockout: i32,
    pub switch_dir_after: bool,
}

/// The authority that a request with authority `au` acts with: 99 means "the current lock".
pub open spec fn effective_authority(lock: i32, au: i32) -> i32 {
    if au == 99 {
        lock
    } else {
        au
    }
}

impl Default for FrameTransistor {
    fn default() -> (r: Self)
        ensures
            r == (FrameTransistor { wait: 1, next: 999, lock: 0, lockout: 1, switch_dir_after: false }),
    {
        FrameTransistor { wait: 1, next: 999, lock: 0, lockout: 1, switch_dir_after: false }
    }
}

impl FrameTransistor {
    /// The state after a request to wait `value` TUs with authority `au` and lock duration `out`.
    pub open spec fn with_wait(self, value: i32, au: i32, out: i32) -> Self {
        let au = effective_authority(self.lock, au);
        let out = if out == 0 {
            1
        } else {
            out
        };
        if au >= self.lock {
            FrameTransistor {
                lock: au,
                lockout: if out == 99 {
                    self.wait
                } else {
                    out
                },
                wait: if value < 0 {
                    0
                } else {
                    value
                },
                ..self
            }
        } else {
            self
        }
    }

    /// The state after a request to go to frame `f` (negative: mirrored) with authority `au`.
    pub open spec fn with_next(self, f: i32, au: i32) -> Self {
        let au = effective_authority(self.lock, au);
        if au >= self.lock {
            FrameTransistor {
                lock: au,
                switch_dir_after: f < 0,
                next: if f < 0 {
                    (-f) as i32
                } else {
                    f
                },
                ..self
            }
        } else {
            self
        }
    }

    /// The state after forcing frame `f` with authority `au`.
    pub open spec fn forced(self, f: i32, au: i32) -> Self {
        self.with_next(f, au).with_wait(0, au, 1)
    }

    /// The state after one TU.
    pub open spec fn ticked(self) -> Self {
        let lockout = if self.lockout > 0 {
            self.lockout - 1
        } else {
            self.lockout as int
        };
        FrameTransistor {
            lockout: lockout as i32,
            lock: if self.lockout > 0 && lockout == 0 {
                0
            } else {
                self.lock
            },
            wait: if self.wait > 0 {
                (self.wait - 1) as i32
            } else {
                self.wait
            },
            ..self
        }
    }

    /// The frame to transit to at this TU, if the wait is over.
    pub open spec fn tick_result(self) -> Option<i32> {
        if self.wait > 0 {
            None
        } else {
            Some(self.next)
        }
    }

    /// The state after `n` TUs.
    pub open spec fn ticked_n(self, n: nat) -> Self
        decreases n,
    {
        if n == 0 {
            self
        } else {
            self.ticked().ticked_n((n - 1) as nat)
        }
    }

    /// Force frame `f` with authority `au` (a `set_next` followed by `set_wait(0)`).
    pub fn frame(&mut self, f: i32, au: i32)
        requires
            f == i32::MIN ==> effective_authority(old(self).lock, au) < old(self).lock,
        ensures
            *final(self) == old(self).forced(f, au),
    {
        self.set_next(f, au);
        self.set_wait(0, au, 1);
    }

    pub fn set_wait(&mut self, value: i32, au: i32, out: i32)
        ensures
            *final(self) == old(self).with_wait(value, au, out),
    {
        let mut au = au;
        if au == 99 {
            au = self.lock;
        }
        let out = if out == 0 {
            1
        } else {
            out
        };
        if au >= self.lock {
            self.lock = au;
            self.lockout = if out == 99 {
                self.wait
            } else {
                out
            };
            self.wait = if value < 0 {
                0
            } else {
                value
            };
        }
    }

    pub fn inc_wait(&mut self, dv: i32, au: i32, out: i32)
        requires
            i32::MIN <= old(self).wait + dv <= i32::MAX,
        ensures
            *final(self) == old(self).with_wait((old(self).wait + dv) as i32, au, out),
    {
        let w = self.wait + dv;
        self.set_wait(w, au, out);
    }

    pub fn set_next(&mut self, f: i32, au: i32)
        requires
            f == i32::MIN ==> effective_authority(old(self).lock, au) < old(self).lock,
        ensures
            *final(self) == old(self).with_next(f, au),
    {
        let mut au = au;
        let mut f = f;
        if au == 99 {
            au = self.lock;
        }
        if au >= self.lock {
            self.lock = au;
            self.switch_dir_after = f < 0;
            if f < 0 {
                f = -f;
            }
            self.next = f;
        }
    }

    /// One TU of waiting: counts the lock duration down, then the wait;
    /// returns the frame to transit to once the wait is over.
    pub fn tick_wait(&mut self) -> (r: Option<i32>)
        ensures
            *final(self) == old(self).ticked(),
            r == old(self).tick_result(),
    {
        if self.lockout > 0 {
            self.lockout = self.lockout - 1;
            if self.lockout == 0 {
                self.lock = 0;
            }
        }
        if self.wait > 0 {
            self.wait = self.wait - 1;
            None
        } else {
            let n = self.next;
            Some(n)
        }
    }

    pub fn reset_lock(&mut self)
        ensures
            *final(self) == (FrameTransistor { lock: 0, lockout: 0, ..*old(self) }),
    {
        self.lock = 0;
        self.lockout = 0;
    }
}

/// A frame forced with enough authority is the frame taken at the next TU,
/// and that TU releases the lock.
pub proof fn law_forced_frame_is_taken(t: FrameTransistor, f: i32, au: i32)
    requires
        effective_authority(t.lock, au) >= t.lock,
        f != i32::MIN,
    ensures
        t.forced(f, au).tick_result() == Some(if f < 0 {
            (-f) as i32
        } else {
            f
        }),
        t.forced(f, au).ticked().lock == 0,
        t.forced(f, au).switch_dir_after == (f < 0),
{
}

/// A request with less authority than the current lock changes nothing.
pub proof fn law_weaker_request_ignored(t: FrameTransistor, f: i32, value: i32, au: i32, out: i32)
    requires
        effective_authority(t.lock, au) < t.lock,
    ensures
        t.with_wait(value, au, out) == t,
        t.with_next(f, au) == t,
        t.forced(f, au) == t,
{
}

/// A lock held for `k` TUs stays during the first `k - 1` TUs and is released by the `k`-th.
pub proof fn law_lock_released_after_lockout(t: FrameTransistor, n: nat)
    requires
        t.lockout > 0,
        n <= t.lockout,
    ensures
        t.ticked_n(n).lockout == t.lockout - n,
        n < t.lockout ==> t.ticked_n(n).lock == t.lock,
        n == t.lockout ==> t.ticked_n(n).lock == 0,
    decreases n,
{
    if n > 0 {
        let u = t.ticked();
        if t.lockout > 1 {
            law_lock_released_after_lockout(u, (n - 1) as nat);
        } else {
            assert(n == 1);
            assert(u.ticked_n(0) == u);
        }
    }
}

/// Waiting `w` TUs: the first `w` ticks hold the frame, the next one moves on.
pub proof fn law_wait_counts_down(t: FrameTransistor, n: nat)
    requires
        t.wait >= 0,
        n <= t.wait,
    ensures
        t.ticked_n(n).wait == t.wait - n,
        t.ticked_n(n).next == t.next,
        n < t.wait ==> t.ticked_n(n).tick_result() is None,
        n == t.wait ==> t.ticked_n(n).tick_result() == Some(t.next),
    decreases n,
{
    if n > 0 {
        law_wait_counts_down(t.ticked(), (n - 1) as nat);
    }
}


/// An accepted wait request (authority at least the lock; 99 meaning the lock itself) takes
/// the lock, waits `value` TUs (never fewer than 0) and holds the lock for `out` TUs (1 for 0,
/// the current wait for 99); an accepted frame request takes the lock and sets the frame
/// (a negative frame is mirrored and turns the character).
pub proof fn law_accepted_requests(t: FrameTransistor, value: i32, au: i32, out: i32, f: i32)
    requires
        f != i32::MIN,
    ensures
        au != 99 && au >= t.lock ==> t.with_wait(value, au, out).lock == au
            && t.with_wait(value, au, out).wait == (if value < 0 { 0 } else { value })
            && t.with_wait(value, au, out).lockout == (if out == 0 { 1 } else if out == 99 { t.wait } else { out })
            && t.with_wait(value, au, out).next == t.next,
        au == 99 ==> t.with_wait(value, au, out).lock == t.lock && t.with_wait(value, au, out).wait == (if value < 0 { 0 } else { value }),
        au != 99 && au >= t.lock ==> t.with_next(f, au).next == (if f < 0 { -f } else { f as int })
            && t.with_next(f, au).lock == au && t.with_next(f, au).switch_dir_after == (f < 0)
            && t.with_next(f, au).wait == t.wait,
        t.wait > 0 ==> t.ticked().wait == t.wait - 1 && t.tick_result() is None,
        t.wait <= 0 ==> t.tick_result() == Some(t.next),
{
}

} // verus!
