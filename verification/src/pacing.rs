//! Pacing in front of the writer: a token bucket that lets a burst through
//! and then holds the sender to a steady rate. The pacer only decides; the
//! caller reads the clock and sleeps.

use vstd::prelude::*;

verus! {

/// The messages per second that the default pacer lets through.
pub const DEFAULT_RATE: u64 = 50;

/// The burst that the default pacer lets through at once.
pub const DEFAULT_BURST: u64 = 100;

/// What the pacer tells a sender.
#[derive(Clone, Copy, Debug, PartialEq, Eq)]
pub enum Pace {
    /// Send now.
    Send,
    /// Wait this many milliseconds, then ask again.
    Wait(u64),
}

/// A token bucket. A token grows every `interval` milliseconds until
/// `burst` tokens lie in the bucket; a message takes one.
#[derive(Clone, Copy, Debug, PartialEq, Eq)]
pub struct Pacer {
    /// The milliseconds in which one token grows; at least one.
    pub interval: u64,
    /// The most tokens that the bucket holds.
    pub burst: u64,
    /// The tokens in the bucket; at most `burst`.
    pub tokens: u64,
    /// The milliseconds that have passed towards the next token; less than
    /// `interval`.
    pub credit: u64,
    /// The time at which the pacer was last asked, in milliseconds.
    pub last: u64,
}

impl Pacer {
    /// The bucket holds no more than its burst, and the credit is less than
    /// a whole token.
    pub open spec fn wf(self) -> bool {
        &&& self.interval >= 1
        &&& self.tokens <= self.burst
        &&& self.credit < self.interval
    }

    /// The milliseconds that count as passed since the pacer was last asked:
    /// a clock that went back counts as standing still, and more time than
    /// fills the bucket counts as much as fills it.
    pub open spec fn elapsed(self, now: u64) -> int {
        let passed = if now >= self.last {
            now - self.last
        } else {
            0
        };
        let enough = (self.burst - self.tokens) * self.interval;
        if passed > enough {
            enough
        } else {
            passed
        }
    }

    /// The bucket after the tokens that have grown until `now` were added.
    pub open spec fn refilled(self, now: u64) -> Pacer {
        let total = self.credit + self.elapsed(now);
        let tokens = self.tokens + total / (self.interval as int);
        if tokens >= self.burst {
            Pacer { tokens: self.burst, credit: 0, last: now, ..self }
        } else {
            Pacer {
                tokens: tokens as u64,
                credit: (total % (self.interval as int)) as u64,
                last: now,
                ..self
            }
        }
    }

    /// The bucket after a message asked to pass at `now`: a cancel passes
    /// and leaves the bucket alone, any other message takes a token if there
    /// is one.
    pub open spec fn after(self, now: u64, is_cancel: bool) -> Pacer {
        if is_cancel {
            self
        } else {
            let full = self.refilled(now);
            if full.tokens > 0 {
                Pacer { tokens: (full.tokens - 1) as u64, ..full }
            } else {
                full
            }
        }
    }

    /// What a message that asks to pass at `now` is told.
    pub open spec fn verdict(self, now: u64, is_cancel: bool) -> Pace {
        if is_cancel || self.refilled(now).tokens > 0 {
            Pace::Send
        } else {
            Pace::Wait((self.interval - self.refilled(now).credit) as u64)
        }
    }

    /// A pacer for `rate` messages per second with bursts of `burst`, full at
    /// the start. A rate below one counts as one, and one above a thousand
    /// as a thousand.
    pub fn new(rate: u64, burst: u64, now: u64) -> (r: Pacer)
        ensures
            r.wf(),
            r.burst == burst,
            r.tokens == burst,
            r.credit == 0,
            r.last == now,
            r.interval == 1000int / (if rate < 1 {
                1int
            } else if rate > 1000 {
                1000int
            } else {
                rate as int
            }),
    {
        let rate: u64 = if rate < 1 {
            1
        } else if rate > 1000 {
            1000
        } else {
            rate
        };
        assert(1000u64 / rate >= 1) by (nonlinear_arith)
            requires
                1 <= rate <= 1000,
        ;
        Pacer { interval: 1000 / rate, burst, tokens: burst, credit: 0, last: now }
    }

    /// Asks whether a message may pass at `now`.
    pub fn request(&mut self, now: u64, is_cancel: bool) -> (r: Pace)
        requires
            old(self).wf(),
        ensures
            final(self).wf(),
            *final(self) == old(self).after(now, is_cancel),
            r == old(self).verdict(now, is_cancel),
    {
        if is_cancel {
            return Pace::Send;
        }
        let passed = if now >= self.last {
            now - self.last
        } else {
            0
        };
        let room = self.burst - self.tokens;
        let interval = self.interval;
        // More time than fills the bucket counts as much as fills it.
        let fills = passed / interval >= room;
        let ghost before = *self;
        if fills {
            proof {
                lemma_fills(before, now);
            }
            self.tokens = self.burst;
            self.credit = 0;
        } else {
            proof {
                lemma_grows(before, now);
            }
            let total: u128 = self.credit as u128 + passed as u128;
            let grown: u128 = total / (interval as u128);
            if grown >= room as u128 {
                self.tokens = self.burst;
                self.credit = 0;
            } else {
                self.tokens = self.tokens + grown as u64;
                self.credit = (total % (interval as u128)) as u64;
            }
        }
        self.last = now;
        if self.tokens > 0 {
            self.tokens = self.tokens - 1;
            Pace::Send
        } else {
            Pace::Wait(self.interval - self.credit)
        }
    }
}

proof fn lemma_fills(p: Pacer, now: u64)
    requires
        p.wf(),
        (if now >= p.last {
            now - p.last
        } else {
            0
        }) / (p.interval as int) >= p.burst - p.tokens,
    ensures
        p.refilled(now).tokens == p.burst,
        p.refilled(now).credit == 0,
{
    let passed = if now >= p.last {
        now - p.last
    } else {
        0
    };
    let room = p.burst - p.tokens;
    let i = p.interval as int;
    let enough = room * i;
    assert(passed >= enough) by (nonlinear_arith)
        requires
            passed / i >= room,
            i >= 1,
            passed >= 0,
            enough == room * i,
    ;
    let e = p.elapsed(now);
    assert(e == enough);
    assert((p.credit + enough) / i >= room) by (nonlinear_arith)
        requires
            enough == room * i,
            i >= 1,
            p.credit >= 0,
            room >= 0,
    ;
}

proof fn lemma_grows(p: Pacer, now: u64)
    requires
        p.wf(),
        (if now >= p.last {
            now - p.last
        } else {
            0
        }) / (p.interval as int) < p.burst - p.tokens,
    ensures
        p.elapsed(now) == (if now >= p.last {
            now - p.last
        } else {
            0
        }),
        (p.credit + p.elapsed(now)) / (p.interval as int) <= p.burst - p.tokens,
        0 <= (p.credit + p.elapsed(now)) % (p.interval as int) < p.interval,
{
    let passed: int = if now >= p.last {
        now - p.last
    } else {
        0
    };
    let room = p.burst - p.tokens;
    let i = p.interval as int;
    let credit = p.credit as int;
    assert(passed < room * i) by (nonlinear_arith)
        requires
            passed / i < room,
            i >= 1,
            passed >= 0,
    ;
    assert((credit + passed) / i <= room) by (nonlinear_arith)
        requires
            passed < room * i,
            credit < i,
            i >= 1,
            credit >= 0,
            passed >= 0,
    ;
    assert(0 <= (credit + passed) % i < i) by (nonlinear_arith)
        requires
            i >= 1,
            credit + passed >= 0,
    ;
}

/// A cancel always passes, and the bucket does not notice it.
pub proof fn lemma_cancel_always_passes(p: Pacer, now: u64)
    ensures
        p.verdict(now, true) == Pace::Send,
        p.after(now, true) == p,
{
}

/// The bucket never holds more than its burst, and a message that passes
/// takes exactly one token of those that had grown.
pub proof fn lemma_bucket_stays_within_burst(p: Pacer, now: u64, is_cancel: bool)
    requires
        p.wf(),
    ensures
        p.after(now, is_cancel).wf(),
        !is_cancel && p.verdict(now, is_cancel) == Pace::Send ==> p.after(now, is_cancel).tokens
            + 1 == p.refilled(now).tokens,
{
    let i = p.interval as int;
    let total = p.credit + p.elapsed(now);
    assert(total % i < i && total % i >= 0) by (nonlinear_arith)
        requires
            i >= 1,
            total >= 0,
    ;
    assert(total / i >= 0) by (nonlinear_arith)
        requires
            i >= 1,
            total >= 0,
    ;
}

} // verus!
