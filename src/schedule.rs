use vstd::prelude::*;

verus! {

/// Length of one tick of the persistence loop, in milliseconds.
pub const TICKER_DURATION: u64 = 1000;

/// Time between two dumps, in milliseconds.
pub const DUMP_PERIODICITY: u64 = 5000;

/// Time between two statistics reports, in milliseconds.
pub const STATISTICS_PERIODICITY: u64 = 60000;

/// What the persistence loop does on one tick.
#[derive(Debug, Clone, Copy, PartialEq, Eq, Structural)]
pub struct TickActions {
    pub dump: bool,
    pub statistics: bool,
}

/// The timers of the persistence loop: the time since the last dump and
/// since the last report, each counted up by a tick until its period is
/// reached.
pub struct Schedule {
    tick: u64,
    dump_every: u64,
    statistics_every: u64,
    t_dump: u64,
    t_statistics: u64,
}

/// A timer's value after a tick: back to zero where it fired, else one tick
/// later.
pub open spec fn timer_after(t: u64, every: u64, tick: u64) -> int {
    if t >= every {
        0
    } else {
        t + tick
    }
}

impl Schedule {
    pub closed spec fn tick_len(&self) -> u64 {
        self.tick
    }

    pub closed spec fn dump_every(&self) -> u64 {
        self.dump_every
    }

    pub closed spec fn statistics_every(&self) -> u64 {
        self.statistics_every
    }

    pub closed spec fn since_dump(&self) -> u64 {
        self.t_dump
    }

    pub closed spec fn since_statistics(&self) -> u64 {
        self.t_statistics
    }

    #[verifier::type_invariant]
    closed spec fn inv(&self) -> bool {
        &&& self.t_dump < self.dump_every + self.tick
        &&& self.t_statistics < self.statistics_every + self.tick
        &&& self.dump_every + self.tick <= u64::MAX
        &&& self.statistics_every + self.tick <= u64::MAX
    }

    /// Timers at zero, with the given tick and periods.
    pub fn new(tick: u64, dump_every: u64, statistics_every: u64) -> (r: Schedule)
        requires
            tick > 0,
            dump_every + tick <= u64::MAX,
            statistics_every + tick <= u64::MAX,
        ensures
            r.tick_len() == tick,
            r.dump_every() == dump_every,
            r.statistics_every() == statistics_every,
            r.since_dump() == 0,
            r.since_statistics() == 0,
    {
        Schedule { tick, dump_every, statistics_every, t_dump: 0, t_statistics: 0 }
    }

    /// The schedule of the service: a tick of a second, a dump every five
    /// seconds, a report every minute.
    pub fn standard() -> (r: Schedule)
        ensures
            r.tick_len() == TICKER_DURATION,
            r.dump_every() == DUMP_PERIODICITY,
            r.statistics_every() == STATISTICS_PERIODICITY,
            r.since_dump() == 0,
            r.since_statistics() == 0,
    {
        Schedule::new(TICKER_DURATION, DUMP_PERIODICITY, STATISTICS_PERIODICITY)
    }

    /// Advances the timers by one tick and says what is due: a timer that
    /// has reached its period fires and restarts at zero.
    pub fn advance(&mut self) -> (r: TickActions)
        ensures
            r.dump == (old(self).since_dump() >= old(self).dump_every()),
            r.statistics == (old(self).since_statistics() >= old(self).statistics_every()),
            final(self).since_dump() == timer_after(
                old(self).since_dump(),
                old(self).dump_every(),
                old(self).tick_len(),
            ),
            final(self).since_statistics() == timer_after(
                old(self).since_statistics(),
                old(self).statistics_every(),
                old(self).tick_len(),
            ),
            final(self).tick_len() == old(self).tick_len(),
            final(self).dump_every() == old(self).dump_every(),
            final(self).statistics_every() == old(self).statistics_every(),
    {
        proof {
            use_type_invariant(&*self);
        }
        let dump = self.t_dump >= self.dump_every;
        let statistics = self.t_statistics >= self.statistics_every;
        let t_dump = if dump { 0 } else { self.t_dump + self.tick };
        let t_statistics = if statistics { 0 } else { self.t_statistics + self.tick };
        *self = Schedule {
            tick: self.tick,
            dump_every: self.dump_every,
            statistics_every: self.statistics_every,
            t_dump,
            t_statistics,
        };
        TickActions { dump, statistics }
    }
}

} // verus!
