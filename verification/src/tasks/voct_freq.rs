//! Period measurement on an auxiliary input for the V/Oct calibration.
//!
//! Edges arrive as microsecond instants. A rough pass over a wide band sets a
//! gate; a fine pass accumulates the periods that lie inside it.

use vstd::prelude::*;

verus! {

pub const ROUGH_SAMPLES: u64 = 8;
pub const FINE_SAMPLES: u64 = 256;
/// 10 kHz upper limit.
pub const MIN_PERIOD_US: u64 = 100;
/// 10 Hz lower limit.
pub const MAX_PERIOD_US: u64 = 100_000;
/// Without an edge for this long the measurement fails.
pub const EDGE_TIMEOUT_US: u64 = 2_000_000;

#[derive(Clone, Copy, Debug, PartialEq, Eq, Structural)]
pub enum MeterPhase {
    /// Waiting for the first edge of the rough pass.
    RoughSync,
    Rough,
    /// Waiting for the first edge of the fine pass.
    FineSync,
    Fine,
    Done,
}

/// Measurement in progress.
#[derive(Clone, Copy, Debug, PartialEq, Eq, Structural)]
pub struct PeriodMeter {
    pub phase: MeterPhase,
    pub last_edge: u64,
    /// Sum and number of the accepted periods of this pass.
    pub total_us: u64,
    pub valid: u64,
    /// Band of periods that the fine pass accepts.
    pub lo: u64,
    pub hi: u64,
}

impl PeriodMeter {
    pub open spec fn wf(self) -> bool {
        match self.phase {
            MeterPhase::RoughSync => self.total_us == 0 && self.valid == 0,
            MeterPhase::Rough => self.valid < 8 && 100 * self.valid <= self.total_us <= 100_000
                * self.valid,
            MeterPhase::FineSync => self.total_us == 0 && self.valid == 0 && self.gate_ok(),
            MeterPhase::Fine => self.valid < 256 && self.gate_ok() && self.lo * self.valid
                <= self.total_us <= self.hi * self.valid,
            MeterPhase::Done => self.valid == 256 && self.gate_ok() && self.lo * 256
                <= self.total_us <= self.hi * 256,
        }
    }

    /// The accepted band lies in the measurable one: from 60 us to 150 ms.
    pub open spec fn gate_ok(self) -> bool {
        60 <= self.lo <= self.hi <= 150_000
    }

    /// An edge is only compared with an earlier one.
    pub open spec fn in_time(self, now: u64) -> bool {
        self.phase == MeterPhase::Rough || self.phase == MeterPhase::Fine ==> self.last_edge <= now
    }

    /// The meter after a rising edge.
    pub open spec fn after_edge(self, now: u64) -> PeriodMeter {
        let period = (now - self.last_edge) as u64;
        match self.phase {
            MeterPhase::RoughSync => PeriodMeter { phase: MeterPhase::Rough, last_edge: now, ..self },
            MeterPhase::Rough => if period < MIN_PERIOD_US {
                self
            } else if period > MAX_PERIOD_US {
                PeriodMeter { last_edge: now, ..self }
            } else if self.valid + 1 < ROUGH_SAMPLES {
                PeriodMeter {
                    last_edge: now,
                    total_us: (self.total_us + period) as u64,
                    valid: (self.valid + 1) as u64,
                    ..self
                }
            } else {
                let rough = (self.total_us + period) / 8;
                PeriodMeter {
                    phase: MeterPhase::FineSync,
                    last_edge: now,
                    total_us: 0,
                    valid: 0,
                    lo: (rough * 6 / 10) as u64,
                    hi: (rough * 15 / 10) as u64,
                }
            },
            MeterPhase::FineSync => PeriodMeter { phase: MeterPhase::Fine, last_edge: now, ..self },
            MeterPhase::Fine => if period < self.lo {
                self
            } else if period > self.hi {
                if period > MAX_PERIOD_US { PeriodMeter { last_edge: now, ..self } } else { self }
            } else {
                PeriodMeter {
                    phase: if self.valid + 1 < FINE_SAMPLES {
                        MeterPhase::Fine
                    } else {
                        MeterPhase::Done
                    },
                    last_edge: now,
                    total_us: (self.total_us + period) as u64,
                    valid: (self.valid + 1) as u64,
                    ..self
                }
            },
            MeterPhase::Done => self,
        }
    }

    pub fn new() -> (r: Self)
        ensures
            r.wf(),
            r == PeriodMeter::fresh(),
    {
        PeriodMeter {
            phase: MeterPhase::RoughSync,
            last_edge: 0,
            total_us: 0,
            valid: 0,
            lo: 0,
            hi: 0,
        }
    }

    /// A rising edge that was still high when it was looked at. The result is
    /// the sum of 256 periods once they are in.
    pub fn on_edge(&mut self, now: u64) -> (r: Option<u64>)
        requires
            old(self).wf(),
            old(self).in_time(now),
        ensures
            final(self).wf(),
            *final(self) == old(self).after_edge(now),
            r is Some <==> final(self).phase == MeterPhase::Done,
            r matches Some(t) ==> t == final(self).total_us && t > 0,
    {
        let ghost m0 = *self;
        match self.phase {
            MeterPhase::RoughSync => {
                self.phase = MeterPhase::Rough;
                self.last_edge = now;
            },
            MeterPhase::Rough => {
                let period: u64 = now - self.last_edge;
                if period >= MIN_PERIOD_US {
                    self.last_edge = now;
                    if period <= MAX_PERIOD_US {
                        let total: u64 = self.total_us + period;
                        let valid: u64 = self.valid + 1;
                        if valid < ROUGH_SAMPLES {
                            self.total_us = total;
                            self.valid = valid;
                        } else {
                            let rough: u64 = total / valid;
                            self.phase = MeterPhase::FineSync;
                            self.total_us = 0;
                            self.valid = 0;
                            self.lo = rough * 6 / 10;
                            self.hi = rough * 15 / 10;
                        }
                    }
                }
            },
            MeterPhase::FineSync => {
                self.phase = MeterPhase::Fine;
                self.last_edge = now;
                assert(self.lo * 0 == 0 && self.hi * 0 == 0);
            },
            MeterPhase::Fine => {
                let period: u64 = now - self.last_edge;
                if period < self.lo {
                    // Spurious edge: keep the anchor.
                } else if period > self.hi {
                    if period > MAX_PERIOD_US {
                        self.last_edge = now;
                    }
                } else {
                    proof {
                        let (v, l, h) = (self.valid as int, self.lo as int, self.hi as int);
                        assert(l * (v + 1) == l * v + l) by (nonlinear_arith);
                        assert(h * (v + 1) == h * v + h) by (nonlinear_arith);
                        assert(h * v <= 150_000 * 256) by (nonlinear_arith)
                            requires
                                0 <= h <= 150_000,
                                0 <= v <= 256,
                        ;
                    }
                    self.last_edge = now;
                    self.total_us = self.total_us + period;
                    self.valid = self.valid + 1;
                    if self.valid >= FINE_SAMPLES {
                        self.phase = MeterPhase::Done;
                    }
                }
            },
            MeterPhase::Done => {},
        }
        if self.phase == MeterPhase::Done {
            Some(self.total_us)
        } else {
            None
        }
    }
}

/// A finished measurement is a mean of accepted periods: it lies in the
/// band that the rough pass set, whatever spurious edges came between.
pub proof fn mean_lies_in_gate(m: PeriodMeter)
    requires
        m.wf(),
        m.phase == MeterPhase::Done,
    ensures
        m.lo <= m.total_us / 256 <= m.hi,
        60 <= m.total_us / 256 <= 150_000,
{
}

/// An edge outside the band leaves what was accumulated alone.
pub proof fn rejected_edges_leave_the_sum(m: PeriodMeter, now: u64)
    requires
        m.wf(),
        m.in_time(now),
        m.phase == MeterPhase::Fine,
        now - m.last_edge < m.lo || now - m.last_edge > m.hi,
    ensures
        m.after_edge(now).total_us == m.total_us,
        m.after_edge(now).valid == m.valid,
        m.after_edge(now).phase == m.phase,
{
}

impl PeriodMeter {
    /// A meter that has seen no edge.
    pub open spec fn fresh() -> PeriodMeter {
        PeriodMeter {
            phase: MeterPhase::RoughSync,
            last_edge: 0,
            total_us: 0,
            valid: 0,
            lo: 0,
            hi: 0,
        }
    }

    /// A fresh meter after the first `n` edges of a steady signal.
    pub open spec fn after_steady(first: int, period: int, n: int) -> PeriodMeter
        decreases n,
    {
        if n <= 0 {
            PeriodMeter::fresh()
        } else {
            PeriodMeter::after_steady(first, period, n - 1).after_edge(
                (first + (n - 1) * period) as u64,
            )
        }
    }
}

/// Edges that a measurement of a steady signal takes: two that start the
/// passes, and one for each period.
pub const STEADY_EDGES: u64 = 266;

/// A steady signal of a measurable period is measured: the measurement ends
/// with its 266th edge and no sooner, and the result is the sum of 256 periods.
pub proof fn steady_signals_are_measured(first: int, period: int, n: int)
    requires
        0 <= first,
        MIN_PERIOD_US <= period <= MAX_PERIOD_US,
        0 <= n <= STEADY_EDGES,
        first + STEADY_EDGES * period <= u64::MAX,
    ensures
        PeriodMeter::after_steady(first, period, n).phase == MeterPhase::Done <==> n
            == STEADY_EDGES,
        n == STEADY_EDGES ==> PeriodMeter::after_steady(first, period, n).total_us == 256 * period,
{
    steady_states(first, period, n);
}

/// The meter at every edge of a steady signal.
proof fn steady_states(first: int, period: int, n: int)
    requires
        0 <= first,
        100 <= period <= 100_000,
        0 <= n <= 266,
        first + 266 * period <= u64::MAX,
    ensures
        ({
            let m = PeriodMeter::after_steady(first, period, n);
            let lo = period * 6 / 10;
            let hi = period * 15 / 10;
            &&& n > 0 ==> m.last_edge == first + (n - 1) * period
            &&& n == 0 ==> m == PeriodMeter::fresh()
            &&& 1 <= n <= 8 ==> m.phase == MeterPhase::Rough && m.valid == n - 1 && m.total_us == (n
                - 1) * period
            &&& n == 9 ==> m.phase == MeterPhase::FineSync && m.valid == 0 && m.total_us == 0
            &&& n >= 9 ==> m.lo == lo && m.hi == hi
            &&& 10 <= n < 266 ==> m.phase == MeterPhase::Fine && m.valid == n - 10 && m.total_us
                == (n - 10) * period
            &&& n == 266 ==> m.phase == MeterPhase::Done && m.total_us == 256 * period
        }),
    decreases n,
{
    if n > 0 {
        steady_states(first, period, n - 1);
        let m = PeriodMeter::after_steady(first, period, n - 1);
        assert((n - 1) * period == (n - 2) * period + period) by (nonlinear_arith);
        assert(0 <= (n - 1) * period <= 266 * period) by (nonlinear_arith)
            requires
                0 <= n - 1 <= 266,
                0 <= period,
        ;
        if 2 <= n <= 9 {
            assert((n - 2) * period + period == (n - 1) * period);
        }
        if n == 9 {
            assert((n - 1) * period == 8 * period);
        }
        if n == 10 {
            assert((n - 10) * period == 0);
        }
        if n >= 11 {
            assert((n - 10) * period == (n - 11) * period + period) by (nonlinear_arith);
            assert(0 <= (n - 11) * period <= 256 * period) by (nonlinear_arith)
                requires
                    0 <= n - 11 <= 256,
                    0 <= period,
            ;
        }
    }
}

/// Raw periods of the first edges, for diagnosing an input.
#[derive(Clone, Copy, Debug, PartialEq, Eq, Structural)]
pub struct EdgeLog {
    pub last_edge: u64,
    pub accepted: u32,
    pub rejected: u32,
    pub min_us: u64,
    pub max_us: u64,
}

impl EdgeLog {
    pub fn new(first_edge: u64) -> (r: Self)
        ensures
            r == (EdgeLog {
                last_edge: first_edge,
                accepted: 0,
                rejected: 0,
                min_us: u64::MAX,
                max_us: 0,
            }),
    {
        EdgeLog { last_edge: first_edge, accepted: 0, rejected: 0, min_us: u64::MAX, max_us: 0 }
    }

    /// A rising edge; the result is its period where it counts. Twenty
    /// accepted periods make a log.
    pub fn on_edge(&mut self, now: u64) -> (r: Option<u64>)
        requires
            old(self).last_edge <= now,
            old(self).accepted < 20,
            old(self).rejected < u32::MAX,
        ensures
            final(self).last_edge == now,
            ({
                let period = now - old(self).last_edge;
                if MIN_PERIOD_US <= period <= MAX_PERIOD_US {
                    &&& r == Some(period as u64)
                    &&& final(self).accepted == old(self).accepted + 1
                    &&& final(self).rejected == old(self).rejected
                    &&& final(self).min_us == if period < old(self).min_us {
                        period
                    } else {
                        old(self).min_us as int
                    }
                    &&& final(self).max_us == if period > old(self).max_us {
                        period
                    } else {
                        old(self).max_us as int
                    }
                } else {
                    &&& r is None
                    &&& final(self).rejected == old(self).rejected + 1
                    &&& final(self).accepted == old(self).accepted
                    &&& final(self).min_us == old(self).min_us
                    &&& final(self).max_us == old(self).max_us
                }
            }),
    {
        let period: u64 = now - self.last_edge;
        self.last_edge = now;
        if period < MIN_PERIOD_US || period > MAX_PERIOD_US {
            self.rejected = self.rejected + 1;
            return None;
        }
        if period < self.min_us {
            self.min_us = period;
        }
        if period > self.max_us {
            self.max_us = period;
        }
        self.accepted = self.accepted + 1;
        Some(period)
    }
}

} // verus!
