//! Focus statistics: how long Clip Studio Paint has been focused or left
//! idle since it started, the share of idle time, and the presence
//! timestamps derived from them.

use crate::clock::now_unix;
use crate::detection::{ClipStudioDetection, PresenceTiming};
use vstd::prelude::*;

verus! {

/// `a + b`, saturating at `u64::MAX`.
pub open spec fn sat_add(a: u64, b: u64) -> u64 {
    if a + b > u64::MAX {
        u64::MAX
    } else {
        (a + b) as u64
    }
}

/// `a - b`, saturating at zero.
pub open spec fn sat_sub(a: u64, b: u64) -> u64 {
    if a >= b {
        (a - b) as u64
    } else {
        0
    }
}

/// `a * b`, saturating at `u64::MAX`.
pub open spec fn sat_mul(a: u64, b: u64) -> u64 {
    if a * b > u64::MAX {
        u64::MAX
    } else {
        (a * b) as u64
    }
}

/// `a * b` for `u64`, saturating at `u64::MAX`.
pub fn saturating_mul_u64(a: u64, b: u64) -> (res: u64)
    ensures
        res == sat_mul(a, b),
{
    match a.checked_mul(b) {
        Some(p) => p,
        None => u64::MAX,
    }
}

/// Seconds of focus and of idleness counted while Clip Studio Paint runs.
#[derive(Debug)]
pub struct FocusStats {
    pub focused_seconds: u64,
    pub idle_seconds: u64,
    pub last_sample_unix: u64,
    pub idle_since_unix: Option<u64>,
}

impl Clone for FocusStats {
    fn clone(&self) -> (res: Self)
        ensures
            res == *self,
    {
        FocusStats {
            focused_seconds: self.focused_seconds,
            idle_seconds: self.idle_seconds,
            last_sample_unix: self.last_sample_unix,
            idle_since_unix: self.idle_since_unix,
        }
    }
}

impl FocusStats {
    /// The statistics after a sample taken at `now` that observed Clip
    /// Studio Paint `running`, and `focused` or not. The time since the
    /// previous sample counts as focused or idle time; while it is not
    /// running everything starts over.
    pub open spec fn after_sample(self, running: bool, focused: bool, now: u64) -> FocusStats {
        let elapsed = sat_sub(now, self.last_sample_unix);
        if !running {
            FocusStats {
                focused_seconds: 0,
                idle_seconds: 0,
                last_sample_unix: now,
                idle_since_unix: None,
            }
        } else if elapsed == 0 {
            FocusStats { last_sample_unix: now, ..self }
        } else if focused {
            FocusStats {
                focused_seconds: sat_add(self.focused_seconds, elapsed),
                last_sample_unix: now,
                idle_since_unix: None,
                ..self
            }
        } else {
            FocusStats {
                idle_seconds: sat_add(self.idle_seconds, elapsed),
                last_sample_unix: now,
                idle_since_unix: if self.idle_since_unix is None {
                    Some(sat_sub(now, elapsed))
                } else {
                    self.idle_since_unix
                },
                ..self
            }
        }
    }

    /// Focused and idle seconds together, saturating.
    pub open spec fn total_seconds(self) -> u64 {
        sat_add(self.focused_seconds, self.idle_seconds)
    }

    /// The percentage below can be computed without overflow.
    pub open spec fn percent_defined(self) -> bool {
        sat_mul(self.idle_seconds, 100) + self.total_seconds() / 2 <= u64::MAX
    }

    /// The share of idle time in percent, rounded half up and capped at one
    /// hundred; `None` before any time was counted.
    pub open spec fn percent_spec(self) -> Option<u8> {
        let total = self.total_seconds();
        if total == 0 {
            None
        } else {
            let p = (sat_mul(self.idle_seconds, 100) + total / 2) / (total as int);
            Some(if p < 100 { p as u8 } else { 100u8 })
        }
    }

    /// The presence timestamps at `now` for an observation.
    pub open spec fn timing_spec(self, running: bool, focused: bool, now: u64) -> PresenceTiming {
        if !running {
            PresenceTiming { drawing_started_at: None, procrastinating_since: None }
        } else if focused {
            PresenceTiming {
                drawing_started_at: Some(sat_sub(now, self.focused_seconds) as i64),
                procrastinating_since: None,
            }
        } else {
            PresenceTiming {
                drawing_started_at: None,
                procrastinating_since: match self.idle_since_unix {
                    Some(t) => Some(t as i64),
                    None => None,
                },
            }
        }
    }

    /// Statistics with nothing counted, sampled last at `now`.
    pub fn started_at(now: u64) -> (res: Self)
        ensures
            res.focused_seconds == 0,
            res.idle_seconds == 0,
            res.last_sample_unix == now,
            res.idle_since_unix is None,
    {
        FocusStats {
            focused_seconds: 0,
            idle_seconds: 0,
            last_sample_unix: now,
            idle_since_unix: None,
        }
    }

    /// Counts the time since the previous sample, with the clock read once.
    /// Whatever the clock gives, the result is `after_sample` at some time.
    pub fn update(&mut self, detection: &ClipStudioDetection)
        ensures
            exists|now: u64|
                *final(self) == old(self).after_sample(detection.running, detection.focused, now),
    {
        let now = now_unix();
        self.update_at(detection, now);
    }

    /// Counts the time since the previous sample as focused or idle time,
    /// for a sample taken at `now`.
    pub fn update_at(&mut self, detection: &ClipStudioDetection, now: u64)
        ensures
            *final(self) == old(self).after_sample(detection.running, detection.focused, now),
    {
        let elapsed = now.saturating_sub(self.last_sample_unix);
        self.last_sample_unix = now;

        if !detection.running {
            self.reset();
            return;
        }
        if elapsed == 0 {
            return;
        }
        if detection.focused {
            self.focused_seconds = self.focused_seconds.saturating_add(elapsed);
            self.idle_since_unix = None;
        } else {
            self.idle_seconds = self.idle_seconds.saturating_add(elapsed);
            if self.idle_since_unix.is_none() {
                self.idle_since_unix = Some(now.saturating_sub(elapsed));
            }
        }
    }

    /// Forgets the counted time.
    pub fn reset(&mut self)
        ensures
            final(self).focused_seconds == 0,
            final(self).idle_seconds == 0,
            final(self).idle_since_unix is None,
            final(self).last_sample_unix == old(self).last_sample_unix,
    {
        self.focused_seconds = 0;
        self.idle_seconds = 0;
        self.idle_since_unix = None;
    }

    /// Whether `procrastination_percent` can be computed without overflow.
    pub fn percent_is_defined(&self) -> (res: bool)
        ensures
            res == self.percent_defined(),
    {
        let total = self.focused_seconds.saturating_add(self.idle_seconds);
        let scaled = saturating_mul_u64(self.idle_seconds, 100);
        scaled <= u64::MAX - total / 2
    }

    /// The share of idle time in percent, rounded half up.
    pub fn procrastination_percent(&self) -> (res: Option<u8>)
        requires
            self.percent_defined(),
        ensures
            res == self.percent_spec(),
            res is None <==> self.total_seconds() == 0,
            res matches Some(p) ==> p <= 100,
    {
        let total = self.focused_seconds.saturating_add(self.idle_seconds);
        if total == 0 {
            return None;
        }
        let scaled = saturating_mul_u64(self.idle_seconds, 100) + total / 2;
        let p = scaled / total;
        Some(if p < 100 { p as u8 } else { 100u8 })
    }

    /// The presence timestamps for an observation, with the clock read once
    /// when Clip Studio Paint is focused.
    pub fn presence_timing(&self, detection: &ClipStudioDetection) -> (res: PresenceTiming)
        ensures
            exists|now: u64| res == self.timing_spec(detection.running, detection.focused, now),
            !detection.running ==> res == self.timing_spec(false, false, 0),
            detection.running && !detection.focused ==> res == self.timing_spec(true, false, 0),
    {
        if !detection.running {
            return PresenceTiming::none();
        }
        if detection.focused {
            let now = now_unix();
            return self.presence_timing_at(detection, now);
        }
        self.presence_timing_at(detection, 0)
    }

    /// The presence timestamps at `now`: when focused, the drawing started
    /// the counted focus time ago; when idle, since when it has been idle.
    pub fn presence_timing_at(&self, detection: &ClipStudioDetection, now: u64) -> (res:
        PresenceTiming)
        ensures
            res == self.timing_spec(detection.running, detection.focused, now),
    {
        if !detection.running {
            return PresenceTiming::none();
        }
        if detection.focused {
            return PresenceTiming {
                drawing_started_at: Some(now.saturating_sub(self.focused_seconds) as i64),
                procrastinating_since: None,
            };
        }
        PresenceTiming {
            drawing_started_at: None,
            procrastinating_since: match self.idle_since_unix {
                Some(t) => Some(t as i64),
                None => None,
            },
        }
    }
}

/// While Clip Studio Paint runs, counted time only grows: a sample never
/// lowers the focused or idle seconds, and the sample time is recorded.
/// A focused sample ends any idle stretch.
pub proof fn lemma_counters_grow_while_running(f: FocusStats, focused: bool, now: u64)
    ensures
        f.after_sample(true, focused, now).focused_seconds >= f.focused_seconds,
        f.after_sample(true, focused, now).idle_seconds >= f.idle_seconds,
        f.after_sample(true, focused, now).last_sample_unix == now,
        focused && sat_sub(now, f.last_sample_unix) > 0 ==> f.after_sample(
            true,
            focused,
            now,
        ).idle_since_unix is None,
{
}

/// The idle percentage is never above one hundred, and is absent exactly
/// when no time has been counted, as after Clip Studio Paint stops.
pub proof fn lemma_percent_bounds(f: FocusStats, now: u64)
    ensures
        f.percent_spec() matches Some(p) ==> p <= 100,
        f.percent_spec() is None <==> f.total_seconds() == 0,
        f.after_sample(false, false, now).percent_spec() is None,
{
}

/// A rounded share `(100 * i + t / 2) / t` grows with the ratio `i / t`.
proof fn lemma_rounded_share_le(i1: int, t1: int, i2: int, t2: int)
    requires
        t1 > 0,
        t2 > 0,
        i1 >= 0,
        i2 >= 0,
        i1 * t2 <= i2 * t1,
    ensures
        (100 * i1 + t1 / 2) / t1 <= (100 * i2 + t2 / 2) / t2,
{
    let n1 = 100 * i1 + t1 / 2;
    let n2 = 100 * i2 + t2 / 2;
    let p1 = n1 / t1;
    let p2 = n2 / t2;
    assert(p1 * t1 <= n1 && p1 >= 0) by (nonlinear_arith)
        requires
            p1 == n1 / t1,
            t1 > 0,
            n1 >= 0,
    ;
    assert(n2 < (p2 + 1) * t2) by (nonlinear_arith)
        requires
            p2 == n2 / t2,
            t2 > 0,
            n2 >= 0,
    ;
    if p1 > 0 {
        assert((2 * p1 - 1) * t1 <= 200 * i1) by (nonlinear_arith)
            requires
                p1 * t1 <= 100 * i1 + t1 / 2,
                t1 > 0,
        ;
        assert((2 * p1 - 1) * t2 <= 200 * i2) by (nonlinear_arith)
            requires
                (2 * p1 - 1) * t1 <= 200 * i1,
                i1 * t2 <= i2 * t1,
                t1 > 0,
                t2 > 0,
                p1 > 0,
        ;
        assert(p1 * t2 <= n2) by (nonlinear_arith)
            requires
                (2 * p1 - 1) * t2 <= 200 * i2,
                n2 == 100 * i2 + t2 / 2,
                t2 > 0,
        ;
        assert(p1 <= p2) by (nonlinear_arith)
            requires
                p1 * t2 <= n2,
                n2 < (p2 + 1) * t2,
                t2 > 0,
        ;
    }
}

/// Without overflow the scaled idle time is not saturated.
proof fn lemma_defined_scale_exact(f: FocusStats)
    requires
        f.percent_defined(),
    ensures
        f.idle_seconds * 100 <= u64::MAX,
        sat_mul(f.idle_seconds, 100) == f.idle_seconds * 100,
{
}

/// The idle percentage, zero when none is defined.
pub open spec fn percent_or_zero(f: FocusStats) -> int {
    match f.percent_spec() {
        Some(p) => p as int,
        None => 0,
    }
}

/// The idle percentage grows with idle time: of two statistics that differ
/// only in their idle seconds, the one with more idle time shows at least
/// the same percentage.
pub proof fn lemma_percent_grows_with_idle(s1: FocusStats, s2: FocusStats)
    requires
        s1.focused_seconds == s2.focused_seconds,
        s1.idle_seconds <= s2.idle_seconds,
        s1.percent_defined(),
        s2.percent_defined(),
    ensures
        percent_or_zero(s1) <= percent_or_zero(s2),
{
    let f = s1.focused_seconds as int;
    let i1 = s1.idle_seconds as int;
    let i2 = s2.idle_seconds as int;
    let t1 = s1.total_seconds() as int;
    let t2 = s2.total_seconds() as int;
    if t1 > 0 {
        lemma_defined_scale_exact(s1);
        lemma_defined_scale_exact(s2);
        let m = u64::MAX as int;
        if f + i2 <= m {
            assert(i1 * t2 <= i2 * t1) by (nonlinear_arith)
                requires
                    t1 == f + i1,
                    t2 == f + i2,
                    i1 <= i2,
                    f >= 0,
            ;
        } else if f + i1 > m {
            assert(i1 * t2 <= i2 * t1) by (nonlinear_arith)
                requires
                    t1 == m,
                    t2 == m,
                    i1 <= i2,
                    m > 0,
            ;
        } else {
            assert(i1 * t2 <= i2 * t1) by (nonlinear_arith)
                requires
                    t1 == f + i1,
                    t2 == m,
                    m < f + i2,
                    i1 <= i2,
                    f >= 0,
                    i1 >= 0,
            ;
        }
        lemma_rounded_share_le(i1, t1, i2, t2);
    }
}

/// The idle percentage falls with focused time: of two statistics that
/// differ only in their focused seconds, once some time is counted, the
/// one with more focused time shows at most the same percentage.
pub proof fn lemma_percent_falls_with_focus(s1: FocusStats, s2: FocusStats)
    requires
        s1.idle_seconds == s2.idle_seconds,
        s1.focused_seconds <= s2.focused_seconds,
        s1.total_seconds() > 0,
        s1.percent_defined(),
        s2.percent_defined(),
    ensures
        s1.percent_spec() is Some,
        s2.percent_spec() is Some,
        s1.percent_spec()->0 >= s2.percent_spec()->0,
{
    let i = s1.idle_seconds as int;
    let t1 = s1.total_seconds() as int;
    let t2 = s2.total_seconds() as int;
    lemma_defined_scale_exact(s1);
    lemma_defined_scale_exact(s2);
    assert(t1 <= t2);
    assert(i * t1 <= i * t2) by (nonlinear_arith)
        requires
            t1 <= t2,
            i >= 0,
    ;
    lemma_rounded_share_le(i, t2, i, t1);
}

} // verus!
