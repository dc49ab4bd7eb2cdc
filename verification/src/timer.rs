use crate::vector::{Vec3, COORD_LIMIT};
use vstd::prelude::*;

verus! {

/// How long the player's move plays, in microseconds.
pub const PLAYER_ACTION_ANIMATION_DURATION: u64 = 440_000;

/// How long the logs roll in one turn.
pub const GAME_MOVE_ANIMATION_DURATION: u64 = 470_000;

/// How long the first half of a jump plays.
pub const PLAYER_JUMP_ANIMATION_DURATION: u64 = 390_000;

/// How long the landing from a jump plays.
pub const PLAYER_JUMP_LAND_ANIMATION_DURATION: u64 = 420_000;

/// How long the player falls after a fatal collision.
pub const PLAYER_END_DURATION: u64 = 1_600_000;

/// How long a won game lingers before the next one starts.
pub const PLAYER_WIN_DURATION: u64 = 2_600_000;

/// A countdown that runs once: it gathers elapsed time up to its duration
/// and then stays finished. Times are in microseconds.
#[derive(Clone, Copy, Debug, PartialEq, Eq, Structural)]
pub struct ActionTimer {
    pub elapsed: u64,
    pub duration: u64,
    pub finished: bool,
    /// The latest tick is the one that finished the countdown.
    pub just_finished: bool,
}

/// A point on the way from `start` to `target`, as far along as `elapsed` is
/// in `duration`; the distance covered is rounded toward `start`. A countdown
/// without duration is at its target at once.
pub open spec fn lerp_int(start: int, target: int, elapsed: int, duration: int) -> int {
    if duration <= 0 {
        target
    } else if target >= start {
        start + ((target - start) * elapsed) / duration
    } else {
        start - ((start - target) * elapsed) / duration
    }
}

impl ActionTimer {
    /// The elapsed time never passes the duration, a finished countdown has
    /// used all of its duration, and only a finished one has just finished.
    pub open spec fn wf(self) -> bool {
        &&& self.elapsed <= self.duration
        &&& self.finished ==> self.elapsed == self.duration
        &&& self.just_finished ==> self.finished
    }

    /// A fresh countdown of the given duration.
    pub open spec fn spec_from_micros(duration: u64) -> ActionTimer {
        ActionTimer { elapsed: 0, duration, finished: false, just_finished: false }
    }

    /// The countdown after `delta` more microseconds. A finished countdown
    /// only forgets that it had just finished. Otherwise the time is added,
    /// and once it reaches the duration the countdown finishes and stays at
    /// its duration.
    pub open spec fn spec_ticked(self, delta: u64) -> ActionTimer {
        if self.finished {
            ActionTimer { just_finished: false, ..self }
        } else if self.elapsed + delta >= self.duration {
            ActionTimer { elapsed: self.duration, finished: true, just_finished: true, ..self }
        } else {
            ActionTimer { elapsed: (self.elapsed + delta) as u64, just_finished: false, ..self }
        }
    }

    /// The elapsed share of the duration, in millionths, rounded down. A
    /// countdown without duration is complete.
    pub open spec fn spec_fraction(self) -> int {
        if self.duration == 0 {
            1_000_000
        } else {
            (self.elapsed * 1_000_000) / (self.duration as int)
        }
    }

    /// More than nine tenths of the duration have elapsed. A countdown
    /// without duration is complete, so it is nearly done too.
    pub open spec fn spec_nearly_done(self) -> bool {
        self.duration == 0 || self.elapsed * 10 > self.duration * 9
    }

    /// The point between two positions that matches the countdown's
    /// progress, axis by axis.
    pub open spec fn spec_lerp(self, start: Vec3, target: Vec3) -> Vec3 {
        Vec3 {
            x: lerp_int(start.x as int, target.x as int, self.elapsed as int, self.duration as int) as i64,
            y: lerp_int(start.y as int, target.y as int, self.elapsed as int, self.duration as int) as i64,
            z: lerp_int(start.z as int, target.z as int, self.elapsed as int, self.duration as int) as i64,
        }
    }

    /// Whether the countdown is well formed.
    pub fn is_wf(&self) -> (ok: bool)
        ensures
            ok == self.wf(),
    {
        self.elapsed <= self.duration && (!self.finished || self.elapsed == self.duration) && (
        !self.just_finished || self.finished)
    }

    pub fn from_micros(duration: u64) -> (timer: ActionTimer)
        ensures
            timer == Self::spec_from_micros(duration),
            timer.wf(),
    {
        ActionTimer { elapsed: 0, duration, finished: false, just_finished: false }
    }

    /// Starts the countdown again from zero.
    pub fn reset(&mut self)
        ensures
            *final(self) == Self::spec_from_micros(old(self).duration),
            final(self).wf(),
    {
        self.elapsed = 0;
        self.finished = false;
        self.just_finished = false;
    }

    /// Advances the countdown by `delta` microseconds.
    pub fn tick(&mut self, delta: u64)
        requires
            old(self).wf(),
        ensures
            *final(self) == old(self).spec_ticked(delta),
            final(self).wf(),
    {
        if self.finished {
            self.just_finished = false;
        } else if delta >= self.duration - self.elapsed {
            self.elapsed = self.duration;
            self.finished = true;
            self.just_finished = true;
        } else {
            self.elapsed = self.elapsed + delta;
            self.just_finished = false;
        }
    }

    pub fn finished(&self) -> (done: bool)
        ensures
            done == self.finished,
    {
        self.finished
    }

    pub fn just_finished(&self) -> (done: bool)
        ensures
            done == self.just_finished,
    {
        self.just_finished
    }

    /// The elapsed share of the duration, in millionths.
    pub fn fraction(&self) -> (part: u64)
        requires
            self.wf(),
        ensures
            part as int == self.spec_fraction(),
            part <= 1_000_000,
    {
        if self.duration == 0 {
            1_000_000
        } else {
            proof {
                lemma_scaled_within(1_000_000, self.elapsed as int, self.duration as int);
            }
            ((1_000_000 * self.elapsed as u128) / (self.duration as u128)) as u64
        }
    }

    /// Whether more than nine tenths of the duration have elapsed.
    pub fn nearly_done(&self) -> (near: bool)
        ensures
            near == self.spec_nearly_done(),
    {
        self.duration == 0 || self.elapsed as u128 * 10 > self.duration as u128 * 9
    }

    /// The point between `start` and `target` that matches the countdown's
    /// progress.
    pub fn lerp(&self, start: Vec3, target: Vec3) -> (at: Vec3)
        requires
            self.wf(),
            start.bounded(),
            target.bounded(),
        ensures
            at == self.spec_lerp(start, target),
            at.bounded(),
    {
        lerp_part(start, target, self.elapsed, self.duration)
    }
}

/// The point `part / whole` of the way from `start` to `target`, axis by
/// axis.
pub open spec fn spec_lerp_part(start: Vec3, target: Vec3, part: u64, whole: u64) -> Vec3 {
    Vec3 {
        x: lerp_int(start.x as int, target.x as int, part as int, whole as int) as i64,
        y: lerp_int(start.y as int, target.y as int, part as int, whole as int) as i64,
        z: lerp_int(start.z as int, target.z as int, part as int, whole as int) as i64,
    }
}

/// The point `part / whole` of the way from `start` to `target`.
pub fn lerp_part(start: Vec3, target: Vec3, part: u64, whole: u64) -> (at: Vec3)
    requires
        part <= whole,
        start.bounded(),
        target.bounded(),
    ensures
        at == spec_lerp_part(start, target, part, whole),
        at.bounded(),
{
    Vec3 {
        x: lerp_axis(start.x, target.x, part, whole),
        y: lerp_axis(start.y, target.y, part, whole),
        z: lerp_axis(start.z, target.z, part, whole),
    }
}

fn lerp_axis(start: i64, target: i64, elapsed: u64, duration: u64) -> (at: i64)
    requires
        -COORD_LIMIT <= start <= COORD_LIMIT,
        -COORD_LIMIT <= target <= COORD_LIMIT,
        elapsed <= duration,
    ensures
        at as int == lerp_int(start as int, target as int, elapsed as int, duration as int),
        -COORD_LIMIT <= at <= COORD_LIMIT,
{
    if duration == 0 {
        target
    } else if target >= start {
        let span: u128 = (target - start) as u128;
        proof {
            lemma_scaled_within(span as int, elapsed as int, duration as int);
            assert(span * elapsed <= 2_000_000_000_000_000_000 * 0xFFFF_FFFF_FFFF_FFFF)
                by (nonlinear_arith)
                requires
                    0 <= span <= 2_000_000_000_000_000_000,
                    0 <= elapsed <= 0xFFFF_FFFF_FFFF_FFFF,
            ;
        }
        let covered: u128 = span * (elapsed as u128) / (duration as u128);
        start + covered as i64
    } else {
        let span: u128 = (start - target) as u128;
        proof {
            lemma_scaled_within(span as int, elapsed as int, duration as int);
            assert(span * elapsed <= 2_000_000_000_000_000_000 * 0xFFFF_FFFF_FFFF_FFFF)
                by (nonlinear_arith)
                requires
                    0 <= span <= 2_000_000_000_000_000_000,
                    0 <= elapsed <= 0xFFFF_FFFF_FFFF_FFFF,
            ;
        }
        let covered: u128 = span * (elapsed as u128) / (duration as u128);
        start - covered as i64
    }
}

/// A part `elapsed / duration` of a span is no longer than the span.
pub proof fn lemma_scaled_within(span: int, elapsed: int, duration: int)
    requires
        0 <= span,
        0 <= elapsed <= duration,
        0 < duration,
    ensures
        0 <= span * elapsed <= span * duration,
        0 <= (span * elapsed) / duration <= span,
        elapsed == duration ==> (span * elapsed) / duration == span,
        elapsed == 0 ==> (span * elapsed) / duration == 0,
{
    assert(0 <= span * elapsed <= span * duration) by (nonlinear_arith)
        requires
            0 <= span,
            0 <= elapsed <= duration,
    ;
    assert((span * elapsed) / duration <= span) by (nonlinear_arith)
        requires
            0 <= span * elapsed <= span * duration,
            0 < duration,
    ;
    assert(0 <= (span * elapsed) / duration) by (nonlinear_arith)
        requires
            0 <= span * elapsed,
            0 < duration,
    ;
    if elapsed == duration {
        assert((span * duration) / duration == span) by (nonlinear_arith)
            requires
                0 < duration,
        ;
    }
    if elapsed == 0 {
        assert(span * 0 == 0);
    }
}

/// An interpolated coordinate lies between its two ends, starts at the
/// first and ends at the second.
pub proof fn law_lerp_between(start: int, target: int, elapsed: int, duration: int)
    requires
        0 <= elapsed <= duration,
    ensures
        start <= target ==> start <= lerp_int(start, target, elapsed, duration) <= target,
        target <= start ==> target <= lerp_int(start, target, elapsed, duration) <= start,
        elapsed == duration ==> lerp_int(start, target, elapsed, duration) == target,
        elapsed == 0 && duration > 0 ==> lerp_int(start, target, elapsed, duration) == start,
{
    if duration > 0 {
        if target >= start {
            lemma_scaled_within(target - start, elapsed, duration);
        } else {
            lemma_scaled_within(start - target, elapsed, duration);
        }
    }
}

/// Once a countdown has finished, further ticks leave it finished and at its
/// duration, and none of them counts as the finishing one.
pub proof fn law_finished_stays_finished(timer: ActionTimer, delta: u64)
    requires
        timer.wf(),
        timer.finished,
    ensures
        timer.spec_ticked(delta).finished,
        !timer.spec_ticked(delta).just_finished,
        timer.spec_ticked(delta).elapsed == timer.elapsed,
{
}

/// A tick never shortens the elapsed time, and a tick of a running countdown
/// finishes it exactly when the time reaches the duration.
pub proof fn law_tick_monotone(timer: ActionTimer, delta: u64)
    requires
        timer.wf(),
    ensures
        timer.spec_ticked(delta).wf(),
        timer.spec_ticked(delta).elapsed >= timer.elapsed,
        timer.spec_ticked(delta).duration == timer.duration,
        !timer.finished ==> (timer.spec_ticked(delta).just_finished <==> timer.elapsed + delta
            >= timer.duration),
{
}

} // verus!
