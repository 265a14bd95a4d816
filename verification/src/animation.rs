//! The playback state machine and the player facade.
//!
//! [`PlayingAnimation2D`] owns the mutable cursor state for one bound clip and
//! is advanced once per external tick; [`AnimationPlayer2D`] wraps exactly one
//! such state and exposes the public control surface, including pause
//! semantics.
//!
//! All times are integer tick counts at a caller-chosen resolution; playback
//! speed is a fixed-point scalar with [`SPEED_SCALE`] as the unit. The exact
//! effect of one tick is the specification function
//! [`PlayingAnimation2D::spec_update`]; the proof functions at the end of this
//! module state the laws of the repeat policies and of the player controls.

use vstd::arithmetic::div_mod::lemma_div_is_ordered;
use vstd::prelude::*;

use crate::asset::AssetHandle;
use crate::asset::MAX_TICKS;

verus! {

/// Fixed-point unit for playback speed: a `speed` field of this value plays
/// at natural speed, twice this value at double speed, and so on. Negative
/// speeds run the cursor backwards without touching the reverse flag.
pub const SPEED_SCALE: i64 = 1000;

/// Upper bound on the magnitude of the playback speed: a thousand times
/// natural speed. Together with [`MAX_TICKS`] it keeps one cursor step within
/// `i64`.
pub const MAX_SPEED: i64 = 1_000_000;

/// Window within which the cursor must lie before an update so that the step
/// arithmetic stays within `i64`. Updates and seeks on well-formed clips keep
/// the cursor far inside it.
pub const MAX_CURSOR: i64 = 8_000_000_000_000_000_000;

/// How many times an animation repeats before it counts as finished.
#[derive(Clone, Copy, Debug, PartialEq, Eq, Structural)]
pub enum RepeatAnimation {
    /// The animation plays through once and is then finished.
    Never,
    /// The animation loops and is never finished.
    Forever,
    /// The animation is finished after this many full traversals.
    Count(u32),
}

impl Default for RepeatAnimation {
    /// By default an animation plays once.
    fn default() -> (r: Self)
        ensures
            r == RepeatAnimation::Never,
    {
        RepeatAnimation::Never
    }
}

/// Whether an animation with the given repeat policy counts as finished once
/// it has completed `completions` full traversals. `Forever` never finishes;
/// `Never` finishes after the first traversal; `Count(n)` after the `n`-th.
pub open spec fn spec_is_finished(repeat: RepeatAnimation, completions: u32) -> bool {
    match repeat {
        RepeatAnimation::Forever => false,
        RepeatAnimation::Never => completions >= 1,
        RepeatAnimation::Count(n) => completions >= n,
    }
}

/// Magnitude of an integer.
pub open spec fn spec_abs(x: int) -> int {
    if x < 0 {
        -x
    } else {
        x
    }
}

/// Cursor movement of one update step: the delta scaled by the fixed-point
/// speed, with the sub-unit remainder dropped (rounded toward zero), and the
/// sign flipped when the reverse flag is set. The delta is never negative, so
/// the magnitude is `delta * |speed| / SPEED_SCALE` and the movement runs
/// backwards exactly when reversal and a negative speed do not cancel out.
pub open spec fn spec_step(delta: int, speed: int, reverse: bool) -> int {
    let mag = (delta * spec_abs(speed)) / (SPEED_SCALE as int);
    if (speed < 0) != reverse {
        -mag
    } else {
        mag
    }
}

/// One wrap of the cursor into clip range: a cursor at or past the end is
/// reduced modulo the duration, so several virtual loops inside one step
/// collapse to their remainder; a cursor before the start gets one duration
/// added.
pub open spec fn spec_wrap(s: int, dur: int) -> int {
    if s >= dur {
        s % dur
    } else if s < 0 {
        s + dur
    } else {
        s
    }
}

/// The machine-level bounds under which one update step stays within `i64`:
/// delta and duration within [`MAX_TICKS`], speed within [`MAX_SPEED`], the
/// cursor within [`MAX_CURSOR`], and headroom in the elapsed-time and
/// completion counters.
pub open spec fn update_bounds(anim: PlayingAnimation2D, delta: int, dur: int) -> bool {
    &&& 0 <= delta <= MAX_TICKS
    &&& 0 < dur <= MAX_TICKS
    &&& -MAX_SPEED <= anim.speed <= MAX_SPEED
    &&& -MAX_CURSOR <= anim.seek_time <= MAX_CURSOR
    &&& anim.elapsed + delta <= i64::MAX
    &&& anim.completions < u32::MAX
}

/// Playback state for one bound clip: the repeat policy, direction and speed
/// modifiers, the clip-local cursor, and the completion counters.
#[derive(Clone, Copy, Debug, PartialEq, Eq, Structural)]
pub struct PlayingAnimation2D {
    /// How often the animation repeats before it counts as finished.
    pub repeat: RepeatAnimation,
    /// Direction of travel through the clip.
    pub reverse: bool,
    /// True once the cursor has reached the terminal boundary at least once,
    /// independent of the repeat policy.
    pub clip_finished: bool,
    /// Fixed-point speed scalar; [`SPEED_SCALE`] is natural speed.
    pub speed: i64,
    /// Total time fed into this playback since the last reset, in ticks.
    /// Grows monotonically, unaffected by speed, direction or looping.
    pub elapsed: i64,
    /// The clip-local cursor, in ticks.
    pub seek_time: i64,
    /// Handle of the clip this playback is bound to.
    pub animation_clip: AssetHandle,
    /// Number of full traversals of the clip since the last reset.
    pub completions: u32,
}

impl PlayingAnimation2D {
    /// The initial playback state: play once, forward, at natural speed, with
    /// nothing elapsed and the default handle bound.
    pub open spec fn spec_default() -> Self {
        PlayingAnimation2D {
            repeat: RepeatAnimation::Never,
            reverse: false,
            clip_finished: false,
            speed: SPEED_SCALE,
            elapsed: 0,
            seek_time: 0,
            animation_clip: AssetHandle { id: 0 },
            completions: 0,
        }
    }

    /// The state a player starts from when a clip is bound: the initial state
    /// with `handle` in place of the default handle.
    pub open spec fn spec_fresh(handle: AssetHandle) -> Self {
        PlayingAnimation2D { animation_clip: handle, ..Self::spec_default() }
    }

    /// The exact effect of feeding one delta into this playback against a
    /// clip of the given duration.
    ///
    /// A finished state ignores the step entirely. Otherwise the cursor moves
    /// by [`spec_step`] and is wrapped back into clip range by [`spec_wrap`].
    /// A completion registers either when the unwrapped cursor reached the
    /// end going forward (so one step counts at most one completion, however
    /// many virtual loops the wrap collapsed, and the wrapped remainder is
    /// kept), or when the wrapped cursor still sits at or before the start
    /// going in reverse, in which case the cursor snaps to the duration.
    pub open spec fn spec_update(self, delta: int, dur: int) -> Self {
        if spec_is_finished(self.repeat, self.completions) {
            self
        } else {
            let raw = self.seek_time + spec_step(delta, self.speed as int, self.reverse);
            let wrapped = spec_wrap(raw, dur);
            let over_end = !self.reverse && raw >= dur;
            let under_start = self.reverse && wrapped <= 0;
            let hit = over_end || under_start;
            PlayingAnimation2D {
                repeat: self.repeat,
                reverse: self.reverse,
                clip_finished: self.clip_finished || hit,
                speed: self.speed,
                elapsed: (self.elapsed + delta) as i64,
                seek_time: (if hit && self.reverse {
                    dur
                } else {
                    wrapped
                }) as i64,
                animation_clip: self.animation_clip,
                completions: if hit {
                    (self.completions + 1) as u32
                } else {
                    self.completions
                },
            }
        }
    }

    /// The state after feeding a whole sequence of deltas, in order, against
    /// a clip of the given duration.
    pub open spec fn spec_run(self, deltas: Seq<int>, dur: int) -> Self
        decreases deltas.len(),
    {
        if deltas.len() == 0 {
            self
        } else {
            self.spec_update(deltas[0], dur).spec_run(deltas.drop_first(), dur)
        }
    }

    /// Check if the animation has finished, based on its repeat policy and
    /// the number of completed traversals. Side-effect free.
    pub fn is_finished(&self) -> (r: bool)
        ensures
            r == spec_is_finished(self.repeat, self.completions),
    {
        match self.repeat {
            RepeatAnimation::Forever => false,
            RepeatAnimation::Never => self.completions >= 1,
            RepeatAnimation::Count(n) => self.completions >= n,
        }
    }

    /// Advance the playback by one delta against a clip of the given
    /// duration. The result is exactly [`Self::spec_update`]; in particular a
    /// finished animation is left untouched, and one call registers at most
    /// one completion.
    pub fn update(&mut self, delta: i64, clip_duration: i64)
        requires
            update_bounds(*old(self), delta as int, clip_duration as int),
        ensures
            *final(self) == old(self).spec_update(delta as int, clip_duration as int),
    {
        if self.is_finished() {
            return ;
        }
        self.elapsed = self.elapsed + delta;
        let speed_mag: i64 = if self.speed < 0 {
            -self.speed
        } else {
            self.speed
        };
        proof {
            assert(delta * speed_mag <= MAX_TICKS * MAX_SPEED) by (nonlinear_arith)
                requires
                    0 <= delta <= MAX_TICKS,
                    0 <= speed_mag <= MAX_SPEED,
            ;
            lemma_div_is_ordered(
                delta * speed_mag,
                MAX_TICKS * MAX_SPEED,
                SPEED_SCALE as int,
            );
        }
        let prod: u64 = (delta as u64) * (speed_mag as u64);
        let mag: i64 = (prod / (SPEED_SCALE as u64)) as i64;
        let step: i64 = if (self.speed < 0) != self.reverse {
            -mag
        } else {
            mag
        };
        let raw: i64 = self.seek_time + step;
        let over_end: bool = !self.reverse && raw >= clip_duration;
        let wrapped: i64 = if raw >= clip_duration {
            ((raw as u64) % (clip_duration as u64)) as i64
        } else if raw < 0 {
            raw + clip_duration
        } else {
            raw
        };
        let under_start: bool = self.reverse && wrapped <= 0;
        if over_end || under_start {
            self.completions = self.completions + 1;
            self.clip_finished = true;
            self.seek_time = if self.reverse {
                clip_duration
            } else {
                wrapped
            };
        } else {
            self.seek_time = wrapped;
        }
    }

    /// Reset the counters and the cursor as if no time had elapsed. The
    /// repeat policy, direction, speed, boundary flag and bound clip stay.
    pub fn replay(&mut self)
        ensures
            final(self).completions == 0,
            final(self).elapsed == 0,
            final(self).seek_time == 0,
            final(self).repeat == old(self).repeat,
            final(self).reverse == old(self).reverse,
            final(self).clip_finished == old(self).clip_finished,
            final(self).speed == old(self).speed,
            final(self).animation_clip == old(self).animation_clip,
    {
        self.completions = 0;
        self.elapsed = 0;
        self.seek_time = 0;
    }
}

impl Default for PlayingAnimation2D {
    /// The initial playback state, [`PlayingAnimation2D::spec_default`].
    fn default() -> (a: Self)
        ensures
            a == PlayingAnimation2D::spec_default(),
    {
        PlayingAnimation2D {
            repeat: RepeatAnimation::Never,
            reverse: false,
            clip_finished: false,
            speed: SPEED_SCALE,
            elapsed: 0,
            seek_time: 0,
            animation_clip: AssetHandle { id: 0 },
            completions: 0,
        }
    }
}

/// Animation controls for one animated entity: exactly one playback state
/// plus the pause flag. External ticks must not advance the playback while
/// the player is paused; [`AnimationPlayer2D::tick`] enforces that.
#[derive(Clone, Copy, Debug, PartialEq, Eq, Structural)]
pub struct AnimationPlayer2D {
    /// While true, external ticks leave the playback state untouched.
    pub paused: bool,
    /// The single playback state this player drives.
    pub animation: PlayingAnimation2D,
}

impl AnimationPlayer2D {
    /// The player after a hard start: a fresh playback state bound to
    /// `handle`, with the pause flag left as it was.
    pub open spec fn spec_start(self, handle: AssetHandle) -> Self {
        AnimationPlayer2D { paused: self.paused, animation: PlayingAnimation2D::spec_fresh(handle) }
    }

    /// The player after `play`: a hard start when another clip is bound or
    /// the player is paused, and otherwise no change at all.
    pub open spec fn spec_play(self, handle: AssetHandle) -> Self {
        if self.animation.animation_clip != handle || self.paused {
            self.spec_start(handle)
        } else {
            self
        }
    }

    /// Start playing an animation: the playback state is replaced wholesale
    /// by a fresh one bound to `handle`, discarding seek position, direction,
    /// speed and repeat policy. The pause flag is left as it was.
    pub fn start(&mut self, handle: AssetHandle)
        ensures
            *final(self) == old(self).spec_start(handle),
    {
        self.animation = PlayingAnimation2D { animation_clip: handle, ..Default::default() };
    }

    /// Start playing an animation unless the requested clip is already
    /// playing: with the same clip bound and the player not paused this is a
    /// no-op, so repeated calls never restart the animation.
    pub fn play(&mut self, handle: AssetHandle)
        ensures
            *final(self) == old(self).spec_play(handle),
    {
        if self.animation.animation_clip != handle || self.is_paused() {
            self.start(handle);
        }
    }

    /// Handle of the animation clip being played.
    pub fn animation_clip(&self) -> (h: AssetHandle)
        ensures
            h == self.animation.animation_clip,
    {
        self.animation.animation_clip
    }

    /// Check if the given animation clip is being played.
    pub fn is_playing_clip(&self, handle: &AssetHandle) -> (r: bool)
        ensures
            r == (self.animation.animation_clip == *handle),
    {
        self.animation.animation_clip == *handle
    }

    /// Check if the playing animation has finished, according to the repeat
    /// policy.
    pub fn is_finished(&self) -> (r: bool)
        ensures
            r == spec_is_finished(self.animation.repeat, self.animation.completions),
    {
        self.animation.is_finished()
    }

    /// Check if the clip has ever reached its terminal boundary, regardless
    /// of the repeat policy.
    pub fn is_clip_finished(&self) -> (r: bool)
        ensures
            r == self.animation.clip_finished,
    {
        self.animation.clip_finished
    }

    /// Play the animation in reverse. Neither the cursor nor the completion
    /// count is touched.
    pub fn reverse(&mut self)
        ensures
            *final(self) == (AnimationPlayer2D {
                animation: (PlayingAnimation2D { reverse: true, ..old(self).animation }),
                ..*old(self)
            }),
    {
        self.animation.reverse = true;
    }

    /// Stop playing the animation in reverse. Neither the cursor nor the
    /// completion count is touched.
    pub fn stop_reverse(&mut self)
        ensures
            *final(self) == (AnimationPlayer2D {
                animation: (PlayingAnimation2D { reverse: false, ..old(self).animation }),
                ..*old(self)
            }),
    {
        self.animation.reverse = false;
    }

    /// Is the animation playing in reverse.
    pub fn is_reverse(&self) -> (r: bool)
        ensures
            r == self.animation.reverse,
    {
        self.animation.reverse
    }

    /// Let the animation repeat forever: shorthand for setting the repeat
    /// policy to [`RepeatAnimation::Forever`].
    pub fn repeat(&mut self)
        ensures
            *final(self) == (AnimationPlayer2D {
                animation: (PlayingAnimation2D {
                    repeat: RepeatAnimation::Forever,
                    ..old(self).animation
                }),
                ..*old(self)
            }),
    {
        self.animation.repeat = RepeatAnimation::Forever;
    }

    /// Set the repeat policy of the animation.
    pub fn set_repeat(&mut self, repeat: RepeatAnimation)
        ensures
            *final(self) == (AnimationPlayer2D {
                animation: (PlayingAnimation2D { repeat, ..old(self).animation }),
                ..*old(self)
            }),
    {
        self.animation.repeat = repeat;
    }

    /// Repeat policy of the animation.
    pub fn repeat_mode(&self) -> (r: RepeatAnimation)
        ensures
            r == self.animation.repeat,
    {
        self.animation.repeat
    }

    /// Number of times the animation has completed a full traversal.
    pub fn completions(&self) -> (c: u32)
        ensures
            c == self.animation.completions,
    {
        self.animation.completions
    }

    /// Check if the speed scalar alone runs the playback backwards. This is
    /// deliberately independent of the reverse flag: the two controls scale
    /// and flip the cursor movement separately.
    pub fn is_playback_reversed(&self) -> (r: bool)
        ensures
            r == (self.animation.speed < 0),
    {
        self.animation.speed < 0
    }

    /// Pause the animation: external ticks stop advancing the playback.
    pub fn pause(&mut self)
        ensures
            *final(self) == (AnimationPlayer2D { paused: true, ..*old(self) }),
    {
        self.paused = true;
    }

    /// Unpause the animation.
    pub fn resume(&mut self)
        ensures
            *final(self) == (AnimationPlayer2D { paused: false, ..*old(self) }),
    {
        self.paused = false;
    }

    /// Is the animation paused.
    pub fn is_paused(&self) -> (r: bool)
        ensures
            r == self.paused,
    {
        self.paused
    }

    /// Fixed-point speed of the animation playback; [`SPEED_SCALE`] is
    /// natural speed.
    pub fn speed(&self) -> (s: i64)
        ensures
            s == self.animation.speed,
    {
        self.animation.speed
    }

    /// Set the fixed-point speed of the animation playback. A negative value
    /// runs the cursor backwards without flipping the reverse flag; the two
    /// controls compose by multiplication.
    pub fn set_speed(&mut self, speed: i64)
        ensures
            *final(self) == (AnimationPlayer2D {
                animation: (PlayingAnimation2D { speed, ..old(self).animation }),
                ..*old(self)
            }),
    {
        self.animation.speed = speed;
    }

    /// Time fed into the animation since the last reset, in ticks.
    pub fn elapsed(&self) -> (e: i64)
        ensures
            e == self.animation.elapsed,
    {
        self.animation.elapsed
    }

    /// Clip-local cursor of the animation, in ticks. After a tick on a
    /// well-formed clip it lies within `[0, clip duration]`.
    pub fn seek_time(&self) -> (t: i64)
        ensures
            t == self.animation.seek_time,
    {
        self.animation.seek_time
    }

    /// Seek to a specific time in the animation. No clamping happens here:
    /// an out-of-range cursor is wrapped lazily by the next tick.
    pub fn seek_to(&mut self, seek_time: i64)
        ensures
            *final(self) == (AnimationPlayer2D {
                animation: (PlayingAnimation2D { seek_time, ..old(self).animation }),
                ..*old(self)
            }),
    {
        self.animation.seek_time = seek_time;
    }

    /// Reset the animation to its initial state, as if no time had elapsed.
    /// The repeat policy, direction, speed, boundary flag, bound clip and the
    /// pause flag all stay.
    pub fn replay(&mut self)
        ensures
            final(self).animation.completions == 0,
            final(self).animation.elapsed == 0,
            final(self).animation.seek_time == 0,
            final(self).animation.repeat == old(self).animation.repeat,
            final(self).animation.reverse == old(self).animation.reverse,
            final(self).animation.clip_finished == old(self).animation.clip_finished,
            final(self).animation.speed == old(self).animation.speed,
            final(self).animation.animation_clip == old(self).animation.animation_clip,
            final(self).paused == old(self).paused,
    {
        self.animation.replay();
    }

    /// The external per-tick entry point: advance the playback by `delta`
    /// against the resolved duration of the bound clip, unless the player is
    /// paused. The caller resolves the handle to a loaded clip and passes its
    /// duration.
    pub fn tick(&mut self, delta: i64, clip_duration: i64)
        requires
            !old(self).paused ==> update_bounds(
                old(self).animation,
                delta as int,
                clip_duration as int,
            ),
        ensures
            old(self).paused ==> *final(self) == *old(self),
            !old(self).paused ==> *final(self) == (AnimationPlayer2D {
                animation: old(self).animation.spec_update(delta as int, clip_duration as int),
                ..*old(self)
            }),
    {
        if !self.paused {
            self.animation.update(delta, clip_duration);
        }
    }
}

impl Default for AnimationPlayer2D {
    /// A player in its default state: not paused, nothing meaningful bound.
    fn default() -> (p: Self)
        ensures
            p.paused == false,
            p.animation == PlayingAnimation2D::spec_default(),
    {
        AnimationPlayer2D { paused: false, animation: PlayingAnimation2D::default() }
    }
}

/// One update step never touches the control fields — repeat policy,
/// direction, speed and bound clip — and, as long as the completion counter
/// has headroom, raises it by at most one: a single step registers at most
/// one completion, however large the delta.
pub proof fn lemma_update_step_effects(pre: PlayingAnimation2D, delta: int, dur: int)
    ensures
        pre.spec_update(delta, dur).repeat == pre.repeat,
        pre.spec_update(delta, dur).reverse == pre.reverse,
        pre.spec_update(delta, dur).speed == pre.speed,
        pre.spec_update(delta, dur).animation_clip == pre.animation_clip,
        pre.completions < u32::MAX ==> pre.completions <= pre.spec_update(delta, dur).completions
            <= pre.completions + 1,
{
}

/// A finished animation ignores any further input: the short-circuit in the
/// update makes every later step, and so every later run, a no-op.
pub proof fn lemma_finished_is_stable(pre: PlayingAnimation2D, deltas: Seq<int>, dur: int)
    requires
        spec_is_finished(pre.repeat, pre.completions),
    ensures
        pre.spec_run(deltas, dur) == pre,
    decreases deltas.len(),
{
    if deltas.len() > 0 {
        assert(pre.spec_update(deltas[0], dur) == pre);
        lemma_finished_is_stable(pre, deltas.drop_first(), dur);
    }
}

/// Under a `Count(n)` policy, no run of updates — whatever its deltas —
/// drives the completion counter past `n`, and the run's result reports
/// finished exactly when the counter has reached `n`.
pub proof fn lemma_count_completions_bounded(
    pre: PlayingAnimation2D,
    deltas: Seq<int>,
    dur: int,
    n: u32,
)
    requires
        pre.repeat == RepeatAnimation::Count(n),
        pre.completions <= n,
    ensures
        pre.spec_run(deltas, dur).repeat == RepeatAnimation::Count(n),
        pre.spec_run(deltas, dur).completions <= n,
        spec_is_finished(pre.spec_run(deltas, dur).repeat, pre.spec_run(deltas, dur).completions)
            <==> pre.spec_run(deltas, dur).completions == n,
    decreases deltas.len(),
{
    if deltas.len() > 0 {
        lemma_count_completions_bounded(pre.spec_update(deltas[0], dur), deltas.drop_first(), dur, n);
    }
}

/// Under a `Never` policy, a run of updates leaves the counter at most one:
/// the animation is unfinished exactly while no full traversal has
/// completed, and finished exactly after the one traversal that ends it.
/// Together with [`lemma_finished_is_stable`] it stays finished whatever
/// else is fed in.
pub proof fn lemma_never_finishes_after_first_traversal(
    pre: PlayingAnimation2D,
    deltas: Seq<int>,
    dur: int,
)
    requires
        pre.repeat == RepeatAnimation::Never,
        pre.completions == 0,
    ensures
        pre.spec_run(deltas, dur).repeat == RepeatAnimation::Never,
        pre.spec_run(deltas, dur).completions <= 1,
        spec_is_finished(pre.spec_run(deltas, dur).repeat, pre.spec_run(deltas, dur).completions)
            <==> pre.spec_run(deltas, dur).completions == 1,
    decreases deltas.len(),
{
    if deltas.len() > 0 {
        let step = pre.spec_update(deltas[0], dur);
        if step.completions == 0 {
            lemma_never_finishes_after_first_traversal(step, deltas.drop_first(), dur);
        } else {
            lemma_finished_is_stable(step, deltas.drop_first(), dur);
        }
    }
}

/// Under a `Forever` policy, no run of updates ever reaches a finished
/// state, however many completions accumulate.
pub proof fn lemma_forever_never_finished(pre: PlayingAnimation2D, deltas: Seq<int>, dur: int)
    requires
        pre.repeat == RepeatAnimation::Forever,
    ensures
        pre.spec_run(deltas, dur).repeat == RepeatAnimation::Forever,
        !spec_is_finished(pre.spec_run(deltas, dur).repeat, pre.spec_run(deltas, dur).completions),
    decreases deltas.len(),
{
    if deltas.len() > 0 {
        lemma_forever_never_finished(pre.spec_update(deltas[0], dur), deltas.drop_first(), dur);
    }
}

/// The cursor stays within `[0, dur]`: starting from a cursor in clip range,
/// one update step whose movement is no longer than the clip leaves the
/// cursor in clip range again. (A step longer than the clip that runs
/// backwards without the reverse flag set can escape below zero; every other
/// combination is covered.)
pub proof fn lemma_cursor_stays_in_range(pre: PlayingAnimation2D, delta: int, dur: int)
    requires
        0 < dur <= MAX_TICKS,
        0 <= pre.seek_time <= dur,
        spec_abs(spec_step(delta, pre.speed as int, pre.reverse)) <= dur,
    ensures
        0 <= pre.spec_update(delta, dur).seek_time <= dur,
{
    if !spec_is_finished(pre.repeat, pre.completions) {
        let raw = pre.seek_time + spec_step(delta, pre.speed as int, pre.reverse);
        if raw >= dur {
            assert(0 <= raw % dur < dur);
        }
    }
}

/// `play` is idempotent: a second `play` with the same handle leaves the
/// player exactly as the first call left it.
pub proof fn lemma_play_idempotent(p: AnimationPlayer2D, handle: AssetHandle)
    ensures
        p.spec_play(handle).spec_play(handle) == p.spec_play(handle),
{
}

/// While the requested clip is already playing and the player is not paused,
/// `play` changes nothing at all: in particular it does not restart the
/// animation.
pub proof fn lemma_play_same_clip_no_restart(p: AnimationPlayer2D, handle: AssetHandle)
    requires
        !p.paused,
        p.animation.animation_clip == handle,
    ensures
        p.spec_play(handle) == p,
{
}

/// Marker for playback support: the engine adapter that owns the per-frame
/// schedule drives [`AnimationPlayer2D::tick`] once per frame for each
/// animated entity.
pub struct AnimationPlayer2DPlugin;

} // verus!
