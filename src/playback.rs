//! The per-resource playback state machine: a warmup pass that shows every
//! frame to the renderer once, then timed playback.
use vstd::prelude::*;
use crate::decode::AnimationData;

verus! {

/// Playback progress of one animation.
///
/// While `warmed_up` is false, `warmup_cursor` walks through the frames once,
/// one per query, and `current_frame` stays at the first frame; afterwards
/// `current_frame` advances as each frame's delay elapses.
#[derive(Clone, Copy, Debug, PartialEq, Eq, Structural)]
pub struct PlaybackState {
    pub current_frame: usize,
    /// Time of the last frame change, in milliseconds of a monotonic clock.
    pub last_advance: u64,
    pub warmed_up: bool,
    pub warmup_cursor: usize,
}

/// What the renderer draws for an avatar on one pass.
#[derive(Clone, Copy, Debug, PartialEq, Eq, Structural)]
pub enum FrameChoice {
    /// The static image source.
    Fallback,
    /// Frame `index` of the animation; `preload` names a frame to hand to the
    /// renderer unseen, so that its first display does not stutter.
    Frame { index: usize, preload: Option<usize> },
}

/// Well-formed playback of an animation with `n` frames.
pub open spec fn playback_wf(p: PlaybackState, n: nat) -> bool {
    &&& 2 <= n <= usize::MAX
    &&& p.current_frame < n
    &&& p.warmup_cursor <= n
    &&& p.warmed_up <==> p.warmup_cursor == n
    &&& !p.warmed_up ==> p.current_frame == 0
}

/// Milliseconds from `last` to `now`; a clock reading before `last` counts
/// as no time.
pub open spec fn elapsed(last: u64, now: u64) -> int {
    if now >= last {
        now - last
    } else {
        0
    }
}

/// The state after one query at time `now`, for an animation whose frames
/// have the given delays.
pub open spec fn step(p: PlaybackState, delays: Seq<u64>, now: u64) -> PlaybackState {
    let n = delays.len();
    if !p.warmed_up {
        let c = p.warmup_cursor + 1;
        if c >= n {
            PlaybackState { current_frame: 0, last_advance: now, warmed_up: true, warmup_cursor: c as usize }
        } else {
            PlaybackState {
                current_frame: p.current_frame,
                last_advance: p.last_advance,
                warmed_up: false,
                warmup_cursor: c as usize,
            }
        }
    } else if elapsed(p.last_advance, now) >= delays[p.current_frame as int] {
        PlaybackState {
            current_frame: ((p.current_frame + 1) % (n as int)) as usize,
            last_advance: now,
            warmed_up: true,
            warmup_cursor: p.warmup_cursor,
        }
    } else {
        p
    }
}

/// What one query shows, given the state before it and the state after it.
pub open spec fn shown(before: PlaybackState, after: PlaybackState) -> FrameChoice {
    FrameChoice::Frame {
        index: after.current_frame,
        preload: if before.warmed_up {
            None
        } else {
            Some(before.warmup_cursor)
        },
    }
}

/// The state after one query at each of the given times, in order.
pub open spec fn run(p: PlaybackState, delays: Seq<u64>, times: Seq<u64>) -> PlaybackState
    decreases times.len(),
{
    if times.len() == 0 {
        p
    } else {
        step(run(p, delays, times.drop_last()), delays, times.last())
    }
}

impl PlaybackState {
    /// Fresh playback at time `now`: first frame, warmup not yet begun.
    pub fn new(now: u64) -> (r: PlaybackState)
        ensures
            r == (PlaybackState { current_frame: 0, last_advance: now, warmed_up: false, warmup_cursor: 0 }),
    {
        PlaybackState { current_frame: 0, last_advance: now, warmed_up: false, warmup_cursor: 0 }
    }

    /// Answers one render query at time `now`: during warmup moves the cursor
    /// on by one and keeps showing the first frame; during playback moves to
    /// the next frame, wrapping, once the current frame's delay has elapsed.
    pub fn tick(&mut self, anim: &AnimationData, now: u64) -> (r: FrameChoice)
        requires
            playback_wf(*old(self), anim@.frames.len()),
        ensures
            *final(self) == step(*old(self), anim@.delays, now),
            r == shown(*old(self), *final(self)),
            playback_wf(*final(self), anim@.frames.len()),
    {
        let n = anim.frame_count();
        if !self.warmed_up {
            let preload = self.warmup_cursor;
            self.warmup_cursor = self.warmup_cursor + 1;
            if self.warmup_cursor >= n {
                self.warmed_up = true;
                self.current_frame = 0;
                self.last_advance = now;
            }
            FrameChoice::Frame { index: self.current_frame, preload: Some(preload) }
        } else {
            let waited: u64 = if now >= self.last_advance {
                now - self.last_advance
            } else {
                0
            };
            if waited >= anim.delay(self.current_frame) {
                self.current_frame = (self.current_frame + 1) % n;
                self.last_advance = now;
            }
            FrameChoice::Frame { index: self.current_frame, preload: None }
        }
    }
}

proof fn lemma_next_frame(c: int, n: int)
    requires
        0 <= c < n,
    ensures
        (c + 1 < n ==> (c + 1) % n == c + 1),
        (c + 1 == n ==> (c + 1) % n == 0),
        0 <= (c + 1) % n < n,
{
    if c + 1 < n {
        vstd::arithmetic::div_mod::lemma_small_mod((c + 1) as nat, n as nat);
    } else {
        vstd::arithmetic::div_mod::lemma_mod_self_0(n);
    }
}

/// One query keeps playback well formed, so the frame shown is always a
/// frame of the animation; once playing, a query either stays on the current
/// frame or moves to the next one, from the last frame back to the first.
pub proof fn lemma_step_stays_in_range(p: PlaybackState, delays: Seq<u64>, now: u64)
    requires
        playback_wf(p, delays.len()),
    ensures
        playback_wf(step(p, delays, now), delays.len()),
        step(p, delays, now).current_frame < delays.len(),
        p.warmed_up ==> step(p, delays, now).current_frame == p.current_frame
            || step(p, delays, now).current_frame == (p.current_frame + 1) % (delays.len() as int),
        p.warmed_up && elapsed(p.last_advance, now) >= delays[p.current_frame as int]
            ==> step(p, delays, now).current_frame == (p.current_frame + 1) % (delays.len() as int),
        p.warmed_up && elapsed(p.last_advance, now) < delays[p.current_frame as int]
            ==> step(p, delays, now) == p,
        p.warmed_up && p.current_frame == delays.len() - 1
            && elapsed(p.last_advance, now) >= delays[p.current_frame as int]
            ==> step(p, delays, now).current_frame == 0,
{
    lemma_next_frame(p.current_frame as int, delays.len() as int);
}

/// Any sequence of queries keeps playback well formed: the current frame is
/// never out of range.
pub proof fn lemma_run_stays_in_range(p: PlaybackState, delays: Seq<u64>, times: Seq<u64>)
    requires
        playback_wf(p, delays.len()),
    ensures
        playback_wf(run(p, delays, times), delays.len()),
    decreases times.len(),
{
    if times.len() > 0 {
        lemma_run_stays_in_range(p, delays, times.drop_last());
        lemma_step_stays_in_range(run(p, delays, times.drop_last()), delays, times.last());
    }
}

/// During warmup each query moves the cursor on by exactly one and keeps the
/// first frame on screen; playback begins when the cursor reaches the frame
/// count, and from then on it never returns to warmup and the cursor is left
/// alone.
pub proof fn lemma_warmup_step(p: PlaybackState, delays: Seq<u64>, now: u64)
    requires
        playback_wf(p, delays.len()),
    ensures
        !p.warmed_up ==> step(p, delays, now).warmup_cursor == p.warmup_cursor + 1,
        !p.warmed_up ==> (step(p, delays, now).warmed_up <==> p.warmup_cursor + 1 == delays.len()),
        !p.warmed_up ==> step(p, delays, now).current_frame == 0,
        p.warmed_up ==> step(p, delays, now).warmed_up,
        p.warmed_up ==> step(p, delays, now).warmup_cursor == p.warmup_cursor,
{
}

/// Once playing, the warmup cursor is no longer consulted: two playing
/// states that differ only in their cursor show the same frame on a query
/// and move to the same frame and the same time of the last change.
pub proof fn lemma_cursor_ignored_when_playing(p: PlaybackState, q: PlaybackState, delays: Seq<u64>, now: u64)
    requires
        p.warmed_up,
        q == (PlaybackState { warmup_cursor: q.warmup_cursor, ..p }),
    ensures
        step(p, delays, now).current_frame == step(q, delays, now).current_frame,
        step(p, delays, now).last_advance == step(q, delays, now).last_advance,
        step(p, delays, now).warmed_up && step(q, delays, now).warmed_up,
        shown(p, step(p, delays, now)) == shown(q, step(q, delays, now)),
{
}

/// Starting from warmup with the cursor at `c`, after `k` queries the cursor
/// is at `c + k` while that is below the frame count; after exactly
/// `n - c` queries playback has begun.
pub proof fn lemma_warmup_completes(p: PlaybackState, delays: Seq<u64>, times: Seq<u64>)
    requires
        playback_wf(p, delays.len()),
        !p.warmed_up,
        p.warmup_cursor + times.len() <= delays.len(),
    ensures
        run(p, delays, times).warmup_cursor == p.warmup_cursor + times.len(),
        run(p, delays, times).warmed_up <==> p.warmup_cursor + times.len() == delays.len(),
    decreases times.len(),
{
    if times.len() > 0 {
        lemma_warmup_completes(p, delays, times.drop_last());
    }
}

/// Once playing, playback stays playing whatever queries follow.
pub proof fn lemma_playing_is_permanent(p: PlaybackState, delays: Seq<u64>, times: Seq<u64>)
    requires
        playback_wf(p, delays.len()),
        p.warmed_up,
    ensures
        run(p, delays, times).warmed_up,
    decreases times.len(),
{
    if times.len() > 0 {
        lemma_playing_is_permanent(p, delays, times.drop_last());
        lemma_run_stays_in_range(p, delays, times.drop_last());
    }
}

/// Whether every query at the given times comes once the frame shown before
/// it has been on screen for its delay.
pub open spec fn all_due(p: PlaybackState, delays: Seq<u64>, times: Seq<u64>) -> bool
    decreases times.len(),
{
    if times.len() == 0 {
        true
    } else {
        let before = run(p, delays, times.drop_last());
        &&& all_due(p, delays, times.drop_last())
        &&& elapsed(before.last_advance, times.last()) >= delays[before.current_frame as int]
    }
}

/// In playback, queries that each come when the current frame is due walk
/// the frames in order and wrap: after `k` of them the frame shown is
/// `k` places on from the start, modulo the frame count.
pub proof fn lemma_playing_cycles(p: PlaybackState, delays: Seq<u64>, times: Seq<u64>)
    requires
        playback_wf(p, delays.len()),
        p.warmed_up,
        all_due(p, delays, times),
    ensures
        run(p, delays, times).current_frame == (p.current_frame + times.len()) % (delays.len() as int),
    decreases times.len(),
{
    let n = delays.len() as int;
    if times.len() == 0 {
        vstd::arithmetic::div_mod::lemma_small_mod(p.current_frame as nat, n as nat);
    } else {
        let rest = times.drop_last();
        lemma_playing_cycles(p, delays, rest);
        lemma_run_stays_in_range(p, delays, rest);
        lemma_playing_is_permanent(p, delays, rest);
        let before = run(p, delays, rest);
        lemma_step_stays_in_range(before, delays, times.last());
        vstd::arithmetic::div_mod::lemma_add_mod_noop(p.current_frame + rest.len(), 1, n);
        vstd::arithmetic::div_mod::lemma_small_mod(1, n as nat);
        vstd::arithmetic::div_mod::lemma_mod_twice(p.current_frame + rest.len(), n);
    }
}

} // verus!
