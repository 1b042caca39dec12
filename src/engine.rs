use vstd::arithmetic::div_mod::lemma_div_is_ordered;
use vstd::prelude::*;

use crate::compositor::{cleared_after, decision, key_after, shown, Compositor, Render};
use crate::cue::{cue_fields, parse_line, Cue};
use crate::text::views;
use crate::timeline::{expired, late_promoted, promoted, received, Slots};

verus! {

/// The virtual time of frame `frame` at `fps` frames a second:
/// `floor(frame * 1000 / fps)` milliseconds, held at the largest `u64`.
pub open spec fn clock_ms(frame: u64, fps: u64) -> u64 {
    let t = (frame * 1000) as int / fps as int;
    if t > u64::MAX {
        u64::MAX
    } else {
        t as u64
    }
}

/// The virtual clock never moves backward.
pub proof fn lemma_clock_monotonic(f1: u64, f2: u64, fps: u64)
    requires
        fps > 0,
        f1 <= f2,
    ensures
        clock_ms(f1, fps) <= clock_ms(f2, fps),
{
    lemma_div_is_ordered(f1 as int * 1000, f2 as int * 1000, fps as int);
}

pub fn virtual_time(frame: u64, fps: u64) -> (r: u64)
    requires
        fps > 0,
    ensures
        r == clock_ms(frame, fps),
{
    let f = frame as u128;
    assert(f * 1000 <= u128::MAX) by (nonlinear_arith)
        requires
            f <= u64::MAX,
    ;
    let t = f * 1000 / (fps as u128);
    if t > u64::MAX as u128 {
        u64::MAX
    } else {
        t as u64
    }
}

/// The window of an optional cue.
pub open spec fn key_of(c: Option<Cue>) -> Option<(u64, u64)> {
    match c {
        Some(c) => Some(c.key()),
        None => None,
    }
}

/// The slots after one tick at `now`, where `next` is what reading the input
/// yields should both slots be empty after expiry and promotion.
pub open spec fn tick_slots(
    active: Option<Cue>,
    queued: Option<Cue>,
    next: Option<Cue>,
    now: u64,
) -> (Option<Cue>, Option<Cue>) {
    let (a, q) = promoted(expired(active, now), queued, now);
    if a is None && q is None {
        match next {
            Some(c) => received(c, now),
            None => (None, None),
        }
    } else {
        late_promoted(a, q, now)
    }
}

/// What holds between ticks: the active cue's window has opened, and a canvas
/// blank by a clear has no cue cached.
pub open spec fn settled(
    active: Option<Cue>,
    key: Option<(u64, u64)>,
    cleared: bool,
    now: u64,
) -> bool {
    (active is Some ==> active->0.start <= now) && !(cleared && key is Some)
}

/// After a tick, the active cue's window holds the tick's time, no queued cue
/// waits with its window open, and the frame shows exactly the active cue's
/// lines, or nothing when no cue is active.
pub proof fn lemma_frame_follows_window(
    active: Option<Cue>,
    queued: Option<Cue>,
    next: Option<Cue>,
    key: Option<(u64, u64)>,
    cleared: bool,
    now: u64,
)
    requires
        settled(active, key, cleared, now),
    ensures
        ({
            let (a, q) = tick_slots(active, queued, next, now);
            let r = decision(key_of(a), key, cleared, now);
            &&& a is Some ==> a->0.covers(now)
            &&& a is None && q is Some ==> !q->0.covers(now)
            &&& shown(key_after(r, key_of(a), key), cleared_after(r, cleared)) == key_of(a)
            &&& settled(a, key_after(r, key_of(a), key), cleared_after(r, cleared), now)
        }),
{
}

/// A cue whose window is empty, or has closed by `now`, is neither active nor
/// shown after a tick at `now`.
pub proof fn lemma_dead_cue_never_shown(
    c: Cue,
    active: Option<Cue>,
    queued: Option<Cue>,
    next: Option<Cue>,
    key: Option<(u64, u64)>,
    cleared: bool,
    now: u64,
)
    requires
        settled(active, key, cleared, now),
        c.end <= c.start || c.end <= now,
    ensures
        ({
            let (a, q) = tick_slots(active, queued, next, now);
            let r = decision(key_of(a), key, cleared, now);
            &&& a != Some(c)
            &&& shown(key_after(r, key_of(a), key), cleared_after(r, cleared)) != Some(c.key())
        }),
{
    lemma_frame_follows_window(active, queued, next, key, cleared, now);
}

/// Once a cue has been drawn, a later tick with the same active cue does not
/// draw it again.
pub proof fn lemma_one_redraw_per_key(
    k: (u64, u64),
    key: Option<(u64, u64)>,
    cleared: bool,
    now1: u64,
    now2: u64,
)
    ensures
        ({
            let r1 = decision(Some(k), key, cleared, now1);
            decision(Some(k), key_after(r1, Some(k), key), cleared_after(r1, cleared), now2)
                != Render::Redraw
        }),
{
}

/// The frame loop's state: the clock, the cue slots and the render cache.
/// Each tick runs `begin_tick`, then `offer` with the next cue read when
/// `begin_tick` asked for one, then `compose`, then `advance`.
pub struct Engine {
    fps: u64,
    frame: u64,
    slots: Slots,
    compositor: Compositor,
}

impl Engine {
    /// Frames per second.
    pub closed spec fn spec_fps(self) -> u64 {
        self.fps
    }

    /// Ticks completed.
    pub closed spec fn spec_frame(self) -> u64 {
        self.frame
    }

    /// The cue slots.
    pub closed spec fn spec_slots(self) -> Slots {
        self.slots
    }

    /// The window of the cue last drawn.
    pub closed spec fn spec_key(self) -> Option<(u64, u64)> {
        self.compositor.key
    }

    /// Whether the canvas is blank by a clear.
    pub closed spec fn spec_cleared(self) -> bool {
        self.compositor.cleared
    }

    /// The current tick's time in milliseconds.
    pub open spec fn spec_now(self) -> u64 {
        clock_ms(self.spec_frame(), self.spec_fps())
    }

    /// The active cue.
    pub open spec fn spec_active(self) -> Option<Cue> {
        self.spec_slots().active()
    }

    /// The queued cue.
    pub open spec fn spec_queued(self) -> Option<Cue> {
        self.spec_slots().queued()
    }

    /// A positive frame rate, and the state `settled` at the current time.
    pub open spec fn wf(self) -> bool {
        &&& self.spec_fps() > 0
        &&& settled(self.spec_active(), self.spec_key(), self.spec_cleared(), self.spec_now())
    }

    /// An engine at frame zero with empty slots and a transparent canvas.
    pub fn new(fps: u64) -> (r: Engine)
        requires
            fps > 0,
        ensures
            r.wf(),
            r.spec_fps() == fps,
            r.spec_frame() == 0,
            r.spec_active() is None,
            r.spec_queued() is None,
            r.spec_key() is None,
            !r.spec_cleared(),
    {
        Engine { fps, frame: 0, slots: Slots::Idle, compositor: Compositor::new() }
    }

    /// Ticks run so far, which is also the number of frames emitted.
    pub fn frame(&self) -> (r: u64)
        ensures
            r == self.spec_frame(),
    {
        self.frame
    }

    /// The virtual time of the current tick, in milliseconds.
    pub fn now(&self) -> (r: u64)
        requires
            self.wf(),
        ensures
            r == self.spec_now(),
    {
        virtual_time(self.frame, self.fps)
    }

    /// The active cue, if any.
    pub fn active(&self) -> (r: Option<&Cue>)
        ensures
            r.is_some() == self.spec_active().is_some(),
            r.is_some() ==> *r->0 == self.spec_active()->0,
    {
        self.slots.active_cue()
    }

    /// Expires the active cue and promotes or drops the queued one; when both
    /// slots are then empty returns `true`, asking for the next cue.
    pub fn begin_tick(&mut self) -> (wants: bool)
        requires
            old(self).wf(),
        ensures
            final(self).wf(),
            final(self).spec_fps() == old(self).spec_fps(),
            final(self).spec_frame() == old(self).spec_frame(),
            final(self).spec_key() == old(self).spec_key(),
            final(self).spec_cleared() == old(self).spec_cleared(),
            ({
                let (a, q) = promoted(
                    expired(old(self).spec_active(), old(self).spec_now()),
                    old(self).spec_queued(),
                    old(self).spec_now(),
                );
                &&& wants == (a is None && q is None)
                &&& final(self).spec_slots().contents() == late_promoted(a, q, old(self).spec_now())
            }),
            final(self).spec_active() is Some ==> final(self).spec_active()->0.covers(
                final(self).spec_now(),
            ),
            final(self).spec_active() is None && final(self).spec_queued() is Some
                ==> !final(self).spec_queued()->0.covers(final(self).spec_now()),
    {
        let now = self.now();
        let mut slots = Slots::Idle;
        std::mem::swap(&mut slots, &mut self.slots);
        let slots = slots.expire(now).promote(now);
        let wants = slots.is_idle();
        self.slots = slots.late_promote(now);
        wants
    }

    /// Takes in the next cue read, after `begin_tick` asked for one.
    pub fn offer(&mut self, cue: Cue)
        requires
            old(self).wf(),
            old(self).spec_active() is None,
            old(self).spec_queued() is None,
        ensures
            final(self).wf(),
            final(self).spec_fps() == old(self).spec_fps(),
            final(self).spec_frame() == old(self).spec_frame(),
            final(self).spec_key() == old(self).spec_key(),
            final(self).spec_cleared() == old(self).spec_cleared(),
            final(self).spec_slots().contents() == received(cue, old(self).spec_now()),
            final(self).spec_active() is Some ==> final(self).spec_active()->0.covers(
                final(self).spec_now(),
            ),
            final(self).spec_active() is None && final(self).spec_queued() is Some
                ==> !final(self).spec_queued()->0.covers(final(self).spec_now()),
    {
        let now = self.now();
        let mut slots = Slots::Idle;
        std::mem::swap(&mut slots, &mut self.slots);
        self.slots = slots.receive(cue, now);
    }

    /// Hands one line of input to an engine that asked for a cue: a
    /// well-formed line is taken in as the next cue; a malformed one is
    /// skipped and leaves the engine as it was, still asking.
    pub fn feed_line(&mut self, line: &str) -> (taken: bool)
        requires
            old(self).wf(),
            old(self).spec_active() is None,
            old(self).spec_queued() is None,
        ensures
            final(self).wf(),
            taken == cue_fields(line@).is_some(),
            !taken ==> *final(self) == *old(self),
            final(self).spec_fps() == old(self).spec_fps(),
            final(self).spec_frame() == old(self).spec_frame(),
            final(self).spec_key() == old(self).spec_key(),
            final(self).spec_cleared() == old(self).spec_cleared(),
            taken ==> ({
                let c = if final(self).spec_active() is Some {
                    final(self).spec_active()->0
                } else {
                    final(self).spec_queued()->0
                };
                &&& cue_fields(line@) == Some((c.start, c.end, views(c.lines@)))
                &&& final(self).spec_slots().contents() == received(c, old(self).spec_now())
            }),
    {
        match parse_line(line) {
            Some(cue) => {
                self.offer(cue);
                true
            },
            None => false,
        }
    }

    /// Decides how this tick's frame is rendered and updates the cache.
    pub fn compose(&mut self) -> (r: Render)
        requires
            old(self).wf(),
        ensures
            final(self).wf(),
            final(self).spec_fps() == old(self).spec_fps(),
            final(self).spec_frame() == old(self).spec_frame(),
            final(self).spec_slots() == old(self).spec_slots(),
            r == decision(
                key_of(old(self).spec_active()),
                old(self).spec_key(),
                old(self).spec_cleared(),
                old(self).spec_now(),
            ),
            final(self).spec_key() == key_after(
                r,
                key_of(old(self).spec_active()),
                old(self).spec_key(),
            ),
            final(self).spec_cleared() == cleared_after(r, old(self).spec_cleared()),
            r != Render::PreStartClear,
            shown(final(self).spec_key(), final(self).spec_cleared()) == key_of(
                final(self).spec_active(),
            ),
    {
        let now = self.now();
        let active = match self.slots.active_cue() {
            Some(c) => Some(c.window()),
            None => None,
        };
        self.compositor.decide(active, now)
    }

    /// Moves the clock one frame on; `false`, with nothing changed, when the
    /// frame counter is at its largest.
    pub fn advance(&mut self) -> (r: bool)
        requires
            old(self).wf(),
        ensures
            final(self).wf(),
            r == (old(self).spec_frame() < u64::MAX),
            r ==> final(self).spec_frame() == old(self).spec_frame() + 1,
            !r ==> final(self).spec_frame() == old(self).spec_frame(),
            final(self).spec_fps() == old(self).spec_fps(),
            final(self).spec_slots() == old(self).spec_slots(),
            final(self).spec_key() == old(self).spec_key(),
            final(self).spec_cleared() == old(self).spec_cleared(),
    {
        if self.frame < u64::MAX {
            proof {
                lemma_clock_monotonic(self.frame, (self.frame + 1) as u64, self.fps);
            }
            self.frame = self.frame + 1;
            true
        } else {
            false
        }
    }
}

} // verus!
