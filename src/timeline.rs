use vstd::prelude::*;

use crate::cue::Cue;

verus! {

/// The scheduler's two slots: the cue being shown (active) and the one cue
/// read ahead of it (queued).
pub enum Slots {
    Idle,
    Active(Cue),
    ActiveAndQueued(Cue, Cue),
    QueuedOnly(Cue),
}

/// Drops the active cue once its window has closed.
pub open spec fn expired(active: Option<Cue>, now: u64) -> Option<Cue> {
    match active {
        Some(c) => if now >= c.end {
            None
        } else {
            Some(c)
        },
        None => None,
    }
}

/// With no active cue, a queued cue is dropped when its window has passed,
/// moved to the active slot when its window is open, and kept otherwise.
pub open spec fn promoted(active: Option<Cue>, queued: Option<Cue>, now: u64) -> (
    Option<Cue>,
    Option<Cue>,
) {
    match (active, queued) {
        (None, Some(q)) => if now >= q.end {
            (None, None)
        } else if now >= q.start {
            (Some(q), None)
        } else {
            (None, Some(q))
        },
        _ => (active, queued),
    }
}

/// A fresh cue enters the queued slot, and goes on to the active slot at once
/// when its window is open.
pub open spec fn received(cue: Cue, now: u64) -> (Option<Cue>, Option<Cue>) {
    if cue.covers(now) {
        (Some(cue), None)
    } else {
        (None, Some(cue))
    }
}

/// With no active cue, a queued cue whose window is open becomes active.
pub open spec fn late_promoted(active: Option<Cue>, queued: Option<Cue>, now: u64) -> (
    Option<Cue>,
    Option<Cue>,
) {
    match (active, queued) {
        (None, Some(q)) => if q.covers(now) {
            (Some(q), None)
        } else {
            (None, Some(q))
        },
        _ => (active, queued),
    }
}

impl Slots {
    /// The cue in the active slot.
    pub open spec fn active(self) -> Option<Cue> {
        match self {
            Slots::Active(a) => Some(a),
            Slots::ActiveAndQueued(a, _) => Some(a),
            _ => None,
        }
    }

    /// The cue in the queued slot.
    pub open spec fn queued(self) -> Option<Cue> {
        match self {
            Slots::ActiveAndQueued(_, q) => Some(q),
            Slots::QueuedOnly(q) => Some(q),
            _ => None,
        }
    }

    /// Both slots, active first.
    pub open spec fn contents(self) -> (Option<Cue>, Option<Cue>) {
        (self.active(), self.queued())
    }

    fn from_parts(active: Option<Cue>, queued: Option<Cue>) -> (r: Slots)
        ensures
            r.contents() == (active, queued),
    {
        match (active, queued) {
            (None, None) => Slots::Idle,
            (Some(a), None) => Slots::Active(a),
            (Some(a), Some(q)) => Slots::ActiveAndQueued(a, q),
            (None, Some(q)) => Slots::QueuedOnly(q),
        }
    }

    fn into_parts(self) -> (r: (Option<Cue>, Option<Cue>))
        ensures
            r == self.contents(),
    {
        match self {
            Slots::Idle => (None, None),
            Slots::Active(a) => (Some(a), None),
            Slots::ActiveAndQueued(a, q) => (Some(a), Some(q)),
            Slots::QueuedOnly(q) => (None, Some(q)),
        }
    }

    /// Clears the active slot when the active cue's window has closed.
    pub fn expire(self, now: u64) -> (r: Slots)
        ensures
            r.contents() == (expired(self.active(), now), self.queued()),
    {
        let (active, queued) = self.into_parts();
        let active = match active {
            Some(c) => if now >= c.end {
                None
            } else {
                Some(c)
            },
            None => None,
        };
        Slots::from_parts(active, queued)
    }

    /// Drops or promotes the queued cue when no cue is active.
    pub fn promote(self, now: u64) -> (r: Slots)
        ensures
            r.contents() == promoted(self.active(), self.queued(), now),
    {
        match self {
            Slots::QueuedOnly(q) => if now >= q.end {
                Slots::Idle
            } else if now >= q.start {
                Slots::Active(q)
            } else {
                Slots::QueuedOnly(q)
            },
            other => other,
        }
    }

    /// Takes in a cue newly read when both slots are empty.
    pub fn receive(self, cue: Cue, now: u64) -> (r: Slots)
        requires
            self is Idle,
        ensures
            r.contents() == received(cue, now),
            r.active() == Some(cue) && r.queued() is None || r.active() is None && r.queued()
                == Some(cue),
    {
        if cue.start <= now && now < cue.end {
            Slots::Active(cue)
        } else {
            Slots::QueuedOnly(cue)
        }
    }

    /// Promotes the queued cue when none is active and its window is open.
    pub fn late_promote(self, now: u64) -> (r: Slots)
        ensures
            r.contents() == late_promoted(self.active(), self.queued(), now),
    {
        match self {
            Slots::QueuedOnly(q) => if q.start <= now && now < q.end {
                Slots::Active(q)
            } else {
                Slots::QueuedOnly(q)
            },
            other => other,
        }
    }

    /// Whether both slots are empty, so that the next cue must be read.
    pub fn is_idle(&self) -> (r: bool)
        ensures
            r == (self.active() is None && self.queued() is None),
    {
        match self {
            Slots::Idle => true,
            _ => false,
        }
    }

    /// The active cue, if any.
    pub fn active_cue(&self) -> (r: Option<&Cue>)
        ensures
            r.is_some() == self.active().is_some(),
            r.is_some() ==> *r->0 == self.active()->0,
    {
        match self {
            Slots::Active(a) => Some(a),
            Slots::ActiveAndQueued(a, _) => Some(a),
            _ => None,
        }
    }
}

} // verus!
