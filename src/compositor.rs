use vstd::prelude::*;

verus! {

/// What the canvas must undergo on one tick.
#[derive(PartialEq, Eq, Structural, Clone, Copy, Debug)]
pub enum Render {
    /// Clear, then draw the active cue's lines.
    Redraw,
    /// The active cue is cached but its window has not opened: blank frame.
    PreStartClear,
    /// No cue is active: blank frame.
    IdleClear,
    /// The previous frame's pixels stay as they are.
    Keep,
}

impl Render {
    /// Whether the canvas changed, so the pixel buffer must be read back.
    pub open spec fn changes_canvas(self) -> bool {
        self != Render::Keep
    }

    pub fn needs_readback(&self) -> (r: bool)
        ensures
            r == self.changes_canvas(),
    {
        match self {
            Render::Keep => false,
            _ => true,
        }
    }
}

/// The action for a tick at `now`, given the active cue's window, the key of
/// the cue last drawn and whether the canvas is blank by a clear.
pub open spec fn decision(
    active: Option<(u64, u64)>,
    key: Option<(u64, u64)>,
    cleared: bool,
    now: u64,
) -> Render {
    match active {
        Some(k) => if key != Some(k) {
            Render::Redraw
        } else if now < k.0 && !cleared {
            Render::PreStartClear
        } else {
            Render::Keep
        },
        None => if !cleared {
            Render::IdleClear
        } else {
            Render::Keep
        },
    }
}

/// The cache key after action `r`.
pub open spec fn key_after(r: Render, active: Option<(u64, u64)>, key: Option<(u64, u64)>) -> Option<
    (u64, u64),
> {
    match r {
        Render::Redraw => active,
        Render::IdleClear => None,
        _ => key,
    }
}

/// Whether the canvas is blank by a clear after action `r`.
pub open spec fn cleared_after(r: Render, cleared: bool) -> bool {
    match r {
        Render::Redraw => false,
        Render::PreStartClear | Render::IdleClear => true,
        Render::Keep => cleared,
    }
}

/// What the canvas shows: the lines of the cue of that key, or nothing.
pub open spec fn shown(key: Option<(u64, u64)>, cleared: bool) -> Option<(u64, u64)> {
    if cleared {
        None
    } else {
        key
    }
}

/// The render cache: which cue the canvas last drew, and whether it has been
/// cleared since.
pub struct Compositor {
    pub key: Option<(u64, u64)>,
    pub cleared: bool,
}

impl Compositor {
    /// A fresh canvas: transparent, nothing drawn.
    pub fn new() -> (r: Compositor)
        ensures
            r.key is None,
            !r.cleared,
            shown(r.key, r.cleared) is None,
    {
        Compositor { key: None, cleared: false }
    }

    /// Decides this tick's action and updates the cache to match.
    pub fn decide(&mut self, active: Option<(u64, u64)>, now: u64) -> (r: Render)
        ensures
            r == decision(active, old(self).key, old(self).cleared, now),
            final(self).key == key_after(r, active, old(self).key),
            final(self).cleared == cleared_after(r, old(self).cleared),
    {
        match active {
            Some(k) => {
                let same = match self.key {
                    Some(c) => c.0 == k.0 && c.1 == k.1,
                    None => false,
                };
                if !same {
                    self.key = Some(k);
                    self.cleared = false;
                    Render::Redraw
                } else if now < k.0 && !self.cleared {
                    self.cleared = true;
                    Render::PreStartClear
                } else {
                    Render::Keep
                }
            },
            None => {
                if !self.cleared {
                    self.key = None;
                    self.cleared = true;
                    Render::IdleClear
                } else {
                    Render::Keep
                }
            },
        }
    }
}

/// One text draw: line `line` of the cue (counted from the top), which sits
/// `rows_up` line heights above the baseline; `shadow` marks the shadow copy.
#[derive(PartialEq, Eq, Structural, Clone, Copy, Debug)]
pub struct DrawStep {
    pub line: usize,
    pub rows_up: usize,
    pub shadow: bool,
}

/// The draws for a cue of `n` lines: each line in order, the last one on the
/// baseline and each earlier one a row higher, its shadow (when drawn) just
/// before it.
pub open spec fn draw_steps(n: nat, shadow: bool) -> Seq<DrawStep> {
    let per = if shadow {
        2int
    } else {
        1int
    };
    Seq::new(
        (n * per) as nat,
        |j: int|
            DrawStep {
                line: (j / per) as usize,
                rows_up: (n - 1 - j / per) as usize,
                shadow: shadow && j % 2 == 0,
            },
    )
}

/// The order of text draws for a cue of `n` lines.
pub fn draw_plan(n: usize, shadow: bool) -> (r: Vec<DrawStep>)
    requires
        n <= usize::MAX / 2,
    ensures
        r@ == draw_steps(n as nat, shadow),
{
    let mut r: Vec<DrawStep> = Vec::new();
    let mut i: usize = 0;
    while i < n
        invariant
            i <= n <= usize::MAX / 2,
            r@ =~= draw_steps(i as nat, shadow).map_values(
                |s: DrawStep| DrawStep { rows_up: (n - 1 - s.line) as usize, ..s },
            ),
        decreases n - i,
    {
        let up = n - 1 - i;
        if shadow {
            r.push(DrawStep { line: i, rows_up: up, shadow: true });
        }
        r.push(DrawStep { line: i, rows_up: up, shadow: false });
        i = i + 1;
    }
    r
}

/// Bytes in one frame of `width` by `height` pixels at four bytes a pixel,
/// when that fits in memory sizes.
pub fn frame_len(width: u32, height: u32) -> (r: Option<usize>)
    ensures
        r.is_some() == (width * height * 4 <= usize::MAX),
        r.is_some() ==> r->0 == width * height * 4,
{
    let w = width as usize;
    let h = height as usize;
    match w.checked_mul(h) {
        Some(p) => p.checked_mul(4),
        None => {
            assert(w * h * 4 > usize::MAX) by (nonlinear_arith)
                requires
                    w * h > usize::MAX,
            ;
            None
        },
    }
}

/// A frame's pixel buffer before anything is read into it: all zero, that is
/// fully transparent.
pub fn blank_frame(len: usize) -> (r: Vec<u8>)
    ensures
        r@.len() == len,
        forall|i: int| 0 <= i < len ==> r@[i] == 0,
{
    let mut r: Vec<u8> = Vec::new();
    let mut i: usize = 0;
    while i < len
        invariant
            i <= len,
            r@.len() == i,
            forall|k: int| 0 <= k < i ==> r@[k] == 0,
        decreases len - i,
    {
        r.push(0);
        i = i + 1;
    }
    r
}

} // verus!
