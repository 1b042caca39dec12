use subframes::compositor::{blank_frame, draw_plan, frame_len, Compositor, DrawStep, Render};
use subframes::cue::Cue;
use subframes::engine::{virtual_time, Engine};
use subframes::timeline::Slots;

/// One emitted frame: the tick's time, the action taken, and the window of
/// the cue the frame shows (`None` for a blank frame).
struct Frame {
    now: u64,
    action: Render,
    shows: Option<(u64, u64)>,
}

fn run(fps: u64, input: &[&str], max_ticks: u64) -> Vec<Frame> {
    let mut engine = Engine::new(fps);
    let mut lines = input.iter();
    let mut frames = Vec::new();
    let mut shows: Option<(u64, u64)> = None;
    while engine.frame() < max_ticks {
        if engine.begin_tick() {
            let mut taken = false;
            for line in lines.by_ref() {
                if engine.feed_line(line) {
                    taken = true;
                    break;
                }
            }
            if !taken {
                break;
            }
        }
        let action = engine.compose();
        match action {
            Render::Redraw => shows = engine.active().map(|c| c.window()),
            Render::PreStartClear | Render::IdleClear => shows = None,
            Render::Keep => {}
        }
        frames.push(Frame { now: engine.now(), action, shows });
        if !engine.advance() {
            break;
        }
    }
    frames
}

fn cue(start: u64, end: u64) -> Cue {
    Cue { start, end, lines: vec!["X".to_string()] }
}

#[test]
fn one_cue_at_25_fps() {
    let frames = run(25, &["1000\t3000\tHELLO"], 10_000);
    assert_eq!(frames.len(), 75);
    assert_eq!(frames[74].now, 2960);
    let redraws = frames.iter().filter(|f| f.action == Render::Redraw).count();
    assert_eq!(redraws, 1);
    assert_eq!(frames[25].action, Render::Redraw);
    assert_eq!(frames[25].now, 1000);
    for f in &frames {
        if f.now < 1000 {
            assert_eq!(f.shows, None);
        } else {
            assert_eq!(f.shows, Some((1000, 3000)));
        }
    }
    assert_eq!(frames[0].action, Render::IdleClear);
    assert!(frames[1..25].iter().all(|f| f.action == Render::Keep));
    assert!(frames[26..].iter().all(|f| f.action == Render::Keep));
}

#[test]
fn frames_follow_each_window() {
    let frames = run(10, &["0\t300\tA", "500\t700\tB"], 10_000);
    assert_eq!(frames.len(), 7);
    for f in &frames {
        let expected = if f.now < 300 {
            Some((0, 300))
        } else if (500..700).contains(&f.now) {
            Some((500, 700))
        } else {
            None
        };
        assert_eq!(f.shows, expected);
    }
    let redraws = frames.iter().filter(|f| f.action == Render::Redraw).count();
    assert_eq!(redraws, 2);
}

#[test]
fn empty_and_past_windows_are_never_shown() {
    let frames = run(10, &["200\t200\tEMPTY", "900\t100\tBACKWARDS", "0\t50\tPAST", "300\t900\tOK"], 100);
    assert!(frames.iter().all(|f| f.shows.is_none() || f.shows == Some((300, 900))));
    assert!(frames.iter().any(|f| f.shows == Some((300, 900))));
}

#[test]
fn malformed_lines_do_not_block_the_next_cue() {
    let frames = run(10, &["garbage", "1\t2", "x\t2\ty", "0\t200\tOK"], 100);
    assert_eq!(frames.len(), 2);
    assert_eq!(frames[0].shows, Some((0, 200)));
    assert_eq!(frames[0].action, Render::Redraw);
}

#[test]
fn no_input_gives_no_frames() {
    let frames = run(25, &[], 100);
    assert_eq!(frames.len(), 0);
}

#[test]
fn frame_count_equals_ticks() {
    let mut engine = Engine::new(30);
    for _ in 0..10 {
        assert!(engine.advance());
    }
    assert_eq!(engine.frame(), 10);
    assert_eq!(engine.now(), 333);
}

#[test]
fn clock_values() {
    assert_eq!(virtual_time(0, 25), 0);
    assert_eq!(virtual_time(1, 25), 40);
    assert_eq!(virtual_time(75, 25), 3000);
    assert_eq!(virtual_time(1, 30), 33);
    assert_eq!(virtual_time(2, 3), 666);
    assert_eq!(virtual_time(u64::MAX, 1), u64::MAX);
}

#[test]
fn slots_expire_promote_and_drop() {
    let s = Slots::Active(cue(0, 100)).expire(100);
    assert!(s.is_idle());
    let s = Slots::Active(cue(0, 100)).expire(99);
    assert!(s.active_cue().is_some());
    let s = Slots::QueuedOnly(cue(100, 200)).promote(200);
    assert!(s.is_idle());
    let s = Slots::QueuedOnly(cue(100, 200)).promote(150);
    assert_eq!(s.active_cue().map(|c| c.window()), Some((100, 200)));
    let s = Slots::QueuedOnly(cue(100, 200)).promote(50);
    assert!(s.active_cue().is_none());
    assert!(!s.is_idle());
    let s = Slots::ActiveAndQueued(cue(0, 100), cue(100, 200)).promote(150);
    assert_eq!(s.active_cue().map(|c| c.window()), Some((0, 100)));
}

#[test]
fn received_cue_takes_exactly_one_slot() {
    let s = Slots::Idle.receive(cue(0, 10), 5);
    assert!(matches!(s, Slots::Active(_)));
    let s = Slots::Idle.receive(cue(20, 30), 5);
    assert!(matches!(s, Slots::QueuedOnly(_)));
    let s = Slots::Idle.receive(cue(0, 5), 5);
    assert!(matches!(s, Slots::QueuedOnly(_)));
}

#[test]
fn late_promotion_opens_queued_window() {
    let s = Slots::QueuedOnly(cue(10, 20)).late_promote(10);
    assert!(matches!(s, Slots::Active(_)));
    let s = Slots::QueuedOnly(cue(10, 20)).late_promote(9);
    assert!(matches!(s, Slots::QueuedOnly(_)));
    let s = Slots::QueuedOnly(cue(10, 20)).late_promote(20);
    assert!(matches!(s, Slots::QueuedOnly(_)));
}

#[test]
fn compositor_actions() {
    let mut c = Compositor::new();
    assert_eq!(c.decide(None, 0), Render::IdleClear);
    assert_eq!(c.decide(None, 40), Render::Keep);
    assert_eq!(c.decide(Some((100, 200)), 100), Render::Redraw);
    assert_eq!(c.key, Some((100, 200)));
    assert!(!c.cleared);
    assert_eq!(c.decide(Some((100, 200)), 140), Render::Keep);
    assert_eq!(c.decide(Some((100, 300)), 140), Render::Redraw);
    assert_eq!(c.decide(None, 300), Render::IdleClear);
    assert_eq!(c.key, None);
}

#[test]
fn pre_start_clear_blanks_a_cached_cue_once() {
    let mut c = Compositor { key: Some((100, 200)), cleared: false };
    assert_eq!(c.decide(Some((100, 200)), 50), Render::PreStartClear);
    assert!(c.cleared);
    assert_eq!(c.key, Some((100, 200)));
    assert_eq!(c.decide(Some((100, 200)), 60), Render::Keep);
}

#[test]
fn readback_only_when_canvas_changes() {
    assert!(Render::Redraw.needs_readback());
    assert!(Render::PreStartClear.needs_readback());
    assert!(Render::IdleClear.needs_readback());
    assert!(!Render::Keep.needs_readback());
}

#[test]
fn draw_order_bottom_up_with_shadow_first() {
    let plan = draw_plan(2, true);
    assert_eq!(
        plan,
        vec![
            DrawStep { line: 0, rows_up: 1, shadow: true },
            DrawStep { line: 0, rows_up: 1, shadow: false },
            DrawStep { line: 1, rows_up: 0, shadow: true },
            DrawStep { line: 1, rows_up: 0, shadow: false },
        ]
    );
}

#[test]
fn no_shadow_draws_without_opacity() {
    let plan = draw_plan(3, false);
    assert_eq!(plan.len(), 3);
    assert!(plan.iter().all(|s| !s.shadow));
    assert_eq!(plan[0], DrawStep { line: 0, rows_up: 2, shadow: false });
    assert!(draw_plan(0, true).is_empty());
}

#[test]
fn frame_size() {
    assert_eq!(frame_len(1920, 1080), Some(8_294_400));
    assert_eq!(frame_len(0, 1080), Some(0));
    let buf = blank_frame(frame_len(4, 2).unwrap());
    assert_eq!(buf.len(), 32);
    assert!(buf.iter().all(|b| *b == 0));
}

#[test]
fn feed_line_skips_malformed_and_takes_valid() {
    let mut engine = Engine::new(25);
    assert!(engine.begin_tick());
    assert!(!engine.feed_line("not a cue"));
    assert!(engine.active().is_none());
    assert!(engine.begin_tick());
    assert!(engine.feed_line("0\t100\tA   B"));
    let active = engine.active().unwrap();
    assert_eq!(active.window(), (0, 100));
    assert_eq!(active.lines, vec!["A".to_string(), "B".to_string()]);
}

#[test]
fn offered_cue_waits_for_its_window() {
    let mut engine = Engine::new(25);
    assert!(engine.begin_tick());
    engine.offer(cue(40, 80));
    assert!(engine.active().is_none());
    assert_eq!(engine.compose(), Render::IdleClear);
    assert!(engine.advance());
    assert!(!engine.begin_tick());
    assert_eq!(engine.active().map(|c| c.window()), Some((40, 80)));
    assert_eq!(engine.compose(), Render::Redraw);
}
