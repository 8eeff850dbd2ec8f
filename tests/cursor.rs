use nvim_cursor::cursor::{
    FADE_STEP, HIDDEN_HOLD_MS, MAX_FILL_ALPHA, OPACITY_FULL, SHOWN_HOLD_MS, TICK_MS,
};
use nvim_cursor::{Alpha, AnimPhase, Cursor, CursorPaint, CursorWidth, State};

fn state_in_hide_at_full() -> State {
    let mut s = State::new();
    for _ in 0..5 {
        s.advance(TICK_MS);
    }
    assert_eq!(s.phase(), AnimPhase::Hide);
    assert_eq!(s.opacity(), OPACITY_FULL);
    s
}

#[test]
fn new_state_is_shown_and_opaque() {
    let s = State::new();
    assert_eq!(s.phase(), AnimPhase::Shown(500));
    assert_eq!(s.opacity(), 100);
    assert_eq!(SHOWN_HOLD_MS, 500);
    assert_eq!(HIDDEN_HOLD_MS, 300);
    assert_eq!(FADE_STEP, 30);
}

#[test]
fn shown_hold_ends_after_five_ticks() {
    let mut s = State::new();
    for remaining in [400, 300, 200, 100] {
        s.advance(100);
        assert_eq!(s.phase(), AnimPhase::Shown(remaining));
        assert_eq!(s.opacity(), 100);
    }
    s.advance(100);
    assert_eq!(s.phase(), AnimPhase::Hide);
    assert_eq!(s.opacity(), 100);
    s.advance(100);
    assert_eq!(s.phase(), AnimPhase::Hide);
    assert_eq!(s.opacity(), 70);
}

#[test]
fn hide_takes_four_ticks_to_reach_hidden() {
    let mut s = state_in_hide_at_full();
    for expected in [70, 40, 10] {
        s.advance(100);
        assert_eq!(s.opacity(), expected);
        assert_eq!(s.phase(), AnimPhase::Hide);
    }
    s.advance(100);
    assert_eq!(s.opacity(), 0);
    assert_eq!(s.phase(), AnimPhase::Hidden(300));
}

#[test]
fn full_cycle_visits_phases_in_order() {
    let mut s = State::new();
    let mut kinds: Vec<u8> = Vec::new();
    for _ in 0..40 {
        let k = match s.phase() {
            AnimPhase::Shown(_) => 0,
            AnimPhase::Hide => 1,
            AnimPhase::Hidden(_) => 2,
            AnimPhase::Show => 3,
        };
        if kinds.last() != Some(&k) {
            kinds.push(k);
        }
        s.advance(100);
        assert!(s.opacity() <= OPACITY_FULL);
    }
    assert_eq!(&kinds[..5], &[0, 1, 2, 3, 0]);
    for w in kinds.windows(2) {
        assert_eq!(w[1], (w[0] + 1) % 4);
    }
}

#[test]
fn show_fades_in_and_returns_to_shown() {
    let mut s = state_in_hide_at_full();
    for _ in 0..4 {
        s.advance(100);
    }
    assert_eq!(s.phase(), AnimPhase::Hidden(300));
    s.advance(100);
    s.advance(100);
    assert_eq!(s.phase(), AnimPhase::Hidden(100));
    s.advance(100);
    assert_eq!(s.phase(), AnimPhase::Show);
    assert_eq!(s.opacity(), 0);
    for expected in [30, 60, 90] {
        s.advance(100);
        assert_eq!(s.opacity(), expected);
        assert_eq!(s.phase(), AnimPhase::Show);
    }
    s.advance(100);
    assert_eq!(s.opacity(), 100);
    assert_eq!(s.phase(), AnimPhase::Shown(500));
}

#[test]
fn unaligned_quantum_overshoots_countdown() {
    let mut s = State::new();
    s.advance(300);
    assert_eq!(s.phase(), AnimPhase::Shown(200));
    s.advance(300);
    assert_eq!(s.phase(), AnimPhase::Hide);
    assert_eq!(s.opacity(), 100);
}

#[test]
fn alpha_show_clamps_at_ceiling() {
    let mut a = Alpha(90);
    assert!(!a.show(30));
    assert_eq!(a.0, 100);
    let mut b = Alpha(70);
    assert!(b.show(30));
    assert_eq!(b.0, 100);
    let mut c = Alpha(0);
    assert!(c.show(30));
    assert_eq!(c.0, 30);
}

#[test]
fn alpha_conceal_clamps_at_floor() {
    let mut a = Alpha(10);
    assert!(!a.conceal(30));
    assert_eq!(a.0, 0);
    let mut b = Alpha(30);
    assert!(b.conceal(30));
    assert_eq!(b.0, 0);
    let mut c = Alpha(100);
    assert!(c.conceal(30));
    assert_eq!(c.0, 70);
}

#[test]
fn sub_counts_down_hold_phases_only() {
    let mut p = AnimPhase::Shown(200);
    assert!(p.sub(100));
    assert_eq!(p, AnimPhase::Shown(100));
    assert!(!p.sub(100));
    assert_eq!(p, AnimPhase::Shown(0));
    let mut h = AnimPhase::Hidden(50);
    assert!(!h.sub(100));
    assert_eq!(h, AnimPhase::Hidden(-50));
    let mut f = AnimPhase::Hide;
    assert!(!f.sub(100));
    assert_eq!(f, AnimPhase::Hide);
    let mut g = AnimPhase::Show;
    assert!(!g.sub(100));
    assert_eq!(g, AnimPhase::Show);
}

#[test]
fn start_twice_registers_one_timer() {
    let mut c = Cursor::new();
    assert!(!c.is_running());
    let mut registered = 0;
    if c.start() {
        registered += 1;
    }
    if c.start() {
        registered += 1;
    }
    assert_eq!(registered, 1);
    assert!(c.is_running());
}

#[test]
fn no_tick_after_stop() {
    let mut c = Cursor::new();
    assert!(!c.stop());
    assert!(c.start());
    assert!(c.tick());
    assert_eq!(c.state().phase(), AnimPhase::Shown(400));
    assert!(c.stop());
    assert!(!c.is_running());
    let mut fired = 0;
    for _ in 0..20 {
        if c.tick() {
            fired += 1;
        }
    }
    assert_eq!(fired, 0);
    assert_eq!(c.state().phase(), AnimPhase::Shown(400));
    assert!(!c.stop());
}

#[test]
fn ticks_keep_phase_and_opacity_consistent() {
    let mut c = Cursor::new();
    c.start();
    for _ in 0..100 {
        assert!(c.tick());
        let s = c.state();
        match s.phase() {
            AnimPhase::Shown(v) => {
                assert!(v > 0);
                assert_eq!(s.opacity(), OPACITY_FULL);
            }
            AnimPhase::Hidden(v) => {
                assert!(v > 0);
                assert_eq!(s.opacity(), 0);
            }
            _ => assert!(s.opacity() <= OPACITY_FULL),
        }
    }
}

#[test]
fn paint_scales_alpha_and_picks_width() {
    let mut c = Cursor::new();
    assert_eq!(
        c.paint(false, false),
        CursorPaint { alpha: 6000, width: CursorWidth::Cell }
    );
    assert_eq!(c.paint(true, true).width, CursorWidth::Bar);
    assert_eq!(c.paint(true, false).width, CursorWidth::Bar);
    assert_eq!(c.paint(false, true).width, CursorWidth::DoubleCell);
    c.start();
    for _ in 0..6 {
        c.tick();
    }
    assert_eq!(c.state().opacity(), 70);
    assert_eq!(c.paint(false, false).alpha, MAX_FILL_ALPHA * 70);
    assert_eq!(c.paint(false, false).alpha, 4200);
}
