use vstd::prelude::*;

verus! {

/// Opacity is counted in hundredths: `OPACITY_FULL` is fully opaque, 0 is transparent.
pub const OPACITY_FULL: u32 = 100;

/// Cursor opacity in hundredths, kept within `0..=OPACITY_FULL`.
pub struct Alpha(pub u32);

/// Opacity after raising `a` by `step`, clamped at the ceiling.
pub open spec fn raised(a: int, step: int) -> int {
    if a + step > OPACITY_FULL { OPACITY_FULL as int } else { a + step }
}

/// Opacity after lowering `a` by `step`, clamped at the floor.
pub open spec fn lowered(a: int, step: int) -> int {
    if a - step < 0 { 0 } else { a - step }
}

impl Alpha {
    /// The opacity lies within `0..=OPACITY_FULL`.
    pub open spec fn wf(&self) -> bool {
        self.0 <= OPACITY_FULL
    }

    /// Raises the opacity by `step`; returns false when the ceiling was overshot
    /// (the opacity is then clamped to full).
    pub fn show(&mut self, step: u32) -> (r: bool)
        requires
            old(self).wf(),
        ensures
            final(self).wf(),
            final(self).0 == raised(old(self).0 as int, step as int),
            r == (old(self).0 + step <= OPACITY_FULL),
    {
        if step > OPACITY_FULL - self.0 {
            self.0 = OPACITY_FULL;
            false
        } else {
            self.0 = self.0 + step;
            true
        }
    }

    /// Lowers the opacity by `step`; returns false when the floor was overshot
    /// (the opacity is then clamped to zero).
    pub fn conceal(&mut self, step: u32) -> (r: bool)
        requires
            old(self).wf(),
        ensures
            final(self).wf(),
            final(self).0 == lowered(old(self).0 as int, step as int),
            r == (old(self).0 >= step),
    {
        if step > self.0 {
            self.0 = 0;
            false
        } else {
            self.0 = self.0 - step;
            true
        }
    }
}


/// Length of one tick of the blink timer, in milliseconds.
pub const TICK_MS: i32 = 100;

/// Opacity change applied by one tick of a fade.
pub const FADE_STEP: u32 = 30;

/// How long the cursor is held fully visible before it fades out, in milliseconds.
pub const SHOWN_HOLD_MS: i32 = 500;

/// How long the cursor is held invisible before it fades in, in milliseconds.
pub const HIDDEN_HOLD_MS: i32 = 300;

/// The phase of the blink cycle; the hold phases carry the milliseconds left.
#[derive(Clone, Copy, Debug, PartialEq, Eq, Structural)]
pub enum AnimPhase {
    Shown(i32),
    Hide,
    Hidden(i32),
    Show,
}

impl AnimPhase {
    /// The phase with its countdown (if any) lowered by `step`.
    pub open spec fn counted_down(self, step: int) -> AnimPhase {
        match self {
            AnimPhase::Shown(v) => AnimPhase::Shown((v - step) as i32),
            AnimPhase::Hidden(v) => AnimPhase::Hidden((v - step) as i32),
            _ => self,
        }
    }

    /// Whether lowering the countdown by `step` leaves time to wait.
    pub open spec fn still_waiting(self, step: int) -> bool {
        match self {
            AnimPhase::Shown(v) | AnimPhase::Hidden(v) => v - step > 0,
            _ => false,
        }
    }

    /// Whether lowering the countdown by `step` stays within `i32`.
    pub open spec fn can_count_down(self, step: int) -> bool {
        match self {
            AnimPhase::Shown(v) | AnimPhase::Hidden(v) => i32::MIN <= v - step <= i32::MAX,
            _ => true,
        }
    }

    /// Position of the phase in the cycle `Shown`, `Hide`, `Hidden`, `Show`.
    pub open spec fn index(self) -> int {
        match self {
            AnimPhase::Shown(_) => 0,
            AnimPhase::Hide => 1,
            AnimPhase::Hidden(_) => 2,
            AnimPhase::Show => 3,
        }
    }

    /// Lowers the countdown of a hold phase by `step`; returns true while time is
    /// left to wait. The fading phases have no countdown and return false.
    pub fn sub(&mut self, step: i32) -> (r: bool)
        requires
            old(self).can_count_down(step as int),
        ensures
            *final(self) == old(self).counted_down(step as int),
            r == old(self).still_waiting(step as int),
    {
        match self {
            AnimPhase::Shown(val) => {
                *val = *val - step;
                *val > 0
            },
            AnimPhase::Hidden(val) => {
                *val = *val - step;
                *val > 0
            },
            _ => false,
        }
    }
}

/// What a reader of the animation sees: opacity in hundredths and the phase.
pub struct StateView {
    pub opacity: nat,
    pub phase: AnimPhase,
}

impl StateView {
    /// Opacity in range, countdowns not negative, and the hold phases at their
    /// extreme opacity (full while shown, zero while hidden).
    pub open spec fn wf(self) -> bool {
        &&& self.opacity <= OPACITY_FULL
        &&& match self.phase {
            AnimPhase::Shown(v) => v >= 0 && self.opacity == OPACITY_FULL,
            AnimPhase::Hidden(v) => v >= 0 && self.opacity == 0,
            _ => true,
        }
    }

    /// The state after one tick of `elapsed` milliseconds; a fade ends on the
    /// tick at which the opacity reaches 0 or `OPACITY_FULL`.
    pub open spec fn advanced(self, elapsed: int) -> StateView {
        let phase = self.phase.counted_down(elapsed);
        if self.phase.still_waiting(elapsed) {
            StateView { opacity: self.opacity, phase }
        } else {
            match phase {
                AnimPhase::Shown(_) => StateView { opacity: self.opacity, phase: AnimPhase::Hide },
                AnimPhase::Hide => if self.opacity > FADE_STEP {
                    StateView { opacity: (self.opacity - FADE_STEP) as nat, phase: AnimPhase::Hide }
                } else {
                    StateView { opacity: 0, phase: AnimPhase::Hidden(HIDDEN_HOLD_MS) }
                },
                AnimPhase::Hidden(_) => StateView { opacity: self.opacity, phase: AnimPhase::Show },
                AnimPhase::Show => if self.opacity + FADE_STEP < OPACITY_FULL {
                    StateView { opacity: (self.opacity + FADE_STEP) as nat, phase: AnimPhase::Show }
                } else {
                    StateView { opacity: OPACITY_FULL as nat, phase: AnimPhase::Shown(SHOWN_HOLD_MS) }
                },
            }
        }
    }

    /// The state after `n` ticks of `elapsed` milliseconds each.
    pub open spec fn advanced_n(self, elapsed: int, n: nat) -> StateView
        decreases n,
    {
        if n == 0 { self } else { self.advanced(elapsed).advanced_n(elapsed, (n - 1) as nat) }
    }
}

/// The animation state: opacity and blink phase.
pub struct State {
    alpha: Alpha,
    anim_phase: AnimPhase,
}

impl View for State {
    type V = StateView;

    closed spec fn view(&self) -> StateView {
        StateView { opacity: self.alpha.0 as nat, phase: self.anim_phase }
    }
}

impl State {
    #[verifier::type_invariant]
    closed spec fn inv(&self) -> bool {
        self@.wf()
    }

    /// The state a cursor starts in: fully visible, holding for `SHOWN_HOLD_MS`.
    pub open spec fn initial() -> StateView {
        StateView { opacity: OPACITY_FULL as nat, phase: AnimPhase::Shown(SHOWN_HOLD_MS) }
    }

    pub fn new() -> (r: State)
        ensures
            r@ == State::initial(),
            r@.wf(),
    {
        State { alpha: Alpha(OPACITY_FULL), anim_phase: AnimPhase::Shown(SHOWN_HOLD_MS) }
    }

    /// Current opacity, in hundredths.
    pub fn opacity(&self) -> (r: u32)
        ensures
            r == self@.opacity,
            r <= OPACITY_FULL,
    {
        proof {
            use_type_invariant(self);
        }
        self.alpha.0
    }

    /// Current phase of the blink cycle.
    pub fn phase(&self) -> (r: AnimPhase)
        ensures
            r == self@.phase,
    {
        self.anim_phase
    }

    /// Runs one tick of `elapsed` milliseconds: a hold phase first counts down
    /// and, while time is left, nothing else changes; otherwise the phase takes
    /// one step of the cycle. A fade moves on to the next hold phase on the tick
    /// that brings the opacity to its floor or ceiling.
    pub fn advance(&mut self, elapsed: i32)
        requires
            elapsed > 0,
        ensures
            final(self)@ == old(self)@.advanced(elapsed as int),
            final(self)@.wf(),
    {
        proof {
            use_type_invariant(&*self);
        }
        let mut alpha = Alpha(self.alpha.0);
        let mut phase = self.anim_phase;
        if !phase.sub(elapsed) {
            match phase {
                AnimPhase::Shown(_) => {
                    phase = AnimPhase::Hide;
                },
                AnimPhase::Hide => {
                    if !alpha.conceal(FADE_STEP) || alpha.0 == 0 {
                        phase = AnimPhase::Hidden(HIDDEN_HOLD_MS);
                    }
                },
                AnimPhase::Hidden(_) => {
                    phase = AnimPhase::Show;
                },
                AnimPhase::Show => {
                    if !alpha.show(FADE_STEP) || alpha.0 == OPACITY_FULL {
                        phase = AnimPhase::Shown(SHOWN_HOLD_MS);
                    }
                },
            }
        }
        *self = State { alpha, anim_phase: phase };
    }
}

/// Largest alpha of the painted cursor block, in hundredths; it is scaled by the opacity.
pub const MAX_FILL_ALPHA: u32 = 60;

/// Width of the painted cursor block, relative to one character cell.
#[derive(Clone, Copy, Debug, PartialEq, Eq, Structural)]
pub enum CursorWidth {
    /// A thin bar, one fifth of a cell wide.
    Bar,
    /// One full cell.
    Cell,
    /// Two cells, for a double-width character.
    DoubleCell,
}

/// A bar in insert mode; otherwise one cell, or two under a double-width character.
pub open spec fn width_for(insert: bool, double_width: bool) -> CursorWidth {
    if insert {
        CursorWidth::Bar
    } else if double_width {
        CursorWidth::DoubleCell
    } else {
        CursorWidth::Cell
    }
}

/// What the painter needs to draw the cursor block.
#[derive(Clone, Copy, Debug, PartialEq, Eq, Structural)]
pub struct CursorPaint {
    /// Alpha of the fill, in ten-thousandths.
    pub alpha: u32,
    pub width: CursorWidth,
}

/// What a reader of the controller sees: whether its timer is registered, and the animation.
pub struct CursorView {
    pub running: bool,
    pub state: StateView,
}

impl CursorView {
    /// After `start`: the timer is registered.
    pub open spec fn started(self) -> CursorView {
        CursorView { running: true, state: self.state }
    }

    /// After `stop`: no timer is registered.
    pub open spec fn stopped(self) -> CursorView {
        CursorView { running: false, state: self.state }
    }

    /// After one timer firing: the animation advances by one tick only while the
    /// timer is registered.
    pub open spec fn ticked(self) -> CursorView {
        if self.running {
            CursorView { running: true, state: self.state.advanced(TICK_MS as int) }
        } else {
            self
        }
    }

    /// After `n` timer firings.
    pub open spec fn ticked_n(self, n: nat) -> CursorView
        decreases n,
    {
        if n == 0 { self } else { self.ticked().ticked_n((n - 1) as nat) }
    }
}

/// The blinking cursor controller: owns the animation state and knows whether
/// the periodic timer that drives it is registered. The host performs the
/// registration, the cancellation and the repaint that its answers call for.
pub struct Cursor {
    timer_registered: bool,
    state: State,
}

impl View for Cursor {
    type V = CursorView;

    closed spec fn view(&self) -> CursorView {
        CursorView { running: self.timer_registered, state: self.state@ }
    }
}

impl Cursor {
    /// An idle controller with the animation in its initial state.
    pub fn new() -> (r: Cursor)
        ensures
            !r@.running,
            r@.state == State::initial(),
            r@.state.wf(),
    {
        Cursor { timer_registered: false, state: State::new() }
    }

    /// Whether the timer is registered.
    pub fn is_running(&self) -> (r: bool)
        ensures
            r == self@.running,
    {
        self.timer_registered
    }

    /// The animation state.
    pub fn state(&self) -> (r: &State)
        ensures
            r@ == self@.state,
    {
        &self.state
    }

    /// Marks the timer as registered; returns true when the caller must register
    /// it now, false when it already was (a second start does nothing).
    pub fn start(&mut self) -> (register: bool)
        ensures
            final(self)@ == old(self)@.started(),
            register == !old(self)@.running,
    {
        let register = !self.timer_registered;
        self.timer_registered = true;
        register
    }

    /// Marks the timer as cancelled; returns true when the caller must cancel a
    /// registered timer now.
    pub fn stop(&mut self) -> (cancel: bool)
        ensures
            final(self)@ == old(self)@.stopped(),
            cancel == old(self)@.running,
    {
        let cancel = self.timer_registered;
        self.timer_registered = false;
        cancel
    }

    /// One firing of the timer. While the timer is registered the animation
    /// advances by `TICK_MS` and true is returned: the caller repaints the
    /// cursor and keeps the timer. Once stopped nothing changes and false is
    /// returned: the caller drops the timer without repainting.
    pub fn tick(&mut self) -> (rearm: bool)
        ensures
            final(self)@ == old(self)@.ticked(),
            rearm == old(self)@.running,
            final(self)@.state.wf(),
    {
        if self.timer_registered {
            self.state.advance(TICK_MS);
            true
        } else {
            proof {
                use_type_invariant(&self.state);
            }
            false
        }
    }

    /// How to paint the cursor: the fill alpha is `MAX_FILL_ALPHA` scaled by the
    /// opacity, and the width follows the input mode and the character under it.
    pub fn paint(&self, insert: bool, double_width: bool) -> (r: CursorPaint)
        ensures
            r.alpha == MAX_FILL_ALPHA * self@.state.opacity,
            r.width == width_for(insert, double_width),
    {
        let opacity = self.state.opacity();
        let width = if insert {
            CursorWidth::Bar
        } else if double_width {
            CursorWidth::DoubleCell
        } else {
            CursorWidth::Cell
        };
        CursorPaint { alpha: MAX_FILL_ALPHA * opacity, width }
    }
}

/// One tick keeps a well-formed state well formed: the opacity stays within
/// `0..=OPACITY_FULL`, and a hold phase is only ever seen at its extreme opacity.
pub proof fn lemma_advance_keeps_wf(v: StateView, elapsed: int)
    requires
        v.wf(),
        elapsed > 0,
    ensures
        v.advanced(elapsed).wf(),
        v.advanced(elapsed).opacity <= OPACITY_FULL,
{
}

/// Any number of ticks keeps the opacity within `0..=OPACITY_FULL` and the
/// state well formed.
pub proof fn lemma_advanced_n_keeps_wf(v: StateView, elapsed: int, n: nat)
    requires
        v.wf(),
        elapsed > 0,
    ensures
        v.advanced_n(elapsed, n).wf(),
        v.advanced_n(elapsed, n).opacity <= OPACITY_FULL,
    decreases n,
{
    if n > 0 {
        lemma_advance_keeps_wf(v, elapsed);
        lemma_advanced_n_keeps_wf(v.advanced(elapsed), elapsed, (n - 1) as nat);
    }
}

/// The blink cycle `Shown`, `Hide`, `Hidden`, `Show` is followed in order,
/// whatever the tick length: a tick either keeps the phase or moves to the
/// next one, never skipping one.
pub proof fn lemma_cycle_in_order(v: StateView, elapsed: int)
    requires
        v.wf(),
        elapsed > 0,
    ensures
        v.advanced(elapsed).phase.index() == v.phase.index()
            || v.advanced(elapsed).phase.index() == (v.phase.index() + 1) % 4,
{
}

/// Starting twice leaves exactly one timer registered: the second start finds
/// the timer registered, so it asks for no registration, and it leaves the
/// controller as the first start left it.
pub proof fn lemma_start_idempotent(c: CursorView)
    ensures
        c.started().running,
        c.started().started() == c.started(),
{
}

/// Once stopped, no firing of the timer changes anything or asks to be kept.
pub proof fn lemma_no_tick_after_stop(c: CursorView, n: nat)
    ensures
        c.stopped().ticked_n(n) == c.stopped(),
        !c.stopped().ticked_n(n).running,
    decreases n,
{
    if n > 0 {
        lemma_no_tick_after_stop(c, (n - 1) as nat);
    }
}

/// Whatever number of firings has run, the state a painter reads is
/// consistent: opacity in range, full while shown, zero while hidden.
pub proof fn lemma_ticks_keep_consistent(c: CursorView, n: nat)
    requires
        c.state.wf(),
    ensures
        c.ticked_n(n).state.wf(),
        c.ticked_n(n).state.phase is Shown ==> c.ticked_n(n).state.opacity == OPACITY_FULL,
        c.ticked_n(n).state.phase is Hidden ==> c.ticked_n(n).state.opacity == 0,
    decreases n,
{
    if n > 0 {
        lemma_advance_keeps_wf(c.state, TICK_MS as int);
        lemma_ticks_keep_consistent(c.ticked(), (n - 1) as nat);
    }
}

} // verus!
