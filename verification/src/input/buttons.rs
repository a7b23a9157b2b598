//! Button identities and debounced states.
//!
//! BUTTON1..4 sit on PC0..PC3 and the joystick button on PB7; the board pulls
//! them up and a press reads low.
use vstd::prelude::*;

verus! {

/// One of the five buttons.
#[derive(Clone, Copy, Debug, PartialEq, Eq, Structural)]
pub enum ButtonId {
    Button1,
    Button2,
    Button3,
    Button4,
    Joystick,
}

/// Debounced state of a button.
#[derive(Clone, Copy, Debug, PartialEq, Eq, Structural)]
pub enum ButtonState {
    Released,
    Pressed,
}

/// Debounced state of all five buttons at one instant.
#[derive(Clone, Copy, Debug, PartialEq, Eq, Structural)]
pub struct ButtonsSnapshot {
    pub button1: ButtonState,
    pub button2: ButtonState,
    pub button3: ButtonState,
    pub button4: ButtonState,
    pub joystick: ButtonState,
}

impl ButtonsSnapshot {
    /// The state that the snapshot records for button `id`.
    pub open spec fn state_of(self, id: ButtonId) -> ButtonState {
        match id {
            ButtonId::Button1 => self.button1,
            ButtonId::Button2 => self.button2,
            ButtonId::Button3 => self.button3,
            ButtonId::Button4 => self.button4,
            ButtonId::Joystick => self.joystick,
        }
    }
}

impl Default for ButtonsSnapshot {
    /// All buttons released.
    fn default() -> (r: Self)
        ensures
            forall|id: ButtonId| r.state_of(id) == ButtonState::Released,
    {
        ButtonsSnapshot {
            button1: ButtonState::Released,
            button2: ButtonState::Released,
            button3: ButtonState::Released,
            button4: ButtonState::Released,
            joystick: ButtonState::Released,
        }
    }
}

/// How long a new reading must hold before it becomes the debounced state.
pub const DEBOUNCE_MS: u32 = 20;

/// The state a pin level means (low = pressed).
pub open spec fn state_from_level_spec(is_high: bool) -> ButtonState {
    if is_high {
        ButtonState::Released
    } else {
        ButtonState::Pressed
    }
}

/// What one [`Debouncer::update`] with `raw` and `elapsed_ms` makes of `before`.
pub open spec fn debounce_next(before: Debouncer, raw: ButtonState, elapsed_ms: u32) -> Debouncer {
    if raw == before.stable {
        Debouncer { stable: before.stable, differing_ms: 0 }
    } else if before.differing_ms + elapsed_ms >= DEBOUNCE_MS {
        Debouncer { stable: raw, differing_ms: 0 }
    } else {
        Debouncer { stable: before.stable, differing_ms: (before.differing_ms + elapsed_ms) as u32 }
    }
}

/// `after` is what one [`Debouncer::update`] with `raw` and `elapsed_ms`
/// makes of `before`.
pub open spec fn debounced(before: Debouncer, raw: ButtonState, elapsed_ms: u32, after: Debouncer) -> bool {
    after == debounce_next(before, raw, elapsed_ms)
}

/// The debouncer after a run of updates, all with reading `raw`, whose
/// elapsed times are `steps` in order.
pub open spec fn debounce_run(d: Debouncer, raw: ButtonState, steps: Seq<u32>) -> Debouncer
    decreases steps.len(),
{
    if steps.len() == 0 {
        d
    } else {
        debounce_next(debounce_run(d, raw, steps.drop_last()), raw, steps.last())
    }
}

/// Total time of a run of scans.
pub open spec fn total_ms(steps: Seq<u32>) -> int
    decreases steps.len(),
{
    if steps.len() == 0 {
        0
    } else {
        total_ms(steps.drop_last()) + steps.last()
    }
}

/// The state a pin level means: the board pulls each button line up, so a
/// pressed button reads low.
pub fn state_from_level(is_high: bool) -> (s: ButtonState)
    ensures
        s == state_from_level_spec(is_high),
{
    if is_high {
        ButtonState::Released
    } else {
        ButtonState::Pressed
    }
}

/// Debounce state of one button: the accepted state, and how long the raw
/// reading has differed from it without interruption.
#[derive(Clone, Copy, Debug, PartialEq, Eq, Structural)]
pub struct Debouncer {
    pub stable: ButtonState,
    pub differing_ms: u32,
}

impl Debouncer {
    /// A debouncer that starts out in `initial`.
    pub fn new(initial: ButtonState) -> (d: Self)
        ensures
            d.stable == initial,
            d.differing_ms == 0,
    {
        Debouncer { stable: initial, differing_ms: 0 }
    }

    /// One scan: `raw` is the state read now and `elapsed_ms` the time since
    /// the previous scan. A reading equal to the accepted state clears the
    /// count; a differing one is accepted once it has held for
    /// [`DEBOUNCE_MS`]. Returns the accepted state.
    pub fn update(&mut self, raw: ButtonState, elapsed_ms: u32) -> (s: ButtonState)
        ensures
            s == final(self).stable,
            debounced(*old(self), raw, elapsed_ms, *final(self)),
            raw == old(self).stable ==> final(self).stable == raw && final(self).differing_ms == 0,
            raw != old(self).stable ==> (final(self).stable == raw <==> old(self).differing_ms
                + elapsed_ms >= DEBOUNCE_MS),
            raw != old(self).stable ==> (final(self).stable == raw || final(self).stable == old(
                self,
            ).stable),
            raw != old(self).stable && old(self).differing_ms + elapsed_ms < DEBOUNCE_MS
                ==> final(self).differing_ms == old(self).differing_ms + elapsed_ms,
            final(self).stable == raw ==> final(self).differing_ms == 0,
    {
        if raw == self.stable {
            self.differing_ms = 0;
        } else {
            let held = self.differing_ms.saturating_add(elapsed_ms);
            if held >= DEBOUNCE_MS {
                self.stable = raw;
                self.differing_ms = 0;
            } else {
                self.differing_ms = held;
            }
        }
        self.stable
    }
}

/// Debouncers of all five buttons.
#[derive(Clone, Copy, Debug, PartialEq, Eq, Structural)]
pub struct ButtonsDebouncer {
    pub button1: Debouncer,
    pub button2: Debouncer,
    pub button3: Debouncer,
    pub button4: Debouncer,
    pub joystick: Debouncer,
}

impl ButtonsDebouncer {
    /// The debounced states as a snapshot.
    pub open spec fn stable(self) -> ButtonsSnapshot {
        ButtonsSnapshot {
            button1: self.button1.stable,
            button2: self.button2.stable,
            button3: self.button3.stable,
            button4: self.button4.stable,
            joystick: self.joystick.stable,
        }
    }

    /// All buttons start released.
    pub fn new() -> (d: Self)
        ensures
            forall|id: ButtonId| d.stable().state_of(id) == ButtonState::Released,
            d.button1.differing_ms == 0 && d.button2.differing_ms == 0
                && d.button3.differing_ms == 0 && d.button4.differing_ms == 0
                && d.joystick.differing_ms == 0,
    {
        ButtonsDebouncer {
            button1: Debouncer::new(ButtonState::Released),
            button2: Debouncer::new(ButtonState::Released),
            button3: Debouncer::new(ButtonState::Released),
            button4: Debouncer::new(ButtonState::Released),
            joystick: Debouncer::new(ButtonState::Released),
        }
    }

    /// One periodic scan of the five pin levels (`true` = high), in the order
    /// BUTTON1..4, joystick button; each button's debouncer takes the state
    /// its level means. Returns the debounced snapshot.
    pub fn scan(&mut self, levels: [bool; 5], elapsed_ms: u32) -> (snapshot: ButtonsSnapshot)
        ensures
            snapshot == final(self).stable(),
            snapshot.button1 == final(self).button1.stable,
            snapshot.button2 == final(self).button2.stable,
            snapshot.button3 == final(self).button3.stable,
            snapshot.button4 == final(self).button4.stable,
            snapshot.joystick == final(self).joystick.stable,
            debounced(old(self).button1, state_from_level_spec(levels[0]), elapsed_ms, final(self).button1),
            debounced(old(self).button2, state_from_level_spec(levels[1]), elapsed_ms, final(self).button2),
            debounced(old(self).button3, state_from_level_spec(levels[2]), elapsed_ms, final(self).button3),
            debounced(old(self).button4, state_from_level_spec(levels[3]), elapsed_ms, final(self).button4),
            debounced(old(self).joystick, state_from_level_spec(levels[4]), elapsed_ms, final(self).joystick),
    {
        self.button1.update(state_from_level(levels[0]), elapsed_ms);
        self.button2.update(state_from_level(levels[1]), elapsed_ms);
        self.button3.update(state_from_level(levels[2]), elapsed_ms);
        self.button4.update(state_from_level(levels[3]), elapsed_ms);
        self.joystick.update(state_from_level(levels[4]), elapsed_ms);
        ButtonsSnapshot {
            button1: self.button1.stable,
            button2: self.button2.stable,
            button3: self.button3.stable,
            button4: self.button4.stable,
            joystick: self.joystick.stable,
        }
    }
}

/// A change in either direction is accepted once it has held for
/// [`DEBOUNCE_MS`]: from a debouncer settled in `s`, readings of the other
/// state `r` over scans whose times add up to at least [`DEBOUNCE_MS`] leave
/// it in `r`; over scans adding up to less, it stays in `s` and has counted
/// exactly their total.
pub proof fn lemma_debounce_run(s: ButtonState, r: ButtonState, steps: Seq<u32>)
    requires
        r != s,
    ensures
        total_ms(steps) >= DEBOUNCE_MS ==> debounce_run(
            Debouncer { stable: s, differing_ms: 0 },
            r,
            steps,
        ).stable == r,
        total_ms(steps) < DEBOUNCE_MS ==> debounce_run(
            Debouncer { stable: s, differing_ms: 0 },
            r,
            steps,
        ) == (Debouncer { stable: s, differing_ms: total_ms(steps) as u32 }),
    decreases steps.len(),
{
    let d0 = Debouncer { stable: s, differing_ms: 0 };
    if steps.len() > 0 {
        let prefix = steps.drop_last();
        lemma_debounce_run(s, r, prefix);
        lemma_total_ms_nonneg(prefix);
        let mid = debounce_run(d0, r, prefix);
        if total_ms(prefix) >= DEBOUNCE_MS {
            assert(mid.stable == r);
        }
    }
}

proof fn lemma_total_ms_nonneg(steps: Seq<u32>)
    ensures
        total_ms(steps) >= 0,
    decreases steps.len(),
{
    if steps.len() > 0 {
        lemma_total_ms_nonneg(steps.drop_last());
    }
}

/// A debouncer's count stays below [`DEBOUNCE_MS`] after every update, and
/// the accepted state only ever takes the value of the reading.
pub proof fn lemma_debounce_step(before: Debouncer, raw: ButtonState, elapsed_ms: u32, after: Debouncer)
    requires
        debounced(before, raw, elapsed_ms, after),
    ensures
        after.differing_ms < DEBOUNCE_MS,
        after.stable == before.stable || after.stable == raw,
        after.stable != before.stable ==> before.differing_ms + elapsed_ms >= DEBOUNCE_MS,
{
}

} // verus!
