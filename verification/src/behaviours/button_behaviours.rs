//! Button behaviours: turning a MIDI data byte (0..=127) into an on/off state.
use vstd::prelude::*;

verus! {

/// Common interface of the button behaviours.
pub trait BooleanBehaviourTrait {
    /// Feeds one MIDI data byte and returns the resulting button state.
    fn get(&mut self, data: u8) -> bool;

    /// Forces the button state (used to mirror the daemon's state).
    fn set(&mut self, data: bool);
}

/// A button behaviour: either a latching toggle or a momentary push button.
#[derive(Clone, Copy, Debug)]
pub enum BooleanBehaviour {
    Toggle(ToggleBtn),
    Push(PushBtn),
}

/// A latching button: every activating edge of the input flips the state.
#[derive(Clone, Copy, Debug)]
pub struct ToggleBtn {
    current_state: bool,
    previous_val: bool,
    threshold: u8,
    falling_edge: bool,
}

/// A momentary button: the state follows the input level.
#[derive(Clone, Copy, Debug)]
pub struct PushBtn {
    threshold: u8,
    invert: bool,
}

/// The input level a toggle button sees for `data`: above the threshold,
/// flipped when the button reacts to the falling edge.
pub open spec fn toggle_level(threshold: u8, falling_edge: bool, data: u8) -> bool {
    (data > threshold) != falling_edge
}

/// The state of a toggle button after it sees `level`: it flips exactly when
/// the level rises from off to on.
pub open spec fn toggle_next_state(current_state: bool, previous_val: bool, level: bool) -> bool {
    if level != previous_val && level {
        !current_state
    } else {
        current_state
    }
}

/// The level a push button reports for `data`.
pub open spec fn push_level(threshold: u8, invert: bool, data: u8) -> bool {
    if invert {
        data <= threshold
    } else {
        data >= threshold
    }
}

impl ToggleBtn {
    /// The latched state.
    pub closed spec fn current_state(&self) -> bool {
        self.current_state
    }

    /// The input level seen last.
    pub closed spec fn previous_val(&self) -> bool {
        self.previous_val
    }

    /// Data bytes above this value count as "on".
    pub closed spec fn threshold(&self) -> u8 {
        self.threshold
    }

    /// Whether the button reacts to the falling edge instead of the rising one.
    pub closed spec fn falling_edge(&self) -> bool {
        self.falling_edge
    }

    /// A toggle button in the "off" state; `falling_edge` defaults to false.
    pub fn new(threshold: u8, falling_edge: Option<bool>) -> (r: Self)
        ensures
            r.current_state() == false,
            r.previous_val() == false,
            r.threshold() == threshold,
            r.falling_edge() == (falling_edge == Some(true)),
    {
        let falling_edge = match falling_edge {
            Some(b) => b,
            None => false,
        };
        ToggleBtn { current_state: false, previous_val: false, threshold, falling_edge }
    }
}

/// `after` is `before` once it has seen `data`: the configuration is kept, the
/// level is remembered and the latched state flips on an activating edge.
pub open spec fn toggle_stepped(before: ToggleBtn, after: ToggleBtn, data: u8) -> bool {
    let level = toggle_level(before.threshold(), before.falling_edge(), data);
    &&& after.threshold() == before.threshold()
    &&& after.falling_edge() == before.falling_edge()
    &&& after.previous_val() == level
    &&& after.current_state() == toggle_next_state(before.current_state(), before.previous_val(), level)
}

impl BooleanBehaviourTrait for ToggleBtn {
    fn get(&mut self, data: u8) -> (r: bool)
        ensures
            toggle_stepped(*old(self), *final(self), data),
            r == final(self).current_state(),
    {
        let mut check = data > self.threshold;
        if self.falling_edge {
            check = !check;
        }
        if self.previous_val == check {
            self.current_state
        } else {
            if check {
                self.current_state = !self.current_state;
            }
            self.previous_val = check;
            self.current_state
        }
    }

    fn set(&mut self, data: bool)
        ensures
            final(self).current_state() == data,
            final(self).previous_val() == old(self).previous_val(),
            final(self).threshold() == old(self).threshold(),
            final(self).falling_edge() == old(self).falling_edge(),
    {
        self.current_state = data;
    }
}

impl ToggleBtn {
    /// Rebuilds a toggle button from its four parts (used when loading a saved
    /// configuration).
    pub fn from_parts(current_state: bool, previous_val: bool, threshold: u8, falling_edge: bool) -> (r: Self)
        ensures
            r.current_state() == current_state,
            r.previous_val() == previous_val,
            r.threshold() == threshold,
            r.falling_edge() == falling_edge,
    {
        ToggleBtn { current_state, previous_val, threshold, falling_edge }
    }

    /// The parts of the button, in the order `from_parts` takes them.
    pub fn to_parts(&self) -> (r: (bool, bool, u8, bool))
        ensures
            r == (self.current_state(), self.previous_val(), self.threshold(), self.falling_edge()),
    {
        (self.current_state, self.previous_val, self.threshold, self.falling_edge)
    }

    /// Two toggle buttons with the same parts are the same button.
    pub proof fn lemma_parts_determine(a: ToggleBtn, b: ToggleBtn)
        requires
            a.current_state() == b.current_state(),
            a.previous_val() == b.previous_val(),
            a.threshold() == b.threshold(),
            a.falling_edge() == b.falling_edge(),
        ensures
            a == b,
    {
    }
}

impl PushBtn {
    /// Data bytes compared against this value decide the state.
    pub closed spec fn threshold(&self) -> u8 {
        self.threshold
    }

    /// Whether the comparison is inverted (on at or below the threshold).
    pub closed spec fn invert(&self) -> bool {
        self.invert
    }

    /// A push button; `falling_edge` (inversion) defaults to false.
    pub fn new(threshold: u8, falling_edge: Option<bool>) -> (r: Self)
        ensures
            r.threshold() == threshold,
            r.invert() == (falling_edge == Some(true)),
    {
        let invert = match falling_edge {
            Some(b) => b,
            None => false,
        };
        PushBtn { threshold, invert }
    }

    /// Rebuilds a push button from its parts.
    pub fn from_parts(threshold: u8, invert: bool) -> (r: Self)
        ensures
            r.threshold() == threshold,
            r.invert() == invert,
    {
        PushBtn { threshold, invert }
    }

    /// The parts of the button, in the order `from_parts` takes them.
    pub fn to_parts(&self) -> (r: (u8, bool))
        ensures
            r == (self.threshold(), self.invert()),
    {
        (self.threshold, self.invert)
    }
}

impl BooleanBehaviourTrait for PushBtn {
    fn get(&mut self, data: u8) -> (r: bool)
        ensures
            *final(self) == *old(self),
            r == push_level(old(self).threshold(), old(self).invert(), data),
    {
        if self.invert {
            data <= self.threshold
        } else {
            data >= self.threshold
        }
    }

    fn set(&mut self, data: bool)
        ensures
            *final(self) == *old(self),
    {
    }
}

/// What a button behaviour reports for `data` and what it becomes: the result
/// of `get` and the new behaviour.
pub open spec fn boolean_stepped(before: BooleanBehaviour, after: BooleanBehaviour, data: u8, r: bool) -> bool {
    match (before, after) {
        (BooleanBehaviour::Toggle(a), BooleanBehaviour::Toggle(b)) => toggle_stepped(a, b, data)
            && r == b.current_state(),
        (BooleanBehaviour::Push(a), BooleanBehaviour::Push(b)) => b == a && r == push_level(
            a.threshold(),
            a.invert(),
            data,
        ),
        _ => false,
    }
}

/// The state a button behaviour reports for `data`.
pub open spec fn boolean_result(before: BooleanBehaviour, data: u8) -> bool {
    match before {
        BooleanBehaviour::Toggle(a) => toggle_next_state(
            a.current_state(),
            a.previous_val(),
            toggle_level(a.threshold(), a.falling_edge(), data),
        ),
        BooleanBehaviour::Push(a) => push_level(a.threshold(), a.invert(), data),
    }
}

impl BooleanBehaviourTrait for BooleanBehaviour {
    fn get(&mut self, data: u8) -> (r: bool)
        ensures
            boolean_stepped(*old(self), *final(self), data, r),
            r == boolean_result(*old(self), data),
    {
        match self {
            BooleanBehaviour::Toggle(toggle) => toggle.get(data),
            BooleanBehaviour::Push(push) => push.get(data),
        }
    }

    fn set(&mut self, data: bool)
        ensures
            match (*old(self), *final(self)) {
                (BooleanBehaviour::Toggle(a), BooleanBehaviour::Toggle(b)) => {
                    &&& b.current_state() == data
                    &&& b.previous_val() == a.previous_val()
                    &&& b.threshold() == a.threshold()
                    &&& b.falling_edge() == a.falling_edge()
                },
                (BooleanBehaviour::Push(a), BooleanBehaviour::Push(b)) => b == a,
                _ => false,
            },
    {
        match self {
            BooleanBehaviour::Toggle(toggle) => toggle.set(data),
            BooleanBehaviour::Push(push) => push.set(data),
        }
    }
}

/// Feeding a toggle button the same data byte twice in a row changes nothing
/// the second time: only a change of level can flip the state.
pub proof fn lemma_toggle_repeat_is_stable(a: ToggleBtn, b: ToggleBtn, c: ToggleBtn, data: u8)
    requires
        toggle_stepped(a, b, data),
        toggle_stepped(b, c, data),
    ensures
        c == b,
{
    ToggleBtn::lemma_parts_determine(c, b);
}

/// A press followed by a release flips a rising-edge toggle button exactly
/// once, whatever its state was.
pub proof fn lemma_toggle_press_release_flips(a: ToggleBtn, b: ToggleBtn, c: ToggleBtn, press: u8, release: u8)
    requires
        !a.falling_edge(),
        !a.previous_val(),
        press > a.threshold(),
        release <= a.threshold(),
        toggle_stepped(a, b, press),
        toggle_stepped(b, c, release),
    ensures
        b.current_state() == !a.current_state(),
        c.current_state() == !a.current_state(),
        !c.previous_val(),
{
}

/// A push button is stateless: whatever it is fed, it stays the same button.
pub proof fn lemma_push_is_stateless(before: BooleanBehaviour, after: BooleanBehaviour, data: u8, r: bool)
    requires
        before is Push,
        boolean_stepped(before, after, data, r),
    ensures
        after == before,
{
}

/// A push button compares the byte with its own threshold: it reports on
/// exactly for the bytes at or above the threshold, or, when inverted, at or
/// below it, whatever the threshold; and pushing leaves it unchanged.
pub proof fn lemma_push_compares_with_threshold(a: PushBtn, b: PushBtn, data: u8, r: bool)
    requires
        boolean_stepped(BooleanBehaviour::Push(a), BooleanBehaviour::Push(b), data, r),
    ensures
        !a.invert() ==> (r <==> data >= a.threshold()),
        a.invert() ==> (r <==> data <= a.threshold()),
        b == a,
        r == boolean_result(BooleanBehaviour::Push(a), data),
{
}

/// A toggle button sees the byte as "on" exactly when it is above its own
/// threshold (or, reacting to the falling edge, at or below it), remembers
/// that level, and flips its state exactly when the level turns from off to
/// on.
pub proof fn lemma_toggle_compares_with_threshold(a: ToggleBtn, b: ToggleBtn, data: u8)
    requires
        toggle_stepped(a, b, data),
    ensures
        b.previous_val() == if a.falling_edge() {
            data <= a.threshold()
        } else {
            data > a.threshold()
        },
        b.current_state() == if b.previous_val() && !a.previous_val() {
            !a.current_state()
        } else {
            a.current_state()
        },
        b.threshold() == a.threshold(),
        b.falling_edge() == a.falling_edge(),
{
}

} // verus!
