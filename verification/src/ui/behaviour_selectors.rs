//! The behaviour settings chosen in the UI and the behaviours they build.
use vstd::prelude::*;
use crate::behaviours::axis_behaviours::{
    AbsoluteAxis, AxisBehaviour, BinaryOffsetRelativeAxis, CustomRelativeAxis, SignMagnitudeRelativeAxis,
    TwosComplimentRelativeAxis,
};
use crate::behaviours::button_behaviours::{BooleanBehaviour, PushBtn, ToggleBtn};

verus! {

/// The button behaviour settings edited in the UI.
#[derive(Clone, Copy, Debug, PartialEq, Eq, Structural)]
pub enum BoolBehaviourState {
    Toggle { threshold: u8, invert: bool },
    Push { threshold: u8, invert: bool },
}

/// The axis behaviour settings edited in the UI.
#[derive(Clone, Copy, Debug, PartialEq, Eq, Structural)]
pub enum AxisBehaviourState {
    BinaryOffsetRelative {},
    MidiAbsolute {},
    TwosComplimentRelative {},
    SignMagnitudeRelative {},
    CustomRelative { threshold: u8, invert: bool },
    CustomAbsolute { min_in: u8, max_in: u8 },
}

/// The entries of the button behaviour selector.
#[derive(Clone, Copy, Debug, PartialEq, Eq, Structural)]
pub enum BoolBehaviourKind {
    Toggle,
    Push,
}

/// The entries of the axis behaviour selector.
#[derive(Clone, Copy, Debug, PartialEq, Eq, Structural)]
pub enum AxisBehaviourKind {
    BinaryOffsetRelative,
    MidiAbsolute,
    TwosComplimentRelative,
    SignMagnitudeRelative,
    CustomRelative,
    CustomAbsolute,
}

/// The selector entry of a button setting.
pub open spec fn bool_kind_of(state: BoolBehaviourState) -> BoolBehaviourKind {
    match state {
        BoolBehaviourState::Toggle { .. } => BoolBehaviourKind::Toggle,
        BoolBehaviourState::Push { .. } => BoolBehaviourKind::Push,
    }
}

/// The selector entry of an axis setting.
pub open spec fn axis_kind_of(state: AxisBehaviourState) -> AxisBehaviourKind {
    match state {
        AxisBehaviourState::BinaryOffsetRelative {} => AxisBehaviourKind::BinaryOffsetRelative,
        AxisBehaviourState::MidiAbsolute {} => AxisBehaviourKind::MidiAbsolute,
        AxisBehaviourState::TwosComplimentRelative {} => AxisBehaviourKind::TwosComplimentRelative,
        AxisBehaviourState::SignMagnitudeRelative {} => AxisBehaviourKind::SignMagnitudeRelative,
        AxisBehaviourState::CustomRelative { .. } => AxisBehaviourKind::CustomRelative,
        AxisBehaviourState::CustomAbsolute { .. } => AxisBehaviourKind::CustomAbsolute,
    }
}

/// The setting a selector entry starts with: threshold 64, not inverted, for
/// the buttons and the custom relative axis; the full MIDI range for the
/// custom absolute axis.
pub open spec fn bool_kind_default(kind: BoolBehaviourKind) -> BoolBehaviourState {
    match kind {
        BoolBehaviourKind::Toggle => BoolBehaviourState::Toggle { threshold: 64, invert: false },
        BoolBehaviourKind::Push => BoolBehaviourState::Push { threshold: 64, invert: false },
    }
}

/// The setting an axis selector entry starts with.
pub open spec fn axis_kind_default(kind: AxisBehaviourKind) -> AxisBehaviourState {
    match kind {
        AxisBehaviourKind::BinaryOffsetRelative => AxisBehaviourState::BinaryOffsetRelative {},
        AxisBehaviourKind::MidiAbsolute => AxisBehaviourState::MidiAbsolute {},
        AxisBehaviourKind::TwosComplimentRelative => AxisBehaviourState::TwosComplimentRelative {},
        AxisBehaviourKind::SignMagnitudeRelative => AxisBehaviourState::SignMagnitudeRelative {},
        AxisBehaviourKind::CustomRelative => AxisBehaviourState::CustomRelative { threshold: 64, invert: false },
        AxisBehaviourKind::CustomAbsolute => AxisBehaviourState::CustomAbsolute { min_in: 0, max_in: 127 },
    }
}

impl BoolBehaviourState {
    /// The setting after the user picks `kind` in the selector: picking the
    /// entry already shown keeps the setting, another entry starts afresh.
    pub fn select(self, kind: BoolBehaviourKind) -> (r: Self)
        ensures
            r == bool_selected(self, kind),
    {
        match kind {
            BoolBehaviourKind::Toggle => match self {
                BoolBehaviourState::Toggle { .. } => self,
                _ => BoolBehaviourState::Toggle { threshold: 64, invert: false },
            },
            BoolBehaviourKind::Push => match self {
                BoolBehaviourState::Push { .. } => self,
                _ => BoolBehaviourState::Push { threshold: 64, invert: false },
            },
        }
    }

    /// The button behaviour this setting builds, in its initial state.
    pub fn make_behaviour(self) -> (r: BooleanBehaviour)
        ensures
            match self {
                BoolBehaviourState::Toggle { threshold, invert } => r matches BooleanBehaviour::Toggle(b) && {
                    &&& !b.current_state()
                    &&& !b.previous_val()
                    &&& b.threshold() == threshold
                    &&& b.falling_edge() == invert
                },
                BoolBehaviourState::Push { threshold, invert } => r matches BooleanBehaviour::Push(b)
                    && b.threshold() == threshold && b.invert() == invert,
            },
    {
        match self {
            BoolBehaviourState::Toggle { threshold, invert } => BooleanBehaviour::Toggle(
                ToggleBtn::new(threshold, Some(invert)),
            ),
            BoolBehaviourState::Push { threshold, invert } => BooleanBehaviour::Push(
                PushBtn::new(threshold, Some(invert)),
            ),
        }
    }
}

impl AxisBehaviourState {
    /// The setting after the user picks `kind` in the selector.
    pub fn select(self, kind: AxisBehaviourKind) -> (r: Self)
        ensures
            r == axis_selected(self, kind),
    {
        let current = match self {
            AxisBehaviourState::BinaryOffsetRelative {} => AxisBehaviourKind::BinaryOffsetRelative,
            AxisBehaviourState::MidiAbsolute {} => AxisBehaviourKind::MidiAbsolute,
            AxisBehaviourState::TwosComplimentRelative {} => AxisBehaviourKind::TwosComplimentRelative,
            AxisBehaviourState::SignMagnitudeRelative {} => AxisBehaviourKind::SignMagnitudeRelative,
            AxisBehaviourState::CustomRelative { .. } => AxisBehaviourKind::CustomRelative,
            AxisBehaviourState::CustomAbsolute { .. } => AxisBehaviourKind::CustomAbsolute,
        };
        if current == kind {
            self
        } else {
            match kind {
                AxisBehaviourKind::BinaryOffsetRelative => AxisBehaviourState::BinaryOffsetRelative {},
                AxisBehaviourKind::MidiAbsolute => AxisBehaviourState::MidiAbsolute {},
                AxisBehaviourKind::TwosComplimentRelative => AxisBehaviourState::TwosComplimentRelative {},
                AxisBehaviourKind::SignMagnitudeRelative => AxisBehaviourState::SignMagnitudeRelative {},
                AxisBehaviourKind::CustomRelative => AxisBehaviourState::CustomRelative { threshold: 64, invert: false },
                AxisBehaviourKind::CustomAbsolute => AxisBehaviourState::CustomAbsolute { min_in: 0, max_in: 127 },
            }
        }
    }

    /// The axis behaviour this setting builds: the relative encoders start at
    /// level 0 and are not inverted, the custom relative axis steps by 1, and
    /// both absolute settings map onto the volume range `0..=100` (the MIDI
    /// absolute setting from the full range `0..=127`).
    pub fn make_behaviour(self) -> (r: AxisBehaviour)
        ensures
            match self {
                AxisBehaviourState::BinaryOffsetRelative {} => r matches AxisBehaviour::BinaryOffsetRelative(a)
                    && a.curr_val() == 0 && !a.invert(),
                AxisBehaviourState::MidiAbsolute {} => r matches AxisBehaviour::Absolute(a) && a.min_in() == 0
                    && a.max_in() == 127 && a.min_out() == 0 && a.max_out() == 100,
                AxisBehaviourState::TwosComplimentRelative {} => r matches AxisBehaviour::TwosComplimentRelative(
                    a,
                ) && a.curr_val() == 0 && !a.invert(),
                AxisBehaviourState::SignMagnitudeRelative {} => r matches AxisBehaviour::SignMagnitudeRelative(
                    a,
                ) && a.curr_val() == 0 && !a.invert(),
                AxisBehaviourState::CustomRelative { threshold, invert } => r matches AxisBehaviour::CustomRelative(
                    a,
                ) && a.curr_val() == 0 && a.threshold() == threshold && a.invert() == invert && a.step() == 1,
                AxisBehaviourState::CustomAbsolute { min_in, max_in } => r matches AxisBehaviour::Absolute(a)
                    && a.min_in() == min_in && a.max_in() == max_in && a.min_out() == 0 && a.max_out() == 100,
            },
    {
        match self {
            AxisBehaviourState::BinaryOffsetRelative {} => AxisBehaviour::BinaryOffsetRelative(
                BinaryOffsetRelativeAxis::new(None),
            ),
            AxisBehaviourState::MidiAbsolute {} => AxisBehaviour::Absolute(AbsoluteAxis::new(0, 127, 0, 100)),
            AxisBehaviourState::TwosComplimentRelative {} => AxisBehaviour::TwosComplimentRelative(
                TwosComplimentRelativeAxis::new(None),
            ),
            AxisBehaviourState::SignMagnitudeRelative {} => AxisBehaviour::SignMagnitudeRelative(
                SignMagnitudeRelativeAxis::new(None),
            ),
            AxisBehaviourState::CustomRelative { threshold, invert } => AxisBehaviour::CustomRelative(
                CustomRelativeAxis::new(threshold, Some(invert), None),
            ),
            AxisBehaviourState::CustomAbsolute { min_in, max_in } => AxisBehaviour::Absolute(
                AbsoluteAxis::new(min_in, max_in, 0, 100),
            ),
        }
    }
}


impl Default for BoolBehaviourState {
    /// A button that has no setting yet shows as a toggle at threshold 64.
    fn default() -> (r: Self)
        ensures
            r == (BoolBehaviourState::Toggle { threshold: 64, invert: false }),
    {
        BoolBehaviourState::Toggle { threshold: 64, invert: false }
    }
}

impl Default for AxisBehaviourState {
    /// An axis that has no setting yet shows as a MIDI absolute axis.
    fn default() -> (r: Self)
        ensures
            r == (AxisBehaviourState::MidiAbsolute {}),
    {
        AxisBehaviourState::MidiAbsolute {}
    }
}

/// The setting after picking `kind` in the axis selector.
pub open spec fn axis_selected(state: AxisBehaviourState, kind: AxisBehaviourKind) -> AxisBehaviourState {
    if axis_kind_of(state) == kind {
        state
    } else {
        axis_kind_default(kind)
    }
}

/// The setting after picking `kind` in the button selector.
pub open spec fn bool_selected(state: BoolBehaviourState, kind: BoolBehaviourKind) -> BoolBehaviourState {
    if bool_kind_of(state) == kind {
        state
    } else {
        bool_kind_default(kind)
    }
}

/// Picking an entry of the axis selector always gives a setting of the
/// picked entry, whatever was shown before; picking the entry already shown
/// keeps the parameters that were set; picking another entry starts with
/// threshold 64 (not inverted) or the full MIDI range.
pub proof fn lemma_axis_select_gives_the_pick(state: AxisBehaviourState, kind: AxisBehaviourKind)
    ensures
        (kind is BinaryOffsetRelative) == (axis_selected(state, kind) is BinaryOffsetRelative),
        (kind is MidiAbsolute) == (axis_selected(state, kind) is MidiAbsolute),
        (kind is TwosComplimentRelative) == (axis_selected(state, kind) is TwosComplimentRelative),
        (kind is SignMagnitudeRelative) == (axis_selected(state, kind) is SignMagnitudeRelative),
        (kind is CustomRelative) == (axis_selected(state, kind) is CustomRelative),
        (kind is CustomAbsolute) == (axis_selected(state, kind) is CustomAbsolute),
        (state is CustomRelative && kind is CustomRelative) ==> axis_selected(state, kind) == state,
        (state is CustomAbsolute && kind is CustomAbsolute) ==> axis_selected(state, kind) == state,
        (!(state is CustomRelative) && kind is CustomRelative) ==> axis_selected(state, kind)
            == (AxisBehaviourState::CustomRelative { threshold: 64, invert: false }),
        (!(state is CustomAbsolute) && kind is CustomAbsolute) ==> axis_selected(state, kind)
            == (AxisBehaviourState::CustomAbsolute { min_in: 0, max_in: 127 }),
{
}

/// Picking an entry of the button selector always gives a setting of the
/// picked entry; picking the entry already shown keeps its threshold and
/// inversion, picking the other one starts at threshold 64, not inverted.
pub proof fn lemma_bool_select_gives_the_pick(state: BoolBehaviourState, kind: BoolBehaviourKind)
    ensures
        (kind is Toggle) == (bool_selected(state, kind) is Toggle),
        (kind is Push) == (bool_selected(state, kind) is Push),
        (state is Toggle && kind is Toggle) ==> bool_selected(state, kind) == state,
        (state is Push && kind is Push) ==> bool_selected(state, kind) == state,
        (state is Toggle && kind is Push) ==> bool_selected(state, kind)
            == (BoolBehaviourState::Push { threshold: 64, invert: false }),
        (state is Push && kind is Toggle) ==> bool_selected(state, kind)
            == (BoolBehaviourState::Toggle { threshold: 64, invert: false }),
{
}

} // verus!
