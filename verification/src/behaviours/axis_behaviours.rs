//! Axis behaviours: turning a MIDI data byte into a volume level.
//!
//! The relative encoders keep a level in `0..=100` and move it by an offset
//! decoded from the data byte; the custom relative axis steps up or down
//! around a threshold; the absolute axis rescales an input range to an output
//! range.
use vstd::prelude::*;

verus! {

/// Clamps an integer into the range of a byte.
pub open spec fn clamp_to_byte(v: int) -> u8 {
    if v < 0 {
        0
    } else if v > 255 {
        255
    } else {
        v as u8
    }
}

/// Adds a signed offset to a byte, saturating at 0 and 255 instead of
/// overflowing (what `u8::saturating_add_signed` computes).
fn saturating_add_signed(x: u8, y: i8) -> (r: u8)
    ensures
        r == clamp_to_byte(x + y),
{
    let v: i16 = x as i16 + y as i16;
    if v < 0 {
        0
    } else if v > 255 {
        255
    } else {
        v as u8
    }
}

/// Clamps an integer into the volume range `0..=100`.
pub open spec fn clamp_to_volume(v: int) -> u8 {
    if v < 0 {
        0
    } else if v > 100 {
        100
    } else {
        v as u8
    }
}

/// Whether bit 6 (value 64) of a data byte is set.
pub open spec fn bit6(data: u8) -> bool {
    (data / 64) % 2 == 1
}

/// The offset a "two's complement" relative encoder decodes: with bit 6
/// set, the low seven bits read as a 7-bit two's complement number, so 127 is
/// one step down and 64 sixty-four steps down; otherwise the byte read as a
/// signed byte, so 1 is one step up and a byte from 128 to 191 (outside the
/// MIDI data range) counts down from 256.
pub open spec fn twos_compliment_offset(data: u8) -> int {
    if bit6(data) {
        (data % 128) - 128
    } else {
        signed_byte(data)
    }
}

/// The offset a "sign magnitude" relative encoder decodes: with bit 6 set
/// (the sign, for down), the low six bits down; otherwise the byte read as a
/// signed byte, so a byte from 128 to 191 (outside the MIDI data range)
/// counts down from 256.
pub open spec fn sign_magnitude_offset(data: u8) -> int {
    if bit6(data) {
        -((data % 64) as int)
    } else {
        signed_byte(data)
    }
}

/// A byte read as a signed byte.
pub open spec fn signed_byte(data: u8) -> int {
    if data < 128 {
        data as int
    } else {
        data - 256
    }
}

/// The offset a "binary offset" relative encoder decodes: the byte minus 64,
/// read as signed.
pub open spec fn binary_offset(data: u8) -> int {
    if data < 192 {
        data - 64
    } else {
        data - 320
    }
}

/// The offset after the optional inversion.
pub open spec fn directed(offset: int, invert: bool) -> int {
    if invert {
        -offset
    } else {
        offset
    }
}

/// The level a relative encoder reaches from `curr` by `offset`: the sum
/// saturated into a byte, then capped at 100.
pub open spec fn relative_level(curr: u8, offset: int) -> u8 {
    if clamp_to_byte(curr + offset) > 100 {
        100
    } else {
        clamp_to_byte(curr + offset)
    }
}

/// Common interface of the axis behaviours.
pub trait AxisBehaviourTrait {
    /// Whether `get` can be given `data` in the current state without an
    /// arithmetic overflow.
    spec fn get_allowed(&self, data: u8) -> bool;

    /// Feeds one MIDI data byte and returns the resulting level.
    fn get(&mut self, data: u8) -> u8
        requires
            old(self).get_allowed(data),
    ;

    /// Forces the level (used to mirror the daemon's state).
    fn set(&mut self, data: u8);
}

/// An axis behaviour.
#[derive(Clone, Copy, Debug)]
pub enum AxisBehaviour {
    Absolute(AbsoluteAxis),
    CustomRelative(CustomRelativeAxis),
    TwosComplimentRelative(TwosComplimentRelativeAxis),
    SignMagnitudeRelative(SignMagnitudeRelativeAxis),
    BinaryOffsetRelative(BinaryOffsetRelativeAxis),
}

/// Maps the input range `min_in..=max_in` linearly onto `min_out..=max_out`.
#[derive(Clone, Copy, Debug)]
pub struct AbsoluteAxis {
    min_in: u8,
    max_in: u8,
    min_out: u8,
    max_out: u8,
}

/// Steps the level up by `step` when the data byte is above the threshold
/// (below it when inverted), down otherwise.
#[derive(Clone, Copy, Debug)]
pub struct CustomRelativeAxis {
    curr_val: u8,
    threshold: u8,
    invert: bool,
    step: u8,
}

/// A relative encoder sending offsets in the "two's complement" style.
#[derive(Clone, Copy, Debug)]
pub struct TwosComplimentRelativeAxis {
    curr_val: u8,
    invert: bool,
}

/// A relative encoder sending offsets in the "sign magnitude" style.
#[derive(Clone, Copy, Debug)]
pub struct SignMagnitudeRelativeAxis {
    curr_val: u8,
    invert: bool,
}

/// A relative encoder sending offsets around 64.
#[derive(Clone, Copy, Debug)]
pub struct BinaryOffsetRelativeAxis {
    curr_val: u8,
    invert: bool,
}

impl AbsoluteAxis {
    /// Lower end of the input range.
    pub closed spec fn min_in(&self) -> u8 {
        self.min_in
    }

    /// Upper end of the input range.
    pub closed spec fn max_in(&self) -> u8 {
        self.max_in
    }

    /// Lower end of the output range.
    pub closed spec fn min_out(&self) -> u8 {
        self.min_out
    }

    /// Upper end of the output range.
    pub closed spec fn max_out(&self) -> u8 {
        self.max_out
    }

    /// An absolute axis with the given ranges.
    pub fn new(min_in: u8, max_in: u8, min_out: u8, max_out: u8) -> (r: AbsoluteAxis)
        ensures
            r.min_in() == min_in,
            r.max_in() == max_in,
            r.min_out() == min_out,
            r.max_out() == max_out,
    {
        AbsoluteAxis { min_in, max_in, min_out, max_out }
    }

    /// The four bounds, in the order `new` takes them.
    pub fn to_parts(&self) -> (r: (u8, u8, u8, u8))
        ensures
            r == (self.min_in(), self.max_in(), self.min_out(), self.max_out()),
    {
        (self.min_in, self.max_in, self.min_out, self.max_out)
    }

    /// An absolute axis keeps no level: setting it changes nothing.
    pub fn set(&mut self, data: u8)
        ensures
            *final(self) == *old(self),
    {
    }
}

impl CustomRelativeAxis {
    /// The current level.
    pub closed spec fn curr_val(&self) -> u8 {
        self.curr_val
    }

    /// The threshold the data byte is compared with.
    pub closed spec fn threshold(&self) -> u8 {
        self.threshold
    }

    /// Whether the direction is inverted.
    pub closed spec fn invert(&self) -> bool {
        self.invert
    }

    /// The amount of one step.
    pub closed spec fn step(&self) -> u8 {
        self.step
    }

    /// Whether `data` steps the level up.
    pub open spec fn steps_up(&self, data: u8) -> bool {
        (data > self.threshold()) != self.invert()
    }

    /// `after` is this axis once it has seen `data`: the configuration is
    /// kept and the level moves one step up or down.
    pub open spec fn stepped(self, after: Self, data: u8) -> bool {
        &&& after.threshold() == self.threshold()
        &&& after.invert() == self.invert()
        &&& after.step() == self.step()
        &&& after.curr_val() == if self.steps_up(data) {
            self.curr_val() + self.step()
        } else {
            self.curr_val() - self.step()
        }
    }

    /// A custom relative axis at level 0; `invert` defaults to false and
    /// `step` to 1.
    pub fn new(threshold: u8, invert: Option<bool>, step: Option<u8>) -> (r: CustomRelativeAxis)
        ensures
            r.curr_val() == 0,
            r.threshold() == threshold,
            r.invert() == (invert == Some(true)),
            r.step() == match step {
                Some(s) => s,
                None => 1u8,
            },
    {
        let invert = match invert {
            Some(b) => b,
            None => false,
        };
        let step = match step {
            Some(s) => s,
            None => 1,
        };
        CustomRelativeAxis { curr_val: 0, threshold, invert, step }
    }

    /// Rebuilds the axis from its parts.
    pub fn from_parts(curr_val: u8, threshold: u8, invert: bool, step: u8) -> (r: Self)
        ensures
            r.curr_val() == curr_val,
            r.threshold() == threshold,
            r.invert() == invert,
            r.step() == step,
    {
        CustomRelativeAxis { curr_val, threshold, invert, step }
    }

    /// The parts of the axis, in the order `from_parts` takes them.
    pub fn to_parts(&self) -> (r: (u8, u8, bool, u8))
        ensures
            r == (self.curr_val(), self.threshold(), self.invert(), self.step()),
    {
        (self.curr_val, self.threshold, self.invert, self.step)
    }
}

impl AxisBehaviourTrait for CustomRelativeAxis {
    open spec fn get_allowed(&self, data: u8) -> bool {
        if self.steps_up(data) {
            self.curr_val() + self.step() <= 255
        } else {
            self.curr_val() >= self.step()
        }
    }

    fn get(&mut self, data: u8) -> (r: u8)
        ensures
            old(self).stepped(*final(self), data),
            r == final(self).curr_val(),
    {
        let mut check = data > self.threshold;
        if self.invert {
            check = !check;
        }
        if check {
            self.curr_val += self.step;
        } else {
            self.curr_val -= self.step;
        }
        self.curr_val
    }

    fn set(&mut self, data: u8)
        ensures
            final(self).curr_val() == data,
            final(self).threshold() == old(self).threshold(),
            final(self).invert() == old(self).invert(),
            final(self).step() == old(self).step(),
    {
        self.curr_val = data;
    }
}


impl TwosComplimentRelativeAxis {
    /// The current level.
    pub closed spec fn curr_val(&self) -> u8 {
        self.curr_val
    }

    /// Whether the direction of the offsets is inverted.
    pub closed spec fn invert(&self) -> bool {
        self.invert
    }

    /// `after` is this encoder once it has seen `data`: the level moves by
    /// the decoded offset (inverted if asked), saturating and capped at 100.
    pub open spec fn stepped(self, after: Self, data: u8) -> bool {
        &&& after.invert() == self.invert()
        &&& after.curr_val() == relative_level(self.curr_val(), directed(twos_compliment_offset(data), self.invert()))
    }

    /// An encoder at level 0; `invert` defaults to false.
    pub fn new(invert: Option<bool>) -> (r: TwosComplimentRelativeAxis)
        ensures
            r.curr_val() == 0,
            r.invert() == (invert == Some(true)),
    {
        let invert = match invert {
            Some(b) => b,
            None => false,
        };
        TwosComplimentRelativeAxis { curr_val: 0, invert }
    }

    /// Rebuilds the encoder from its parts.
    pub fn from_parts(curr_val: u8, invert: bool) -> (r: Self)
        ensures
            r.curr_val() == curr_val,
            r.invert() == invert,
    {
        TwosComplimentRelativeAxis { curr_val, invert }
    }

    /// The parts of the encoder, in the order `from_parts` takes them.
    pub fn to_parts(&self) -> (r: (u8, bool))
        ensures
            r == (self.curr_val(), self.invert()),
    {
        (self.curr_val, self.invert)
    }
}

impl AxisBehaviourTrait for TwosComplimentRelativeAxis {
    /// Inverting the offset of byte 128 (minus 128) overflows.
    open spec fn get_allowed(&self, data: u8) -> bool {
        self.invert() ==> data != 128
    }

    fn get(&mut self, data: u8) -> (r: u8)
        ensures
            old(self).stepped(*final(self), data),
            r == final(self).curr_val(),
            r <= 100,
    {
        let mut offset: i8;
        proof {
            lemma_byte_bits(data);
        }
        if data & 0b0100_0000 != 0 {
            offset = ((data & 0b0111_1111) as i16 - 128) as i8;
        } else {
            offset = data as i8;
        }
        if self.invert {
            offset = -offset;
        }
        self.curr_val = saturating_add_signed(self.curr_val, offset);
        if self.curr_val > 100 {
            self.curr_val = 100;
        }
        self.curr_val
    }

    fn set(&mut self, data: u8)
        ensures
            final(self).curr_val() == data,
            final(self).invert() == old(self).invert(),
    {
        self.curr_val = data;
    }
}

impl SignMagnitudeRelativeAxis {
    /// The current level.
    pub closed spec fn curr_val(&self) -> u8 {
        self.curr_val
    }

    /// Whether the direction of the offsets is inverted.
    pub closed spec fn invert(&self) -> bool {
        self.invert
    }

    /// `after` is this encoder once it has seen `data`: the level moves by
    /// the decoded offset (inverted if asked), saturating and capped at 100.
    pub open spec fn stepped(self, after: Self, data: u8) -> bool {
        &&& after.invert() == self.invert()
        &&& after.curr_val() == relative_level(self.curr_val(), directed(sign_magnitude_offset(data), self.invert()))
    }

    /// An encoder at level 0; `invert` defaults to false.
    pub fn new(invert: Option<bool>) -> (r: SignMagnitudeRelativeAxis)
        ensures
            r.curr_val() == 0,
            r.invert() == (invert == Some(true)),
    {
        let invert = match invert {
            Some(b) => b,
            None => false,
        };
        SignMagnitudeRelativeAxis { curr_val: 0, invert }
    }

    /// Rebuilds the encoder from its parts.
    pub fn from_parts(curr_val: u8, invert: bool) -> (r: Self)
        ensures
            r.curr_val() == curr_val,
            r.invert() == invert,
    {
        SignMagnitudeRelativeAxis { curr_val, invert }
    }

    /// The parts of the encoder, in the order `from_parts` takes them.
    pub fn to_parts(&self) -> (r: (u8, bool))
        ensures
            r == (self.curr_val(), self.invert()),
    {
        (self.curr_val, self.invert)
    }
}

impl AxisBehaviourTrait for SignMagnitudeRelativeAxis {
    /// Inverting the offset of byte 128 (minus 128) overflows.
    open spec fn get_allowed(&self, data: u8) -> bool {
        self.invert() ==> data != 128
    }

    fn get(&mut self, data: u8) -> (r: u8)
        ensures
            old(self).stepped(*final(self), data),
            r == final(self).curr_val(),
            r <= 100,
    {
        let mut offset: i8;
        proof {
            lemma_byte_bits(data);
        }
        if data & 0b0100_0000 != 0 {
            offset = -((data & 0b0011_1111) as i8);
        } else {
            offset = data as i8;
        }
        if self.invert {
            offset = -offset;
        }
        self.curr_val = saturating_add_signed(self.curr_val, offset);
        if self.curr_val > 100 {
            self.curr_val = 100;
        }
        self.curr_val
    }

    fn set(&mut self, data: u8)
        ensures
            final(self).curr_val() == data,
            final(self).invert() == old(self).invert(),
    {
        self.curr_val = data;
    }
}

impl BinaryOffsetRelativeAxis {
    /// The current level.
    pub closed spec fn curr_val(&self) -> u8 {
        self.curr_val
    }

    /// Whether the direction of the offsets is inverted.
    pub closed spec fn invert(&self) -> bool {
        self.invert
    }

    /// `after` is this encoder once it has seen `data`: the level moves by
    /// the decoded offset (inverted if asked), saturating and capped at 100.
    pub open spec fn stepped(self, after: Self, data: u8) -> bool {
        &&& after.invert() == self.invert()
        &&& after.curr_val() == relative_level(self.curr_val(), directed(binary_offset(data), self.invert()))
    }

    /// An encoder at level 0; `invert` defaults to false.
    pub fn new(invert: Option<bool>) -> (r: BinaryOffsetRelativeAxis)
        ensures
            r.curr_val() == 0,
            r.invert() == (invert == Some(true)),
    {
        let invert = match invert {
            Some(b) => b,
            None => false,
        };
        BinaryOffsetRelativeAxis { curr_val: 0, invert }
    }

    /// Rebuilds the encoder from its parts.
    pub fn from_parts(curr_val: u8, invert: bool) -> (r: Self)
        ensures
            r.curr_val() == curr_val,
            r.invert() == invert,
    {
        BinaryOffsetRelativeAxis { curr_val, invert }
    }

    /// The parts of the encoder, in the order `from_parts` takes them.
    pub fn to_parts(&self) -> (r: (u8, bool))
        ensures
            r == (self.curr_val(), self.invert()),
    {
        (self.curr_val, self.invert)
    }
}

impl AxisBehaviourTrait for BinaryOffsetRelativeAxis {
    open spec fn get_allowed(&self, data: u8) -> bool {
        self.invert() ==> data != 192
    }

    fn get(&mut self, data: u8) -> (r: u8)
        ensures
            old(self).stepped(*final(self), data),
            r == final(self).curr_val(),
            r <= 100,
    {
        proof {
            lemma_binary_offset_cast(data);
        }
        let mut offset = (data as i16 - 64) as i8;
        if self.invert {
            offset = -offset;
        }
        self.curr_val = saturating_add_signed(self.curr_val, offset);
        if self.curr_val > 100 {
            self.curr_val = 100;
        }
        self.curr_val
    }

    fn set(&mut self, data: u8)
        ensures
            final(self).curr_val() == data,
            final(self).invert() == old(self).invert(),
    {
        self.curr_val = data;
    }
}

/// The bit tests and masks the relative encoders use, in arithmetic terms.
proof fn lemma_byte_bits(data: u8)
    ensures
        (data & 64u8 != 0) == bit6(data),
        data & 127u8 == data % 128,
        data & 63u8 == data % 64,
        (data as i8) as int == signed_byte(data),
{
    assert((data & 64u8 != 0) == ((data / 64) % 2 == 1)) by (bit_vector);
    assert(data & 127u8 == data % 128) by (bit_vector);
    assert(data & 63u8 == data % 64) by (bit_vector);
    assert(data < 128 ==> (data as i8) as int == data as int) by (bit_vector);
    assert(data >= 128 ==> (data as i8) as int == data as int - 256) by (bit_vector);
}

/// The cast the binary offset encoder makes, in arithmetic terms.
proof fn lemma_binary_offset_cast(data: u8)
    ensures
        ((data as i16 - 64) as i8) as int == binary_offset(data),
{
    assert(data < 192 ==> ((data as i16 - 64) as i8) as int == data as int - 64) by (bit_vector);
    assert(data >= 192 ==> ((data as i16 - 64) as i8) as int == data as int - 320) by (bit_vector);
}

/// What an axis behaviour reports for `data` and what it becomes: the result
/// of `get` and the new behaviour.
pub open spec fn axis_stepped(before: AxisBehaviour, after: AxisBehaviour, data: u8, r: u8) -> bool {
    match (before, after) {
        (AxisBehaviour::CustomRelative(a), AxisBehaviour::CustomRelative(b)) => a.stepped(b, data)
            && r == b.curr_val(),
        (AxisBehaviour::TwosComplimentRelative(a), AxisBehaviour::TwosComplimentRelative(b)) => a.stepped(
            b,
            data,
        ) && r == b.curr_val(),
        (AxisBehaviour::SignMagnitudeRelative(a), AxisBehaviour::SignMagnitudeRelative(b)) => a.stepped(
            b,
            data,
        ) && r == b.curr_val(),
        (AxisBehaviour::BinaryOffsetRelative(a), AxisBehaviour::BinaryOffsetRelative(b)) => a.stepped(
            b,
            data,
        ) && r == b.curr_val(),
        _ => false,
    }
}

/// What `set(data)` makes of an axis behaviour: the level of a relative axis
/// becomes `data`, its configuration is kept; an absolute axis is unchanged.
pub open spec fn axis_set_to(before: AxisBehaviour, after: AxisBehaviour, data: u8) -> bool {
    match (before, after) {
        (AxisBehaviour::Absolute(a), AxisBehaviour::Absolute(b)) => b == a,
        (AxisBehaviour::CustomRelative(a), AxisBehaviour::CustomRelative(b)) => {
            &&& b.curr_val() == data
            &&& b.threshold() == a.threshold()
            &&& b.invert() == a.invert()
            &&& b.step() == a.step()
        },
        (AxisBehaviour::TwosComplimentRelative(a), AxisBehaviour::TwosComplimentRelative(b)) => b.curr_val()
            == data && b.invert() == a.invert(),
        (AxisBehaviour::SignMagnitudeRelative(a), AxisBehaviour::SignMagnitudeRelative(b)) => b.curr_val()
            == data && b.invert() == a.invert(),
        (AxisBehaviour::BinaryOffsetRelative(a), AxisBehaviour::BinaryOffsetRelative(b)) => b.curr_val()
            == data && b.invert() == a.invert(),
        _ => false,
    }
}

/// The level a relative axis behaviour reports for `data`.
pub open spec fn axis_result(before: AxisBehaviour, data: u8) -> u8 {
    match before {
        AxisBehaviour::CustomRelative(a) => if a.steps_up(data) {
            (a.curr_val() + a.step()) as u8
        } else {
            (a.curr_val() - a.step()) as u8
        },
        AxisBehaviour::TwosComplimentRelative(a) => relative_level(
            a.curr_val(),
            directed(twos_compliment_offset(data), a.invert()),
        ),
        AxisBehaviour::SignMagnitudeRelative(a) => relative_level(
            a.curr_val(),
            directed(sign_magnitude_offset(data), a.invert()),
        ),
        AxisBehaviour::BinaryOffsetRelative(a) => relative_level(
            a.curr_val(),
            directed(binary_offset(data), a.invert()),
        ),
        AxisBehaviour::Absolute(_) => 0,
    }
}

impl AxisBehaviourTrait for AxisBehaviour {
    /// The absolute axis rescales through floating-point arithmetic, which is
    /// left to the application; `get` here serves the relative axes.
    open spec fn get_allowed(&self, data: u8) -> bool {
        match self {
            AxisBehaviour::Absolute(_) => false,
            AxisBehaviour::CustomRelative(a) => a.get_allowed(data),
            AxisBehaviour::TwosComplimentRelative(a) => a.get_allowed(data),
            AxisBehaviour::SignMagnitudeRelative(a) => a.get_allowed(data),
            AxisBehaviour::BinaryOffsetRelative(a) => a.get_allowed(data),
        }
    }

    fn get(&mut self, data: u8) -> (r: u8)
        ensures
            axis_stepped(*old(self), *final(self), data, r),
            r == axis_result(*old(self), data),
    {
        match self {
            AxisBehaviour::CustomRelative(a) => a.get(data),
            AxisBehaviour::TwosComplimentRelative(a) => a.get(data),
            AxisBehaviour::SignMagnitudeRelative(a) => a.get(data),
            AxisBehaviour::BinaryOffsetRelative(a) => a.get(data),
            AxisBehaviour::Absolute(_) => 0,
        }
    }

    fn set(&mut self, data: u8)
        ensures
            axis_set_to(*old(self), *final(self), data),
    {
        match self {
            AxisBehaviour::Absolute(a) => a.set(data),
            AxisBehaviour::CustomRelative(a) => a.set(data),
            AxisBehaviour::TwosComplimentRelative(a) => a.set(data),
            AxisBehaviour::SignMagnitudeRelative(a) => a.set(data),
            AxisBehaviour::BinaryOffsetRelative(a) => a.set(data),
        }
    }
}

impl AxisBehaviour {
    /// Whether `get(data)` is allowed now (see `get_allowed`): false for the
    /// absolute axis, and where a relative axis would overflow.
    pub fn can_get(&self, data: u8) -> (r: bool)
        ensures
            r == self.get_allowed(data),
    {
        match self {
            AxisBehaviour::Absolute(_) => false,
            AxisBehaviour::CustomRelative(a) => {
                let up = (data > a.threshold) != a.invert;
                if up {
                    a.step <= 255 - a.curr_val
                } else {
                    a.curr_val >= a.step
                }
            },
            AxisBehaviour::TwosComplimentRelative(a) => !a.invert || data != 128,
            AxisBehaviour::SignMagnitudeRelative(a) => !a.invert || data != 128,
            AxisBehaviour::BinaryOffsetRelative(a) => !a.invert || data != 192,
        }
    }
}

/// A step up followed by a step down brings a custom relative axis back to
/// its level.
pub proof fn lemma_custom_relative_up_down(
    a: CustomRelativeAxis,
    b: CustomRelativeAxis,
    c: CustomRelativeAxis,
    up: u8,
    down: u8,
)
    requires
        a.get_allowed(up),
        a.steps_up(up),
        !a.steps_up(down),
        a.stepped(b, up),
        b.stepped(c, down),
    ensures
        c.curr_val() == a.curr_val(),
        b.get_allowed(down),
{
}

/// After `set(v)`, a relative encoder fed its neutral byte reports `v`
/// capped at 100.
pub proof fn lemma_set_then_neutral(before: AxisBehaviour, set: AxisBehaviour, after: AxisBehaviour, v: u8, r: u8)
    requires
        axis_set_to(before, set, v),
        match set {
            AxisBehaviour::TwosComplimentRelative(_) => axis_stepped(set, after, 0, r),
            AxisBehaviour::SignMagnitudeRelative(_) => axis_stepped(set, after, 0, r),
            AxisBehaviour::BinaryOffsetRelative(_) => axis_stepped(set, after, 64, r),
            _ => false,
        },
    ensures
        r == if v > 100 {
            100
        } else {
            v
        },
{
}

/// The two's complement and sign magnitude decodings: a byte below 64 is
/// that many steps up; with bit 6 set, a two's complement byte counts down
/// from 128 (127 is one step down, 64 sixty-four) and a sign magnitude byte
/// is its low six bits down, so `m` and `64 + m` move by the same amount in
/// opposite directions; a byte `128 + m` is read as a signed byte by both,
/// `m - 128` steps.
pub proof fn lemma_encoder_decodings(m: u8)
    requires
        m < 64,
    ensures
        twos_compliment_offset(m) == m,
        twos_compliment_offset((m + 64) as u8) == m - 64,
        twos_compliment_offset(127) == -1,
        sign_magnitude_offset(m) == m,
        sign_magnitude_offset((m + 64) as u8) == -sign_magnitude_offset(m),
        twos_compliment_offset((m + 128) as u8) == m - 128,
        sign_magnitude_offset((m + 128) as u8) == m - 128,
{
}

/// The relative encoders never leave the volume range: whatever level they
/// start from, one data byte brings them into `0..=100`.
pub proof fn lemma_encoders_stay_in_volume_range(before: AxisBehaviour, after: AxisBehaviour, data: u8, r: u8)
    requires
        !(before is CustomRelative),
        axis_stepped(before, after, data, r),
    ensures
        r <= 100,
{
}

/// A zero offset leaves a level that is already in range where it is, so the
/// neutral byte of each encoder (0 for the two's complement and sign
/// magnitude styles, 64 for the binary offset style) holds the level.
pub proof fn lemma_neutral_byte_holds_level(before: AxisBehaviour, after: AxisBehaviour, r: u8)
    requires
        match before {
            AxisBehaviour::TwosComplimentRelative(a) => a.curr_val() <= 100
                && axis_stepped(before, after, 0, r),
            AxisBehaviour::SignMagnitudeRelative(a) => a.curr_val() <= 100
                && axis_stepped(before, after, 0, r),
            AxisBehaviour::BinaryOffsetRelative(a) => a.curr_val() <= 100
                && axis_stepped(before, after, 64, r),
            _ => false,
        },
    ensures
        match before {
            AxisBehaviour::TwosComplimentRelative(a) => r == a.curr_val(),
            AxisBehaviour::SignMagnitudeRelative(a) => r == a.curr_val(),
            AxisBehaviour::BinaryOffsetRelative(a) => r == a.curr_val(),
            _ => false,
        },
{
}

/// A custom relative axis compares the byte with its own threshold: a byte
/// above the threshold steps the level up by one step and any other byte
/// steps it down, the other way round when inverted, whatever the threshold;
/// a step is allowed exactly when it stays within a byte.
pub proof fn lemma_custom_relative_compares_with_threshold(a: CustomRelativeAxis, b: CustomRelativeAxis, data: u8)
    requires
        a.stepped(b, data),
    ensures
        (data > a.threshold()) != a.invert() ==> b.curr_val() == a.curr_val() + a.step(),
        (data > a.threshold()) == a.invert() ==> b.curr_val() == a.curr_val() - a.step(),
        a.get_allowed(data) == if (data > a.threshold()) != a.invert() {
            a.curr_val() + a.step() <= 255
        } else {
            a.step() <= a.curr_val()
        },
        AxisBehaviour::CustomRelative(a).get_allowed(data) == a.get_allowed(data),
        b.threshold() == a.threshold() && b.invert() == a.invert() && b.step() == a.step(),
{
}

} // verus!
