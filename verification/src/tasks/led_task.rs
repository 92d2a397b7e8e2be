//! The status light.
//!
//! The light walks round a colour wheel, one step at a fixed cadence, at a
//! fixed reduced brightness. The task decides when a step is due and which
//! colour it shows; writing the colour to the light is left to the caller.

use crate::cadence::{due, is_due, LED_PERIOD};
use vstd::prelude::*;

verus! {

/// Brightness at which the light is driven, on the scale on which 255 leaves
/// a colour as it is.
pub const LED_BRIGHTNESS: u8 = 32;

/// A colour as three intensities.
#[derive(Clone, Copy, Debug, PartialEq, Eq, Structural)]
pub struct Color {
    pub r: u8,
    pub g: u8,
    pub b: u8,
}

/// The colour at a position of the wheel: from red over green to blue and
/// back to red as the position grows.
pub open spec fn wheel_spec(wheel_pos: u8) -> Color {
    let pos = 255 - wheel_pos;
    if pos < 85 {
        Color { r: (255 - pos * 3) as u8, g: 0, b: (pos * 3) as u8 }
    } else if pos < 170 {
        Color { r: 0, g: ((pos - 85) * 3) as u8, b: (255 - (pos - 85) * 3) as u8 }
    } else {
        Color { r: ((pos - 170) * 3) as u8, g: (255 - (pos - 170) * 3) as u8, b: 0 }
    }
}

/// One intensity at a reduced brightness.
pub open spec fn scaled(intensity: u8, level: u8) -> u8 {
    (intensity * (level + 1) / 256) as u8
}

/// A colour at a reduced brightness.
pub open spec fn dimmed_spec(color: Color, level: u8) -> Color {
    Color { r: scaled(color.r, level), g: scaled(color.g, level), b: scaled(color.b, level) }
}

/// The colour at a position of the wheel.
pub fn wheel(wheel_pos: u8) -> (color: Color)
    ensures
        color == wheel_spec(wheel_pos),
{
    let mut pos: u8 = 255 - wheel_pos;
    if pos < 85 {
        Color { r: 255 - pos * 3, g: 0, b: pos * 3 }
    } else if pos < 170 {
        pos -= 85;
        Color { r: 0, g: pos * 3, b: 255 - pos * 3 }
    } else {
        pos -= 170;
        Color { r: pos * 3, g: 255 - pos * 3, b: 0 }
    }
}

/// `smart_leds::brightness` over the one colour, and the first item of the
/// iterator that it returns.
///
/// Trusted: each intensity comes out multiplied by one more than the level
/// and divided by 256, rounded down.
#[verifier::external_body]
fn dimmed(color: Color, level: u8) -> (out: Color)
    ensures
        out == dimmed_spec(color, level),
{
    let source = core::iter::once(smart_leds::RGB8 { r: color.r, g: color.g, b: color.b });
    match smart_leds::brightness(source, level).next() {
        Some(seen) => Color { r: seen.r, g: seen.g, b: seen.b },
        None => color,
    }
}

/// The status light's task: the reading at which the light last changed and
/// the position on the wheel.
pub struct LedTask {
    counter: u64,
    n: u8,
}

impl LedTask {
    /// The clock reading at which the light last changed.
    pub closed spec fn last_change(&self) -> u64 {
        self.counter
    }

    /// The position on the wheel.
    pub closed spec fn position(&self) -> u8 {
        self.n
    }

    /// A task at the start of the wheel. `counter` is the clock reading from
    /// which the first period is counted.
    pub fn new(counter: u64) -> (task: Self)
        ensures
            task.last_change() == counter,
            task.position() == 0,
    {
        Self { counter, n: 0 }
    }

    /// One invocation at the clock reading `now`.
    ///
    /// Once a full period has passed since the light last changed, the
    /// position moves on by one, from 255 back to 0, and the colour to show
    /// comes back: the wheel's colour at the new position, at the reduced
    /// brightness. Before that nothing changes and nothing comes back.
    pub fn step(&mut self, now: u64) -> (shown: Option<Color>)
        ensures
            due(now, old(self).last_change(), LED_PERIOD) ==> {
                &&& final(self).position() == (old(self).position() + 1) % 256
                &&& final(self).last_change() == now
                &&& shown == Some(dimmed_spec(wheel_spec(final(self).position()), LED_BRIGHTNESS))
            },
            !due(now, old(self).last_change(), LED_PERIOD) ==> {
                &&& final(self).position() == old(self).position()
                &&& final(self).last_change() == old(self).last_change()
                &&& shown is None
            },
    {
        if is_due(now, self.counter, LED_PERIOD) {
            self.n = self.n.wrapping_add(1);
            self.counter = now;
            Some(dimmed(wheel(self.n), LED_BRIGHTNESS))
        } else {
            None
        }
    }
}

/// No intensity of a wheel colour is lost on the way round: red, green and
/// blue always add up to 255.
pub proof fn lemma_wheel_sum(wheel_pos: u8)
    ensures
        wheel_spec(wheel_pos).r + wheel_spec(wheel_pos).g + wheel_spec(wheel_pos).b == 255,
{
}

} // verus!
