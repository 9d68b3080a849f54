//! The closed set of display-mode renderers: a sum type dispatched by
//! exhaustive match, since the mode set is fixed at compile time.

use vstd::prelude::*;

use crate::color::Rgba8;

verus! {

/// Number of defined display modes.
pub const MODE_MAX: u16 = 3;

/// How much of the cross-fade toward a newly selected mode completes per
/// tick.
pub const MODE_STEP: u8 = 12;

/// A display mode.
#[derive(PartialEq, Eq, Structural, Hash, Clone, Copy, Debug)]
pub enum Modes {
    Solid,
    CheckerBoard,
    Wheel,
}

impl Modes {
    /// The mode a stored index stands for. An index at or above `MODE_MAX`
    /// names no mode; the system refuses to run on one rather than drive
    /// undefined output, so such an index is excluded here.
    pub fn from_value(i: u16) -> (r: Self)
        requires
            i < MODE_MAX,
        ensures
            r == (match i {
                0u16 => Modes::Solid,
                1u16 => Modes::Wheel,
                _ => Modes::CheckerBoard,
            }),
    {
        match i {
            0 => Modes::Solid,
            1 => Modes::Wheel,
            _ => Modes::CheckerBoard,
        }
    }
}

/// The selected mode together with the progress of the cross-fade that a
/// mode change starts; a `pct` of 255 means the fade is complete.
#[derive(PartialEq, Eq, Structural, Debug)]
pub struct ModeSet {
    pub mode: Modes,
    pub pct: u8,
}

/// Renders every pixel in the plain base color.
#[derive(Debug, Clone, Copy)]
pub struct SolidRunner {
    pub color: Rgba8,
}

impl SolidRunner {
    /// Adopt the base color unchanged.
    pub fn update_mode(&mut self, color: &Rgba8)
        ensures
            final(self).color == *color,
    {
        self.color = *color;
    }

    /// Fill the whole frame with the stored color.
    pub fn run_mode(&self, _timestamp: u64, data: &mut Vec<Rgba8>)
        ensures
            final(data)@.len() == old(data)@.len(),
            forall|i: int| 0 <= i < final(data)@.len() ==> #[trigger] final(data)@[i] == self.color,
    {
        fill_frame(data, &self.color);
    }
}

/// Renders the base color with its red, green and blue channels rotated one
/// place.
#[derive(Debug, Clone, Copy)]
pub struct CheckerBoardRunner {
    pub color: Rgba8,
}

impl CheckerBoardRunner {
    /// Adopt the base color with channels rotated r←g, g←b, b←r.
    pub fn update_mode(&mut self, color: &Rgba8)
        ensures
            final(self).color == (Rgba8 { r: color.g, g: color.b, b: color.r, a: color.a }),
    {
        self.color.r = color.g;
        self.color.g = color.b;
        self.color.b = color.r;
        self.color.a = color.a;
    }

    /// Fill the whole frame with the stored color.
    pub fn run_mode(&self, _timestamp: u64, data: &mut Vec<Rgba8>)
        ensures
            final(data)@.len() == old(data)@.len(),
            forall|i: int| 0 <= i < final(data)@.len() ==> #[trigger] final(data)@[i] == self.color,
    {
        fill_frame(data, &self.color);
    }
}

/// Renders the base color with its red, green and blue channels rotated the
/// other way.
#[derive(Debug, Clone, Copy)]
pub struct WheelRunner {
    pub color: Rgba8,
}

impl WheelRunner {
    /// Adopt the base color with channels rotated r←b, g←r, b←g.
    pub fn update_mode(&mut self, color: &Rgba8)
        ensures
            final(self).color == (Rgba8 { r: color.b, g: color.r, b: color.g, a: color.a }),
    {
        self.color.r = color.b;
        self.color.g = color.r;
        self.color.b = color.g;
        self.color.a = color.a;
    }

    /// Fill the whole frame with the stored color.
    pub fn run_mode(&self, _timestamp: u64, data: &mut Vec<Rgba8>)
        ensures
            final(data)@.len() == old(data)@.len(),
            forall|i: int| 0 <= i < final(data)@.len() ==> #[trigger] final(data)@[i] == self.color,
    {
        fill_frame(data, &self.color);
    }
}

/// One renderer per mode, dispatched by exhaustive match.
#[derive(Debug, Clone, Copy)]
pub enum ModeRunner {
    SolidRunner(SolidRunner),
    CheckerBoardRunner(CheckerBoardRunner),
    WheelRunner(WheelRunner),
}

/// The color a runner holds, whichever variant it is.
pub open spec fn spec_runner_color(r: ModeRunner) -> Rgba8 {
    match r {
        ModeRunner::SolidRunner(inner) => inner.color,
        ModeRunner::CheckerBoardRunner(inner) => inner.color,
        ModeRunner::WheelRunner(inner) => inner.color,
    }
}

/// The color a runner adopts from a base color: the solid mode keeps it,
/// the other modes rotate its color channels.
pub open spec fn spec_runner_update(r: ModeRunner, color: Rgba8) -> Rgba8 {
    match r {
        ModeRunner::SolidRunner(_) => color,
        ModeRunner::CheckerBoardRunner(_) => Rgba8 {
            r: color.g,
            g: color.b,
            b: color.r,
            a: color.a,
        },
        ModeRunner::WheelRunner(_) => Rgba8 { r: color.b, g: color.r, b: color.g, a: color.a },
    }
}

impl ModeRunner {
    /// Hand the new base color to whichever renderer this is.
    pub fn update_mode(&mut self, color: &Rgba8)
        ensures
            spec_runner_color(*final(self)) == spec_runner_update(*old(self), *color),
            ((*final(self)) is SolidRunner) == ((*old(self)) is SolidRunner),
            ((*final(self)) is CheckerBoardRunner) == ((*old(self)) is CheckerBoardRunner),
            ((*final(self)) is WheelRunner) == ((*old(self)) is WheelRunner),
    {
        match self {
            ModeRunner::SolidRunner(inner) => inner.update_mode(color),
            ModeRunner::CheckerBoardRunner(inner) => inner.update_mode(color),
            ModeRunner::WheelRunner(inner) => inner.update_mode(color),
        }
    }

    /// Render one frame with whichever renderer this is.
    pub fn run_mode(&self, timestamp: u64, data: &mut Vec<Rgba8>)
        ensures
            final(data)@.len() == old(data)@.len(),
            forall|i: int|
                0 <= i < final(data)@.len() ==> #[trigger] final(data)@[i] == spec_runner_color(
                    *self,
                ),
    {
        match self {
            ModeRunner::SolidRunner(inner) => inner.run_mode(timestamp, data),
            ModeRunner::CheckerBoardRunner(inner) => inner.run_mode(timestamp, data),
            ModeRunner::WheelRunner(inner) => inner.run_mode(timestamp, data),
        }
    }
}

/// Overwrite every pixel of the frame with one color.
fn fill_frame(data: &mut Vec<Rgba8>, color: &Rgba8)
    ensures
        final(data)@.len() == old(data)@.len(),
        forall|i: int| 0 <= i < final(data)@.len() ==> #[trigger] final(data)@[i] == *color,
{
    let n = data.len();
    let mut i: usize = 0;
    while i < n
        invariant
            i <= n,
            n == data@.len(),
            data@.len() == old(data)@.len(),
            forall|j: int| 0 <= j < i ==> #[trigger] data@[j] == *color,
        decreases n - i,
    {
        data[i] = *color;
        i = i + 1;
    }
}

/// One fresh renderer per mode, each starting from a dark color, in the
/// order of the mode indices: solid, wheel, checker board.
pub fn get_mode_runners() -> (runners: Vec<ModeRunner>)
    ensures
        runners@.len() == MODE_MAX,
        runners@[0] == ModeRunner::SolidRunner(
            SolidRunner { color: Rgba8 { r: 0, g: 0, b: 0, a: 0 } },
        ),
        runners@[1] == ModeRunner::WheelRunner(
            WheelRunner { color: Rgba8 { r: 0, g: 0, b: 0, a: 0 } },
        ),
        runners@[2] == ModeRunner::CheckerBoardRunner(
            CheckerBoardRunner { color: Rgba8 { r: 0, g: 0, b: 0, a: 0 } },
        ),
{
    let dark = Rgba8 { r: 0, g: 0, b: 0, a: 0 };
    let mut runners: Vec<ModeRunner> = Vec::new();
    runners.push(ModeRunner::SolidRunner(SolidRunner { color: dark }));
    runners.push(ModeRunner::WheelRunner(WheelRunner { color: dark }));
    runners.push(ModeRunner::CheckerBoardRunner(CheckerBoardRunner { color: dark }));
    runners
}

} // verus!
