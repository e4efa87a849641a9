//! Colours as whole hundredths of full intensity per channel.

use vstd::prelude::*;

verus! {

/// An opaque colour. Each channel counts hundredths of full intensity, so
/// `Rgb { red: 35, green: 75, blue: 35 }` is 0.35, 0.75, 0.35.
#[derive(Clone, Copy, Debug, PartialEq, Eq, Structural)]
pub struct Rgb {
    pub red: u8,
    pub green: u8,
    pub blue: u8,
}

impl Rgb {
    /// No channel exceeds full intensity.
    pub open spec fn wf(self) -> bool {
        self.red <= 100 && self.green <= 100 && self.blue <= 100
    }

    /// The grey whose three channels all hold `level`.
    pub open spec fn grey_spec(level: u8) -> Rgb {
        Rgb { red: level, green: level, blue: level }
    }

    /// The grey whose three channels all hold `level`.
    pub fn grey(level: u8) -> (shade: Rgb)
        ensures
            shade == Rgb::grey_spec(level),
            level <= 100 ==> shade.wf(),
    {
        Rgb { red: level, green: level, blue: level }
    }
}

} // verus!
