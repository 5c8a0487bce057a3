//! The modes a pin can be in, and the transitions between them.

use vstd::prelude::*;

verus! {

/// The electrical or functional configuration of one pin.
#[derive(Clone, Copy, Debug, PartialEq, Eq, Structural)]
pub enum Mode {
    InputPullDown,
    InputPullUp,
    InputFloating,
    /// Push-pull output whose level has not been driven yet.
    Output,
    OutputLow,
    OutputHigh,
    DisabledPullDown,
    DisabledPullUp,
    DisabledFloating,
    /// Routed to an on-chip peripheral instead of general-purpose I/O.
    PeripheralFunction,
    /// The mode of a pin that no transition has touched.
    Unconfigured,
    /// Marks a pin whose level could not be driven.
    Invalid,
}

impl Mode {
    /// The modes in which the configuration of a pin has ended well.
    pub open spec fn is_configured(self) -> bool {
        self != Mode::Unconfigured && self != Mode::Invalid
    }

    /// The mode that follows an attempt to drive a level: `driven` where the
    /// pin was a fresh output and the driver accepted the level, `Invalid`
    /// in every other case.
    pub open spec fn after_drive(self, accepted: bool, driven: Mode) -> Mode {
        if self == Mode::Output && accepted {
            driven
        } else {
            Mode::Invalid
        }
    }
}

} // verus!
