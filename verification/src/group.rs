//! The kinds of group a pinout is made of, and what each does to one pin.

use vstd::prelude::*;
use crate::mode::Mode;
use crate::pin::{DriveError, Pin, PinView};

verus! {

/// The form of one group of a pinout: the mode its pins are to take.
#[derive(Clone, Copy, Debug, PartialEq, Eq, Structural)]
pub enum GroupKind {
    InputPullDown,
    InputPullUp,
    InputFloating,
    Output,
    OutputLow,
    OutputHigh,
    DisabledPullDown,
    DisabledPullUp,
    DisabledFloating,
    Spi,
}

impl GroupKind {
    /// The mode that the group designates for its pins.
    pub open spec fn target(self) -> Mode {
        match self {
            GroupKind::InputPullDown => Mode::InputPullDown,
            GroupKind::InputPullUp => Mode::InputPullUp,
            GroupKind::InputFloating => Mode::InputFloating,
            GroupKind::Output => Mode::Output,
            GroupKind::OutputLow => Mode::OutputLow,
            GroupKind::OutputHigh => Mode::OutputHigh,
            GroupKind::DisabledPullDown => Mode::DisabledPullDown,
            GroupKind::DisabledPullUp => Mode::DisabledPullUp,
            GroupKind::DisabledFloating => Mode::DisabledFloating,
            GroupKind::Spi => Mode::PeripheralFunction,
        }
    }

    /// The two kinds that take a second step: after the pin has become an
    /// output, a level is driven onto it.
    pub open spec fn drives_level(self) -> bool {
        self == GroupKind::OutputLow || self == GroupKind::OutputHigh
    }

    /// Whether configuring `pin` under this kind meets a refused drive.
    pub open spec fn fails_on(self, pin: PinView) -> bool {
        self.drives_level() && pin.faulty
    }

    /// The pin after it has been configured under this kind, whatever mode
    /// it was in before.
    pub open spec fn outcome(self, pin: PinView) -> PinView {
        if self.drives_level() {
            pin.with_mode(Mode::Output).drive(self.target())
        } else {
            pin.with_mode(self.target())
        }
    }

    /// The mode that the group designates for its pins.
    pub fn target_mode(self) -> (mode: Mode)
        ensures
            mode == self.target(),
    {
        match self {
            GroupKind::InputPullDown => Mode::InputPullDown,
            GroupKind::InputPullUp => Mode::InputPullUp,
            GroupKind::InputFloating => Mode::InputFloating,
            GroupKind::Output => Mode::Output,
            GroupKind::OutputLow => Mode::OutputLow,
            GroupKind::OutputHigh => Mode::OutputHigh,
            GroupKind::DisabledPullDown => Mode::DisabledPullDown,
            GroupKind::DisabledPullUp => Mode::DisabledPullUp,
            GroupKind::DisabledFloating => Mode::DisabledFloating,
            GroupKind::Spi => Mode::PeripheralFunction,
        }
    }
}

/// Puts one pin into the mode of `kind` and hands it back. The two kinds
/// that drive a level report a refused drive; the pin is then `Invalid`.
pub fn configure_pin(kind: GroupKind, pin: Pin) -> (r: (Pin, Result<(), DriveError>))
    ensures
        r.0@ == kind.outcome(pin@),
        r.1 is Err <==> kind.fails_on(pin@),
{
    match kind {
        GroupKind::InputPullDown => (pin.into_pull_down_input(), Ok(())),
        GroupKind::InputPullUp => (pin.into_pull_up_input(), Ok(())),
        GroupKind::InputFloating => (pin.into_floating_input(), Ok(())),
        GroupKind::Output => (pin.into_push_pull_output(), Ok(())),
        GroupKind::OutputLow => {
            let mut pin = pin.into_push_pull_output();
            let driven = pin.set_low();
            (pin, driven)
        },
        GroupKind::OutputHigh => {
            let mut pin = pin.into_push_pull_output();
            let driven = pin.set_high();
            (pin, driven)
        },
        GroupKind::DisabledPullDown => {
            let mut pin = pin;
            pin.into_pull_down_disabled();
            (pin, Ok(()))
        },
        GroupKind::DisabledPullUp => {
            let mut pin = pin;
            pin.into_pull_up_disabled();
            (pin, Ok(()))
        },
        GroupKind::DisabledFloating => {
            let mut pin = pin;
            pin.into_floating_disabled();
            (pin, Ok(()))
        },
        GroupKind::Spi => {
            let mut pin = pin;
            pin.into_mode::<rp2040_hal::gpio::FunctionSpi>();
            (pin, Ok(()))
        },
    }
}

} // verus!
