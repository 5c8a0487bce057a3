//! An in-memory pin handle that records the mode it was put into.

use vstd::prelude::*;
use crate::mode::Mode;

verus! {

/// What a pin is, as far as contracts are concerned.
pub ghost struct PinView {
    pub mode: Mode,
    /// A faulty line refuses every attempt to drive a level onto it.
    pub faulty: bool,
}

impl PinView {
    /// The same line in another mode.
    pub open spec fn with_mode(self, mode: Mode) -> PinView {
        PinView { mode, faulty: self.faulty }
    }

    /// The line after an attempt to drive it to the level of `driven`.
    pub open spec fn drive(self, driven: Mode) -> PinView {
        self.with_mode(self.mode.after_drive(!self.faulty, driven))
    }

    /// Whether an attempt to drive a level is accepted.
    pub open spec fn drivable(self) -> bool {
        self.mode == Mode::Output && !self.faulty
    }
}

/// The driver refused to set a level.
#[derive(Clone, Copy, Debug, PartialEq, Eq, Structural)]
pub struct DriveError;

/// One GPIO line. It is owned by exactly one holder at a time, and its mode
/// changes only through the transitions below.
#[derive(Debug)]
pub struct Pin {
    mode: Mode,
    faulty: bool,
}

impl View for Pin {
    type V = PinView;

    closed spec fn view(&self) -> PinView {
        PinView { mode: self.mode, faulty: self.faulty }
    }
}

impl Pin {
    /// A healthy line that no transition has touched.
    pub fn new() -> (pin: Pin)
        ensures
            pin@ == (PinView { mode: Mode::Unconfigured, faulty: false }),
    {
        Pin { mode: Mode::Unconfigured, faulty: false }
    }

    /// An untouched line on which every drive attempt fails. It stands for
    /// hardware that refuses a level, so that the failure path can be
    /// rehearsed without it.
    pub fn new_faulty() -> (pin: Pin)
        ensures
            pin@ == (PinView { mode: Mode::Unconfigured, faulty: true }),
    {
        Pin { mode: Mode::Unconfigured, faulty: true }
    }

    /// The mode the pin is in.
    pub fn mode(&self) -> (mode: Mode)
        ensures
            mode == self@.mode,
    {
        self.mode
    }

    /// Whether drive attempts on this line fail.
    pub fn is_faulty(&self) -> (faulty: bool)
        ensures
            faulty == self@.faulty,
    {
        self.faulty
    }

    pub fn into_pull_down_input(self) -> (pin: Pin)
        ensures
            pin@ == self@.with_mode(Mode::InputPullDown),
    {
        Pin { mode: Mode::InputPullDown, faulty: self.faulty }
    }

    pub fn into_pull_up_input(self) -> (pin: Pin)
        ensures
            pin@ == self@.with_mode(Mode::InputPullUp),
    {
        Pin { mode: Mode::InputPullUp, faulty: self.faulty }
    }

    pub fn into_floating_input(self) -> (pin: Pin)
        ensures
            pin@ == self@.with_mode(Mode::InputFloating),
    {
        Pin { mode: Mode::InputFloating, faulty: self.faulty }
    }

    pub fn into_push_pull_output(self) -> (pin: Pin)
        ensures
            pin@ == self@.with_mode(Mode::Output),
    {
        Pin { mode: Mode::Output, faulty: self.faulty }
    }

    /// Drives the line low. Only a fresh output on a healthy line accepts
    /// the level; any other pin ends up `Invalid` and the refusal is
    /// returned.
    pub fn set_low(&mut self) -> (r: Result<(), DriveError>)
        ensures
            final(self)@ == old(self)@.drive(Mode::OutputLow),
            r is Ok <==> old(self)@.drivable(),
    {
        if matches!(self.mode, Mode::Output) && !self.faulty {
            self.mode = Mode::OutputLow;
            Ok(())
        } else {
            self.mode = Mode::Invalid;
            Err(DriveError)
        }
    }

    /// Drives the line high, under the same rule as [`Pin::set_low`].
    pub fn set_high(&mut self) -> (r: Result<(), DriveError>)
        ensures
            final(self)@ == old(self)@.drive(Mode::OutputHigh),
            r is Ok <==> old(self)@.drivable(),
    {
        if matches!(self.mode, Mode::Output) && !self.faulty {
            self.mode = Mode::OutputHigh;
            Ok(())
        } else {
            self.mode = Mode::Invalid;
            Err(DriveError)
        }
    }

    pub fn into_pull_down_disabled(&mut self) -> (pin: &mut Pin)
        ensures
            pin@ == old(self)@.with_mode(Mode::DisabledPullDown),
            final(self)@ == final(pin)@,
    {
        self.mode = Mode::DisabledPullDown;
        self
    }

    pub fn into_pull_up_disabled(&mut self) -> (pin: &mut Pin)
        ensures
            pin@ == old(self)@.with_mode(Mode::DisabledPullUp),
            final(self)@ == final(pin)@,
    {
        self.mode = Mode::DisabledPullUp;
        self
    }

    pub fn into_floating_disabled(&mut self) -> (pin: &mut Pin)
        ensures
            pin@ == old(self)@.with_mode(Mode::DisabledFloating),
            final(self)@ == final(pin)@,
    {
        self.mode = Mode::DisabledFloating;
        self
    }

    /// Hands the pin to the peripheral function that `F` selects.
    pub fn into_mode<F>(&mut self) -> (pin: &mut Pin)
        ensures
            pin@ == old(self)@.with_mode(Mode::PeripheralFunction),
            final(self)@ == final(pin)@,
    {
        self.mode = Mode::PeripheralFunction;
        self
    }
}

} // verus!
