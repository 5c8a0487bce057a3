//! The peripheral function that a pinout can claim pins for.

use vstd::prelude::*;

verus! {

/// `rp2040_hal::gpio::FunctionSpi`: the HAL's type-level selector of the SPI
/// function. It is declared opaque: values of it are never made or read
/// here, only the type is named where a pin is handed to the peripheral.
#[verifier::external_type_specification]
#[verifier::external_body]
pub struct ExFunctionSpi(rp2040_hal::gpio::FunctionSpi);

} // verus!
