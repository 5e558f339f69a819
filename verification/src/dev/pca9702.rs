//! Support for the `PCA9702` "8-Bit Input-Only Expander with SPI".
//!
//! The PCA9702 offers eight input pins, with an interrupt output that can be
//! asserted when one or more of the inputs change state.  The device reads
//! its inputs on each falling edge of `CS` and then presents them on
//! `SDOUT` bit-by-bit as the clock rises.
//!
//! Because the PCA9702 is strictly input-only, there is no way to drive
//! output values or configure directions: its driver reports
//! `supports_output()` as false, so the output operations cannot be called.

use crate::bus::SpiBus;
use crate::common::PortDriver;
use crate::mode::Input;
use crate::pin::Pin;
use vstd::prelude::*;

verus! {

/// An 8-bit input-only expander with SPI, based on the PCA9702.
pub struct Pca9702<B> {
    pub port: Driver<B>,
}

impl<SPI: SpiBus> Pca9702<Pca9702Bus<SPI>> {
    pub fn new(bus: SPI) -> (r: Self) {
        Pca9702 { port: Driver::new(Pca9702Bus { bus }) }
    }
}

impl<B: Pca9702BusTrait> Pca9702<B> {
    /// Split this device into its 8 input pins.
    ///
    /// All pins are always configured as inputs on PCA9702 hardware.
    pub fn split(&self) -> Parts {
        Parts {
            in0: Pin::new(0),
            in1: Pin::new(1),
            in2: Pin::new(2),
            in3: Pin::new(3),
            in4: Pin::new(4),
            in5: Pin::new(5),
            in6: Pin::new(6),
            in7: Pin::new(7),
        }
    }
}

/// Container for all 8 input pins on the PCA9702.
pub struct Parts {
    pub in0: Pin<Input>,
    pub in1: Pin<Input>,
    pub in2: Pin<Input>,
    pub in3: Pin<Input>,
    pub in4: Pin<Input>,
    pub in5: Pin<Input>,
    pub in6: Pin<Input>,
    pub in7: Pin<Input>,
}

/// Internal driver struct for PCA9702.
pub struct Driver<B> {
    bus: B,
}

impl<B: Pca9702BusTrait> Driver<B> {
    pub fn new(bus: B) -> (r: Self) {
        Driver { bus }
    }
}

/// Bus access of the PCA9702.  Simpler than other expanders because the
/// chip is read-only and has no register-based protocol.
pub trait Pca9702BusTrait {
    type BusError;

    /// Reads 8 bits from the device, representing the state of inputs
    /// `in7..in0`.
    fn read_inputs(&mut self) -> Result<u8, Self::BusError>;
}

impl<B: Pca9702BusTrait> PortDriver for Driver<B> {
    type Error = B::BusError;

    closed spec fn pins_mask() -> u32 {
        0xFF
    }

    closed spec fn supports_output() -> bool {
        false
    }

    closed spec fn out_known(&self) -> bool {
        true
    }

    closed spec fn out_state(&self) -> u32 {
        0
    }

    fn set(&mut self, mask_high: u32, mask_low: u32) -> (r: Result<(), Self::Error>) {
        // unreachable: the chip has no outputs, see `supports_output`
        Ok(())
    }

    fn is_set(&mut self, mask_high: u32, mask_low: u32) -> (r: Result<u32, Self::Error>) {
        // unreachable: the chip has no outputs, see `supports_output`
        Ok(0)
    }

    fn get(&mut self, mask_high: u32, mask_low: u32) -> (r: Result<u32, Self::Error>) {
        let input = self.bus.read_inputs()? as u32;
        proof {
            crate::common::lemma_masked_read_confined(input, mask_high, mask_low);
        }
        Ok((input & mask_high) | (!input & mask_low))
    }
}

/// Bus wrapper type for PCA9702, implementing [`Pca9702BusTrait`] on top of
/// a raw SPI bus.
pub struct Pca9702Bus<SPI> {
    pub bus: SPI,
}

impl<SPI: SpiBus> Pca9702BusTrait for Pca9702Bus<SPI> {
    type BusError = SPI::BusError;

    fn read_inputs(&mut self) -> Result<u8, Self::BusError> {
        self.bus.read_byte()
    }
}

} // verus!
