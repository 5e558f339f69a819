//! Support for the `PCA9554` and `PCA9554A` "8-bit I2C-bus and SMBus I/O
//! port with interrupt".

use crate::bus::I2cBus;
use crate::bus::I2cExt;
use crate::common::Direction;
use crate::common::PortDriver;
use crate::common::PortDriverPolarity;
use crate::common::PortDriverTotemPole;
use crate::mode::QuasiBidirectional;
use crate::pin::Pin;
use vstd::prelude::*;

verus! {

const REG_INPUT_PORT_0: u8 = 0x00;
const REG_OUTPUT_PORT_0: u8 = 0x01;
const REG_POLARITY_INVERSION_0: u8 = 0x02;
const REG_CONFIGURATION_0: u8 = 0x03;

/// `PCA9554` "8-bit I2C-bus and SMBus I/O port with interrupt"
pub struct Pca9554<I2C> {
    pub port: Driver<I2C>,
}

/// `PCA9554A` "8-bit I2C-bus and SMBus I/O port with interrupt"
pub struct Pca9554A<I2C> {
    pub port: Driver<I2C>,
}

impl<I2C: I2cBus> Pca9554<I2C> {
    pub fn new(i2c: I2C, a0: bool, a1: bool, a2: bool) -> (r: Self)
        ensures
            r.port.out_known(),
            r.port.out_state() == 0xFF,
    {
        Pca9554 { port: Driver::new(i2c, false, a0, a1, a2) }
    }

    pub fn split(&self) -> Parts {
        Parts {
            io0: Pin::new(0),
            io1: Pin::new(1),
            io2: Pin::new(2),
            io3: Pin::new(3),
            io4: Pin::new(4),
            io5: Pin::new(5),
            io6: Pin::new(6),
            io7: Pin::new(7),
        }
    }
}

impl<I2C: I2cBus> Pca9554A<I2C> {
    pub fn new(i2c: I2C, a0: bool, a1: bool, a2: bool) -> (r: Self)
        ensures
            r.port.out_known(),
            r.port.out_state() == 0xFF,
    {
        Pca9554A { port: Driver::new(i2c, true, a0, a1, a2) }
    }

    pub fn split(&self) -> Parts {
        Parts {
            io0: Pin::new(0),
            io1: Pin::new(1),
            io2: Pin::new(2),
            io3: Pin::new(3),
            io4: Pin::new(4),
            io5: Pin::new(5),
            io6: Pin::new(6),
            io7: Pin::new(7),
        }
    }
}

/// Container for all 8 pins of the chip.
pub struct Parts {
    pub io0: Pin<QuasiBidirectional>,
    pub io1: Pin<QuasiBidirectional>,
    pub io2: Pin<QuasiBidirectional>,
    pub io3: Pin<QuasiBidirectional>,
    pub io4: Pin<QuasiBidirectional>,
    pub io5: Pin<QuasiBidirectional>,
    pub io6: Pin<QuasiBidirectional>,
    pub io7: Pin<QuasiBidirectional>,
}

pub struct Driver<I2C> {
    i2c: I2C,
    out: u8,
    addr: u8,
}

impl<I2C: I2cBus> Driver<I2C> {
    /// The bus address the driver talks to.
    pub closed spec fn spec_addr(&self) -> u8 {
        self.addr
    }

    pub fn new(i2c: I2C, is_a_variant: bool, a0: bool, a1: bool, a2: bool) -> (r: Self)
        ensures
            is_a_variant ==> r.spec_addr() == 0x38 | ((a2 as u8) << 2) | ((a1 as u8) << 1) | (
            a0 as u8),
            !is_a_variant ==> r.spec_addr() == 0x20 | ((a2 as u8) << 2) | ((a1 as u8) << 1) | (
            a0 as u8),
            r.out_known(),
            r.out_state() == 0xFF,
    {
        let addr = if is_a_variant {
            0x38 | ((a2 as u8) << 2) | ((a1 as u8) << 1) | (a0 as u8)
        } else {
            0x20 | ((a2 as u8) << 2) | ((a1 as u8) << 1) | (a0 as u8)
        };
        Driver { i2c, out: 0xff, addr }
    }
}

impl<I2C: I2cBus> PortDriver for Driver<I2C> {
    type Error = I2C::BusError;

    closed spec fn pins_mask() -> u32 {
        0xFF
    }

    closed spec fn supports_output() -> bool {
        true
    }

    closed spec fn out_known(&self) -> bool {
        true
    }

    closed spec fn out_state(&self) -> u32 {
        self.out as u32
    }

    fn set(&mut self, mask_high: u32, mask_low: u32) -> (r: Result<(), Self::Error>) {
        proof {
            crate::common::lemma_set_update_u8(self.out, mask_high, mask_low);
        }
        self.out = (self.out | (mask_high as u8)) & !(mask_low as u8);
        self.i2c.write_reg(self.addr, REG_OUTPUT_PORT_0, self.out)?;
        Ok(())
    }

    fn is_set(&mut self, mask_high: u32, mask_low: u32) -> (r: Result<u32, Self::Error>) {
        Ok(((self.out as u32) & mask_high) | (!(self.out as u32) & mask_low))
    }

    fn get(&mut self, mask_high: u32, mask_low: u32) -> (r: Result<u32, Self::Error>) {
        let io0 = if (mask_high | mask_low) & 0x00FF != 0 {
            self.i2c.read_reg(self.addr, REG_INPUT_PORT_0)?
        } else {
            0u8
        };
        let input = io0 as u32;
        proof {
            crate::common::lemma_masked_read_confined(input, mask_high, mask_low);
        }
        Ok((input & mask_high) | (!input & mask_low))
    }
}

impl<I2C: I2cBus> PortDriverTotemPole for Driver<I2C> {
    fn set_direction(&mut self, mask: u32, dir: Direction, state: bool) -> (r: Result<
        (),
        Self::Error,
    >) {
        // set the latch before switching direction to prevent a glitch
        if dir == Direction::Output {
            if state {
                self.set(mask, 0)?;
            } else {
                self.set(0, mask)?;
            }
        }
        let mask_set: u8 = if dir == Direction::Input {
            mask as u8
        } else {
            0u8
        };
        let mask_clear: u8 = if dir == Direction::Input {
            0u8
        } else {
            mask as u8
        };
        if mask & 0x00FF != 0 {
            self.i2c.update_reg(self.addr, REG_CONFIGURATION_0, mask_set, mask_clear)?;
        }
        Ok(())
    }
}

impl<I2C: I2cBus> PortDriverPolarity for Driver<I2C> {
    fn set_polarity(&mut self, mask: u32, inverted: bool) -> (r: Result<(), Self::Error>) {
        let mask_set: u8 = if inverted {
            mask as u8
        } else {
            0u8
        };
        let mask_clear: u8 = if inverted {
            0u8
        } else {
            mask as u8
        };
        self.i2c.update_reg(self.addr, REG_POLARITY_INVERSION_0, mask_set, mask_clear)?;
        Ok(())
    }
}

} // verus!
