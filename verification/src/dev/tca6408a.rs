//! Support for the `TCA6408A` "Low-voltage 8-bit I2C and SMBus I/O expander
//! with interrupt output and configuration registers".

use crate::bus::I2cBus;
use crate::bus::I2cExt;
use crate::common::Direction;
use crate::common::PortDriver;
use crate::common::PortDriverPolarity;
use crate::common::PortDriverTotemPole;
use crate::mode::Input;
use crate::pin::Pin;
use vstd::prelude::*;

verus! {

const REG_INPUT_PORT: u8 = 0x00;
const REG_OUTPUT_PORT: u8 = 0x01;
const REG_POLARITY_INVERSION: u8 = 0x02;
const REG_CONFIGURATION: u8 = 0x03;

/// `TCA6408A` "8-bit I2C and SMBus I/O expander"
pub struct Tca6408a<I2C> {
    pub port: Driver<I2C>,
}

impl<I2C: I2cBus> Tca6408a<I2C> {
    pub fn new(i2c: I2C, a0: bool) -> (r: Self)
        ensures
            r.port.out_known(),
            r.port.out_state() == 0xFF,
    {
        Tca6408a { port: Driver::new(i2c, a0) }
    }

    pub fn split(&self) -> Parts {
        Parts {
            io0: Pin::new(0),
            io1: Pin::new(1),
            io2: Pin::new(2),
            io3: Pin::new(3),
            io4: Pin::new(4),
            io5: Pin::new(5),
            io6: Pin::new(6),
            io7: Pin::new(7),
        }
    }
}

/// Container for all 8 pins of the chip.
pub struct Parts {
    pub io0: Pin<Input>,
    pub io1: Pin<Input>,
    pub io2: Pin<Input>,
    pub io3: Pin<Input>,
    pub io4: Pin<Input>,
    pub io5: Pin<Input>,
    pub io6: Pin<Input>,
    pub io7: Pin<Input>,
}

pub struct Driver<I2C> {
    i2c: I2C,
    addr: u8,
    out: u8,
}

impl<I2C: I2cBus> Driver<I2C> {
    /// The bus address the driver talks to.
    pub closed spec fn spec_addr(&self) -> u8 {
        self.addr
    }

    pub fn new(i2c: I2C, a0: bool) -> (r: Self)
        ensures
            r.spec_addr() == 0x20 | (a0 as u8),
            r.out_known(),
            r.out_state() == 0xFF,
    {
        let addr = 0x20 | (a0 as u8);
        Driver { i2c, addr, out: 0xff }
    }
}

impl<I2C: I2cBus> PortDriver for Driver<I2C> {
    type Error = I2C::BusError;

    closed spec fn pins_mask() -> u32 {
        0xFF
    }

    closed spec fn supports_output() -> bool {
        true
    }

    closed spec fn out_known(&self) -> bool {
        true
    }

    closed spec fn out_state(&self) -> u32 {
        self.out as u32
    }

    fn set(&mut self, mask_high: u32, mask_low: u32) -> (r: Result<(), Self::Error>) {
        proof {
            crate::common::lemma_set_update_u8(self.out, mask_high, mask_low);
        }
        let previous = self.out;
        self.out = (self.out | (mask_high as u8)) & !(mask_low as u8);
        if self.out != previous {
            self.i2c.write_reg(self.addr, REG_OUTPUT_PORT, self.out)?;
        }
        // when nothing changed the transfer is skipped entirely
        Ok(())
    }

    fn is_set(&mut self, mask_high: u32, mask_low: u32) -> (r: Result<u32, Self::Error>) {
        Ok(((self.out as u32) & mask_high) | (!(self.out as u32) & mask_low))
    }

    fn get(&mut self, mask_high: u32, mask_low: u32) -> (r: Result<u32, Self::Error>) {
        let input = self.i2c.read_reg(self.addr, REG_INPUT_PORT)? as u32;
        proof {
            crate::common::lemma_masked_read_confined(input, mask_high, mask_low);
        }
        Ok((input & mask_high) | (!input & mask_low))
    }
}

impl<I2C: I2cBus> PortDriverTotemPole for Driver<I2C> {
    fn set_direction(&mut self, mask: u32, dir: Direction, state: bool) -> (r: Result<
        (),
        Self::Error,
    >) {
        // set the latch before switching direction to prevent a glitch
        if dir == Direction::Output {
            if state {
                self.set(mask, 0)?;
            } else {
                self.set(0, mask)?;
            }
        }
        let mask_set: u8 = if dir == Direction::Input {
            mask as u8
        } else {
            0u8
        };
        let mask_clear: u8 = if dir == Direction::Input {
            0u8
        } else {
            mask as u8
        };
        self.i2c.update_reg(self.addr, REG_CONFIGURATION, mask_set, mask_clear)?;
        Ok(())
    }
}

impl<I2C: I2cBus> PortDriverPolarity for Driver<I2C> {
    fn set_polarity(&mut self, mask: u32, inverted: bool) -> (r: Result<(), Self::Error>) {
        let mask_set: u8 = if inverted {
            mask as u8
        } else {
            0u8
        };
        let mask_clear: u8 = if inverted {
            0u8
        } else {
            mask as u8
        };
        self.i2c.update_reg(self.addr, REG_POLARITY_INVERSION, mask_set, mask_clear)?;
        Ok(())
    }
}

} // verus!
