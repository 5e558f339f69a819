//! Support for the `MCP23017` "16-Bit I/O Expander with Serial Interface".
//!
//! The MCP23017 offers two eight-bit GPIO ports.  It has three address pins,
//! so eight devices can coexist on an I2C bus.  When passing 16-bit values
//! to this driver, the upper byte corresponds to port B and the lower byte
//! to port A.

use crate::bus::I2cBus;
use crate::bus::I2cExt;
use crate::common::Direction;
use crate::common::PortDriver;
use crate::common::PortDriverTotemPole;
use crate::mode::Input;
use crate::pin::Pin;
use vstd::prelude::*;

verus! {

const REG_IODIRA: u8 = 0x00;
const REG_IODIRB: u8 = 0x01;
const REG_GPIOA: u8 = 0x12;
const REG_GPIOB: u8 = 0x13;

/// `MCP23017` "16-Bit I/O Expander with Serial Interface"
pub struct Mcp23017<I2C> {
    pub port: Driver<I2C>,
}

impl<I2C: I2cBus> Mcp23017<I2C> {
    pub fn new(i2c: I2C, a0: bool, a1: bool, a2: bool) -> (r: Self)
        ensures
            r.port.out_known(),
            r.port.out_state() == 0xFFFF,
    {
        Mcp23017 { port: Driver::new(i2c, a0, a1, a2) }
    }

    pub fn split(&self) -> Parts {
        Parts {
            gpa0: Pin::new(0),
            gpa1: Pin::new(1),
            gpa2: Pin::new(2),
            gpa3: Pin::new(3),
            gpa4: Pin::new(4),
            gpa5: Pin::new(5),
            gpa6: Pin::new(6),
            gpa7: Pin::new(7),
            gpb0: Pin::new(8),
            gpb1: Pin::new(9),
            gpb2: Pin::new(10),
            gpb3: Pin::new(11),
            gpb4: Pin::new(12),
            gpb5: Pin::new(13),
            gpb6: Pin::new(14),
            gpb7: Pin::new(15),
        }
    }
}

/// Container for all 16 pins of the chip.
pub struct Parts {
    pub gpa0: Pin<Input>,
    pub gpa1: Pin<Input>,
    pub gpa2: Pin<Input>,
    pub gpa3: Pin<Input>,
    pub gpa4: Pin<Input>,
    pub gpa5: Pin<Input>,
    pub gpa6: Pin<Input>,
    pub gpa7: Pin<Input>,
    pub gpb0: Pin<Input>,
    pub gpb1: Pin<Input>,
    pub gpb2: Pin<Input>,
    pub gpb3: Pin<Input>,
    pub gpb4: Pin<Input>,
    pub gpb5: Pin<Input>,
    pub gpb6: Pin<Input>,
    pub gpb7: Pin<Input>,
}

pub struct Driver<I2C> {
    i2c: I2C,
    out: u16,
    addr: u8,
}

impl<I2C: I2cBus> Driver<I2C> {
    /// The bus address the driver talks to.
    pub closed spec fn spec_addr(&self) -> u8 {
        self.addr
    }

    pub fn new(i2c: I2C, a0: bool, a1: bool, a2: bool) -> (r: Self)
        ensures
            r.spec_addr() == 0x20 | ((a2 as u8) << 2) | ((a1 as u8) << 1) | (a0 as u8),
            r.out_known(),
            r.out_state() == 0xFFFF,
    {
        let addr = 0x20 | ((a2 as u8) << 2) | ((a1 as u8) << 1) | (a0 as u8);
        Driver { i2c, out: 0xffff, addr }
    }
}

impl<I2C: I2cBus> PortDriver for Driver<I2C> {
    type Error = I2C::BusError;

    closed spec fn pins_mask() -> u32 {
        0xFFFF
    }

    closed spec fn supports_output() -> bool {
        true
    }

    closed spec fn out_known(&self) -> bool {
        true
    }

    closed spec fn out_state(&self) -> u32 {
        self.out as u32
    }

    fn set(&mut self, mask_high: u32, mask_low: u32) -> (r: Result<(), Self::Error>) {
        proof {
            crate::common::lemma_set_update_u16(self.out, mask_high, mask_low);
        }
        self.out = (self.out | (mask_high as u16)) & !(mask_low as u16);
        if (mask_high | mask_low) & 0x00FF != 0 {
            self.i2c.write_reg(self.addr, REG_GPIOA, (self.out & 0xFF) as u8)?;
        }
        if (mask_high | mask_low) & 0xFF00 != 0 {
            self.i2c.write_reg(self.addr, REG_GPIOB, (self.out >> 8u16) as u8)?;
        }
        Ok(())
    }

    fn is_set(&mut self, mask_high: u32, mask_low: u32) -> (r: Result<u32, Self::Error>) {
        Ok(((self.out as u32) & mask_high) | (!(self.out as u32) & mask_low))
    }

    fn get(&mut self, mask_high: u32, mask_low: u32) -> (r: Result<u32, Self::Error>) {
        let io0 = if (mask_high | mask_low) & 0x00FF != 0 {
            self.i2c.read_reg(self.addr, REG_GPIOA)?
        } else {
            0u8
        };
        let io1 = if (mask_high | mask_low) & 0xFF00 != 0 {
            self.i2c.read_reg(self.addr, REG_GPIOB)?
        } else {
            0u8
        };
        let input = ((io1 as u32) << 8u32) | (io0 as u32);
        proof {
            crate::common::lemma_masked_read_confined(input, mask_high, mask_low);
        }
        Ok((input & mask_high) | (!input & mask_low))
    }
}

impl<I2C: I2cBus> PortDriverTotemPole for Driver<I2C> {
    fn set_direction(&mut self, mask: u32, dir: Direction, _state: bool) -> (r: Result<
        (),
        Self::Error,
    >) {
        // the chip presets output latches itself; no preset write is needed
        let mask_set: u16 = if dir == Direction::Input {
            mask as u16
        } else {
            0u16
        };
        let mask_clear: u16 = if dir == Direction::Input {
            0u16
        } else {
            mask as u16
        };
        if mask & 0x00FF != 0 {
            self.i2c.update_reg(
                self.addr,
                REG_IODIRA,
                (mask_set & 0xFF) as u8,
                (mask_clear & 0xFF) as u8,
            )?;
        }
        if mask & 0xFF00 != 0 {
            self.i2c.update_reg(
                self.addr,
                REG_IODIRB,
                (mask_set >> 8u16) as u8,
                (mask_clear >> 8u16) as u8,
            )?;
        }
        Ok(())
    }
}

} // verus!
