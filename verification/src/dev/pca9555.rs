//! Support for the `PCA9555` "16-bit I2C-bus and SMBus I/O port with
//! interrupt".

use crate::bus::I2cBus;
use crate::bus::I2cExt;
use crate::common::Direction;
use crate::common::PortDriver;
use crate::common::PortDriverPolarity;
use crate::common::PortDriverTotemPole;
use crate::mode::Input;
use crate::pin::Pin;
use vstd::prelude::*;

verus! {

const REG_INPUT_PORT_0: u8 = 0x00;
const REG_INPUT_PORT_1: u8 = 0x01;
const REG_OUTPUT_PORT_0: u8 = 0x02;
const REG_OUTPUT_PORT_1: u8 = 0x03;
const REG_POLARITY_INVERSION_0: u8 = 0x04;
const REG_POLARITY_INVERSION_1: u8 = 0x05;
const REG_CONFIGURATION_0: u8 = 0x06;
const REG_CONFIGURATION_1: u8 = 0x07;

/// `PCA9555` "16-bit I2C-bus and SMBus I/O port with interrupt"
pub struct Pca9555<I2C> {
    pub port: Driver<I2C>,
}

impl<I2C: I2cBus> Pca9555<I2C> {
    pub fn new(i2c: I2C, a0: bool, a1: bool, a2: bool) -> (r: Self)
        ensures
            r.port.out_known(),
            r.port.out_state() == 0xFFFF,
    {
        Pca9555 { port: Driver::new(i2c, a0, a1, a2) }
    }

    pub fn split(&self) -> Parts {
        Parts {
            io0_0: Pin::new(0),
            io0_1: Pin::new(1),
            io0_2: Pin::new(2),
            io0_3: Pin::new(3),
            io0_4: Pin::new(4),
            io0_5: Pin::new(5),
            io0_6: Pin::new(6),
            io0_7: Pin::new(7),
            io1_0: Pin::new(8),
            io1_1: Pin::new(9),
            io1_2: Pin::new(10),
            io1_3: Pin::new(11),
            io1_4: Pin::new(12),
            io1_5: Pin::new(13),
            io1_6: Pin::new(14),
            io1_7: Pin::new(15),
        }
    }
}

pub struct Parts {
    pub io0_0: Pin<Input>,
    pub io0_1: Pin<Input>,
    pub io0_2: Pin<Input>,
    pub io0_3: Pin<Input>,
    pub io0_4: Pin<Input>,
    pub io0_5: Pin<Input>,
    pub io0_6: Pin<Input>,
    pub io0_7: Pin<Input>,
    pub io1_0: Pin<Input>,
    pub io1_1: Pin<Input>,
    pub io1_2: Pin<Input>,
    pub io1_3: Pin<Input>,
    pub io1_4: Pin<Input>,
    pub io1_5: Pin<Input>,
    pub io1_6: Pin<Input>,
    pub io1_7: Pin<Input>,
}

pub struct Driver<I2C> {
    i2c: I2C,
    out: u16,
    addr: u8,
}

impl<I2C: I2cBus> Driver<I2C> {
    /// The bus address the driver talks to.
    pub closed spec fn spec_addr(&self) -> u8 {
        self.addr
    }

    pub fn new(i2c: I2C, a0: bool, a1: bool, a2: bool) -> (r: Self)
        ensures
            r.spec_addr() == 0x20 | ((a2 as u8) << 2) | ((a1 as u8) << 1) | (a0 as u8),
            r.out_known(),
            r.out_state() == 0xFFFF,
    {
        let addr = 0x20 | ((a2 as u8) << 2) | ((a1 as u8) << 1) | (a0 as u8);
        Driver { i2c, out: 0xffff, addr }
    }
}

impl<I2C: I2cBus> PortDriver for Driver<I2C> {
    type Error = I2C::BusError;

    closed spec fn pins_mask() -> u32 {
        0xFFFF
    }

    closed spec fn supports_output() -> bool {
        true
    }

    closed spec fn out_known(&self) -> bool {
        true
    }

    closed spec fn out_state(&self) -> u32 {
        self.out as u32
    }

    fn set(&mut self, mask_high: u32, mask_low: u32) -> (r: Result<(), Self::Error>) {
        proof {
            crate::common::lemma_set_update_u16(self.out, mask_high, mask_low);
        }
        self.out = (self.out | (mask_high as u16)) & !(mask_low as u16);
        if (mask_high | mask_low) & 0x00FF != 0 {
            self.i2c.write_reg(self.addr, REG_OUTPUT_PORT_0, (self.out & 0xFF) as u8)?;
        }
        if (mask_high | mask_low) & 0xFF00 != 0 {
            self.i2c.write_reg(self.addr, REG_OUTPUT_PORT_1, (self.out >> 8) as u8)?;
        }
        Ok(())
    }

    fn is_set(&mut self, mask_high: u32, mask_low: u32) -> (r: Result<u32, Self::Error>) {
        Ok(((self.out as u32) & mask_high) | (!(self.out as u32) & mask_low))
    }

    fn get(&mut self, mask_high: u32, mask_low: u32) -> (r: Result<u32, Self::Error>) {
        let io0 = if (mask_high | mask_low) & 0x00FF != 0 {
            self.i2c.read_reg(self.addr, REG_INPUT_PORT_0)?
        } else {
            0u8
        };
        let io1 = if (mask_high | mask_low) & 0xFF00 != 0 {
            self.i2c.read_reg(self.addr, REG_INPUT_PORT_1)?
        } else {
            0u8
        };
        let input = ((io1 as u32) << 8u32) | (io0 as u32);
        proof {
            crate::common::lemma_masked_read_confined(input, mask_high, mask_low);
        }
        Ok((input & mask_high) | (!input & mask_low))
    }
}

impl<I2C: I2cBus> PortDriverTotemPole for Driver<I2C> {
    fn set_direction(&mut self, mask: u32, dir: Direction, state: bool) -> (r: Result<
        (),
        Self::Error,
    >) {
        // set the latch before switching direction to prevent a glitch
        if dir == Direction::Output {
            if state {
                self.set(mask, 0)?;
            } else {
                self.set(0, mask)?;
            }
        }
        let mask_set: u16 = if dir == Direction::Input {
            mask as u16
        } else {
            0u16
        };
        let mask_clear: u16 = if dir == Direction::Input {
            0u16
        } else {
            mask as u16
        };
        if mask & 0x00FF != 0 {
            self.i2c.update_reg(
                self.addr,
                REG_CONFIGURATION_0,
                (mask_set & 0xFF) as u8,
                (mask_clear & 0xFF) as u8,
            )?;
        }
        if mask & 0xFF00 != 0 {
            self.i2c.update_reg(
                self.addr,
                REG_CONFIGURATION_1,
                (mask_set >> 8u16) as u8,
                (mask_clear >> 8u16) as u8,
            )?;
        }
        Ok(())
    }
}

impl<I2C: I2cBus> PortDriverPolarity for Driver<I2C> {
    fn set_polarity(&mut self, mask: u32, inverted: bool) -> (r: Result<(), Self::Error>) {
        let mask_set: u16 = if inverted {
            mask as u16
        } else {
            0u16
        };
        let mask_clear: u16 = if inverted {
            0u16
        } else {
            mask as u16
        };
        if mask & 0x00FF != 0 {
            self.i2c.update_reg(
                self.addr,
                REG_POLARITY_INVERSION_0,
                (mask_set & 0xFF) as u8,
                (mask_clear & 0xFF) as u8,
            )?;
        }
        if mask & 0xFF00 != 0 {
            self.i2c.update_reg(
                self.addr,
                REG_POLARITY_INVERSION_1,
                (mask_set >> 8u16) as u8,
                (mask_clear >> 8u16) as u8,
            )?;
        }
        Ok(())
    }
}

} // verus!
