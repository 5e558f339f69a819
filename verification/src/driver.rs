//! A generic driver for simple 8-bit expanders whose four control registers
//! follow the common input/output/polarity/configuration layout.

use crate::bus::I2cBus;
use crate::bus::I2cExt;
use crate::common::Direction;
use crate::common::PortDriver;
use crate::common::PortDriverTotemPole;
use core::marker::PhantomData;
use vstd::prelude::*;

verus! {

/// The register layout of a simple 8-bit expander.
pub trait Regs8 {
    /// Address of the input-port register.
    fn input_reg() -> u8;

    /// Address of the output-port register.
    fn output_reg() -> u8;

    /// Address of the polarity-inversion register.
    fn polarity_reg() -> u8;

    /// Address of the configuration register.
    fn configuration_reg() -> u8;
}

/// The layout most such chips use: registers 0 to 3 in the common order.
pub struct Regs8Default;

impl Regs8 for Regs8Default {
    fn input_reg() -> u8 {
        0x00
    }

    fn output_reg() -> u8 {
        0x01
    }

    fn polarity_reg() -> u8 {
        0x02
    }

    fn configuration_reg() -> u8 {
        0x03
    }
}

/// A driver for an 8-bit expander with the register layout `REGS` at bus
/// address `ADDRESS`.
#[verifier::reject_recursive_types(REGS)]
pub struct Driver8<I2C, REGS, const ADDRESS: u8> {
    i2c: I2C,
    out: u8,
    _r: PhantomData<REGS>,
}

impl<I2C: I2cBus, REGS: Regs8, const ADDRESS: u8> Driver8<I2C, REGS, ADDRESS> {
    pub fn new(i2c: I2C) -> (r: Self)
        ensures
            r.out_known(),
            r.out_state() == 0xFF,
    {
        Driver8 { i2c, out: 0xff, _r: PhantomData }
    }
}

impl<I2C: I2cBus, REGS: Regs8, const ADDRESS: u8> PortDriver for Driver8<I2C, REGS, ADDRESS> {
    type Error = I2C::BusError;

    closed spec fn pins_mask() -> u32 {
        0xFF
    }

    closed spec fn supports_output() -> bool {
        true
    }

    closed spec fn out_known(&self) -> bool {
        true
    }

    closed spec fn out_state(&self) -> u32 {
        self.out as u32
    }

    fn set(&mut self, mask_high: u32, mask_low: u32) -> (r: Result<(), Self::Error>) {
        proof {
            crate::common::lemma_set_update_u8(self.out, mask_high, mask_low);
        }
        self.out = (self.out | (mask_high as u8)) & !(mask_low as u8);
        let reg = REGS::output_reg();
        self.i2c.write_reg(ADDRESS, reg, self.out)?;
        Ok(())
    }

    fn is_set(&mut self, mask_high: u32, mask_low: u32) -> (r: Result<u32, Self::Error>) {
        Ok(((self.out as u32) & mask_high) | (!(self.out as u32) & mask_low))
    }

    fn get(&mut self, mask_high: u32, mask_low: u32) -> (r: Result<u32, Self::Error>) {
        let reg = REGS::input_reg();
        let input = self.i2c.read_reg(ADDRESS, reg)? as u32;
        proof {
            crate::common::lemma_masked_read_confined(input, mask_high, mask_low);
        }
        Ok((input & mask_high) | (!input & mask_low))
    }
}

impl<I2C: I2cBus, REGS: Regs8, const ADDRESS: u8> PortDriverTotemPole for Driver8<
    I2C,
    REGS,
    ADDRESS,
> {
    fn set_direction(&mut self, mask: u32, dir: Direction, _state: bool) -> (r: Result<
        (),
        Self::Error,
    >) {
        let mask_set: u8 = if dir == Direction::Input {
            mask as u8
        } else {
            0u8
        };
        let mask_clear: u8 = if dir == Direction::Input {
            0u8
        } else {
            mask as u8
        };
        let reg = REGS::configuration_reg();
        self.i2c.update_reg(ADDRESS, reg, mask_set, mask_clear)?;
        Ok(())
    }
}

} // verus!
