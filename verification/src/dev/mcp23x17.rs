//! Support for the `MCP23017` and `MCP23S17` "16-Bit I/O Expander with
//! Serial Interface".
//!
//! The MCP23x17 offers two eight-bit GPIO ports and exists with an I2C
//! (MCP23017) and an SPI (MCP23S17) interface.  When passing 16-bit values
//! to this driver, the upper byte corresponds to port B and the lower byte
//! to port A.

use crate::bus::I2cBus;
use crate::bus::I2cExt;
use crate::bus::SpiBus;
use crate::common::Direction;
use crate::common::PortDriver;
use crate::common::PortDriverTotemPole;
use crate::mode::Input;
use crate::pin::Pin;
use vstd::prelude::*;

verus! {

const REG_IODIRA: u8 = 0x00;
const REG_IODIRB: u8 = 0x01;
const REG_GPIOA: u8 = 0x12;
const REG_GPIOB: u8 = 0x13;

/// `MCP23x17` "16-Bit I/O Expander with Serial Interface" with I2C or SPI
/// interface.
pub struct Mcp23x17<B> {
    pub port: Driver<B>,
}

impl<I2C: I2cBus> Mcp23x17<Mcp23017Bus<I2C>> {
    /// Create a new instance of the MCP23017 with I2C interface.
    pub fn new_mcp23017(bus: I2C, a0: bool, a1: bool, a2: bool) -> (r: Self)
        ensures
            r.port.out_known(),
            r.port.out_state() == 0xFFFF,
    {
        Mcp23x17 { port: Driver::new(Mcp23017Bus { bus }, a0, a1, a2) }
    }
}

impl<SPI: SpiBus> Mcp23x17<Mcp23S17Bus<SPI>> {
    /// Create a new instance of the MCP23S17 with SPI interface.
    pub fn new_mcp23s17(bus: SPI, a0: bool, a1: bool, a2: bool) -> (r: Self)
        ensures
            r.port.out_known(),
            r.port.out_state() == 0xFFFF,
    {
        Mcp23x17 { port: Driver::new(Mcp23S17Bus { bus }, a0, a1, a2) }
    }
}

impl<B: Mcp23x17Bus> Mcp23x17<B> {
    pub fn split(&self) -> Parts {
        Parts {
            gpa0: Pin::new(0),
            gpa1: Pin::new(1),
            gpa2: Pin::new(2),
            gpa3: Pin::new(3),
            gpa4: Pin::new(4),
            gpa5: Pin::new(5),
            gpa6: Pin::new(6),
            gpa7: Pin::new(7),
            gpb0: Pin::new(8),
            gpb1: Pin::new(9),
            gpb2: Pin::new(10),
            gpb3: Pin::new(11),
            gpb4: Pin::new(12),
            gpb5: Pin::new(13),
            gpb6: Pin::new(14),
            gpb7: Pin::new(15),
        }
    }
}

/// Container for all 16 pins of the chip.
pub struct Parts {
    pub gpa0: Pin<Input>,
    pub gpa1: Pin<Input>,
    pub gpa2: Pin<Input>,
    pub gpa3: Pin<Input>,
    pub gpa4: Pin<Input>,
    pub gpa5: Pin<Input>,
    pub gpa6: Pin<Input>,
    pub gpa7: Pin<Input>,
    pub gpb0: Pin<Input>,
    pub gpb1: Pin<Input>,
    pub gpb2: Pin<Input>,
    pub gpb3: Pin<Input>,
    pub gpb4: Pin<Input>,
    pub gpb5: Pin<Input>,
    pub gpb6: Pin<Input>,
    pub gpb7: Pin<Input>,
}

pub struct Driver<B> {
    bus: B,
    out: u16,
    addr: u8,
}

impl<B: Mcp23x17Bus> Driver<B> {
    /// The device address the driver talks to.
    pub closed spec fn spec_addr(&self) -> u8 {
        self.addr
    }

    pub fn new(bus: B, a0: bool, a1: bool, a2: bool) -> (r: Self)
        ensures
            r.spec_addr() == 0x20 | ((a2 as u8) << 2) | ((a1 as u8) << 1) | (a0 as u8),
            r.out_known(),
            r.out_state() == 0xFFFF,
    {
        let addr = 0x20 | ((a2 as u8) << 2) | ((a1 as u8) << 1) | (a0 as u8);
        Driver { bus, out: 0xffff, addr }
    }
}

impl<B: Mcp23x17Bus> PortDriver for Driver<B> {
    type Error = B::BusError;

    closed spec fn pins_mask() -> u32 {
        0xFFFF
    }

    closed spec fn supports_output() -> bool {
        true
    }

    closed spec fn out_known(&self) -> bool {
        true
    }

    closed spec fn out_state(&self) -> u32 {
        self.out as u32
    }

    fn set(&mut self, mask_high: u32, mask_low: u32) -> (r: Result<(), Self::Error>) {
        proof {
            crate::common::lemma_set_update_u16(self.out, mask_high, mask_low);
        }
        self.out = (self.out | (mask_high as u16)) & !(mask_low as u16);
        if (mask_high | mask_low) & 0x00FF != 0 {
            self.bus.write_reg(self.addr, REG_GPIOA, (self.out & 0xFF) as u8)?;
        }
        if (mask_high | mask_low) & 0xFF00 != 0 {
            self.bus.write_reg(self.addr, REG_GPIOB, (self.out >> 8u16) as u8)?;
        }
        Ok(())
    }

    fn is_set(&mut self, mask_high: u32, mask_low: u32) -> (r: Result<u32, Self::Error>) {
        Ok(((self.out as u32) & mask_high) | (!(self.out as u32) & mask_low))
    }

    fn get(&mut self, mask_high: u32, mask_low: u32) -> (r: Result<u32, Self::Error>) {
        let io0 = if (mask_high | mask_low) & 0x00FF != 0 {
            self.bus.read_reg(self.addr, REG_GPIOA)?
        } else {
            0u8
        };
        let io1 = if (mask_high | mask_low) & 0xFF00 != 0 {
            self.bus.read_reg(self.addr, REG_GPIOB)?
        } else {
            0u8
        };
        let input = ((io1 as u32) << 8u32) | (io0 as u32);
        proof {
            crate::common::lemma_masked_read_confined(input, mask_high, mask_low);
        }
        Ok((input & mask_high) | (!input & mask_low))
    }
}

impl<B: Mcp23x17Bus> PortDriverTotemPole for Driver<B> {
    fn set_direction(&mut self, mask: u32, dir: Direction, _state: bool) -> (r: Result<
        (),
        Self::Error,
    >) {
        // the chip presets output latches itself; no preset write is needed
        let mask_set: u16 = if dir == Direction::Input {
            mask as u16
        } else {
            0u16
        };
        let mask_clear: u16 = if dir == Direction::Input {
            0u16
        } else {
            mask as u16
        };
        if mask & 0x00FF != 0 {
            self.bus.update_reg(
                self.addr,
                REG_IODIRA,
                (mask_set & 0xFF) as u8,
                (mask_clear & 0xFF) as u8,
            )?;
        }
        if mask & 0xFF00 != 0 {
            self.bus.update_reg(
                self.addr,
                REG_IODIRB,
                (mask_set >> 8u16) as u8,
                (mask_clear >> 8u16) as u8,
            )?;
        }
        Ok(())
    }
}

/// Bus access of the MCP23x17, since the SPI variant frames its register
/// accesses in a way that cannot be generalized for other devices.
pub trait Mcp23x17Bus {
    type BusError;

    /// Write `value` into register `reg` of the device at `addr`.
    fn write_reg(&mut self, addr: u8, reg: u8, value: u8) -> Result<(), Self::BusError>;

    /// Read register `reg` of the device at `addr`.
    fn read_reg(&mut self, addr: u8, reg: u8) -> Result<u8, Self::BusError>;

    /// Read register `reg`, set the bits of `mask_set`, clear those of
    /// `mask_clear`, and write the result back.
    fn update_reg(&mut self, addr: u8, reg: u8, mask_set: u8, mask_clear: u8) -> Result<
        (),
        Self::BusError,
    > {
        let cur = self.read_reg(addr, reg)?;
        let value = (cur | mask_set) & !mask_clear;
        self.write_reg(addr, reg, value)?;
        Ok(())
    }
}

/// The I2C framing of the MCP23017.
pub struct Mcp23017Bus<I2C> {
    pub bus: I2C,
}

/// The SPI framing of the MCP23S17.
pub struct Mcp23S17Bus<SPI> {
    pub bus: SPI,
}

impl<I2C: I2cBus> Mcp23x17Bus for Mcp23017Bus<I2C> {
    type BusError = I2C::BusError;

    fn write_reg(&mut self, addr: u8, reg: u8, value: u8) -> Result<(), Self::BusError> {
        I2cExt::write_reg(&mut self.bus, addr, reg, value)
    }

    fn read_reg(&mut self, addr: u8, reg: u8) -> Result<u8, Self::BusError> {
        I2cExt::read_reg(&mut self.bus, addr, reg)
    }
}

impl<SPI: SpiBus> Mcp23x17Bus for Mcp23S17Bus<SPI> {
    type BusError = SPI::BusError;

    fn write_reg(&mut self, addr: u8, reg: u8, value: u8) -> Result<(), Self::BusError> {
        let buf: [u8; 3] = [0x40 | (addr << 1u8), reg, value];
        self.bus.write(buf.as_slice())?;
        Ok(())
    }

    fn read_reg(&mut self, addr: u8, reg: u8) -> Result<u8, Self::BusError> {
        let buf: [u8; 2] = [0x40 | (addr << 1u8) | 0x1, reg];
        self.bus.write_read_byte(buf.as_slice())
    }
}

} // verus!
