//! Support for the `PI4IOE5V6408` "Low-voltage Translating 8-bit I2C-bus
//! I/O Expander".

use crate::bus::I2cBus;
use crate::bus::I2cExt;
use crate::common::Direction;
use crate::common::PortDriver;
use crate::common::PortDriverTotemPole;
use crate::mode::Input;
use crate::pin::Pin;
use vstd::prelude::*;

verus! {

const REG_DEVICE_ID_CONTROL: u8 = 0x01;
const REG_IO_DIRECTION: u8 = 0x03;
const REG_OUTPUT_PORT: u8 = 0x05;
const REG_OUTPUT_HIGH_IMPEDANCE: u8 = 0x07;
const REG_PULL_ENABLE: u8 = 0x0b;
const REG_INPUT_STATUS: u8 = 0x0f;
const REG_INTERRUPT_MASK: u8 = 0x11;

/// What went wrong while bringing the chip up or talking to it.
#[derive(Debug)]
pub enum Pi4ioeError<E> {
    /// The bus transaction itself failed.
    Bus(E),
    /// The device-id register did not identify a PI4IOE5V6408; the byte read
    /// is attached.
    UnexpectedDeviceId(u8),
}

/// `PI4IOE5V6408` "Low-voltage Translating 8-bit I2C-bus I/O Expander"
pub struct Pi4ioe5v6408<I2C> {
    pub port: Driver<I2C>,
}

impl<I2C: I2cBus> Pi4ioe5v6408<I2C> {
    /// Bring the chip up right after a reset, overwriting the reset
    /// defaults the driver does not want.  The device id is validated
    /// first; a chip that does not identify itself correctly is reported,
    /// not touched.
    pub fn new(i2c: I2C, addr: bool) -> (r: Result<Self, Pi4ioeError<I2C::BusError>>)
        ensures
            r is Ok ==> r->Ok_0.port.out_known(),
    {
        match Driver::new(i2c, addr, false) {
            Ok(port) => Ok(Pi4ioe5v6408 { port }),
            Err(e) => Err(e),
        }
    }

    /// Bring the chip up without touching its configuration, reading the
    /// current output latch instead.
    pub fn with_retained_pin_config(i2c: I2C, addr: bool) -> (r: Result<
        Self,
        Pi4ioeError<I2C::BusError>,
    >)
        ensures
            r is Ok ==> r->Ok_0.port.out_known(),
    {
        match Driver::new(i2c, addr, true) {
            Ok(port) => Ok(Pi4ioe5v6408 { port }),
            Err(e) => Err(e),
        }
    }

    pub fn split(&self) -> Parts {
        Parts {
            io0: Pin::new(0),
            io1: Pin::new(1),
            io2: Pin::new(2),
            io3: Pin::new(3),
            io4: Pin::new(4),
            io5: Pin::new(5),
            io6: Pin::new(6),
            io7: Pin::new(7),
        }
    }
}

/// Container for all 8 pins of the chip.
pub struct Parts {
    pub io0: Pin<Input>,
    pub io1: Pin<Input>,
    pub io2: Pin<Input>,
    pub io3: Pin<Input>,
    pub io4: Pin<Input>,
    pub io5: Pin<Input>,
    pub io6: Pin<Input>,
    pub io7: Pin<Input>,
}

pub struct Driver<I2C> {
    i2c: I2C,
    addr: u8,
    out: u8,
}

impl<I2C: I2cBus> Driver<I2C> {
    /// The bus address the driver talks to.
    pub closed spec fn spec_addr(&self) -> u8 {
        self.addr
    }

    /// Validate the device id, then either retain the chip's configuration
    /// (reading the current output latch) or overwrite the reset defaults
    /// the driver does not want.
    pub fn new(i2c: I2C, addr: bool, retain_config: bool) -> (r: Result<
        Self,
        Pi4ioeError<I2C::BusError>,
    >)
        ensures
            r is Ok ==> r->Ok_0.out_known(),
    {
        let mut i2c = i2c;
        let addr: u8 = if addr {
            0x44
        } else {
            0x43
        };
        // Reading the id register also clears the power-on-reset interrupt.
        let device_id = match i2c.read_reg(addr, REG_DEVICE_ID_CONTROL) {
            Ok(v) => v,
            Err(e) => {
                return Err(Pi4ioeError::Bus(e));
            },
        };
        // Only the manufacturer id and firmware revision bits are checked.
        if device_id & 0xFC != 0xA0 {
            return Err(Pi4ioeError::UnexpectedDeviceId(device_id));
        }
        let mut out: u8 = 0;
        if retain_config {
            // Read the current output state once.
            out = match i2c.read_reg(addr, REG_OUTPUT_PORT) {
                Ok(v) => v,
                Err(e) => {
                    return Err(Pi4ioeError::Bus(e));
                },
            };
        } else {
            // Fresh after reset: change the reset values we do not want.
            if let Err(e) = i2c.write_reg(addr, REG_OUTPUT_HIGH_IMPEDANCE, 0) {
                return Err(Pi4ioeError::Bus(e));
            }
            if let Err(e) = i2c.write_reg(addr, REG_INTERRUPT_MASK, 0xff) {
                return Err(Pi4ioeError::Bus(e));
            }
            if let Err(e) = i2c.write_reg(addr, REG_PULL_ENABLE, 0) {
                return Err(Pi4ioeError::Bus(e));
            }
        }
        Ok(Driver { i2c, addr, out })
    }
}

impl<I2C: I2cBus> PortDriver for Driver<I2C> {
    type Error = I2C::BusError;

    closed spec fn pins_mask() -> u32 {
        0xFF
    }

    closed spec fn supports_output() -> bool {
        true
    }

    closed spec fn out_known(&self) -> bool {
        true
    }

    closed spec fn out_state(&self) -> u32 {
        self.out as u32
    }

    fn set(&mut self, mask_high: u32, mask_low: u32) -> (r: Result<(), Self::Error>) {
        proof {
            crate::common::lemma_set_update_u8(self.out, mask_high, mask_low);
        }
        let previous = self.out;
        self.out = (self.out | (mask_high as u8)) & !(mask_low as u8);
        if self.out != previous {
            self.i2c.write_reg(self.addr, REG_OUTPUT_PORT, self.out)?;
        }
        // when nothing changed the transfer is skipped entirely
        Ok(())
    }

    fn is_set(&mut self, mask_high: u32, mask_low: u32) -> (r: Result<u32, Self::Error>) {
        Ok(((self.out as u32) & mask_high) | (!(self.out as u32) & mask_low))
    }

    fn get(&mut self, mask_high: u32, mask_low: u32) -> (r: Result<u32, Self::Error>) {
        let input = self.i2c.read_reg(self.addr, REG_INPUT_STATUS)? as u32;
        proof {
            crate::common::lemma_masked_read_confined(input, mask_high, mask_low);
        }
        Ok((input & mask_high) | (!input & mask_low))
    }
}

impl<I2C: I2cBus> PortDriverTotemPole for Driver<I2C> {
    fn set_direction(&mut self, mask: u32, dir: Direction, state: bool) -> (r: Result<
        (),
        Self::Error,
    >) {
        // set the latch before switching direction to prevent a glitch
        if dir == Direction::Output {
            if state {
                self.set(mask, 0)?;
            } else {
                self.set(0, mask)?;
            }
        }
        // this chip marks outputs with a 1 and inputs with a 0
        let mask_set: u8 = if dir == Direction::Output {
            mask as u8
        } else {
            0u8
        };
        let mask_clear: u8 = if dir == Direction::Output {
            0u8
        } else {
            mask as u8
        };
        self.i2c.update_reg(self.addr, REG_IO_DIRECTION, mask_set, mask_clear)?;
        Ok(())
    }
}

} // verus!
