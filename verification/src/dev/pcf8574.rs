//! Support for the `PCF8574` & `PCF8574A` "Remote 8-bit I/O expander for
//! I2C-bus with interrupt".

use crate::bus::I2cBus;
use crate::common::PortDriver;
use crate::mode::QuasiBidirectional;
use crate::pin::Pin;
use vstd::prelude::*;

verus! {

/// `PCF8574` "Remote 8-bit I/O expander for I2C-bus with interrupt"
pub struct Pcf8574<I2C> {
    pub port: Driver<I2C>,
}

/// `PCF8574A` "Remote 8-bit I/O expander for I2C-bus with interrupt"
pub struct Pcf8574a<I2C> {
    pub port: Driver<I2C>,
}

impl<I2C: I2cBus> Pcf8574<I2C> {
    pub fn new(i2c: I2C, a0: bool, a1: bool, a2: bool) -> (r: Self)
        ensures
            r.port.out_known(),
            r.port.out_state() == 0xFF,
    {
        Pcf8574 { port: Driver::new(i2c, false, a0, a1, a2) }
    }

    pub fn split(&self) -> Parts {
        Parts {
            p0: Pin::new(0),
            p1: Pin::new(1),
            p2: Pin::new(2),
            p3: Pin::new(3),
            p4: Pin::new(4),
            p5: Pin::new(5),
            p6: Pin::new(6),
            p7: Pin::new(7),
        }
    }
}

impl<I2C: I2cBus> Pcf8574a<I2C> {
    pub fn new(i2c: I2C, a0: bool, a1: bool, a2: bool) -> (r: Self)
        ensures
            r.port.out_known(),
            r.port.out_state() == 0xFF,
    {
        Pcf8574a { port: Driver::new(i2c, true, a0, a1, a2) }
    }

    pub fn split(&self) -> Parts {
        Parts {
            p0: Pin::new(0),
            p1: Pin::new(1),
            p2: Pin::new(2),
            p3: Pin::new(3),
            p4: Pin::new(4),
            p5: Pin::new(5),
            p6: Pin::new(6),
            p7: Pin::new(7),
        }
    }
}

/// Container for all 8 quasi-bidirectional pins of the chip.
pub struct Parts {
    pub p0: Pin<QuasiBidirectional>,
    pub p1: Pin<QuasiBidirectional>,
    pub p2: Pin<QuasiBidirectional>,
    pub p3: Pin<QuasiBidirectional>,
    pub p4: Pin<QuasiBidirectional>,
    pub p5: Pin<QuasiBidirectional>,
    pub p6: Pin<QuasiBidirectional>,
    pub p7: Pin<QuasiBidirectional>,
}

pub struct Driver<I2C> {
    i2c: I2C,
    out: u8,
    addr: u8,
}

impl<I2C: I2cBus> Driver<I2C> {
    /// The bus address the driver talks to.
    pub closed spec fn spec_addr(&self) -> u8 {
        self.addr
    }

    pub fn new(i2c: I2C, is_a_variant: bool, a0: bool, a1: bool, a2: bool) -> (r: Self)
        ensures
            is_a_variant ==> r.spec_addr() == 0x38 | ((a2 as u8) << 2) | ((a1 as u8) << 1) | (
            a0 as u8),
            !is_a_variant ==> r.spec_addr() == 0x20 | ((a2 as u8) << 2) | ((a1 as u8) << 1) | (
            a0 as u8),
            r.out_known(),
            r.out_state() == 0xFF,
    {
        let addr = if is_a_variant {
            0x38 | ((a2 as u8) << 2) | ((a1 as u8) << 1) | (a0 as u8)
        } else {
            0x20 | ((a2 as u8) << 2) | ((a1 as u8) << 1) | (a0 as u8)
        };
        Driver { i2c, out: 0xff, addr }
    }
}

impl<I2C: I2cBus> PortDriver for Driver<I2C> {
    type Error = I2C::BusError;

    closed spec fn pins_mask() -> u32 {
        0xFF
    }

    closed spec fn supports_output() -> bool {
        true
    }

    closed spec fn out_known(&self) -> bool {
        true
    }

    closed spec fn out_state(&self) -> u32 {
        self.out as u32
    }

    fn set(&mut self, mask_high: u32, mask_low: u32) -> (r: Result<(), Self::Error>) {
        proof {
            crate::common::lemma_set_update_u8(self.out, mask_high, mask_low);
        }
        self.out = (self.out | (mask_high as u8)) & !(mask_low as u8);
        let buf: [u8; 1] = [self.out];
        self.i2c.write(self.addr, buf.as_slice())?;
        Ok(())
    }

    fn is_set(&mut self, mask_high: u32, mask_low: u32) -> (r: Result<u32, Self::Error>) {
        Ok(((self.out as u32) & mask_high) | (!(self.out as u32) & mask_low))
    }

    fn get(&mut self, mask_high: u32, mask_low: u32) -> (r: Result<u32, Self::Error>) {
        let input = self.i2c.read_byte(self.addr)? as u32;
        proof {
            crate::common::lemma_masked_read_confined(input, mask_high, mask_low);
        }
        Ok((input & mask_high) | (!input & mask_low))
    }
}

} // verus!
