//! Support for the `PCF8575` "Remote 16-bit I/O expander for I2C-bus with
//! interrupt".

use crate::bus::I2cBus;
use crate::common::PortDriver;
use crate::mode::QuasiBidirectional;
use crate::pin::Pin;
use vstd::prelude::*;

verus! {

/// `PCF8575` "Remote 16-bit I/O expander for I2C-bus with interrupt"
pub struct Pcf8575<I2C> {
    pub port: Driver<I2C>,
}

impl<I2C: I2cBus> Pcf8575<I2C> {
    pub fn new(i2c: I2C, a0: bool, a1: bool, a2: bool) -> (r: Self)
        ensures
            r.port.out_known(),
            r.port.out_state() == 0xFFFF,
    {
        Pcf8575 { port: Driver::new(i2c, a0, a1, a2) }
    }

    pub fn split(&self) -> Parts {
        Parts {
            p00: Pin::new(0),
            p01: Pin::new(1),
            p02: Pin::new(2),
            p03: Pin::new(3),
            p04: Pin::new(4),
            p05: Pin::new(5),
            p06: Pin::new(6),
            p07: Pin::new(7),
            p10: Pin::new(8),
            p11: Pin::new(9),
            p12: Pin::new(10),
            p13: Pin::new(11),
            p14: Pin::new(12),
            p15: Pin::new(13),
            p16: Pin::new(14),
            p17: Pin::new(15),
        }
    }
}

/// Container for all 16 quasi-bidirectional pins of the chip.
pub struct Parts {
    pub p00: Pin<QuasiBidirectional>,
    pub p01: Pin<QuasiBidirectional>,
    pub p02: Pin<QuasiBidirectional>,
    pub p03: Pin<QuasiBidirectional>,
    pub p04: Pin<QuasiBidirectional>,
    pub p05: Pin<QuasiBidirectional>,
    pub p06: Pin<QuasiBidirectional>,
    pub p07: Pin<QuasiBidirectional>,
    pub p10: Pin<QuasiBidirectional>,
    pub p11: Pin<QuasiBidirectional>,
    pub p12: Pin<QuasiBidirectional>,
    pub p13: Pin<QuasiBidirectional>,
    pub p14: Pin<QuasiBidirectional>,
    pub p15: Pin<QuasiBidirectional>,
    pub p16: Pin<QuasiBidirectional>,
    pub p17: Pin<QuasiBidirectional>,
}

pub struct Driver<I2C> {
    i2c: I2C,
    out: u16,
    addr: u8,
}

impl<I2C: I2cBus> Driver<I2C> {
    /// The bus address the driver talks to.
    pub closed spec fn spec_addr(&self) -> u8 {
        self.addr
    }

    pub fn new(i2c: I2C, a0: bool, a1: bool, a2: bool) -> (r: Self)
        ensures
            r.spec_addr() == 0x20 | ((a2 as u8) << 2) | ((a1 as u8) << 1) | (a0 as u8),
            r.out_known(),
            r.out_state() == 0xFFFF,
    {
        let addr = 0x20 | ((a2 as u8) << 2) | ((a1 as u8) << 1) | (a0 as u8);
        Driver { i2c, out: 0xffff, addr }
    }
}

impl<I2C: I2cBus> PortDriver for Driver<I2C> {
    type Error = I2C::BusError;

    closed spec fn pins_mask() -> u32 {
        0xFFFF
    }

    closed spec fn supports_output() -> bool {
        true
    }

    closed spec fn out_known(&self) -> bool {
        true
    }

    closed spec fn out_state(&self) -> u32 {
        self.out as u32
    }

    fn set(&mut self, mask_high: u32, mask_low: u32) -> (r: Result<(), Self::Error>) {
        proof {
            crate::common::lemma_set_update_u16(self.out, mask_high, mask_low);
        }
        self.out = (self.out | (mask_high as u16)) & !(mask_low as u16);
        let buf: [u8; 2] = [(self.out & 0xFF) as u8, (self.out >> 8) as u8];
        self.i2c.write(self.addr, buf.as_slice())?;
        Ok(())
    }

    fn is_set(&mut self, mask_high: u32, mask_low: u32) -> (r: Result<u32, Self::Error>) {
        Ok(((self.out as u32) & mask_high) | (!(self.out as u32) & mask_low))
    }

    fn get(&mut self, mask_high: u32, mask_low: u32) -> (r: Result<u32, Self::Error>) {
        let buf = self.i2c.read_word(self.addr)?;
        let input = ((buf[1] as u32) << 8u32) | (buf[0] as u32);
        proof {
            crate::common::lemma_masked_read_confined(input, mask_high, mask_low);
        }
        Ok((input & mask_high) | (!input & mask_low))
    }
}

} // verus!
