//! Support for the `CH422` "Remote 12-bit I/O expander for I2C-bus".

use crate::bus::I2cBus;
use crate::common::PortDriver;
use crate::mode::Input;
use crate::mode::Output;
use crate::pin::Pin;
use core::marker::PhantomData;
use vstd::prelude::*;

verus! {

const WRITE_SET: u8 = 0x48 >> 1;
const WRITE_IO: u8 = 0x70 >> 1;
const READ_IO: u8 = 0x4D >> 1;

const FLAG_IO_ENABLE_OUTPUT: u8 = 1;

/// `CH422` "Remote 12-bit I/O expander for I2C-bus"
#[verifier::reject_recursive_types(Mode)]
pub struct Ch422<I2C, Mode> {
    pub port: Driver<I2C, Mode>,
}

impl<I2C: I2cBus> Ch422<I2C, Input> {
    pub fn new(i2c: I2C) -> (r: Self)
        ensures
            r.port.out_known(),
            r.port.out_state() == 0xFF,
    {
        Ch422 { port: Driver::new(i2c) }
    }

    /// Put the eight bidirectional pins into push-pull output mode.
    pub fn enable_output(self) -> (r: Result<Ch422<I2C, Output>, I2C::BusError>) {
        match self.port.enable_output() {
            Ok(driver) => Ok(Ch422 { port: driver }),
            Err(e) => Err(e),
        }
    }
}

impl<I2C: I2cBus> Ch422<I2C, Output> {
    /// Put the eight bidirectional pins back into input mode.
    pub fn disable_output(self) -> (r: Ch422<I2C, Input>) {
        Ch422 { port: self.port.disable_output() }
    }
}

impl<I2C: I2cBus, Mode> Ch422<I2C, Mode> {
    pub fn split(&self) -> Parts<Mode> {
        Parts {
            io0: Pin::new(0),
            io1: Pin::new(1),
            io2: Pin::new(2),
            io3: Pin::new(3),
            io4: Pin::new(4),
            io5: Pin::new(5),
            io6: Pin::new(6),
            io7: Pin::new(7),
            o0: Pin::new(8),
            o1: Pin::new(9),
            o2: Pin::new(10),
            o3: Pin::new(11),
        }
    }
}

/// Container for the 8 bidirectional and 4 output-only pins of the chip.
#[verifier::reject_recursive_types(Mode)]
pub struct Parts<Mode> {
    pub io0: Pin<Mode>,
    pub io1: Pin<Mode>,
    pub io2: Pin<Mode>,
    pub io3: Pin<Mode>,
    pub io4: Pin<Mode>,
    pub io5: Pin<Mode>,
    pub io6: Pin<Mode>,
    pub io7: Pin<Mode>,
    pub o0: Pin<Output>,
    pub o1: Pin<Output>,
    pub o2: Pin<Output>,
    pub o3: Pin<Output>,
}

#[verifier::reject_recursive_types(Mode)]
pub struct Driver<I2C, Mode> {
    i2c: I2C,
    out: u8,
    io_mode: PhantomData<Mode>,
}

impl<I2C: I2cBus> Driver<I2C, Input> {
    pub fn new(i2c: I2C) -> (r: Self)
        ensures
            r.out_known(),
            r.out_state() == 0xFF,
    {
        Driver { i2c, out: 0xff, io_mode: PhantomData }
    }

    /// Switch the chip's bidirectional pins to output mode.
    pub fn enable_output(self) -> (r: Result<Driver<I2C, Output>, I2C::BusError>)
        ensures
            r is Ok ==> r->Ok_0.out_state() == self.out_state(),
    {
        let mut this = self;
        let buf: [u8; 1] = [FLAG_IO_ENABLE_OUTPUT];
        match this.i2c.write(WRITE_SET, buf.as_slice()) {
            Ok(()) => Ok(Driver { i2c: this.i2c, out: this.out, io_mode: PhantomData }),
            Err(e) => Err(e),
        }
    }
}

impl<I2C: I2cBus> Driver<I2C, Output> {
    /// Switch the chip's bidirectional pins back to input mode.
    pub fn disable_output(self) -> (r: Driver<I2C, Input>)
        ensures
            r.out_state() == self.out_state(),
    {
        Driver { i2c: self.i2c, out: self.out, io_mode: PhantomData }
    }
}

impl<I2C: I2cBus, Mode> PortDriver for Driver<I2C, Mode> {
    type Error = I2C::BusError;

    closed spec fn pins_mask() -> u32 {
        0xFF
    }

    closed spec fn supports_output() -> bool {
        true
    }

    closed spec fn out_known(&self) -> bool {
        true
    }

    closed spec fn out_state(&self) -> u32 {
        self.out as u32
    }

    fn set(&mut self, mask_high: u32, mask_low: u32) -> (r: Result<(), Self::Error>) {
        proof {
            crate::common::lemma_set_update_u8(self.out, mask_high, mask_low);
        }
        self.out = (self.out | (mask_high as u8)) & !(mask_low as u8);
        let buf: [u8; 1] = [self.out];
        self.i2c.write(WRITE_IO, buf.as_slice())?;
        Ok(())
    }

    fn is_set(&mut self, mask_high: u32, mask_low: u32) -> (r: Result<u32, Self::Error>) {
        Ok(((self.out as u32) & mask_high) | (!(self.out as u32) & mask_low))
    }

    fn get(&mut self, mask_high: u32, mask_low: u32) -> (r: Result<u32, Self::Error>) {
        let input = self.i2c.read_byte(READ_IO)? as u32;
        proof {
            crate::common::lemma_masked_read_confined(input, mask_high, mask_low);
        }
        Ok((input & mask_high) | (!input & mask_low))
    }
}

} // verus!
