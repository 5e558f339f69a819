//! Raw bus access as the port-expander drivers need it.
//!
//! The embedding system implements [`I2cBus`] / [`SpiBus`] for its own bus
//! peripheral; everything the drivers know about a bus goes through these
//! traits.  A bus read returns whatever the wire carried, so nothing is
//! promised about the bytes themselves.

use vstd::prelude::*;

verus! {

/// I²C bus access for register-style port expanders.
pub trait I2cBus {
    type BusError;

    /// Write `bytes` to the device at `addr` in one transaction.
    fn write(&mut self, addr: u8, bytes: &[u8]) -> Result<(), Self::BusError>;

    /// Read one byte from the device at `addr` in one transaction.
    fn read_byte(&mut self, addr: u8) -> Result<u8, Self::BusError>;

    /// Read two bytes from the device at `addr` in one transaction.
    fn read_word(&mut self, addr: u8) -> Result<[u8; 2], Self::BusError>;

    /// Write `bytes`, then read one byte back, in one transaction.
    fn write_read_byte(&mut self, addr: u8, bytes: &[u8]) -> Result<u8, Self::BusError>;
}

/// SPI bus access for SPI-attached port expanders.
pub trait SpiBus {
    type BusError;

    /// Write `bytes` to the device in one transaction.
    fn write(&mut self, bytes: &[u8]) -> Result<(), Self::BusError>;

    /// Read one byte from the device in one transaction.
    fn read_byte(&mut self) -> Result<u8, Self::BusError>;

    /// Write `bytes`, then read one byte, in one transaction.
    fn write_read_byte(&mut self, bytes: &[u8]) -> Result<u8, Self::BusError>;
}

/// Register-oriented helpers shared by the I²C chip drivers.
pub trait I2cExt {
    type Error;

    /// Write `value` into register `reg` of the device at `addr`.
    fn write_reg(&mut self, addr: u8, reg: u8, value: u8) -> Result<(), Self::Error>;

    /// Read register `reg`, set the bits of `mask_set`, clear those of
    /// `mask_clear`, and write the result back.
    fn update_reg(&mut self, addr: u8, reg: u8, mask_set: u8, mask_clear: u8) -> Result<
        (),
        Self::Error,
    >;

    /// Read register `reg` of the device at `addr`.
    fn read_reg(&mut self, addr: u8, reg: u8) -> Result<u8, Self::Error>;
}

impl<I2C: I2cBus> I2cExt for I2C {
    type Error = I2C::BusError;

    fn write_reg(&mut self, addr: u8, reg: u8, value: u8) -> Result<(), Self::Error> {
        let buf: [u8; 2] = [reg, value];
        self.write(addr, buf.as_slice())?;
        Ok(())
    }

    fn update_reg(&mut self, addr: u8, reg: u8, mask_set: u8, mask_clear: u8) -> Result<
        (),
        Self::Error,
    > {
        let regbuf: [u8; 1] = [reg];
        let cur = self.write_read_byte(addr, regbuf.as_slice())?;
        let value = (cur | mask_set) & !mask_clear;
        let buf: [u8; 2] = [reg, value];
        self.write(addr, buf.as_slice())?;
        Ok(())
    }

    fn read_reg(&mut self, addr: u8, reg: u8) -> Result<u8, Self::Error> {
        let regbuf: [u8; 1] = [reg];
        self.write_read_byte(addr, regbuf.as_slice())
    }
}

} // verus!
