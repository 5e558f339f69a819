//! A common abstraction for I²C and SPI port-expanders, verified with Verus.
//!
//! A port-expander chip is represented by a driver implementing
//! [`PortDriver`]: bit-mask operations over the chip's registers whose
//! contracts pin down exactly how the driver's cached output latch evolves.
//! Individual pins are typed handles ([`Pin`]) which can be used much like
//! direct GPIOs; every pin operation takes the chip's driver explicitly, so
//! the embedding system chooses the exclusive-access discipline that shares
//! one driver between many pins.
//!
//! The [`pin_async`] module holds the interrupt-driven asynchronous
//! pin-notification engine: a shared [`AsyncPortState`] in which tasks
//! register waits for a pin level or edge, and which a single
//! interrupt-driven pass resolves exactly once per matching transition.

mod bus;
mod common;
pub mod dev;
mod driver;
pub mod mode;
mod multi;
mod pin;
pub mod pin_async;
mod waiters;

use vstd::prelude::*;

verus! {

pub use bus::I2cBus;
pub use bus::I2cExt;
pub use bus::SpiBus;
pub use common::Direction;
pub use common::PortDriver;
pub use common::PortDriverInterrupts;
pub use common::PortDriverIrqMask;
pub use common::PortDriverIrqState;
pub use common::PortDriverPolarity;
pub use common::PortDriverPullDown;
pub use common::PortDriverPullUp;
pub use common::PortDriverTotemPole;
pub use driver::Driver8;
pub use driver::Regs8;
pub use driver::Regs8Default;
pub use multi::read_multiple;
pub use multi::write_multiple;
pub use pin::Pin;
pub use pin::PinError;
pub use pin_async::AsyncPortState;
pub use pin_async::WaitCondition;

pub use dev::ch422::Ch422;
pub use dev::max7321::Max7321;
pub use dev::mcp23017::Mcp23017;
pub use dev::mcp23x17::Mcp23x17;
pub use dev::pca9536::Pca9536;
pub use dev::pca9554::Pca9554;
pub use dev::pca9554::Pca9554A;
pub use dev::pca9555::Pca9555;
pub use dev::pca9702::Pca9702;
pub use dev::pcal6408a::Pcal6408a;
pub use dev::pcal6416a::Pcal6416a;
pub use dev::pcf8574::Pcf8574;
pub use dev::pcf8574::Pcf8574a;
pub use dev::pcf8575::Pcf8575;
pub use dev::pi4ioe5v6408::Pi4ioe5v6408;
pub use dev::tca6408a::Tca6408a;

} // verus!
