//! Representation of a single port-expander pin.
//!
//! A `Pin` is a typed handle — one bit position plus a mode marker.  Every
//! operation takes the chip's driver explicitly, so the embedding system
//! decides how driver access is shared (a `RefCell`, a critical section, a
//! lock); the pin itself carries no reference.

use crate::common::Direction;
use crate::common::PortDriver;
use crate::common::PortDriverPolarity;
use crate::common::PortDriverPullDown;
use crate::common::PortDriverPullUp;
use crate::common::PortDriverTotemPole;
use crate::mode::HasInput;
use crate::mode::HasOutput;
use crate::mode::Input;
use crate::mode::Output;
use core::marker::PhantomData;
use vstd::prelude::*;

verus! {

/// Representation of a port-expander pin.
///
/// `Pin` is not constructed directly; it is obtained by instantiating a
/// port-expander and calling its `split()` method.
#[verifier::reject_recursive_types(MODE)]
pub struct Pin<MODE> {
    pin_mask: u32,
    _m: PhantomData<MODE>,
}

/// Error type for [`Pin`] operations, wrapping the driver's bus error.
#[derive(Debug)]
pub struct PinError<PDE> {
    driver_error: PDE,
}

impl<PDE> PinError<PDE> {
    /// The wrapped driver error.
    pub closed spec fn spec_driver_error(&self) -> &PDE {
        &self.driver_error
    }

    /// The upstream port driver error that occurred.
    pub fn driver_error(&self) -> (r: &PDE)
        ensures
            r == self.spec_driver_error(),
    {
        &self.driver_error
    }
}

impl<MODE> Pin<MODE> {
    /// The single-bit mask of this pin.
    pub closed spec fn spec_mask(&self) -> u32 {
        self.pin_mask
    }

    /// A handle for bit `pin_number` of a chip's port.
    pub fn new(pin_number: u8) -> (r: Pin<MODE>)
        requires
            pin_number < 32,
        ensures
            r.spec_mask() == 1u32 << (pin_number as u32),
    {
        Pin { pin_mask: 1u32 << (pin_number as u32), _m: PhantomData }
    }

    /// The single-bit mask of this pin.
    pub fn pin_mask(&self) -> (r: u32)
        ensures
            r == self.spec_mask(),
    {
        self.pin_mask
    }

    /// Configure this pin as an input.
    ///
    /// The exact electrical details depend on the port-expander device which
    /// is used.
    pub fn into_input<PD: PortDriverTotemPole>(self, port: &mut PD) -> (r: Result<
        Pin<Input>,
        PinError<PD::Error>,
    >)
        requires
            PD::supports_output(),
        ensures
            r is Ok ==> r->Ok_0.spec_mask() == self.spec_mask(),
            r is Ok ==> final(port).out_known() == old(port).out_known() && final(port).out_state()
                == old(port).out_state(),
    {
        match port.set_direction(self.pin_mask, Direction::Input, false) {
            Ok(()) => Ok(Pin { pin_mask: self.pin_mask, _m: PhantomData }),
            Err(e) => Err(PinError { driver_error: e }),
        }
    }

    /// Configure this pin as an output with an initial LOW state.
    ///
    /// The LOW state is, as long as the chip allows this, entered without an
    /// electrical glitch.
    pub fn into_output<PD: PortDriverTotemPole>(self, port: &mut PD) -> (r: Result<
        Pin<Output>,
        PinError<PD::Error>,
    >)
        requires
            PD::supports_output(),
        ensures
            r is Ok ==> r->Ok_0.spec_mask() == self.spec_mask(),
            r is Ok && old(port).out_known() ==> final(port).out_known(),
    {
        match port.set_direction(self.pin_mask, Direction::Output, false) {
            Ok(()) => Ok(Pin { pin_mask: self.pin_mask, _m: PhantomData }),
            Err(e) => Err(PinError { driver_error: e }),
        }
    }

    /// Configure this pin as an output with an initial HIGH state.
    ///
    /// The HIGH state is, as long as the chip allows this, entered without an
    /// electrical glitch.
    pub fn into_output_high<PD: PortDriverTotemPole>(self, port: &mut PD) -> (r: Result<
        Pin<Output>,
        PinError<PD::Error>,
    >)
        requires
            PD::supports_output(),
        ensures
            r is Ok ==> r->Ok_0.spec_mask() == self.spec_mask(),
            r is Ok && old(port).out_known() ==> final(port).out_known(),
    {
        match port.set_direction(self.pin_mask, Direction::Output, true) {
            Ok(()) => Ok(Pin { pin_mask: self.pin_mask, _m: PhantomData }),
            Err(e) => Err(PinError { driver_error: e }),
        }
    }

    /// Turn on hardware polarity inversion for this pin.
    pub fn into_inverted<PD: PortDriverPolarity>(self, port: &mut PD) -> (r: Result<
        Self,
        PinError<PD::Error>,
    >)
        ensures
            r is Ok ==> r->Ok_0.spec_mask() == self.spec_mask(),
            final(port).out_known() == old(port).out_known(),
            final(port).out_state() == old(port).out_state(),
    {
        match port.set_polarity(self.pin_mask, true) {
            Ok(()) => Ok(self),
            Err(e) => Err(PinError { driver_error: e }),
        }
    }

    /// Set hardware polarity inversion for this pin.
    pub fn set_inverted<PD: PortDriverPolarity>(&mut self, port: &mut PD, inverted: bool) -> (r:
        Result<(), PinError<PD::Error>>)
        ensures
            final(self).spec_mask() == old(self).spec_mask(),
            final(port).out_known() == old(port).out_known(),
            final(port).out_state() == old(port).out_state(),
    {
        match port.set_polarity(self.pin_mask, inverted) {
            Ok(()) => Ok(()),
            Err(e) => Err(PinError { driver_error: e }),
        }
    }
}

impl<MODE: HasInput> Pin<MODE> {
    /// Read the pin's input state and return `true` if it is HIGH.
    pub fn is_high<PD: PortDriver>(&self, port: &mut PD) -> (r: Result<bool, PinError<PD::Error>>)
        ensures
            final(port).out_known() == old(port).out_known(),
            final(port).out_state() == old(port).out_state(),
    {
        match port.get(self.pin_mask, 0) {
            Ok(bits) => Ok(bits == self.pin_mask),
            Err(e) => Err(PinError { driver_error: e }),
        }
    }

    /// Read the pin's input state and return `true` if it is LOW.
    pub fn is_low<PD: PortDriver>(&self, port: &mut PD) -> (r: Result<bool, PinError<PD::Error>>)
        ensures
            final(port).out_known() == old(port).out_known(),
            final(port).out_state() == old(port).out_state(),
    {
        match port.get(0, self.pin_mask) {
            Ok(bits) => Ok(bits == self.pin_mask),
            Err(e) => Err(PinError { driver_error: e }),
        }
    }

    /// Enable or disable pull-up resistors for this pin.
    ///
    /// If `enable` is `true` the pull-up is enabled, otherwise the pin is
    /// configured as a floating input.
    pub fn enable_pull_up<PD: PortDriverPullUp>(&mut self, port: &mut PD, enable: bool) -> (r:
        Result<(), PinError<PD::Error>>)
        ensures
            final(self).spec_mask() == old(self).spec_mask(),
            final(port).out_known() == old(port).out_known(),
            final(port).out_state() == old(port).out_state(),
    {
        match port.set_pull_up(self.pin_mask, enable) {
            Ok(()) => Ok(()),
            Err(e) => Err(PinError { driver_error: e }),
        }
    }

    /// Enable or disable pull-down resistors for this pin.
    ///
    /// If `enable` is `true` the pull-down is enabled, otherwise the pin is
    /// configured as a floating input.
    pub fn enable_pull_down<PD: PortDriverPullDown>(&mut self, port: &mut PD, enable: bool) -> (r:
        Result<(), PinError<PD::Error>>)
        ensures
            final(self).spec_mask() == old(self).spec_mask(),
            final(port).out_known() == old(port).out_known(),
            final(port).out_state() == old(port).out_state(),
    {
        match port.set_pull_down(self.pin_mask, enable) {
            Ok(()) => Ok(()),
            Err(e) => Err(PinError { driver_error: e }),
        }
    }
}

impl<MODE: HasOutput> Pin<MODE> {
    /// Set the pin's output latch to HIGH.
    ///
    /// Note that this can have different electrical meanings depending on
    /// the port-expander chip.
    pub fn set_high<PD: PortDriver>(&mut self, port: &mut PD) -> (r: Result<
        (),
        PinError<PD::Error>,
    >)
        requires
            PD::supports_output(),
        ensures
            final(self).spec_mask() == old(self).spec_mask(),
            r is Ok ==> final(port).out_known(),
            r is Ok && old(port).out_known() ==> final(port).out_state() == (old(port).out_state()
                | old(self).spec_mask()) & PD::pins_mask(),
    {
        let r = port.set(self.pin_mask, 0);
        proof {
            if r is Ok && old(port).out_known() {
                let out = old(port).out_state();
                let m = self.spec_mask();
                assert(((out | m) & !0u32) == (out | m)) by (bit_vector);
            }
        }
        match r {
            Ok(()) => Ok(()),
            Err(e) => Err(PinError { driver_error: e }),
        }
    }

    /// Set the pin's output latch to LOW.
    ///
    /// Note that this can have different electrical meanings depending on
    /// the port-expander chip.
    pub fn set_low<PD: PortDriver>(&mut self, port: &mut PD) -> (r: Result<
        (),
        PinError<PD::Error>,
    >)
        requires
            PD::supports_output(),
        ensures
            final(self).spec_mask() == old(self).spec_mask(),
            r is Ok ==> final(port).out_known(),
            r is Ok && old(port).out_known() ==> final(port).out_state() == (old(port).out_state()
                & !old(self).spec_mask()) & PD::pins_mask(),
    {
        let r = port.set(0, self.pin_mask);
        proof {
            if r is Ok && old(port).out_known() {
                let out = old(port).out_state();
                let m = self.spec_mask();
                assert(((out | 0) & !m) == (out & !m)) by (bit_vector);
            }
        }
        match r {
            Ok(()) => Ok(()),
            Err(e) => Err(PinError { driver_error: e }),
        }
    }

    /// Return `true` if the pin's output latch is HIGH.
    ///
    /// This method does **not** read the pin's electrical state.
    pub fn is_set_high<PD: PortDriver>(&self, port: &mut PD) -> (r: Result<
        bool,
        PinError<PD::Error>,
    >)
        requires
            PD::supports_output(),
        ensures
            r is Ok ==> final(port).out_known(),
            r is Ok && old(port).out_known() ==> final(port).out_state() == old(port).out_state(),
            r is Ok ==> r->Ok_0 == (final(port).out_state() & self.spec_mask() == self.spec_mask()),
    {
        match port.is_set(self.pin_mask, 0) {
            Ok(bits) => {
                proof {
                    let out = port.out_state();
                    let m = self.spec_mask();
                    assert(((out & m) | (!out & 0)) == (out & m)) by (bit_vector);
                }
                Ok(bits == self.pin_mask)
            },
            Err(e) => Err(PinError { driver_error: e }),
        }
    }

    /// Return `true` if the pin's output latch is LOW.
    ///
    /// This method does **not** read the pin's electrical state.
    pub fn is_set_low<PD: PortDriver>(&self, port: &mut PD) -> (r: Result<
        bool,
        PinError<PD::Error>,
    >)
        requires
            PD::supports_output(),
        ensures
            r is Ok ==> final(port).out_known(),
            r is Ok && old(port).out_known() ==> final(port).out_state() == old(port).out_state(),
            r is Ok ==> r->Ok_0 == (final(port).out_state() & self.spec_mask() == 0),
    {
        match port.is_set(0, self.pin_mask) {
            Ok(bits) => {
                proof {
                    let out = port.out_state();
                    let m = self.spec_mask();
                    assert(((out & 0) | (!out & m)) == (!out & m)) by (bit_vector);
                    assert(((!out & m) == m) == ((out & m) == 0)) by (bit_vector);
                }
                Ok(bits == self.pin_mask)
            },
            Err(e) => Err(PinError { driver_error: e }),
        }
    }

    /// Toggle the pin's output latch.
    pub fn toggle<PD: PortDriver>(&mut self, port: &mut PD) -> (r: Result<(), PinError<PD::Error>>)
        requires
            PD::supports_output(),
        ensures
            final(self).spec_mask() == old(self).spec_mask(),
            r is Ok ==> final(port).out_known(),
            r is Ok && old(port).out_known() ==> final(port).out_state() == (old(port).out_state()
                ^ old(self).spec_mask()) & PD::pins_mask(),
    {
        match port.toggle(self.pin_mask) {
            Ok(()) => Ok(()),
            Err(e) => Err(PinError { driver_error: e }),
        }
    }
}

} // verus!
