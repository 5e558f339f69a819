use vstd::prelude::*;

verus! {

/// Direction of a port-expander pin.
#[derive(Debug, Clone, Copy, PartialEq, Eq, Structural)]
pub enum Direction {
    Input,
    Output,
}

/// Capability contract of a port-expander chip driver.
///
/// A driver keeps a local cache of the output latch (`out_state`) so that
/// read-modify-write cycles on the output register do not need a bus read.
/// The contracts below pin down exactly how every operation maintains that
/// cache; what the physical pins do is the chip's business and is therefore
/// not part of the model.
pub trait PortDriver {
    type Error;

    /// Mask of the bits that correspond to real pins of this chip.
    spec fn pins_mask() -> u32;

    /// Whether the chip can drive outputs at all (input-only expanders cannot).
    spec fn supports_output() -> bool;

    /// Whether the cached output state is known.  Some chips must read the
    /// output register back once before the cache is meaningful.
    spec fn out_known(&self) -> bool;

    /// The cached state of the output latch, one bit per pin.
    spec fn out_state(&self) -> u32;

    /// Set all pins in `mask_high` to HIGH and all pins in `mask_low` to LOW.
    ///
    /// All pins change state in as few bus transactions as the chip allows.
    fn set(&mut self, mask_high: u32, mask_low: u32) -> (r: Result<(), Self::Error>)
        requires
            Self::supports_output(),
        ensures
            r is Ok ==> final(self).out_known(),
            r is Ok && old(self).out_known() ==> final(self).out_state() == ((old(self).out_state()
                | mask_high) & !mask_low) & Self::pins_mask(),
    ;

    /// Check whether pins in `mask_high` were set HIGH and pins in `mask_low`
    /// were set LOW.
    ///
    /// For each pin in either mask the returned word has a 1 exactly if the
    /// cached output latch meets the expected state; all other bits are 0.
    fn is_set(&mut self, mask_high: u32, mask_low: u32) -> (r: Result<u32, Self::Error>)
        requires
            Self::supports_output(),
        ensures
            r is Ok ==> final(self).out_known(),
            r is Ok ==> r->Ok_0 == (final(self).out_state() & mask_high) | (!final(self).out_state()
                & mask_low),
            r is Ok && old(self).out_known() ==> final(self).out_state() == old(self).out_state(),
    ;

    /// Check whether pins in `mask_high` are driven HIGH and pins in
    /// `mask_low` are driven LOW.
    ///
    /// For each pin in either mask the returned word has a 1 if the pin meets
    /// the expected level and a 0 otherwise.  All other bits always stay 0.
    /// Reading inputs never disturbs the output latch.
    fn get(&mut self, mask_high: u32, mask_low: u32) -> (r: Result<u32, Self::Error>)
        ensures
            r is Ok ==> r->Ok_0 & !(mask_high | mask_low) == 0,
            final(self).out_known() == old(self).out_known(),
            final(self).out_state() == old(self).out_state(),
    ;

    /// Toggle all pins in `mask`.
    fn toggle(&mut self, mask: u32) -> (r: Result<(), Self::Error>)
        requires
            Self::supports_output(),
        ensures
            r is Ok ==> final(self).out_known(),
            r is Ok && old(self).out_known() ==> final(self).out_state() == (old(self).out_state()
                ^ mask) & Self::pins_mask(),
    {
        // for all pins which are currently low, make them high.
        let mask_high = self.is_set(0, mask)?;
        // for all pins which are currently high, make them low.
        let mask_low = self.is_set(mask, 0)?;
        let r = self.set(mask_high, mask_low);
        proof {
            if r is Ok && old(self).out_known() {
                let out = old(self).out_state();
                assert(((out | ((out & 0) | (!out & mask))) & !((out & mask) | (!out & 0))) == (out
                    ^ mask)) by (bit_vector);
            }
        }
        r
    }
}

/// Chips which can configure pins as either inputs or totem-pole outputs.
pub trait PortDriverTotemPole: PortDriver {
    /// Set the direction for all pins in `mask` to direction `dir`.
    ///
    /// To prevent electrical glitches when making pins outputs, `state` is
    /// the level the pin takes right when switching, where the chip allows
    /// presetting it.
    fn set_direction(&mut self, mask: u32, dir: Direction, state: bool) -> (r: Result<
        (),
        Self::Error,
    >)
        requires
            Self::supports_output(),
        ensures
            r is Ok && dir is Input ==> final(self).out_known() == old(self).out_known()
                && final(self).out_state() == old(self).out_state(),
            r is Ok && old(self).out_known() ==> final(self).out_known(),
    ;
}

/// Chips which can invert the polarity of their input pins.
pub trait PortDriverPolarity: PortDriver {
    /// Set the polarity of all pins in `mask` either `inverted` or not.
    fn set_polarity(&mut self, mask: u32, inverted: bool) -> (r: Result<(), Self::Error>)
        ensures
            final(self).out_known() == old(self).out_known(),
            final(self).out_state() == old(self).out_state(),
    ;
}

/// Chips with configurable pull-down resistors.
pub trait PortDriverPullDown: PortDriver {
    /// Enable pull-downs for pins in `mask`, or set them floating if `enable`
    /// is false.
    fn set_pull_down(&mut self, mask: u32, enable: bool) -> (r: Result<(), Self::Error>)
        ensures
            final(self).out_known() == old(self).out_known(),
            final(self).out_state() == old(self).out_state(),
    ;
}

/// Chips with configurable pull-up resistors.
pub trait PortDriverPullUp: PortDriver {
    /// Enable pull-ups for pins in `mask`, or set them floating if `enable`
    /// is false.
    fn set_pull_up(&mut self, mask: u32, enable: bool) -> (r: Result<(), Self::Error>)
        ensures
            final(self).out_known() == old(self).out_known(),
            final(self).out_state() == old(self).out_state(),
    ;
}

/// Chips which latch interrupt state remotely and expose it for polling.
pub trait PortDriverInterrupts: PortDriver {
    /// Fetch the interrupt status of pins from the port expander and amend
    /// the locally cached values.
    fn fetch_interrupt_state(&mut self) -> Result<(), Self::Error>;

    /// Read which pins changed state since the last interrupt, from the local
    /// cache only.  Bits outside `mask` stay 0; the cache is reset for pins
    /// in `mask`.
    fn query_pin_change(&mut self, mask: u32) -> (r: u32)
        ensures
            r & !mask == 0,
    ;
}

/// Chips with a maskable interrupt source per pin.
pub trait PortDriverIrqMask: PortDriver {
    /// Set/clear the interrupt mask of the port expander.
    fn set_interrupt_mask(&mut self, mask_set: u32, mask_clear: u32) -> Result<(), Self::Error>;
}

/// Chips which capture the pin levels at interrupt time.
pub trait PortDriverIrqState: PortDriver {
    /// Read, from the local cache only, which pins in `mask` changed state at
    /// the last interrupt and what state they took.  Bits outside `mask`
    /// stay 0 in both words; the cache is reset for pins in `mask`.
    fn query_interrupt_state(&mut self, mask: u32) -> (r: (u32, u32))
        ensures
            r.0 & !mask == 0,
            r.1 & !mask == 0,
    ;
}

/// A read of the input register confined to the two query masks: for every
/// input word, the reported word has no bits outside `mask_high | mask_low`.
pub(crate) proof fn lemma_masked_read_confined(input: u32, mask_high: u32, mask_low: u32)
    ensures
        ((input & mask_high) | (!input & mask_low)) & !(mask_high | mask_low) == 0,
{
    assert(((input & mask_high) | (!input & mask_low)) & !(mask_high | mask_low) == 0)
        by (bit_vector);
}

/// Updating an 8-bit output cache with 32-bit masks equals the 32-bit update
/// confined to the low byte.
pub(crate) proof fn lemma_set_update_u8(out: u8, mask_high: u32, mask_low: u32)
    ensures
        (((out | (mask_high as u8)) & !(mask_low as u8)) as u32) == (((out as u32) | mask_high)
            & !mask_low) & 0xFF,
{
    assert((((out | (mask_high as u8)) & !(mask_low as u8)) as u32) == (((out as u32) | mask_high)
        & !mask_low) & 0xFF) by (bit_vector);
}

/// Updating a 16-bit output cache with 32-bit masks equals the 32-bit update
/// confined to the low two bytes.
pub(crate) proof fn lemma_set_update_u16(out: u16, mask_high: u32, mask_low: u32)
    ensures
        (((out | (mask_high as u16)) & !(mask_low as u16)) as u32) == (((out as u32) | mask_high)
            & !mask_low) & 0xFFFF,
{
    assert((((out | (mask_high as u16)) & !(mask_low as u16)) as u32) == (((out as u32)
        | mask_high) & !mask_low) & 0xFFFF) by (bit_vector);
}

} // verus!
