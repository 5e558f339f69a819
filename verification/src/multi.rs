//! Setting or reading multiple pins of one chip at the same time.
//!
//! Setting two pins one after the other costs two bus transactions and the
//! pins change state at different times.  [`write_multiple`] and
//! [`read_multiple`] combine the masks of all the given pins first and then
//! touch the bus once, so all pins change (or are sampled) together.

use crate::common::PortDriver;
use crate::mode::HasInput;
use crate::mode::HasOutput;
use crate::pin::Pin;
use vstd::prelude::*;

verus! {

/// The masks of a sequence of pin handles.
pub open spec fn masks_of<MODE>(pins: Seq<&Pin<MODE>>) -> Seq<u32> {
    Seq::new(pins.len(), |i: int| pins[i].spec_mask())
}

/// The or of the masks of the pins below `upto` whose target state is high.
pub open spec fn high_mask(masks: Seq<u32>, states: Seq<bool>, upto: int) -> u32
    decreases upto,
{
    if upto <= 0 {
        0u32
    } else if states[upto - 1] {
        high_mask(masks, states, upto - 1) | masks[upto - 1]
    } else {
        high_mask(masks, states, upto - 1)
    }
}

/// The or of the masks of the pins below `upto` whose target state is low.
pub open spec fn low_mask(masks: Seq<u32>, states: Seq<bool>, upto: int) -> u32
    decreases upto,
{
    if upto <= 0 {
        0u32
    } else if !states[upto - 1] {
        low_mask(masks, states, upto - 1) | masks[upto - 1]
    } else {
        low_mask(masks, states, upto - 1)
    }
}

/// Every entry of `vals` reports the bit of one sample word `bits` that the
/// matching pin's mask selects.
pub open spec fn sampled<MODE>(pins: Seq<&Pin<MODE>>, vals: Seq<bool>, bits: u32) -> bool {
    forall|i: int|
        0 <= i < pins.len() ==> vals[i] == (bits & (#[trigger] pins[i]).spec_mask() != 0)
}

/// Some single sample word explains every entry of `vals`.
pub open spec fn some_sample<MODE>(pins: Seq<&Pin<MODE>>, vals: Seq<bool>) -> bool {
    exists|bits: u32| sampled(pins, vals, bits)
}

/// Set multiple pins of the same chip in one bus transaction.
///
/// `states[i]` is the level pin `pins[i]` takes; all of them change state
/// together.
pub fn write_multiple<PD: PortDriver, MODE: HasOutput>(
    pins: &[&Pin<MODE>],
    states: &[bool],
    port: &mut PD,
) -> (r: Result<(), PD::Error>)
    requires
        pins@.len() == states@.len(),
        PD::supports_output(),
    ensures
        r is Ok ==> final(port).out_known(),
        r is Ok && old(port).out_known() ==> final(port).out_state() == ((old(port).out_state()
            | high_mask(masks_of(pins@), states@, pins@.len() as int)) & !low_mask(
            masks_of(pins@),
            states@,
            pins@.len() as int,
        )) & PD::pins_mask(),
{
    let ghost masks = masks_of(pins@);
    let mut mask_set_high: u32 = 0;
    let mut mask_set_low: u32 = 0;
    let n = pins.len();
    let mut i: usize = 0;
    while i < n
        invariant
            n == pins@.len(),
            pins@.len() == states@.len(),
            i <= n,
            masks == masks_of(pins@),
            mask_set_high == high_mask(masks, states@, i as int),
            mask_set_low == low_mask(masks, states@, i as int),
        decreases n - i,
    {
        if states[i] {
            mask_set_high = mask_set_high | pins[i].pin_mask();
        } else {
            mask_set_low = mask_set_low | pins[i].pin_mask();
        }
        i += 1;
    }
    port.set(mask_set_high, mask_set_low)
}

/// Read multiple pins of the same chip in one bus transaction.
///
/// The result has one entry per pin, `true` where the pin was high, all
/// taken from a single sample.
pub fn read_multiple<PD: PortDriver, MODE: HasInput>(pins: &[&Pin<MODE>], port: &mut PD) -> (r:
    Result<Vec<bool>, PD::Error>)
    ensures
        final(port).out_known() == old(port).out_known(),
        final(port).out_state() == old(port).out_state(),
        r is Ok ==> r->Ok_0@.len() == pins@.len(),
        r matches Ok(vals) ==> some_sample(pins@, vals@),
{
    let n = pins.len();
    let mut mask: u32 = 0;
    let mut i: usize = 0;
    while i < n
        invariant
            n == pins@.len(),
            i <= n,
        decreases n - i,
    {
        mask = mask | pins[i].pin_mask();
        i += 1;
    }
    let bits = port.get(mask, 0)?;
    let mut ret: Vec<bool> = Vec::new();
    let mut j: usize = 0;
    while j < n
        invariant
            n == pins@.len(),
            j <= n,
            ret@.len() == j,
            forall|k: int|
                0 <= k < j ==> ret@[k] == (bits & (#[trigger] pins@[k]).spec_mask() != 0),
        decreases n - j,
    {
        ret.push(bits & pins[j].pin_mask() != 0);
        j += 1;
    }
    proof {
        assert(some_sample(pins@, ret@)) by {
            assert(sampled(pins@, ret@, bits));
            assert(exists|b: u32| sampled(pins@, ret@, b));
        }
    }
    Ok(ret)
}

} // verus!
