//! Clocks of the peripherals: nothing on a port answers before the port's
//! clock runs.

use vstd::prelude::*;
use crate::registers::{RCC_AHB2ENR, RegisterFile, Store};

verus! {

/// The bits of the nine ports in their clock enable register.
pub const GPIO_CLOCK_ENABLE: u32 = 0x0000_01FF;

/// The clock enable register with the clocks of all nine ports switched on
/// and every other clock as it was.
pub open spec fn with_gpio_clocks(word: u32) -> u32 {
    word | GPIO_CLOCK_ENABLE
}

/// Switches the clocks of all nine ports on, in one masked update that
/// leaves every other clock as it was.
pub fn enable_gpio_clocks<R: RegisterFile>(regs: &mut R)
    ensures
        final(regs)@ == old(regs)@.insert(RCC_AHB2ENR, with_gpio_clocks(old(regs)@[RCC_AHB2ENR])),
        final(regs).stores() == old(regs).stores().push(
            (Store::Modify { addr: RCC_AHB2ENR, clear: 0, set: GPIO_CLOCK_ENABLE }),
        ),
        final(regs)@[RCC_AHB2ENR] & GPIO_CLOCK_ENABLE == GPIO_CLOCK_ENABLE,
        final(regs)@[RCC_AHB2ENR] & !GPIO_CLOCK_ENABLE == old(regs)@[RCC_AHB2ENR]
            & !GPIO_CLOCK_ENABLE,
{
    let ghost word: u32 = regs@[RCC_AHB2ENR];
    regs.modify(RCC_AHB2ENR, 0, GPIO_CLOCK_ENABLE);
    proof {
        assert((word & !0u32) | 0x0000_01FFu32 == word | 0x0000_01FFu32) by (bit_vector);
        assert((word | 0x0000_01FFu32) & 0x0000_01FFu32 == 0x0000_01FFu32) by (bit_vector);
        assert((word | 0x0000_01FFu32) & !0x0000_01FFu32 == word & !0x0000_01FFu32)
            by (bit_vector);
    }
}

} // verus!
