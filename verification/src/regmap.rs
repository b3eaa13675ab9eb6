//! The register map: named addresses and bit positions for the GPIO port
//! that drives the compass LEDs, so no caller has to spell a magic number.

use vstd::prelude::*;

verus! {

/// Address of the GPIO port E bit set/reset register.
pub const GPIOE_BSRR: u32 = 0x4800_1018;

/// Number of compass LEDs on the port.
pub const LED_COUNT: usize = 8;

/// Output pin of the north LED (red).
pub const LED_NORTH_PIN: u32 = 9;

/// Output pin of the east LED (green).
pub const LED_EAST_PIN: u32 = 11;

/// Output pin of the compass LED at position `i`, counting clockwise from
/// north: the LEDs sit on pins 9 through 15 and wrap to pin 8 at
/// northwest.
pub open spec fn led_pin_spec(i: int) -> u32 {
    if i == 7 {
        8
    } else {
        (9 + i) as u32
    }
}

/// Looks the pin of compass LED `i` up in the map.
pub fn led_pin(i: usize) -> (p: u32)
    requires
        i < LED_COUNT,
    ensures
        p == led_pin_spec(i as int),
        8 <= p < 16,
{
    if i == 7 {
        8
    } else {
        9 + (i as u32)
    }
}

/// The word that, stored into a bit set/reset register, drives output
/// `pin` high and touches nothing else.
pub fn pin_set_word(pin: u32) -> (w: u32)
    requires
        pin < 16,
    ensures
        w == (1u32 << pin),
        w <= 0xFFFF,
{
    proof {
        assert(pin < 16 ==> (1u32 << pin) <= 0xFFFF) by (bit_vector);
    }
    1u32 << pin
}

/// The word that, stored into a bit set/reset register, drives output
/// `pin` low and touches nothing else: the pin's bit shifted into the
/// reset half.
pub fn pin_reset_word(pin: u32) -> (w: u32)
    requires
        pin < 16,
    ensures
        w == ((1u32 << pin) << 16),
        crate::bsrr::pins_to_clear(w) == (1u32 << pin),
        crate::bsrr::reset_word(w) == w,
{
    proof {
        assert(pin < 16 ==> crate::bsrr::pins_to_clear((1u32 << pin) << 16) == (1u32 << pin))
            by (bit_vector);
        assert(pin < 16 ==> crate::bsrr::reset_word((1u32 << pin) << 16) == ((1u32 << pin) << 16))
            by (bit_vector);
    }
    (1u32 << pin) << 16
}

} // verus!
