//! One-time setup before the driver is built: clocks, interface mode, the
//! reset of the MAC, and the pins.

use vstd::prelude::*;
use crate::regs::Register;

verus! {

/// APB2 clock enable register: system configuration controller.
pub const RCC_APB2ENR_SYSCFGEN: u32 = 0x0000_4000;
/// AHB1 clock enable register: MAC.
pub const RCC_AHB1ENR_ETHMACEN: u32 = 0x0200_0000;
/// AHB1 clock enable register: MAC transmission.
pub const RCC_AHB1ENR_ETHMACTXEN: u32 = 0x0400_0000;
/// AHB1 clock enable register: MAC reception.
pub const RCC_AHB1ENR_ETHMACRXEN: u32 = 0x0800_0000;
/// AHB1 clock enable register: the three clocks of the MAC.
pub const RCC_AHB1ENR_ETHMAC: u32 = RCC_AHB1ENR_ETHMACEN | RCC_AHB1ENR_ETHMACTXEN
    | RCC_AHB1ENR_ETHMACRXEN;
/// AHB1 clock enable register: GPIO port A.
pub const RCC_AHB1ENR_GPIOAEN: u32 = 0x0000_0001;
/// AHB1 clock enable register: GPIO port B.
pub const RCC_AHB1ENR_GPIOBEN: u32 = 0x0000_0002;
/// AHB1 clock enable register: GPIO port C.
pub const RCC_AHB1ENR_GPIOCEN: u32 = 0x0000_0004;
/// AHB1 clock enable register: GPIO port G.
pub const RCC_AHB1ENR_GPIOGEN: u32 = 0x0000_0040;
/// AHB1 clock enable register: the four ports that carry Ethernet signals.
pub const RCC_AHB1ENR_GPIO: u32 = RCC_AHB1ENR_GPIOAEN | RCC_AHB1ENR_GPIOBEN | RCC_AHB1ENR_GPIOCEN
    | RCC_AHB1ENR_GPIOGEN;
/// AHB1 reset register: the MAC.
pub const RCC_AHB1RSTR_ETHMACRST: u32 = 0x0200_0000;
/// Peripheral mode register: RMII instead of MII.
pub const SYSCFG_PMC_MII_RMII_SEL: u32 = 0x0080_0000;
/// Pin mode: alternate function.
pub const GPIO_MODE_ALTERNATE: u32 = 0b10;
/// Pin speed: very high.
pub const GPIO_SPEED_VERY_HIGH: u32 = 0b11;
/// Alternate function number of the Ethernet signals.
pub const GPIO_AF_ETH: u32 = 11;

/// The image after `bits` went into the two-bit field of `pin`.
pub open spec fn with_pin2(r: Register, pin: u32, bits: u32) -> Register {
    r.with_field((2 * pin) as u32, 0b11, bits)
}

/// The image after `bits` went into the four-bit field number `slot`.
pub open spec fn with_pin4(r: Register, slot: u32, bits: u32) -> Register {
    r.with_field((4 * slot) as u32, 0b1111, bits)
}

/// The image after three pins got the same two-bit setting.
pub open spec fn with_pins2(r: Register, a: u32, b: u32, c: u32, bits: u32) -> Register {
    with_pin2(with_pin2(with_pin2(r, a, bits), b, bits), c, bits)
}

/// The image after three pins got the same four-bit setting.
pub open spec fn with_pins4(r: Register, a: u32, b: u32, c: u32, bits: u32) -> Register {
    with_pin4(with_pin4(with_pin4(r, a, bits), b, bits), c, bits)
}

/// Puts `bits` into the two-bit field of `pin` in a mode or speed register.
pub fn set_pin2(r: &mut Register, pin: u32, bits: u32)
    requires
        pin < 16,
    ensures
        *final(r) == with_pin2(*old(r), pin, bits),
{
    r.write_field(2 * pin, 0b11, bits);
}

/// Puts `bits` into four-bit field number `slot` of an alternate function
/// register: the low register holds pins 0 to 7, the high one pins 8 to 15.
pub fn set_pin4(r: &mut Register, slot: u32, bits: u32)
    requires
        slot < 8,
    ensures
        *final(r) == with_pin4(*old(r), slot, bits),
{
    r.write_field(4 * slot, 0b1111, bits);
}

/// Enable syscfg and ethernet clocks, select RMII, and reset the Ethernet
/// MAC with one pulse of its reset bit.
///
/// A pulse is two writes to one register. The image of the reset register
/// is left with the second one, the bit cleared, and the first one, the bit
/// set, is returned: it goes on the bus after the clock enables and before
/// what waits in the image.
///
/// If supported, you should also call `setup_pins()`.
pub fn setup(
    rcc_apb2enr: &mut Register,
    rcc_ahb1enr: &mut Register,
    rcc_ahb1rstr: &mut Register,
    syscfg_pmc: &mut Register,
) -> (asserted: u32)
    ensures
        *final(rcc_apb2enr) == old(rcc_apb2enr).modified(0, RCC_APB2ENR_SYSCFGEN),
        *final(syscfg_pmc) == old(syscfg_pmc).modified(0, SYSCFG_PMC_MII_RMII_SEL),
        *final(rcc_ahb1enr) == old(rcc_ahb1enr).modified(0, RCC_AHB1ENR_ETHMAC),
        asserted == old(rcc_ahb1rstr).value | RCC_AHB1RSTR_ETHMACRST,
        *final(rcc_ahb1rstr) == (Register {
            value: old(rcc_ahb1rstr).value & !RCC_AHB1RSTR_ETHMACRST,
            pending: true,
        }),
{
    rcc_apb2enr.modify(0, RCC_APB2ENR_SYSCFGEN);
    syscfg_pmc.modify(0, SYSCFG_PMC_MII_RMII_SEL);
    rcc_ahb1enr.modify(0, RCC_AHB1ENR_ETHMAC);
    reset_pulse(rcc_ahb1rstr)
}

/// One pulse of the MAC reset bit: sets the bit, hands out what the
/// register holds then, and clears the bit again.
fn reset_pulse(rcc_ahb1rstr: &mut Register) -> (asserted: u32)
    ensures
        asserted == old(rcc_ahb1rstr).value | RCC_AHB1RSTR_ETHMACRST,
        *final(rcc_ahb1rstr) == (Register {
            value: old(rcc_ahb1rstr).value & !RCC_AHB1RSTR_ETHMACRST,
            pending: true,
        }),
{
    let before = rcc_ahb1rstr.read();
    rcc_ahb1rstr.modify(0, RCC_AHB1RSTR_ETHMACRST);
    let asserted = rcc_ahb1rstr.read();
    rcc_ahb1rstr.modify(RCC_AHB1RSTR_ETHMACRST, 0);
    assert((before & !0u32) | RCC_AHB1RSTR_ETHMACRST == before | RCC_AHB1RSTR_ETHMACRST)
        by (bit_vector);
    assert(((before | RCC_AHB1RSTR_ETHMACRST) & !RCC_AHB1RSTR_ETHMACRST) | 0u32 == before
        & !RCC_AHB1RSTR_ETHMACRST) by (bit_vector);
    asserted
}

/// Pin setup for the **OLIMEX STM32-E407** dev board
///
/// Set RMII pins to
/// * Alternate function 11
/// * High-speed
///
/// The pins are A1 (reference clock), A2 (management data), A7 (carrier
/// sense and data valid), B13 (transmit data 1), C1 (management clock), C4
/// and C5 (receive data 0 and 1), G11 (transmit enable) and G13 (transmit
/// data 0).
pub fn setup_pins(
    rcc_ahb1enr: &mut Register,
    gpioa_ospeedr: &mut Register,
    gpioa_moder: &mut Register,
    gpioa_afrl: &mut Register,
    gpiob_ospeedr: &mut Register,
    gpiob_moder: &mut Register,
    gpiob_afrh: &mut Register,
    gpioc_ospeedr: &mut Register,
    gpioc_moder: &mut Register,
    gpioc_afrl: &mut Register,
    gpiog_ospeedr: &mut Register,
    gpiog_moder: &mut Register,
    gpiog_afrh: &mut Register,
)
    ensures
        *final(rcc_ahb1enr) == old(rcc_ahb1enr).modified(0, RCC_AHB1ENR_GPIO),
        *final(gpioa_ospeedr) == with_pins2(*old(gpioa_ospeedr), 1, 2, 7, GPIO_SPEED_VERY_HIGH),
        *final(gpioa_moder) == with_pins2(*old(gpioa_moder), 1, 2, 7, GPIO_MODE_ALTERNATE),
        *final(gpioa_afrl) == with_pins4(*old(gpioa_afrl), 1, 2, 7, GPIO_AF_ETH),
        *final(gpiob_ospeedr) == with_pin2(*old(gpiob_ospeedr), 13, GPIO_SPEED_VERY_HIGH),
        *final(gpiob_moder) == with_pin2(*old(gpiob_moder), 13, GPIO_MODE_ALTERNATE),
        *final(gpiob_afrh) == with_pin4(*old(gpiob_afrh), 5, GPIO_AF_ETH),
        *final(gpioc_ospeedr) == with_pins2(*old(gpioc_ospeedr), 1, 4, 5, GPIO_SPEED_VERY_HIGH),
        *final(gpioc_moder) == with_pins2(*old(gpioc_moder), 1, 4, 5, GPIO_MODE_ALTERNATE),
        *final(gpioc_afrl) == with_pins4(*old(gpioc_afrl), 1, 4, 5, GPIO_AF_ETH),
        *final(gpiog_ospeedr) == with_pin2(
            with_pin2(*old(gpiog_ospeedr), 11, GPIO_SPEED_VERY_HIGH),
            13,
            GPIO_SPEED_VERY_HIGH,
        ),
        *final(gpiog_moder) == with_pin2(
            with_pin2(*old(gpiog_moder), 11, GPIO_MODE_ALTERNATE),
            13,
            GPIO_MODE_ALTERNATE,
        ),
        *final(gpiog_afrh) == with_pin4(with_pin4(*old(gpiog_afrh), 3, GPIO_AF_ETH), 5, GPIO_AF_ETH),
{
    rcc_ahb1enr.modify(0, RCC_AHB1ENR_GPIO);

    set_pin2(gpioa_ospeedr, 1, GPIO_SPEED_VERY_HIGH);
    set_pin2(gpioa_ospeedr, 2, GPIO_SPEED_VERY_HIGH);
    set_pin2(gpioa_ospeedr, 7, GPIO_SPEED_VERY_HIGH);
    set_pin2(gpioa_moder, 1, GPIO_MODE_ALTERNATE);
    set_pin2(gpioa_moder, 2, GPIO_MODE_ALTERNATE);
    set_pin2(gpioa_moder, 7, GPIO_MODE_ALTERNATE);
    set_pin4(gpioa_afrl, 1, GPIO_AF_ETH);
    set_pin4(gpioa_afrl, 2, GPIO_AF_ETH);
    set_pin4(gpioa_afrl, 7, GPIO_AF_ETH);

    set_pin2(gpiob_ospeedr, 13, GPIO_SPEED_VERY_HIGH);
    set_pin2(gpiob_moder, 13, GPIO_MODE_ALTERNATE);
    set_pin4(gpiob_afrh, 5, GPIO_AF_ETH);

    set_pin2(gpioc_ospeedr, 1, GPIO_SPEED_VERY_HIGH);
    set_pin2(gpioc_ospeedr, 4, GPIO_SPEED_VERY_HIGH);
    set_pin2(gpioc_ospeedr, 5, GPIO_SPEED_VERY_HIGH);
    set_pin2(gpioc_moder, 1, GPIO_MODE_ALTERNATE);
    set_pin2(gpioc_moder, 4, GPIO_MODE_ALTERNATE);
    set_pin2(gpioc_moder, 5, GPIO_MODE_ALTERNATE);
    set_pin4(gpioc_afrl, 1, GPIO_AF_ETH);
    set_pin4(gpioc_afrl, 4, GPIO_AF_ETH);
    set_pin4(gpioc_afrl, 5, GPIO_AF_ETH);

    set_pin2(gpiog_ospeedr, 11, GPIO_SPEED_VERY_HIGH);
    set_pin2(gpiog_ospeedr, 13, GPIO_SPEED_VERY_HIGH);
    set_pin2(gpiog_moder, 11, GPIO_MODE_ALTERNATE);
    set_pin2(gpiog_moder, 13, GPIO_MODE_ALTERNATE);
    set_pin4(gpiog_afrh, 3, GPIO_AF_ETH);
    set_pin4(gpiog_afrh, 5, GPIO_AF_ETH);
}

} // verus!
