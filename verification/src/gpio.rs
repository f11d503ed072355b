//! Digital I/O: ports, pins, and the handle that stands for exclusive access
//! to one pin, tagged with the mode the pin is in.

use vstd::prelude::*;
use core::marker::PhantomData;
use crate::arbiter::{Acquisition, Arbiter, Resource, acquisition, after_acquire, after_release};
use crate::bits::{
    field_fits, field_mask, field_of, field_value, lemma_field_frame, lemma_field_outside,
    lemma_field_readback, lemma_low_ones, low_ones, spec_field_mask, spec_field_value, with_field,
};
use crate::registers::{
    AFRH_OFFSET, AFRL_OFFSET, BSRR_OFFSET, GPIOA_BASE, GPIO_PORT_STRIDE, IDR_OFFSET, MODER_OFFSET,
    ODR_OFFSET, OSPEEDR_OFFSET, OTYPER_OFFSET, PUPDR_OFFSET, RegisterFile, Store, applied, driven,
    is_gpio_register, is_register, is_set_reset_register,
};

verus! {

/// Base address of the register block of port B.
pub const GPIOB_BASE: u32 = 0x4800_0400;

/// Base address of the register block of port C.
pub const GPIOC_BASE: u32 = 0x4800_0800;

/// Base address of the register block of port D.
pub const GPIOD_BASE: u32 = 0x4800_0C00;

/// Base address of the register block of port E.
pub const GPIOE_BASE: u32 = 0x4800_1000;

/// Base address of the register block of port F.
pub const GPIOF_BASE: u32 = 0x4800_1400;

/// Base address of the register block of port G.
pub const GPIOG_BASE: u32 = 0x4800_1800;

/// Base address of the register block of port H.
pub const GPIOH_BASE: u32 = 0x4800_1C00;

/// Base address of the register block of port I.
pub const GPIOI_BASE: u32 = 0x4800_2000;

/// The ports (A to I) of the microcontroller.
#[derive(Clone, Copy, PartialEq, Eq, Debug, Structural)]
pub enum Port {
    GPIOA,
    GPIOB,
    GPIOC,
    GPIOD,
    GPIOE,
    GPIOF,
    GPIOG,
    GPIOH,
    GPIOI,
}

impl Port {
    /// Number of the port, counted from zero.
    pub open spec fn spec_index(self) -> u32 {
        match self {
            Port::GPIOA => 0,
            Port::GPIOB => 1,
            Port::GPIOC => 2,
            Port::GPIOD => 3,
            Port::GPIOE => 4,
            Port::GPIOF => 5,
            Port::GPIOG => 6,
            Port::GPIOH => 7,
            Port::GPIOI => 8,
        }
    }

    /// Number of the port, counted from zero.
    #[verifier::when_used_as_spec(spec_index)]
    pub fn index(self) -> (i: u32)
        ensures
            i == self.spec_index(),
            i < 9,
    {
        match self {
            Port::GPIOA => 0,
            Port::GPIOB => 1,
            Port::GPIOC => 2,
            Port::GPIOD => 3,
            Port::GPIOE => 4,
            Port::GPIOF => 5,
            Port::GPIOG => 6,
            Port::GPIOH => 7,
            Port::GPIOI => 8,
        }
    }

    /// Address of the first register of the port's block.
    pub open spec fn spec_base_address(self) -> u32 {
        (GPIOA_BASE + GPIO_PORT_STRIDE * self.spec_index()) as u32
    }

    /// Address of the first register of the port's block.
    #[verifier::when_used_as_spec(spec_base_address)]
    pub fn base_address(self) -> (base: u32)
        ensures
            base == self.spec_base_address(),
    {
        match self {
            Port::GPIOA => GPIOA_BASE,
            Port::GPIOB => GPIOB_BASE,
            Port::GPIOC => GPIOC_BASE,
            Port::GPIOD => GPIOD_BASE,
            Port::GPIOE => GPIOE_BASE,
            Port::GPIOF => GPIOF_BASE,
            Port::GPIOG => GPIOG_BASE,
            Port::GPIOH => GPIOH_BASE,
            Port::GPIOI => GPIOI_BASE,
        }
    }
}

/// The pins (0 to 15) of a port.
#[derive(Clone, Copy, PartialEq, Eq, Debug, Structural)]
pub enum Pin {
    PIN0,
    PIN1,
    PIN2,
    PIN3,
    PIN4,
    PIN5,
    PIN6,
    PIN7,
    PIN8,
    PIN9,
    PIN10,
    PIN11,
    PIN12,
    PIN13,
    PIN14,
    PIN15,
}

impl Pin {
    /// Number of the pin within its port.
    pub open spec fn spec_index(self) -> u32 {
        match self {
            Pin::PIN0 => 0,
            Pin::PIN1 => 1,
            Pin::PIN2 => 2,
            Pin::PIN3 => 3,
            Pin::PIN4 => 4,
            Pin::PIN5 => 5,
            Pin::PIN6 => 6,
            Pin::PIN7 => 7,
            Pin::PIN8 => 8,
            Pin::PIN9 => 9,
            Pin::PIN10 => 10,
            Pin::PIN11 => 11,
            Pin::PIN12 => 12,
            Pin::PIN13 => 13,
            Pin::PIN14 => 14,
            Pin::PIN15 => 15,
        }
    }

    /// Number of the pin within its port.
    #[verifier::when_used_as_spec(spec_index)]
    pub fn index(self) -> (i: u32)
        ensures
            i == self.spec_index(),
            i < 16,
    {
        match self {
            Pin::PIN0 => 0,
            Pin::PIN1 => 1,
            Pin::PIN2 => 2,
            Pin::PIN3 => 3,
            Pin::PIN4 => 4,
            Pin::PIN5 => 5,
            Pin::PIN6 => 6,
            Pin::PIN7 => 7,
            Pin::PIN8 => 8,
            Pin::PIN9 => 9,
            Pin::PIN10 => 10,
            Pin::PIN11 => 11,
            Pin::PIN12 => 12,
            Pin::PIN13 => 13,
            Pin::PIN14 => 14,
            Pin::PIN15 => 15,
        }
    }
}

/// No two ports share a base address, and every port's registers lie where
/// the register file expects them.
pub proof fn lemma_base_addresses_distinct(p: Port, q: Port)
    ensures
        p.base_address() == q.base_address() ==> p == q,
        p.index() == q.index() ==> p == q,
        GPIOA_BASE <= p.base_address() <= GPIOI_BASE,
{
}

/// No two pins share a number.
pub proof fn lemma_pin_indices_distinct(a: Pin, b: Pin)
    ensures
        a.index() == b.index() ==> a == b,
        a.index() < 16,
{
}

impl Port {
    /// Address of the register at `offset` in the port's block.
    pub open spec fn spec_register(self, offset: u32) -> u32 {
        (self.spec_base_address() + offset) as u32
    }

    /// Address of the register at `offset` in the port's block.
    #[verifier::when_used_as_spec(spec_register)]
    pub fn register(self, offset: u32) -> (addr: u32)
        requires
            offset <= AFRH_OFFSET,
            offset % 4 == 0,
        ensures
            addr == self.spec_register(offset),
            is_gpio_register(addr),
            is_set_reset_register(addr) <==> offset == BSRR_OFFSET,
    {
        self.base_address() + offset
    }
}

/// How a pin drives its output.
#[derive(Clone, Copy, PartialEq, Eq, Debug, Structural)]
pub enum OutputType {
    /// The pin drives both the high and the low level.
    PushPull,
    /// The pin drives the low level only; a pull-up gives the high level.
    OpenDrain,
}

impl OutputType {
    /// The code of the output type in its register field.
    pub open spec fn spec_bits(self) -> u32 {
        match self {
            OutputType::PushPull => 0,
            OutputType::OpenDrain => 1,
        }
    }

    /// The code of the output type in its register field.
    #[verifier::when_used_as_spec(spec_bits)]
    pub fn bits(self) -> (code: u32)
        ensures
            code == self.spec_bits(),
            code <= 1,
    {
        match self {
            OutputType::PushPull => 0,
            OutputType::OpenDrain => 1,
        }
    }
}

/// How fast a pin's output changes.
#[derive(Clone, Copy, PartialEq, Eq, Debug, Structural)]
pub enum Speed {
    Low,
    Medium,
    High,
    VeryHigh,
}

impl Speed {
    /// The code of the speed in its register field.
    pub open spec fn spec_bits(self) -> u32 {
        match self {
            Speed::Low => 0,
            Speed::Medium => 1,
            Speed::High => 2,
            Speed::VeryHigh => 3,
        }
    }

    /// The code of the speed in its register field.
    #[verifier::when_used_as_spec(spec_bits)]
    pub fn bits(self) -> (code: u32)
        ensures
            code == self.spec_bits(),
            code <= 3,
    {
        match self {
            Speed::Low => 0,
            Speed::Medium => 1,
            Speed::High => 2,
            Speed::VeryHigh => 3,
        }
    }
}

/// The pull resistor of a pin.
#[derive(Clone, Copy, PartialEq, Eq, Debug, Structural)]
pub enum PushPullMode {
    /// No pull resistor: an input floats.
    Disabled,
    PullUp,
    PullDown,
}

impl PushPullMode {
    /// The code of the pull resistor setting in its register field.
    pub open spec fn spec_bits(self) -> u32 {
        match self {
            PushPullMode::Disabled => 0,
            PushPullMode::PullUp => 1,
            PushPullMode::PullDown => 2,
        }
    }

    /// The code of the pull resistor setting in its register field.
    #[verifier::when_used_as_spec(spec_bits)]
    pub fn bits(self) -> (code: u32)
        ensures
            code == self.spec_bits(),
            code <= 2,
    {
        match self {
            PushPullMode::Disabled => 0,
            PushPullMode::PullUp => 1,
            PushPullMode::PullDown => 2,
        }
    }
}

/// The sixteen alternate functions that a pin can be routed to.
#[derive(Clone, Copy, PartialEq, Eq, Debug, Structural)]
pub enum AlternateFunction {
    AF0,
    AF1,
    AF2,
    AF3,
    AF4,
    AF5,
    AF6,
    AF7,
    AF8,
    AF9,
    AF10,
    AF11,
    AF12,
    AF13,
    AF14,
    AF15,
}

impl AlternateFunction {
    /// The code of the function in its register field.
    pub open spec fn spec_bits(self) -> u32 {
        match self {
            AlternateFunction::AF0 => 0,
            AlternateFunction::AF1 => 1,
            AlternateFunction::AF2 => 2,
            AlternateFunction::AF3 => 3,
            AlternateFunction::AF4 => 4,
            AlternateFunction::AF5 => 5,
            AlternateFunction::AF6 => 6,
            AlternateFunction::AF7 => 7,
            AlternateFunction::AF8 => 8,
            AlternateFunction::AF9 => 9,
            AlternateFunction::AF10 => 10,
            AlternateFunction::AF11 => 11,
            AlternateFunction::AF12 => 12,
            AlternateFunction::AF13 => 13,
            AlternateFunction::AF14 => 14,
            AlternateFunction::AF15 => 15,
        }
    }

    /// The code of the function in its register field.
    #[verifier::when_used_as_spec(spec_bits)]
    pub fn bits(self) -> (code: u32)
        ensures
            code == self.spec_bits(),
            code <= 15,
    {
        match self {
            AlternateFunction::AF0 => 0,
            AlternateFunction::AF1 => 1,
            AlternateFunction::AF2 => 2,
            AlternateFunction::AF3 => 3,
            AlternateFunction::AF4 => 4,
            AlternateFunction::AF5 => 5,
            AlternateFunction::AF6 => 6,
            AlternateFunction::AF7 => 7,
            AlternateFunction::AF8 => 8,
            AlternateFunction::AF9 => 9,
            AlternateFunction::AF10 => 10,
            AlternateFunction::AF11 => 11,
            AlternateFunction::AF12 => 12,
            AlternateFunction::AF13 => 13,
            AlternateFunction::AF14 => 14,
            AlternateFunction::AF15 => 15,
        }
    }
}

/// Code of the input mode in a pin's mode field.
pub const MODE_INPUT: u32 = 0b00;

/// Code of the output mode in a pin's mode field.
pub const MODE_OUTPUT: u32 = 0b01;

/// Code of the alternate-function mode in a pin's mode field.
pub const MODE_ALTERNATE: u32 = 0b10;

/// Code of the analog mode in a pin's mode field.
pub const MODE_ANALOG: u32 = 0b11;

/// Tag of a pin that reads a digital level.
pub struct Input;

/// Tag of a pin that drives a digital level.
pub struct Output;

/// Tag of a pin that is routed to a peripheral.
pub struct Alternate;

/// Tag of a pin that is connected to the analog part.
pub struct Analog;

/// Tag of a pin that has been acquired and not configured yet.
pub struct Undefined;

/// Exclusive access to one pin, tagged with the mode that the pin is in.
///
/// A handle comes from [`GPIOPin::take`] and from nowhere else; changing the
/// mode consumes it and gives a handle with the new tag.
pub struct GPIOPin<Mode> {
    pin: Pin,
    port: Port,
    _mode: PhantomData<Mode>,
}

/// Modes from which a pin can become an input.
pub trait InputConvertible {

}

/// Modes from which a pin can become an output.
pub trait OutputConvertible {

}

/// Modes from which a pin can be routed to a peripheral.
pub trait AlternateConvertible {

}

/// Modes from which a pin can become analog.
pub trait AnalogConvertible {

}

/// Modes in which a pin's fields can be edited.
pub trait Configured {

}

impl InputConvertible for Output {

}

impl InputConvertible for Analog {

}

impl InputConvertible for Alternate {

}

impl InputConvertible for Undefined {

}

impl OutputConvertible for Input {

}

impl OutputConvertible for Alternate {

}

impl OutputConvertible for Analog {

}

impl OutputConvertible for Undefined {

}

impl AnalogConvertible for Input {

}

impl AnalogConvertible for Output {

}

impl AnalogConvertible for Alternate {

}

impl AnalogConvertible for Undefined {

}

impl AlternateConvertible for Input {

}

impl AlternateConvertible for Output {

}

impl AlternateConvertible for Analog {

}

impl AlternateConvertible for Undefined {

}

impl Configured for Input {

}

impl Configured for Output {

}

impl Configured for Alternate {

}

impl Configured for Analog {

}

/// The content of field number `index`, `width` bits wide, of the register
/// at `addr`.
pub open spec fn field_at(state: Map<u32, u32>, addr: u32, width: u32, index: u32) -> u32 {
    field_of(state[addr], width, index)
}

/// The masked update that sets field number `index`, `width` bits wide, of
/// the register at `addr` to `value`.
pub open spec fn field_edit(addr: u32, width: u32, index: u32, value: u32) -> Store {
    Store::Modify {
        addr,
        clear: spec_field_mask(width, index),
        set: spec_field_value(value, width, index),
    }
}

/// The register file after field number `index`, `width` bits wide, of the
/// register at `addr` was set to `value`.
pub open spec fn with_field_at(
    state: Map<u32, u32>,
    addr: u32,
    width: u32,
    index: u32,
    value: u32,
) -> Map<u32, u32> {
    applied(state, field_edit(addr, width, index, value))
}

/// The content of the field that the register at `offset` holds for a pin,
/// where every pin has `width` bits there.
pub open spec fn pin_field(
    state: Map<u32, u32>,
    port: Port,
    pin: Pin,
    offset: u32,
    width: u32,
) -> u32 {
    field_at(state, port.register(offset), width, pin.index())
}

/// The code in a pin's mode field.
pub open spec fn mode_of(state: Map<u32, u32>, port: Port, pin: Pin) -> u32 {
    pin_field(state, port, pin, MODER_OFFSET, 2)
}

/// The code in a pin's output type field.
pub open spec fn output_type_of(state: Map<u32, u32>, port: Port, pin: Pin) -> u32 {
    pin_field(state, port, pin, OTYPER_OFFSET, 1)
}

/// The code in a pin's speed field.
pub open spec fn speed_of(state: Map<u32, u32>, port: Port, pin: Pin) -> u32 {
    pin_field(state, port, pin, OSPEEDR_OFFSET, 2)
}

/// The code in a pin's pull resistor field.
pub open spec fn pull_of(state: Map<u32, u32>, port: Port, pin: Pin) -> u32 {
    pin_field(state, port, pin, PUPDR_OFFSET, 2)
}

/// Address of the register that holds a pin's alternate function: the low
/// register for pins 0 to 7, the high register for pins 8 to 15.
pub open spec fn alternate_function_register(port: Port, pin: Pin) -> u32 {
    if pin.index() < 8 {
        port.register(AFRL_OFFSET)
    } else {
        port.register(AFRH_OFFSET)
    }
}

/// Number of a pin's field within its alternate function register.
pub open spec fn alternate_function_slot(pin: Pin) -> u32 {
    if pin.index() < 8 {
        pin.index()
    } else {
        (pin.index() - 8) as u32
    }
}

/// The code in a pin's alternate function field.
pub open spec fn alternate_function_of(state: Map<u32, u32>, port: Port, pin: Pin) -> u32 {
    field_at(state, alternate_function_register(port, pin), 4, alternate_function_slot(pin))
}

/// The word that drives a pin high when stored in the set/reset register.
pub open spec fn set_request(pin: Pin) -> u32 {
    1u32 << pin.index()
}

/// The word that drives a pin low when stored in the set/reset register.
pub open spec fn reset_request(pin: Pin) -> u32 {
    1u32 << ((pin.index() + 16) as u32)
}

/// The level that the input data register shows for a pin.
pub open spec fn pin_level(state: Map<u32, u32>, port: Port, pin: Pin) -> bool {
    state[port.register(IDR_OFFSET)] & (1u32 << pin.index()) != 0
}

/// The level that the output latch holds for a pin.
pub open spec fn latch_level(state: Map<u32, u32>, port: Port, pin: Pin) -> bool {
    state[port.register(ODR_OFFSET)] & (1u32 << pin.index()) != 0
}

/// The masked update that sets the field which the register at `offset`
/// holds for a pin.
pub open spec fn pin_field_edit(
    port: Port,
    pin: Pin,
    offset: u32,
    width: u32,
    value: u32,
) -> Store {
    field_edit(port.register(offset), width, pin.index(), value)
}

/// The masked update that sets a pin's mode field to `code`.
pub open spec fn mode_edit(port: Port, pin: Pin, code: u32) -> Store {
    pin_field_edit(port, pin, MODER_OFFSET, 2, code)
}

/// The masked update that routes a pin to the alternate function `af`.
pub open spec fn alternate_function_edit(port: Port, pin: Pin, af: AlternateFunction) -> Store {
    field_edit(
        alternate_function_register(port, pin),
        4,
        alternate_function_slot(pin),
        af.bits(),
    )
}

/// The register file after the field that the register at `offset` holds
/// for a pin was set to `value`.
pub open spec fn with_pin_field(
    state: Map<u32, u32>,
    port: Port,
    pin: Pin,
    offset: u32,
    width: u32,
    value: u32,
) -> Map<u32, u32> {
    applied(state, pin_field_edit(port, pin, offset, width, value))
}

/// The register file after a pin's mode field was set to `code`.
pub open spec fn with_mode(state: Map<u32, u32>, port: Port, pin: Pin, code: u32) -> Map<
    u32,
    u32,
> {
    applied(state, mode_edit(port, pin, code))
}

/// The register file after a pin was routed to the alternate function `af`.
pub open spec fn with_alternate_function(
    state: Map<u32, u32>,
    port: Port,
    pin: Pin,
    af: AlternateFunction,
) -> Map<u32, u32> {
    applied(state, alternate_function_edit(port, pin, af))
}

/// The plain store that drives a pin high.
pub open spec fn set_store(port: Port, pin: Pin) -> Store {
    Store::Write { addr: port.register(BSRR_OFFSET), value: set_request(pin) }
}

/// The plain store that drives a pin low.
pub open spec fn reset_store(port: Port, pin: Pin) -> Store {
    Store::Write { addr: port.register(BSRR_OFFSET), value: reset_request(pin) }
}

/// Which of a port's registers answer a store by driving pins: the
/// set/reset register, and no other.
pub proof fn lemma_register_kinds(port: Port, offset: u32)
    requires
        offset <= AFRH_OFFSET,
        offset % 4 == 0,
    ensures
        is_gpio_register(port.register(offset)),
        is_set_reset_register(port.register(offset)) <==> offset == BSRR_OFFSET,
{
}

proof fn lemma_driven_levels(levels: u32, i: u32, j: u32)
    by (bit_vector)
    requires
        i < 16,
        j < 16,
    ensures
        (driven(levels, 1u32 << i) & (1u32 << j) != 0) == (i == j || levels & (1u32 << j) != 0),
        (driven(levels, 1u32 << ((i + 16) as u32)) & (1u32 << j) != 0) == (i != j && levels & (1u32
            << j) != 0),
{
}

/// After a store of a pin's set request the input data register and the
/// output latch show the pin high, and after a store of its reset request
/// they show the pin low, whatever the level was before.
pub proof fn lemma_level_follows_request(state: Map<u32, u32>, port: Port, pin: Pin)
    ensures
        pin_level(applied(state, set_store(port, pin)), port, pin),
        latch_level(applied(state, set_store(port, pin)), port, pin),
        !pin_level(applied(state, reset_store(port, pin)), port, pin),
        !latch_level(applied(state, reset_store(port, pin)), port, pin),
{
    lemma_driven_levels(state[port.register(IDR_OFFSET)], pin.index(), pin.index());
    lemma_driven_levels(state[port.register(ODR_OFFSET)], pin.index(), pin.index());
}

/// A set or reset request for one pin leaves the level of another pin as it
/// was.
proof fn lemma_other_level_kept(state: Map<u32, u32>, port: Port, pin: Pin, q: Port, j: Pin)
    requires
        q != port || j != pin,
    ensures
        pin_level(applied(state, set_store(port, pin)), q, j) == pin_level(state, q, j),
        pin_level(applied(state, reset_store(port, pin)), q, j) == pin_level(state, q, j),
{
    lemma_base_addresses_distinct(q, port);
    lemma_pin_indices_distinct(j, pin);
    lemma_driven_levels(state[port.register(IDR_OFFSET)], pin.index(), j.index());
}

/// A set or reset request for one pin leaves the level of every other pin,
/// on its port and on every other, as it was.
pub proof fn lemma_request_keeps_other_levels(state: Map<u32, u32>, port: Port, pin: Pin)
    ensures
        forall|q: Port, j: Pin|
            (q != port || j != pin) ==> #[trigger] pin_level(
                applied(state, set_store(port, pin)),
                q,
                j,
            ) == pin_level(state, q, j),
        forall|q: Port, j: Pin|
            (q != port || j != pin) ==> #[trigger] pin_level(
                applied(state, reset_store(port, pin)),
                q,
                j,
            ) == pin_level(state, q, j),
{
    assert forall|q: Port, j: Pin| (q != port || j != pin) implies #[trigger] pin_level(
        applied(state, set_store(port, pin)),
        q,
        j,
    ) == pin_level(state, q, j) by {
        lemma_other_level_kept(state, port, pin, q, j);
    }
    assert forall|q: Port, j: Pin| (q != port || j != pin) implies #[trigger] pin_level(
        applied(state, reset_store(port, pin)),
        q,
        j,
    ) == pin_level(state, q, j) by {
        lemma_other_level_kept(state, port, pin, q, j);
    }
}

/// The alternate function of pins 0 to 7 lies in the low register and that
/// of pins 8 to 15 in the high register, each pin in a field of its own; the
/// two registers have different addresses.
pub proof fn lemma_alternate_function_routing(port: Port, pin: Pin)
    ensures
        pin.index() < 8 ==> alternate_function_register(port, pin) == port.base_address() + 0x20
            && alternate_function_slot(pin) == pin.index(),
        pin.index() >= 8 ==> alternate_function_register(port, pin) == port.base_address() + 0x24
            && alternate_function_slot(pin) == pin.index() - 8,
        port.register(AFRL_OFFSET) != port.register(AFRH_OFFSET),
        field_fits(4, alternate_function_slot(pin)),
{
}

/// A pin's mode field holds the code that was written to it; the mode of
/// every other pin, and the routing of every pin, are as they were.
pub proof fn lemma_mode_written(
    state: Map<u32, u32>,
    port: Port,
    pin: Pin,
    code: u32,
    q: Port,
    j: Pin,
)
    requires
        code <= 3,
    ensures
        mode_of(with_mode(state, port, pin, code), port, pin) == code,
        q != port || j != pin ==> mode_of(with_mode(state, port, pin, code), q, j) == mode_of(
            state,
            q,
            j,
        ),
        alternate_function_of(with_mode(state, port, pin, code), q, j) == alternate_function_of(
            state,
            q,
            j,
        ),
{
    let word = state[port.register(MODER_OFFSET)];
    lemma_low_ones();
    lemma_base_addresses_distinct(q, port);
    lemma_pin_indices_distinct(j, pin);
    lemma_field_readback(word, 2, pin.index(), code);
    if q == port && j != pin {
        lemma_field_frame(word, 2, pin.index(), code, j.index());
    }
}

/// A pin's alternate function field holds the code of the function that the
/// pin was routed to; the routing of every other pin, and the mode of every
/// pin, are as they were.
pub proof fn lemma_alternate_function_written(
    state: Map<u32, u32>,
    port: Port,
    pin: Pin,
    af: AlternateFunction,
    q: Port,
    j: Pin,
)
    ensures
        alternate_function_of(with_alternate_function(state, port, pin, af), port, pin)
            == af.bits(),
        q != port || j != pin ==> alternate_function_of(
            with_alternate_function(state, port, pin, af),
            q,
            j,
        ) == alternate_function_of(state, q, j),
        mode_of(with_alternate_function(state, port, pin, af), q, j) == mode_of(state, q, j),
{
    let addr = alternate_function_register(port, pin);
    let slot = alternate_function_slot(pin);
    let word = state[addr];
    lemma_low_ones();
    lemma_base_addresses_distinct(q, port);
    lemma_pin_indices_distinct(j, pin);
    lemma_field_readback(word, 4, slot, af.bits());
    if alternate_function_register(q, j) == addr && j != pin {
        lemma_field_frame(word, 4, slot, af.bits(), alternate_function_slot(j));
    }
}

/// Sets field number `index`, `width` bits wide, of the register at `addr`
/// to `value`, in one masked update. What of `value` does not fit the field
/// is dropped.
pub fn edit_field<R: RegisterFile>(regs: &mut R, addr: u32, width: u32, index: u32, value: u32)
    requires
        is_register(addr),
        !is_set_reset_register(addr),
        field_fits(width, index),
    ensures
        final(regs)@ == with_field_at(old(regs)@, addr, width, index, value),
        final(regs).stores() == old(regs).stores().push(field_edit(addr, width, index, value)),
        final(regs)@[addr] == with_field(old(regs)@[addr], width, index, value),
        field_at(final(regs)@, addr, width, index) == value & low_ones(width),
        value <= low_ones(width) ==> field_at(final(regs)@, addr, width, index) == value,
        forall|other: u32|
            field_fits(width, other) && other != index ==> #[trigger] field_at(
                final(regs)@,
                addr,
                width,
                other,
            ) == field_at(old(regs)@, addr, width, other),
        final(regs)@[addr] & !spec_field_mask(width, index) == old(regs)@[addr] & !spec_field_mask(
            width,
            index,
        ),
        forall|a: u32| a != addr ==> #[trigger] final(regs)@[a] == old(regs)@[a],
{
    let mask: u32 = field_mask(width, index);
    let bits: u32 = field_value(value, width, index);
    regs.modify(addr, mask, bits);
    proof {
        let word = old(regs)@[addr];
        lemma_field_readback(word, width, index, value);
        lemma_field_outside(word, width, index, value);
        assert forall|other: u32| field_fits(width, other) && other != index implies #[trigger]
            field_at(regs@, addr, width, other) == field_at(old(regs)@, addr, width, other) by {
            lemma_field_frame(word, width, index, value, other);
        }
    }
}

/// Sets the field that the register at `offset` holds for a pin.
fn edit_pin_field<R: RegisterFile>(
    regs: &mut R,
    port: Port,
    pin: Pin,
    offset: u32,
    width: u32,
    value: u32,
)
    requires
        offset <= PUPDR_OFFSET,
        offset % 4 == 0,
        width == 1 || width == 2,
        value <= low_ones(width),
    ensures
        final(regs)@ == with_pin_field(old(regs)@, port, pin, offset, width, value),
        final(regs).stores() == old(regs).stores().push(
            pin_field_edit(port, pin, offset, width, value),
        ),
        pin_field(final(regs)@, port, pin, offset, width) == value,
        forall|q: Port, j: Pin|
            (q != port || j != pin) ==> #[trigger] pin_field(final(regs)@, q, j, offset, width)
                == pin_field(old(regs)@, q, j, offset, width),
{
    let addr: u32 = port.register(offset);
    edit_field(regs, addr, width, pin.index(), value);
    proof {
        assert forall|q: Port, j: Pin| (q != port || j != pin) implies #[trigger] pin_field(
            regs@,
            q,
            j,
            offset,
            width,
        ) == pin_field(old(regs)@, q, j, offset, width) by {
            lemma_base_addresses_distinct(q, port);
            lemma_pin_indices_distinct(j, pin);
        }
    }
}

impl<Mode> GPIOPin<Mode> {
    /// The port of the pin that the handle stands for.
    pub closed spec fn spec_port(&self) -> Port {
        self.port
    }

    /// The pin that the handle stands for.
    pub closed spec fn spec_pin(&self) -> Pin {
        self.pin
    }

    /// The port of the pin that the handle stands for.
    #[verifier::when_used_as_spec(spec_port)]
    pub fn port(&self) -> (port: Port)
        ensures
            port == self.spec_port(),
    {
        self.port
    }

    /// The pin that the handle stands for.
    #[verifier::when_used_as_spec(spec_pin)]
    pub fn pin(&self) -> (pin: Pin)
        ensures
            pin == self.spec_pin(),
    {
        self.pin
    }

    /// The resource that the handle holds.
    pub open spec fn resource(&self) -> Resource {
        Resource::Pin(self.port(), self.pin())
    }

    /// Address of the first register of the pin's port.
    pub fn get_base_address(&self) -> (base: u32)
        ensures
            base == self.port().base_address(),
    {
        self.port.base_address()
    }

    /// Gives the pin back to the arbiter. The registers keep what the pin
    /// was configured to.
    pub fn release(self, arbiter: &mut Arbiter)
        ensures
            final(arbiter)@ == after_release(old(arbiter)@, self.resource()),
    {
        arbiter.release(Resource::Pin(self.port, self.pin));
    }
}

impl<Mode: Configured> GPIOPin<Mode> {
    /// Sets the pin's output type.
    pub fn set_outputtype<R: RegisterFile>(&mut self, regs: &mut R, kind: OutputType)
        ensures
            *final(self) == *old(self),
            final(regs)@ == with_pin_field(
                old(regs)@,
                old(self).port(),
                old(self).pin(),
                OTYPER_OFFSET,
                1,
                kind.bits(),
            ),
            final(regs).stores() == old(regs).stores().push(
                pin_field_edit(old(self).port(), old(self).pin(), OTYPER_OFFSET, 1, kind.bits()),
            ),
            output_type_of(final(regs)@, old(self).port(), old(self).pin()) == kind.bits(),
            forall|q: Port, j: Pin|
                (q != old(self).port() || j != old(self).pin()) ==> #[trigger] output_type_of(
                    final(regs)@,
                    q,
                    j,
                ) == output_type_of(old(regs)@, q, j),
    {
        proof {
            lemma_low_ones();
        }
        edit_pin_field(regs, self.port, self.pin, OTYPER_OFFSET, 1, kind.bits());
    }

    /// Sets the pin's output speed.
    pub fn set_speed<R: RegisterFile>(&mut self, regs: &mut R, speed: Speed)
        ensures
            *final(self) == *old(self),
            final(regs)@ == with_pin_field(
                old(regs)@,
                old(self).port(),
                old(self).pin(),
                OSPEEDR_OFFSET,
                2,
                speed.bits(),
            ),
            final(regs).stores() == old(regs).stores().push(
                pin_field_edit(
                    old(self).port(),
                    old(self).pin(),
                    OSPEEDR_OFFSET,
                    2,
                    speed.bits(),
                ),
            ),
            speed_of(final(regs)@, old(self).port(), old(self).pin()) == speed.bits(),
            forall|q: Port, j: Pin|
                (q != old(self).port() || j != old(self).pin()) ==> #[trigger] speed_of(
                    final(regs)@,
                    q,
                    j,
                ) == speed_of(old(regs)@, q, j),
    {
        proof {
            lemma_low_ones();
        }
        edit_pin_field(regs, self.port, self.pin, OSPEEDR_OFFSET, 2, speed.bits());
    }

    /// Sets the pin's pull resistor.
    pub fn set_push_pull<R: RegisterFile>(&mut self, regs: &mut R, pupd: PushPullMode)
        ensures
            *final(self) == *old(self),
            final(regs)@ == with_pin_field(
                old(regs)@,
                old(self).port(),
                old(self).pin(),
                PUPDR_OFFSET,
                2,
                pupd.bits(),
            ),
            final(regs).stores() == old(regs).stores().push(
                pin_field_edit(old(self).port(), old(self).pin(), PUPDR_OFFSET, 2, pupd.bits()),
            ),
            pull_of(final(regs)@, old(self).port(), old(self).pin()) == pupd.bits(),
            forall|q: Port, j: Pin|
                (q != old(self).port() || j != old(self).pin()) ==> #[trigger] pull_of(
                    final(regs)@,
                    q,
                    j,
                ) == pull_of(old(regs)@, q, j),
    {
        proof {
            lemma_low_ones();
        }
        edit_pin_field(regs, self.port, self.pin, PUPDR_OFFSET, 2, pupd.bits());
    }

    /// Drives the pin high, by one store to the set/reset register.
    pub fn set_pin<R: RegisterFile>(&mut self, regs: &mut R)
        ensures
            *final(self) == *old(self),
            final(regs)@ == applied(old(regs)@, set_store(old(self).port(), old(self).pin())),
            final(regs).stores() == old(regs).stores().push(
                set_store(old(self).port(), old(self).pin()),
            ),
            pin_level(final(regs)@, old(self).port(), old(self).pin()),
            latch_level(final(regs)@, old(self).port(), old(self).pin()),
            forall|q: Port, j: Pin|
                (q != old(self).port() || j != old(self).pin()) ==> #[trigger] pin_level(
                    final(regs)@,
                    q,
                    j,
                ) == pin_level(old(regs)@, q, j),
    {
        let addr: u32 = self.port.register(BSRR_OFFSET);
        let request: u32 = 1u32 << self.pin.index();
        regs.write(addr, request);
        proof {
            lemma_level_follows_request(old(regs)@, self.port, self.pin);
            lemma_request_keeps_other_levels(old(regs)@, self.port, self.pin);
        }
    }

    /// Drives the pin low, by one store to the set/reset register.
    pub fn reset_pin<R: RegisterFile>(&mut self, regs: &mut R)
        ensures
            *final(self) == *old(self),
            final(regs)@ == applied(old(regs)@, reset_store(old(self).port(), old(self).pin())),
            final(regs).stores() == old(regs).stores().push(
                reset_store(old(self).port(), old(self).pin()),
            ),
            !pin_level(final(regs)@, old(self).port(), old(self).pin()),
            !latch_level(final(regs)@, old(self).port(), old(self).pin()),
            forall|q: Port, j: Pin|
                (q != old(self).port() || j != old(self).pin()) ==> #[trigger] pin_level(
                    final(regs)@,
                    q,
                    j,
                ) == pin_level(old(regs)@, q, j),
    {
        let addr: u32 = self.port.register(BSRR_OFFSET);
        let request: u32 = 1u32 << (self.pin.index() + 16);
        regs.write(addr, request);
        proof {
            lemma_level_follows_request(old(regs)@, self.port, self.pin);
            lemma_request_keeps_other_levels(old(regs)@, self.port, self.pin);
        }
    }

    /// Reads the pin's level, by one load of the input data register.
    pub fn read_state<R: RegisterFile>(&self, regs: &R) -> (high: bool)
        ensures
            high == pin_level(regs@, self.port(), self.pin()),
    {
        let addr: u32 = self.port.register(IDR_OFFSET);
        let idr: u32 = regs.read(addr);
        let target: u32 = 1u32 << self.pin.index();
        (idr & target) != 0
    }
}

impl GPIOPin<Alternate> {
    /// Routes the pin to the alternate function `af`.
    pub fn set_alternate_function<R: RegisterFile>(&mut self, regs: &mut R, af: AlternateFunction)
        ensures
            *final(self) == *old(self),
            final(regs)@ == with_alternate_function(
                old(regs)@,
                old(self).port(),
                old(self).pin(),
                af,
            ),
            final(regs).stores() == old(regs).stores().push(
                alternate_function_edit(old(self).port(), old(self).pin(), af),
            ),
            alternate_function_of(final(regs)@, old(self).port(), old(self).pin()) == af.bits(),
            forall|q: Port, j: Pin|
                (q != old(self).port() || j != old(self).pin())
                    ==> #[trigger] alternate_function_of(final(regs)@, q, j)
                    == alternate_function_of(old(regs)@, q, j),
    {
        let index: u32 = self.pin.index();
        let addr: u32 = if index < 8 {
            self.port.register(AFRL_OFFSET)
        } else {
            self.port.register(AFRH_OFFSET)
        };
        let slot: u32 = if index < 8 {
            index
        } else {
            index - 8
        };
        proof {
            lemma_low_ones();
        }
        edit_field(regs, addr, 4, slot, af.bits());
        proof {
            let port = self.port;
            let pin = self.pin;
            assert forall|q: Port, j: Pin| (q != port || j != pin) implies #[trigger]
                alternate_function_of(regs@, q, j) == alternate_function_of(old(regs)@, q, j) by {
                lemma_base_addresses_distinct(q, port);
                lemma_pin_indices_distinct(j, pin);
            }
        }
    }
}

impl GPIOPin<Undefined> {
    /// Acquires a pin, so that nobody else can acquire it until the handle
    /// is released.
    pub fn take(arbiter: &mut Arbiter, port: Port, pin: Pin) -> (taken: Result<
        GPIOPin<Undefined>,
        (),
    >)
        ensures
            taken is Ok <==> acquisition(old(arbiter)@, Resource::Pin(port, pin))
                == Acquisition::Acquired,
            taken matches Ok(handle) ==> handle.port() == port && handle.pin() == pin,
            final(arbiter)@ == after_acquire(old(arbiter)@, Resource::Pin(port, pin)),
            taken is Err ==> *final(arbiter) == *old(arbiter),
    {
        match arbiter.try_acquire(Resource::Pin(port, pin)) {
            Acquisition::Acquired => Ok(GPIOPin::<Undefined> { pin, port, _mode: PhantomData }),
            Acquisition::Conflict => Err(()),
        }
    }
}

/// Sets a pin's mode field.
fn set_mode<R: RegisterFile>(regs: &mut R, port: Port, pin: Pin, code: u32)
    requires
        code <= 3,
    ensures
        final(regs)@ == with_mode(old(regs)@, port, pin, code),
        final(regs).stores() == old(regs).stores().push(mode_edit(port, pin, code)),
        mode_of(final(regs)@, port, pin) == code,
        forall|q: Port, j: Pin|
            (q != port || j != pin) ==> #[trigger] mode_of(final(regs)@, q, j) == mode_of(
                old(regs)@,
                q,
                j,
            ),
{
    proof {
        lemma_low_ones();
    }
    edit_pin_field(regs, port, pin, MODER_OFFSET, 2, code);
}

/// Conversion into an input pin.
pub trait IntoInput<Success, Failure> {
    fn into_input<R: RegisterFile>(self, regs: &mut R) -> Result<Success, Failure>;
}

/// Conversion into an output pin.
pub trait IntoOutput<Success, Failure> {
    fn into_output<R: RegisterFile>(self, regs: &mut R) -> Result<Success, Failure>;
}

/// Conversion into a pin that is routed to a peripheral.
pub trait IntoAlternate<Success, Failure> {
    fn into_alternate<R: RegisterFile>(self, regs: &mut R) -> Result<Success, Failure>;
}

/// Conversion into an analog pin.
pub trait IntoAnalog<Success, Failure> {
    fn into_analog<R: RegisterFile>(self, regs: &mut R) -> Result<Success, Failure>;
}

impl<Mode: InputConvertible> IntoInput<GPIOPin<Input>, GPIOPin<Mode>> for GPIOPin<Mode> {
    /// Makes the pin an input. The update of the mode field cannot fail, so
    /// the result is always the new handle.
    fn into_input<R: RegisterFile>(self, regs: &mut R) -> (converted: Result<
        GPIOPin<Input>,
        GPIOPin<Mode>,
    >)
        ensures
            converted matches Ok(handle) && handle.port() == self.port() && handle.pin()
                == self.pin(),
            final(regs)@ == with_mode(old(regs)@, self.port(), self.pin(), MODE_INPUT),
            final(regs).stores() == old(regs).stores().push(
                mode_edit(self.port(), self.pin(), MODE_INPUT),
            ),
            mode_of(final(regs)@, self.port(), self.pin()) == MODE_INPUT,
            forall|q: Port, j: Pin|
                (q != self.port() || j != self.pin()) ==> #[trigger] mode_of(final(regs)@, q, j)
                    == mode_of(old(regs)@, q, j),
    {
        set_mode(regs, self.port, self.pin, MODE_INPUT);
        Ok(GPIOPin::<Input> { pin: self.pin, port: self.port, _mode: PhantomData })
    }
}

impl<Mode: OutputConvertible> IntoOutput<GPIOPin<Output>, GPIOPin<Mode>> for GPIOPin<Mode> {
    /// Makes the pin an output. The update of the mode field cannot fail, so
    /// the result is always the new handle.
    fn into_output<R: RegisterFile>(self, regs: &mut R) -> (converted: Result<
        GPIOPin<Output>,
        GPIOPin<Mode>,
    >)
        ensures
            converted matches Ok(handle) && handle.port() == self.port() && handle.pin()
                == self.pin(),
            final(regs)@ == with_mode(old(regs)@, self.port(), self.pin(), MODE_OUTPUT),
            final(regs).stores() == old(regs).stores().push(
                mode_edit(self.port(), self.pin(), MODE_OUTPUT),
            ),
            mode_of(final(regs)@, self.port(), self.pin()) == MODE_OUTPUT,
            forall|q: Port, j: Pin|
                (q != self.port() || j != self.pin()) ==> #[trigger] mode_of(final(regs)@, q, j)
                    == mode_of(old(regs)@, q, j),
    {
        set_mode(regs, self.port, self.pin, MODE_OUTPUT);
        Ok(GPIOPin::<Output> { pin: self.pin, port: self.port, _mode: PhantomData })
    }
}

impl<Mode: AnalogConvertible> IntoAnalog<GPIOPin<Analog>, GPIOPin<Mode>> for GPIOPin<Mode> {
    /// Makes the pin analog. The update of the mode field cannot fail, so
    /// the result is always the new handle.
    fn into_analog<R: RegisterFile>(self, regs: &mut R) -> (converted: Result<
        GPIOPin<Analog>,
        GPIOPin<Mode>,
    >)
        ensures
            converted matches Ok(handle) && handle.port() == self.port() && handle.pin()
                == self.pin(),
            final(regs)@ == with_mode(old(regs)@, self.port(), self.pin(), MODE_ANALOG),
            final(regs).stores() == old(regs).stores().push(
                mode_edit(self.port(), self.pin(), MODE_ANALOG),
            ),
            mode_of(final(regs)@, self.port(), self.pin()) == MODE_ANALOG,
            forall|q: Port, j: Pin|
                (q != self.port() || j != self.pin()) ==> #[trigger] mode_of(final(regs)@, q, j)
                    == mode_of(old(regs)@, q, j),
    {
        set_mode(regs, self.port, self.pin, MODE_ANALOG);
        Ok(GPIOPin::<Analog> { pin: self.pin, port: self.port, _mode: PhantomData })
    }
}

impl<Mode: AlternateConvertible> IntoAlternate<GPIOPin<Alternate>, GPIOPin<Mode>> for GPIOPin<
    Mode,
> {
    /// Routes the pin to its peripheral. The update of the mode field cannot
    /// fail, so the result is always the new handle.
    fn into_alternate<R: RegisterFile>(self, regs: &mut R) -> (converted: Result<
        GPIOPin<Alternate>,
        GPIOPin<Mode>,
    >)
        ensures
            converted matches Ok(handle) && handle.port() == self.port() && handle.pin()
                == self.pin(),
            final(regs)@ == with_mode(old(regs)@, self.port(), self.pin(), MODE_ALTERNATE),
            final(regs).stores() == old(regs).stores().push(
                mode_edit(self.port(), self.pin(), MODE_ALTERNATE),
            ),
            mode_of(final(regs)@, self.port(), self.pin()) == MODE_ALTERNATE,
            forall|q: Port, j: Pin|
                (q != self.port() || j != self.pin()) ==> #[trigger] mode_of(final(regs)@, q, j)
                    == mode_of(old(regs)@, q, j),
    {
        set_mode(regs, self.port, self.pin, MODE_ALTERNATE);
        Ok(GPIOPin::<Alternate> { pin: self.pin, port: self.port, _mode: PhantomData })
    }
}

} // verus!
