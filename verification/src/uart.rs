//! Serial devices: a handle is composed from a transmit pin, an optional
//! receive pin and the device itself, all acquired together or not at all.

use vstd::prelude::*;
use core::marker::PhantomData;
use crate::arbiter::{
    Acquisition, Arbiter, Resource, SerialDevice, acquisition, after_acquire, after_release,
};
use crate::gpio::{
    Alternate, AlternateFunction, GPIOPin, IntoAlternate, MODE_ALTERNATE, Pin, Port, Undefined,
    alternate_function_edit, alternate_function_of, alternate_function_register,
    lemma_alternate_function_written, lemma_mode_written, lemma_register_kinds, mode_edit, mode_of,
    with_alternate_function, with_mode,
};
use crate::registers::{
    AFRH_OFFSET, AFRL_OFFSET, MODER_OFFSET, RCC_APB2ENR, RegisterFile, Store, USART1_CR1,
    USART1_CR2, is_gpio_register, is_set_reset_register, lemma_replayed_elsewhere,
    lemma_replayed_in_turn, lemma_replayed_one, lemma_replayed_push, replayed,
};

mod sealed;

verus! {

/// The protocol states of a serial device.
pub trait State: sealed::Sealed {

}

/// The device is configured and not enabled.
pub struct Disabled;

/// The device sends and receives without a clock line.
pub struct Asynchronous;

/// The device sends and receives along with a clock that it drives.
pub struct Synchronous;

/// The device sends and receives on one wire.
pub struct SingleWire;

/// The device talks to a smart card.
pub struct SmartCard;

/// The device drives an infrared transceiver.
pub struct IrDA;

/// The device drives an RS-485 transceiver.
pub struct RS485;

impl sealed::Sealed for Disabled {

}

impl sealed::Sealed for Asynchronous {

}

impl sealed::Sealed for Synchronous {

}

impl sealed::Sealed for SmartCard {

}

impl sealed::Sealed for IrDA {

}

impl sealed::Sealed for RS485 {

}

impl State for Disabled {

}

impl State for Asynchronous {

}

impl State for Synchronous {

}

impl State for SmartCard {

}

impl State for IrDA {

}

impl State for RS485 {

}

/// What can go wrong with a serial device.
#[derive(Debug, Clone, Copy, Eq, PartialEq, Structural)]
pub enum UartError {
    DeviceUnavailable,
    ParityError,
    FramingError,
    NoiseError,
    OverrunError,
    BreakDetected,
    BaudNotSupported,
    InvalidConfiguration,
    Timeout,
    BufferFull,
    BufferEmpty,
    DmaError,
    PinConfigError,
    InvalidMode,
    UnsupportedMode,
    ClockError,
    FeatureNotSupported,
    BusError,
}

/// Number of data bits in a frame.
#[derive(Clone, Copy, Debug, PartialEq, Eq, Structural)]
pub enum DataBits {
    Seven,
    Eight,
    Nine,
}

/// The parity bit of a frame.
#[derive(Clone, Copy, Debug, PartialEq, Eq, Structural)]
pub enum Parity {
    NoParity,
    Even,
    Odd,
}

/// Length of the stop condition that ends a frame, in bit times.
#[derive(Clone, Copy, Debug, PartialEq, Eq, Structural)]
pub enum StopBits {
    Half,
    One,
    OneAndHalf,
    Two,
}

/// The clock from which the baud rate is derived.
#[derive(Clone, Copy, Debug, PartialEq, Eq, Structural)]
pub enum ClockSource {
    /// The clock of the peripheral bus.
    PCLK,
    /// The system clock.
    SYSCLK,
    /// The internal oscillator of 16 MHz.
    HSI16,
    /// The external low-speed oscillator.
    LSE,
}

/// Number of samples that the receiver takes of each bit.
#[derive(Clone, Copy, Debug, PartialEq, Eq, Structural)]
pub enum Oversampling {
    By8,
    By16,
}

/// Fill level of a queue at which a memory transfer is asked for.
#[derive(Clone, Copy, Debug, PartialEq, Eq, Structural)]
pub enum DmaThreshold {
    Eighth,
    Quarter,
    Half,
    ThreeQuarters,
    Full,
}

/// Number of words that one memory transfer moves.
#[derive(Clone, Copy, Debug, PartialEq, Eq, Structural)]
pub enum DmaBurst {
    Single,
    Burst4,
    Burst8,
}

/// Tuning of the memory transfers in both directions.
#[derive(Clone, Copy, Debug)]
pub struct DmaConfig {
    pub tx_threshold: DmaThreshold,
    pub rx_threshold: DmaThreshold,
    pub tx_burst: DmaBurst,
    pub rx_burst: DmaBurst,
}

/// Fill level of a queue at which the device asks for attention.
#[derive(Clone, Copy, Debug, PartialEq, Eq, Structural)]
pub enum FifoThreshold {
    Eighth,
    Quarter,
    Half,
    ThreeQuarters,
    Full,
}

/// Level of the clock line between frames, in synchronous mode.
#[derive(Clone, Copy, Debug, PartialEq, Eq, Structural)]
pub enum ClockPolarity {
    IdleLow,
    IdleHigh,
}

/// Clock edge at which a bit is sampled, in synchronous mode.
#[derive(Clone, Copy, Debug, PartialEq, Eq, Structural)]
pub enum ClockPhase {
    FirstEdge,
    SecondEdge,
}

/// What every mode of a serial device needs to know.
#[derive(Clone, Copy, Debug)]
pub struct Config {
    pub baud: u32,
    pub word_length: DataBits,
    pub parity: Parity,
    pub stop_bits: StopBits,
    pub oversampling: Oversampling,
    pub clock_source: ClockSource,
    pub hardware_flow_control: bool,
    pub fifo_enable: bool,
    pub dma_config: Option<DmaConfig>,
}

/// What the synchronous mode needs to know in addition.
#[derive(Clone, Copy, Debug)]
pub struct SyncConfig {
    pub clock_polarity: ClockPolarity,
    pub clock_phase: ClockPhase,
    pub last_bit_clock_pulse: bool,
}

/// What the smart card mode needs to know in addition.
#[derive(Clone, Copy, Debug)]
pub struct SmartCardConfig {
    pub nack_enable: bool,
    pub guard_time: u8,
}

/// The answer of a capability table: the function that routes the pin to the
/// device, or a rejection where the table has no entry for the pin.
pub open spec fn looked_up(entry: Option<AlternateFunction>) -> Result<
    AlternateFunction,
    UartError,
> {
    match entry {
        Some(function) => Ok(function),
        None => Err(UartError::PinConfigError),
    }
}

/// A serial device: its limits, the pins that can serve it, its bit in the
/// arbiter, and the registers that switch it on and configure it.
pub trait UartDevice {
    /// The highest baud rate that the device supports.
    const MAX_BAUD: u32 = 115200;

    /// The highest baud rate that the device supports, as the contracts
    /// speak of it.
    spec fn max_baud() -> u32;

    /// The device that the type stands for.
    spec fn device() -> SerialDevice;

    /// The alternate function that routes a pin to the device's transmitter,
    /// where there is one.
    spec fn tx_function(port: Port, pin: Pin) -> Option<AlternateFunction>;

    /// The alternate function that routes a pin to the device's receiver,
    /// where there is one.
    spec fn rx_function(port: Port, pin: Pin) -> Option<AlternateFunction>;

    /// The steps that switch the device's clock on.
    spec fn clock_stores() -> Seq<Store>;

    /// The steps that write `config` to the device.
    spec fn config_stores(config: Config) -> Seq<Store>;

    /// Looks up the alternate function that makes a pin the device's
    /// transmit pin.
    fn get_tx_fn(port: Port, pin: Pin) -> (function: Result<AlternateFunction, UartError>)
        ensures
            function == looked_up(Self::tx_function(port, pin)),
    ;

    /// Looks up the alternate function that makes a pin the device's
    /// receive pin.
    fn get_rx_fn(port: Port, pin: Pin) -> (function: Result<AlternateFunction, UartError>)
        ensures
            function == looked_up(Self::rx_function(port, pin)),
    ;

    /// Acquires the device, if nobody holds it.
    fn lock(arbiter: &mut Arbiter) -> (locked: Result<(), ()>)
        ensures
            locked is Ok <==> acquisition(old(arbiter)@, Resource::Device(Self::device()))
                == Acquisition::Acquired,
            final(arbiter)@ == after_acquire(old(arbiter)@, Resource::Device(Self::device())),
            locked is Err ==> *final(arbiter) == *old(arbiter),
    ;

    /// Gives the device back.
    fn unlock(arbiter: &mut Arbiter)
        ensures
            final(arbiter)@ == after_release(old(arbiter)@, Resource::Device(Self::device())),
    ;

    /// Switches the device's clock on.
    fn enable_clock<R: RegisterFile>(regs: &mut R)
        ensures
            final(regs)@ == replayed(old(regs)@, Self::clock_stores()),
            final(regs).stores() == old(regs).stores() + Self::clock_stores(),
    ;

    /// Writes parity, word length and stop bits to the device.
    fn set_config<R: RegisterFile>(regs: &mut R, config: &Config)
        ensures
            final(regs)@ == replayed(old(regs)@, Self::config_stores(*config)),
            final(regs).stores() == old(regs).stores() + Self::config_stores(*config),
    ;

    /// The limit that the contracts speak of is the device's constant.
    proof fn lemma_max_baud()
        ensures
            Self::MAX_BAUD == Self::max_baud(),
    ;

    /// The stop bits show in the device: two configurations that ask for
    /// different stop bits leave different register files, whatever else
    /// they ask for.
    proof fn lemma_stop_bits_written(state: Map<u32, u32>, first: Config, second: Config)
        requires
            first.stop_bits != second.stop_bits,
        ensures
            replayed(state, Self::config_stores(first)) != replayed(
                state,
                Self::config_stores(second),
            ),
    ;

    /// Neither switching the clock on nor writing a configuration goes to a
    /// register of the ports.
    proof fn lemma_ports_untouched(config: Config)
        ensures
            forall|i: int|
                0 <= i < Self::clock_stores().len() ==> !is_gpio_register(
                    (#[trigger] Self::clock_stores()[i]).addr(),
                ),
            forall|i: int|
                0 <= i < Self::config_stores(config).len() ==> !is_gpio_register(
                    (#[trigger] Self::config_stores(config)[i]).addr(),
                ),
    ;
}

/// The first serial device, the one whose capabilities are known.
pub struct Uart1;

/// The second serial device. Nothing is known of its capabilities yet, so
/// no handle can be composed for it.
pub struct Uart2;

/// The third serial device. Nothing is known of its capabilities yet, so no
/// handle can be composed for it.
pub struct Uart3;

/// The fourth serial device. Nothing is known of its capabilities yet, so
/// no handle can be composed for it.
pub struct Uart4;

/// The fifth serial device. Nothing is known of its capabilities yet, so no
/// handle can be composed for it.
pub struct Uart5;

/// The low-power serial device. Nothing is known of its capabilities yet,
/// so no handle can be composed for it.
pub struct Lpuart1;

/// Devices that can run in synchronous mode.
pub trait SupportsSync {

}

/// Devices that can talk to a smart card.
pub trait SupportsSmartCard {

}

/// Devices that can drive an infrared transceiver.
pub trait SupportsIrDA {

}

/// Devices that can drive an RS-485 transceiver.
pub trait SupportsRS485 {

}

/// Devices that can send and receive on one wire.
pub trait SupportsSingleWire {

}

impl SupportsSync for Uart1 {

}

impl SupportsSmartCard for Uart1 {

}

impl SupportsIrDA for Uart1 {

}

impl SupportsRS485 for Uart1 {

}

impl SupportsSingleWire for Uart1 {

}

/// Bit of the first serial device in its clock enable register.
pub const USART1_CLOCK_ENABLE: u32 = 0x0000_4000;

/// The bits of the first control register that hold parity and word length.
pub const CONTROL_CONFIG_MASK: u32 = 0x1000_1600;

/// The bits of the second control register that hold the stop bits: a field
/// of two bits, the lower of which is bit number 12.
pub const STOP_BITS_MASK: u32 = 0x0000_3000;

/// The parity bits of the first control register: parity control, and its
/// selection between even and odd.
pub open spec fn spec_parity_bits(parity: Parity) -> u32 {
    match parity {
        Parity::NoParity => 0x0000_0000,
        Parity::Even => 0x0000_0400,
        Parity::Odd => 0x0000_0600,
    }
}

/// The word length bits of the first control register.
pub open spec fn spec_length_bits(length: DataBits) -> u32 {
    match length {
        DataBits::Seven => 0x1000_0000,
        DataBits::Eight => 0x0000_0000,
        DataBits::Nine => 0x0000_1000,
    }
}

/// The code of a stop bit length in the stop bit field: 0 for one bit time,
/// 1 for half a bit time, 2 for two and 3 for one and a half.
pub open spec fn stop_code(stop: StopBits) -> u32 {
    match stop {
        StopBits::One => 0,
        StopBits::Half => 1,
        StopBits::Two => 2,
        StopBits::OneAndHalf => 3,
    }
}

/// The stop bits of the second control register: the code of the length,
/// at the place of the stop bit field.
pub open spec fn spec_stop_bits(stop: StopBits) -> u32 {
    match stop {
        StopBits::One => 0x0000_0000,
        StopBits::Half => 0x0000_1000,
        StopBits::Two => 0x0000_2000,
        StopBits::OneAndHalf => 0x0000_3000,
    }
}

/// The first control register after `config` was written over `word`:
/// parity and word length are replaced, every other bit is kept.
pub open spec fn control_word(word: u32, config: Config) -> u32 {
    (word & !CONTROL_CONFIG_MASK) | (spec_parity_bits(config.parity) | spec_length_bits(
        config.word_length,
    ))
}

/// The second control register after `config` was written over `word`: the
/// stop bits are replaced, every other bit is kept.
pub open spec fn second_control_word(word: u32, config: Config) -> u32 {
    (word & !STOP_BITS_MASK) | spec_stop_bits(config.stop_bits)
}

/// The stop bits of the second control register.
#[verifier::when_used_as_spec(spec_stop_bits)]
pub fn stop_bits(stop: StopBits) -> (bits: u32)
    ensures
        bits == spec_stop_bits(stop),
{
    match stop {
        StopBits::One => 0x0000_0000,
        StopBits::Half => 0x0000_1000,
        StopBits::Two => 0x0000_2000,
        StopBits::OneAndHalf => 0x0000_3000,
    }
}

/// The parity bits of the first control register.
#[verifier::when_used_as_spec(spec_parity_bits)]
pub fn parity_bits(parity: Parity) -> (bits: u32)
    ensures
        bits == spec_parity_bits(parity),
{
    match parity {
        Parity::NoParity => 0x0000_0000,
        Parity::Even => 0x0000_0400,
        Parity::Odd => 0x0000_0600,
    }
}

/// The word length bits of the first control register.
#[verifier::when_used_as_spec(spec_length_bits)]
pub fn length_bits(length: DataBits) -> (bits: u32)
    ensures
        bits == spec_length_bits(length),
{
    match length {
        DataBits::Seven => 0x1000_0000,
        DataBits::Eight => 0x0000_0000,
        DataBits::Nine => 0x0000_1000,
    }
}

impl UartDevice for Uart1 {
    open spec fn max_baud() -> u32 {
        115200
    }

    open spec fn device() -> SerialDevice {
        SerialDevice::Usart1
    }

    open spec fn tx_function(port: Port, pin: Pin) -> Option<AlternateFunction> {
        if port == Port::GPIOA && pin == Pin::PIN9 {
            Some(AlternateFunction::AF7)
        } else if port == Port::GPIOB && pin == Pin::PIN6 {
            Some(AlternateFunction::AF7)
        } else {
            None
        }
    }

    open spec fn rx_function(port: Port, pin: Pin) -> Option<AlternateFunction> {
        if port == Port::GPIOA && pin == Pin::PIN10 {
            Some(AlternateFunction::AF7)
        } else if port == Port::GPIOB && pin == Pin::PIN7 {
            Some(AlternateFunction::AF7)
        } else {
            None
        }
    }

    open spec fn clock_stores() -> Seq<Store> {
        seq![Store::Modify { addr: RCC_APB2ENR, clear: 0, set: USART1_CLOCK_ENABLE }]
    }

    open spec fn config_stores(config: Config) -> Seq<Store> {
        seq![
            Store::Modify {
                addr: USART1_CR1,
                clear: CONTROL_CONFIG_MASK,
                set: spec_parity_bits(config.parity) | spec_length_bits(config.word_length),
            },
            Store::Modify {
                addr: USART1_CR2,
                clear: STOP_BITS_MASK,
                set: spec_stop_bits(config.stop_bits),
            },
        ]
    }

    fn get_tx_fn(port: Port, pin: Pin) -> (function: Result<AlternateFunction, UartError>) {
        if port == Port::GPIOA && pin == Pin::PIN9 {
            Ok(AlternateFunction::AF7)
        } else if port == Port::GPIOB && pin == Pin::PIN6 {
            Ok(AlternateFunction::AF7)
        } else {
            Err(UartError::PinConfigError)
        }
    }

    fn get_rx_fn(port: Port, pin: Pin) -> (function: Result<AlternateFunction, UartError>) {
        if port == Port::GPIOA && pin == Pin::PIN10 {
            Ok(AlternateFunction::AF7)
        } else if port == Port::GPIOB && pin == Pin::PIN7 {
            Ok(AlternateFunction::AF7)
        } else {
            Err(UartError::PinConfigError)
        }
    }

    fn lock(arbiter: &mut Arbiter) -> (locked: Result<(), ()>) {
        match arbiter.try_acquire(Resource::Device(SerialDevice::Usart1)) {
            Acquisition::Acquired => Ok(()),
            Acquisition::Conflict => Err(()),
        }
    }

    fn unlock(arbiter: &mut Arbiter) {
        arbiter.release(Resource::Device(SerialDevice::Usart1));
    }

    fn enable_clock<R: RegisterFile>(regs: &mut R) {
        regs.modify(RCC_APB2ENR, 0, USART1_CLOCK_ENABLE);
        proof {
            let step = Store::Modify { addr: RCC_APB2ENR, clear: 0, set: USART1_CLOCK_ENABLE };
            lemma_replayed_one(old(regs)@, step);
            assert(old(regs).stores().push(step) =~= old(regs).stores() + seq![step]);
        }
    }

    fn set_config<R: RegisterFile>(regs: &mut R, config: &Config) {
        let bits: u32 = parity_bits(config.parity) | length_bits(config.word_length);
        let stop: u32 = stop_bits(config.stop_bits);
        regs.modify(USART1_CR1, CONTROL_CONFIG_MASK, bits);
        regs.modify(USART1_CR2, STOP_BITS_MASK, stop);
        proof {
            let first = Store::Modify { addr: USART1_CR1, clear: CONTROL_CONFIG_MASK, set: bits };
            let second = Store::Modify { addr: USART1_CR2, clear: STOP_BITS_MASK, set: stop };
            lemma_replayed_one(old(regs)@, first);
            lemma_replayed_push(old(regs)@, seq![first], second);
            assert(seq![first].push(second) =~= Self::config_stores(*config));
            assert(old(regs).stores().push(first).push(second) =~= old(regs).stores()
                + Self::config_stores(*config));
        }
    }

    proof fn lemma_max_baud() {
    }

    proof fn lemma_stop_bits_written(state: Map<u32, u32>, first: Config, second: Config) {
        lemma_first_device_registers(state, first);
        lemma_first_device_registers(state, second);
        lemma_second_control_word(state[USART1_CR2], first);
        lemma_second_control_word(state[USART1_CR2], second);
        assert(replayed(state, Self::config_stores(first))[USART1_CR2] != replayed(
            state,
            Self::config_stores(second),
        )[USART1_CR2]);
    }

    proof fn lemma_ports_untouched(config: Config) {
    }
}

/// What the steps of the first serial device leave in its registers: the
/// clock bit set among the clocks, parity and word length replaced in the
/// first control register, and the stop bits replaced in the second.
pub proof fn lemma_first_device_registers(state: Map<u32, u32>, config: Config)
    ensures
        replayed(state, Uart1::clock_stores()) == state.insert(
            RCC_APB2ENR,
            state[RCC_APB2ENR] | USART1_CLOCK_ENABLE,
        ),
        replayed(state, Uart1::config_stores(config)) == state.insert(
            USART1_CR1,
            control_word(state[USART1_CR1], config),
        ).insert(USART1_CR2, second_control_word(state[USART1_CR2], config)),
        replayed(state, Uart1::config_stores(config))[USART1_CR1] == control_word(
            state[USART1_CR1],
            config,
        ),
        replayed(state, Uart1::config_stores(config))[USART1_CR2] == second_control_word(
            state[USART1_CR2],
            config,
        ),
{
    let word: u32 = state[RCC_APB2ENR];
    let first = Uart1::config_stores(config)[0];
    let second = Uart1::config_stores(config)[1];
    lemma_replayed_one(state, Uart1::clock_stores()[0]);
    lemma_replayed_one(state, first);
    lemma_replayed_push(state, seq![first], second);
    assert(Uart1::clock_stores() =~= seq![Uart1::clock_stores()[0]]);
    assert(Uart1::config_stores(config) =~= seq![first].push(second));
    assert((word & !0u32) | 0x0000_4000u32 == word | 0x0000_4000u32) by (bit_vector);
}

/// Writing a configuration replaces the stop bits and keeps every other bit
/// of the second control register; the stop bit field then holds the code
/// of the length that was asked for, and no two lengths share a code.
pub proof fn lemma_second_control_word(word: u32, config: Config)
    ensures
        second_control_word(word, config) & STOP_BITS_MASK == spec_stop_bits(config.stop_bits),
        second_control_word(word, config) & !STOP_BITS_MASK == word & !STOP_BITS_MASK,
        (second_control_word(word, config) >> 12) & 0b11 == stop_code(config.stop_bits),
        forall|other: StopBits|
            other != config.stop_bits ==> #[trigger] spec_stop_bits(other) != spec_stop_bits(
                config.stop_bits,
            ),
{
    let stop: u32 = spec_stop_bits(config.stop_bits);
    let code: u32 = stop_code(config.stop_bits);
    assert(((word & !0x0000_3000u32) | stop) & 0x0000_3000u32 == stop && ((word & !0x0000_3000u32)
        | stop) & !0x0000_3000u32 == word & !0x0000_3000u32 && (((word & !0x0000_3000u32) | stop)
        >> 12) & 0b11 == code) by (bit_vector)
        requires
            (stop == 0x0000_0000u32 && code == 0) || (stop == 0x0000_1000u32 && code == 1) || (stop
                == 0x0000_2000u32 && code == 2) || (stop == 0x0000_3000u32 && code == 3),
    ;
}

/// Writing a configuration replaces parity and word length and keeps every
/// other bit of the first control register.
pub proof fn lemma_control_word(word: u32, config: Config)
    ensures
        control_word(word, config) & CONTROL_CONFIG_MASK == spec_parity_bits(config.parity)
            | spec_length_bits(config.word_length),
        control_word(word, config) & !CONTROL_CONFIG_MASK == word & !CONTROL_CONFIG_MASK,
{
    let parity: u32 = spec_parity_bits(config.parity);
    let length: u32 = spec_length_bits(config.word_length);
    assert(((word & !0x1000_1600u32) | (parity | length)) & 0x1000_1600u32 == parity | length && ((
    word & !0x1000_1600u32) | (parity | length)) & !0x1000_1600u32 == word & !0x1000_1600u32)
        by (bit_vector)
        requires
            parity == 0x0000_0000u32 || parity == 0x0000_0400u32 || parity == 0x0000_0600u32,
            length == 0x0000_0000u32 || length == 0x1000_0000u32 || length == 0x0000_1000u32,
    ;
}

/// A serial device together with the pins that serve it, tagged with the
/// device and with the protocol state that the device is in.
pub struct Uart<Instance: UartDevice, S: State> {
    tx: GPIOPin<Alternate>,
    rx: Option<GPIOPin<Alternate>>,
    _instance: PhantomData<Instance>,
    _state: PhantomData<S>,
}

/// The receive pin that a request names: both parts must be given.
pub open spec fn receive_pin(rx_port: Option<Port>, rx_pin: Option<Pin>) -> Option<Resource> {
    match (rx_port, rx_pin) {
        (Some(port), Some(pin)) => Some(Resource::Pin(port, pin)),
        _ => None,
    }
}

/// What is taken once a device and its pins have been added to `held`.
pub open spec fn with_bundle(
    held: Set<Resource>,
    device: SerialDevice,
    tx: Resource,
    rx: Option<Resource>,
) -> Set<Resource> {
    let pins = match rx {
        Some(rx) => held.insert(tx).insert(rx),
        None => held.insert(tx),
    };
    pins.insert(Resource::Device(device))
}

/// What is taken once a device and its pins have been given back.
pub open spec fn without_bundle(
    held: Set<Resource>,
    device: SerialDevice,
    tx: Resource,
    rx: Option<Resource>,
) -> Set<Resource> {
    let rest = held.remove(Resource::Device(device));
    match rx {
        Some(rx) => rest.remove(rx).remove(tx),
        None => rest.remove(tx),
    }
}

/// The request passes the checks that need neither the arbiter nor the
/// hardware: the baud rate is within the device's limit, and the receive pin
/// is named in full or not at all.
pub open spec fn is_well_formed<I: UartDevice>(
    rx_port: Option<Port>,
    rx_pin: Option<Pin>,
    baud: u32,
) -> bool {
    baud <= I::max_baud() && (rx_port is Some <==> rx_pin is Some)
}

/// How the construction of a device ends when `held` is taken: the checks
/// are made in this order, and the first that fails decides the error.
pub open spec fn construction<I: UartDevice>(
    held: Set<Resource>,
    tx_port: Port,
    tx_pin: Pin,
    rx_port: Option<Port>,
    rx_pin: Option<Pin>,
    baud: u32,
) -> Result<(), UartError> {
    let tx = Resource::Pin(tx_port, tx_pin);
    if baud > I::max_baud() {
        Err(UartError::BaudNotSupported)
    } else if !(rx_port is Some <==> rx_pin is Some) {
        Err(UartError::PinConfigError)
    } else if held.contains(tx) {
        Err(UartError::DeviceUnavailable)
    } else if rx_port is Some && held.insert(tx).contains(Resource::Pin(rx_port->0, rx_pin->0)) {
        Err(UartError::DeviceUnavailable)
    } else if I::tx_function(tx_port, tx_pin) is None {
        Err(UartError::PinConfigError)
    } else if rx_port is Some && I::rx_function(rx_port->0, rx_pin->0) is None {
        Err(UartError::PinConfigError)
    } else if held.contains(Resource::Device(I::device())) {
        Err(UartError::DeviceUnavailable)
    } else {
        Ok(())
    }
}

/// What is taken after the construction of a device: the device and its pins
/// in addition where it succeeds, and exactly what was taken before where it
/// fails.
pub open spec fn held_after<I: UartDevice>(
    held: Set<Resource>,
    tx_port: Port,
    tx_pin: Pin,
    rx_port: Option<Port>,
    rx_pin: Option<Pin>,
    baud: u32,
) -> Set<Resource> {
    if construction::<I>(held, tx_port, tx_pin, rx_port, rx_pin, baud) is Ok {
        with_bundle(
            held,
            I::device(),
            Resource::Pin(tx_port, tx_pin),
            receive_pin(rx_port, rx_pin),
        )
    } else {
        held
    }
}

/// The steps that switch the pins of a request to their alternate mode:
/// each pin is switched as soon as it is acquired, and no pin is switched
/// that could not be acquired.
pub open spec fn switch_stores(
    held: Set<Resource>,
    tx_port: Port,
    tx_pin: Pin,
    rx_port: Option<Port>,
    rx_pin: Option<Pin>,
) -> Seq<Store> {
    let tx = Resource::Pin(tx_port, tx_pin);
    if held.contains(tx) {
        Seq::empty()
    } else if rx_port is Some && rx_pin is Some && !held.insert(tx).contains(
        Resource::Pin(rx_port->0, rx_pin->0),
    ) {
        seq![
            mode_edit(tx_port, tx_pin, MODE_ALTERNATE),
            mode_edit(rx_port->0, rx_pin->0, MODE_ALTERNATE),
        ]
    } else {
        seq![mode_edit(tx_port, tx_pin, MODE_ALTERNATE)]
    }
}

/// The steps that route the pins of a request to the device: the transmit
/// pin first, then the receive pin where there is one.
pub open spec fn routing_stores<I: UartDevice>(
    tx_port: Port,
    tx_pin: Pin,
    rx_port: Option<Port>,
    rx_pin: Option<Pin>,
) -> Seq<Store> {
    let sending = seq![
        alternate_function_edit(tx_port, tx_pin, I::tx_function(tx_port, tx_pin)->0),
    ];
    if rx_port is Some && rx_pin is Some {
        sending.push(
            alternate_function_edit(
                rx_port->0,
                rx_pin->0,
                I::rx_function(rx_port->0, rx_pin->0)->0,
            ),
        )
    } else {
        sending
    }
}

/// The steps that route the pins of a request to the device, switch the
/// device's clock on and write the configuration, in this order.
pub open spec fn setup_stores<I: UartDevice>(
    tx_port: Port,
    tx_pin: Pin,
    rx_port: Option<Port>,
    rx_pin: Option<Pin>,
    config: Config,
) -> Seq<Store> {
    routing_stores::<I>(tx_port, tx_pin, rx_port, rx_pin) + I::clock_stores() + I::config_stores(
        config,
    )
}

/// The steps of a successful construction that go to the registers of the
/// ports: the pins are switched to their alternate mode and routed to the
/// device.
pub open spec fn pin_stores<I: UartDevice>(
    held: Set<Resource>,
    tx_port: Port,
    tx_pin: Pin,
    rx_port: Option<Port>,
    rx_pin: Option<Pin>,
) -> Seq<Store> {
    switch_stores(held, tx_port, tx_pin, rx_port, rx_pin) + routing_stores::<I>(
        tx_port,
        tx_pin,
        rx_port,
        rx_pin,
    )
}

/// The steps that the construction of a device makes on the register file.
///
/// Nothing is written until the request is well formed and the transmit pin
/// is acquired. From there on each pin is switched to its alternate mode as
/// soon as it is acquired, and stays so where a later check fails; routing,
/// clock and configuration are written only when every check has passed.
pub open spec fn construction_stores<I: UartDevice>(
    held: Set<Resource>,
    tx_port: Port,
    tx_pin: Pin,
    rx_port: Option<Port>,
    rx_pin: Option<Pin>,
    config: Config,
) -> Seq<Store> {
    if !is_well_formed::<I>(rx_port, rx_pin, config.baud) {
        Seq::empty()
    } else if construction::<I>(held, tx_port, tx_pin, rx_port, rx_pin, config.baud) is Ok {
        switch_stores(held, tx_port, tx_pin, rx_port, rx_pin) + setup_stores::<I>(
            tx_port,
            tx_pin,
            rx_port,
            rx_pin,
            config,
        )
    } else {
        switch_stores(held, tx_port, tx_pin, rx_port, rx_pin)
    }
}

/// The register file after the construction of a device.
pub open spec fn registers_after<I: UartDevice>(
    state: Map<u32, u32>,
    held: Set<Resource>,
    tx_port: Port,
    tx_pin: Pin,
    rx_port: Option<Port>,
    rx_pin: Option<Pin>,
    config: Config,
) -> Map<u32, u32> {
    replayed(state, construction_stores::<I>(held, tx_port, tx_pin, rx_port, rx_pin, config))
}

/// Gives back a transmit pin and, where there is one, a receive pin.
fn give_back(arbiter: &mut Arbiter, tx: GPIOPin<Alternate>, rx: Option<GPIOPin<Alternate>>)
    ensures
        final(arbiter)@ == (match rx {
            Some(rx) => old(arbiter)@.remove(rx.resource()).remove(tx.resource()),
            None => old(arbiter)@.remove(tx.resource()),
        }),
{
    match rx {
        Some(rx) => {
            rx.release(arbiter);
        },
        None => {},
    }
    tx.release(arbiter);
}

impl<Instance: UartDevice, S: State> Uart<Instance, S> {
    /// The transmit pin that the handle holds.
    pub closed spec fn spec_tx(&self) -> Resource {
        self.tx.resource()
    }

    /// The receive pin that the handle holds, where it holds one.
    pub closed spec fn spec_rx(&self) -> Option<Resource> {
        match self.rx {
            Some(rx) => Some(rx.resource()),
            None => None,
        }
    }

    /// The transmit pin that the handle holds.
    pub fn tx(&self) -> (pin: &GPIOPin<Alternate>)
        ensures
            pin.resource() == self.spec_tx(),
    {
        &self.tx
    }

    /// The receive pin that the handle holds, where it holds one.
    pub fn rx(&self) -> (pin: Option<&GPIOPin<Alternate>>)
        ensures
            pin is Some <==> self.spec_rx() is Some,
            pin matches Some(rx) ==> self.spec_rx() == Some(rx.resource()),
    {
        match &self.rx {
            Some(rx) => Some(rx),
            None => None,
        }
    }

    /// Tears the device down: the device and its pins are given back, in the
    /// reverse of the order in which they were acquired.
    pub fn release(self, arbiter: &mut Arbiter)
        ensures
            final(arbiter)@ == without_bundle(
                old(arbiter)@,
                Instance::device(),
                self.spec_tx(),
                self.spec_rx(),
            ),
    {
        Instance::unlock(arbiter);
        give_back(arbiter, self.tx, self.rx);
    }
}

/// Acquires the pins of a request and switches each to its alternate mode
/// as soon as it is acquired. Where the receive pin is taken, the transmit
/// pin is given back.
fn claim_pins<R: RegisterFile>(
    arbiter: &mut Arbiter,
    regs: &mut R,
    tx_port: Port,
    tx_pin: Pin,
    rx_port: Option<Port>,
    rx_pin: Option<Pin>,
) -> (claimed: Result<(GPIOPin<Alternate>, Option<GPIOPin<Alternate>>), UartError>)
    requires
        rx_port is Some <==> rx_pin is Some,
    ensures
        claimed is Err <==> old(arbiter)@.contains(Resource::Pin(tx_port, tx_pin)) || (rx_port
            is Some && old(arbiter)@.insert(Resource::Pin(tx_port, tx_pin)).contains(
            Resource::Pin(rx_port->0, rx_pin->0),
        )),
        claimed matches Err(error) ==> error == UartError::DeviceUnavailable && final(arbiter)@
            == old(arbiter)@,
        claimed matches Ok(pins) ==> pins.0.resource() == Resource::Pin(tx_port, tx_pin) && (
        match pins.1 {
            Some(rx) => Some(rx.resource()),
            None => None,
        }) == receive_pin(rx_port, rx_pin) && final(arbiter)@ == (match receive_pin(
            rx_port,
            rx_pin,
        ) {
            Some(rx) => old(arbiter)@.insert(Resource::Pin(tx_port, tx_pin)).insert(rx),
            None => old(arbiter)@.insert(Resource::Pin(tx_port, tx_pin)),
        }),
        final(regs)@ == replayed(
            old(regs)@,
            switch_stores(old(arbiter)@, tx_port, tx_pin, rx_port, rx_pin),
        ),
        final(regs).stores() == old(regs).stores() + switch_stores(
            old(arbiter)@,
            tx_port,
            tx_pin,
            rx_port,
            rx_pin,
        ),
        old(arbiter)@.contains(Resource::Pin(tx_port, tx_pin)) ==> *final(regs) == *old(regs)
            && *final(arbiter) == *old(arbiter),
{
    let ghost held = arbiter@;
    let ghost start = regs@;
    let ghost before = regs.stores();
    let ghost first = mode_edit(tx_port, tx_pin, MODE_ALTERNATE);
    let tx = match GPIOPin::<Undefined>::take(arbiter, tx_port, tx_pin) {
        Ok(tx) => tx,
        Err(_) => {
            assert(before + Seq::<Store>::empty() =~= before);
            return Err(UartError::DeviceUnavailable);
        },
    };
    let tx = match tx.into_alternate(regs) {
        Ok(pin) => pin,
        Err(pin) => {
            pin.release(arbiter);
            return Err(UartError::PinConfigError);
        },
    };
    proof {
        lemma_replayed_one(start, first);
        assert(before.push(first) =~= before + seq![first]);
    }
    match (rx_port, rx_pin) {
        (Some(port), Some(pin)) => {
            let rx = match GPIOPin::<Undefined>::take(arbiter, port, pin) {
                Ok(rx) => rx,
                Err(_) => {
                    tx.release(arbiter);
                    assert(arbiter@ =~= held);
                    return Err(UartError::DeviceUnavailable);
                },
            };
            match rx.into_alternate(regs) {
                Ok(rx) => {
                    proof {
                        let second = mode_edit(port, pin, MODE_ALTERNATE);
                        lemma_replayed_push(start, seq![first], second);
                        assert(seq![first].push(second) =~= seq![first, second]);
                        assert((before + seq![first]).push(second) =~= before + seq![
                            first,
                            second,
                        ]);
                    }
                    Ok((tx, Some(rx)))
                },
                Err(rx) => {
                    rx.release(arbiter);
                    tx.release(arbiter);
                    Err(UartError::PinConfigError)
                },
            }
        },
        _ => Ok((tx, None)),
    }
}

/// Routes the pins to the device, switches the device's clock on and writes
/// the configuration.
fn set_up<I: UartDevice, R: RegisterFile>(
    regs: &mut R,
    tx: GPIOPin<Alternate>,
    rx: Option<GPIOPin<Alternate>>,
    tx_fn: AlternateFunction,
    rx_fn: Option<AlternateFunction>,
    config: &Config,
) -> (pins: (GPIOPin<Alternate>, Option<GPIOPin<Alternate>>))
    requires
        rx is Some <==> rx_fn is Some,
    ensures
        pins.0 == tx,
        pins.1 == rx,
        ({
            let sending = seq![alternate_function_edit(tx.port(), tx.pin(), tx_fn)];
            let routed = match rx {
                Some(rx) => sending.push(alternate_function_edit(rx.port(), rx.pin(), rx_fn->0)),
                None => sending,
            };
            let steps = routed + I::clock_stores() + I::config_stores(*config);
            final(regs)@ == replayed(old(regs)@, steps) && final(regs).stores() == old(
                regs,
            ).stores() + steps
        }),
{
    let ghost start = regs@;
    let ghost before = regs.stores();
    let ghost mut done = seq![alternate_function_edit(tx.port(), tx.pin(), tx_fn)];
    let mut tx = tx;
    let mut rx = rx;
    tx.set_alternate_function(regs, tx_fn);
    proof {
        lemma_replayed_one(start, done[0]);
        assert(before.push(done[0]) =~= before + done);
    }
    match (&mut rx, rx_fn) {
        (Some(pin), Some(function)) => {
            let ghost step = alternate_function_edit(pin.port(), pin.pin(), function);
            pin.set_alternate_function(regs, function);
            proof {
                lemma_replayed_push(start, done, step);
                assert((before + done).push(step) =~= before + done.push(step));
                done = done.push(step);
            }
        },
        _ => {},
    }
    I::enable_clock(regs);
    proof {
        let steps = I::clock_stores();
        lemma_replayed_in_turn(start, done, steps);
        assert((before + done) + steps =~= before + (done + steps));
        done = done + steps;
    }
    I::set_config(regs, config);
    proof {
        let steps = I::config_stores(*config);
        lemma_replayed_in_turn(start, done, steps);
        assert((before + done) + steps =~= before + (done + steps));
        done = done + steps;
    }
    (tx, rx)
}

impl<Instance: UartDevice> Uart<Instance, Disabled> {
    /// Composes a serial device from its transmit pin, an optional receive
    /// pin and a configuration.
    ///
    /// Either the device and its pins are all acquired and bundled in the
    /// handle, or an error is returned and nothing more is taken than before.
    pub fn new<R: RegisterFile>(
        arbiter: &mut Arbiter,
        regs: &mut R,
        tx_port: Port,
        tx_pin: Pin,
        rx_port: Option<Port>,
        rx_pin: Option<Pin>,
        config: Config,
    ) -> (made: Result<Self, UartError>)
        ensures
            made is Ok <==> construction::<Instance>(
                old(arbiter)@,
                tx_port,
                tx_pin,
                rx_port,
                rx_pin,
                config.baud,
            ) is Ok,
            made matches Err(error) ==> construction::<Instance>(
                old(arbiter)@,
                tx_port,
                tx_pin,
                rx_port,
                rx_pin,
                config.baud,
            ) == Err::<(), UartError>(error),
            made matches Ok(uart) ==> uart.spec_tx() == Resource::Pin(tx_port, tx_pin)
                && uart.spec_rx() == receive_pin(rx_port, rx_pin),
            final(arbiter)@ == held_after::<Instance>(
                old(arbiter)@,
                tx_port,
                tx_pin,
                rx_port,
                rx_pin,
                config.baud,
            ),
            final(regs)@ == registers_after::<Instance>(
                old(regs)@,
                old(arbiter)@,
                tx_port,
                tx_pin,
                rx_port,
                rx_pin,
                config,
            ),
            final(regs).stores() == old(regs).stores() + construction_stores::<Instance>(
                old(arbiter)@,
                tx_port,
                tx_pin,
                rx_port,
                rx_pin,
                config,
            ),
            !is_well_formed::<Instance>(rx_port, rx_pin, config.baud) || old(arbiter)@.contains(
                Resource::Pin(tx_port, tx_pin),
            ) ==> *final(regs) == *old(regs) && *final(arbiter) == *old(arbiter),
    {
        let ghost held = arbiter@;
        let ghost start = regs@;
        let ghost before = regs.stores();
        proof {
            assert(before + Seq::<Store>::empty() =~= before);
        }
        proof {
            Instance::lemma_max_baud();
        }
        if config.baud > Instance::MAX_BAUD {
            return Err(UartError::BaudNotSupported);
        }
        if rx_port.is_some() != rx_pin.is_some() {
            return Err(UartError::PinConfigError);
        }
        let (tx, rx) = match claim_pins(arbiter, regs, tx_port, tx_pin, rx_port, rx_pin) {
            Ok(pins) => pins,
            Err(error) => {
                return Err(error);
            },
        };
        let ghost switched = switch_stores(held, tx_port, tx_pin, rx_port, rx_pin);
        let tx_fn = match Instance::get_tx_fn(tx_port, tx_pin) {
            Ok(function) => function,
            Err(error) => {
                give_back(arbiter, tx, rx);
                assert(arbiter@ =~= held);
                return Err(error);
            },
        };
        let rx_fn: Option<AlternateFunction> = match (rx_port, rx_pin) {
            (Some(port), Some(pin)) => {
                match Instance::get_rx_fn(port, pin) {
                    Ok(function) => Some(function),
                    Err(error) => {
                        give_back(arbiter, tx, rx);
                        assert(arbiter@ =~= held);
                        return Err(error);
                    },
                }
            },
            _ => None,
        };
        if Instance::lock(arbiter).is_err() {
            give_back(arbiter, tx, rx);
            assert(arbiter@ =~= held);
            return Err(UartError::DeviceUnavailable);
        }
        let (tx, rx) = set_up::<Instance, R>(regs, tx, rx, tx_fn, rx_fn, &config);
        proof {
            let steps = setup_stores::<Instance>(tx_port, tx_pin, rx_port, rx_pin, config);
            lemma_replayed_in_turn(start, switched, steps);
            assert((before + switched) + steps =~= before + (switched + steps));
        }
        Ok(Uart { tx, rx, _instance: PhantomData, _state: PhantomData })
    }
}

impl<Instance: UartDevice> Uart<Instance, Disabled> {
    /// Would switch the device to asynchronous mode. The mode is not
    /// provided: the call reports so, and the handle is used up by it.
    pub fn enable_async(self) -> (enabled: Result<Uart<Instance, Asynchronous>, UartError>)
        ensures
            enabled matches Err(error) && error == UartError::FeatureNotSupported,
    {
        Err(UartError::FeatureNotSupported)
    }
}

impl<Instance: UartDevice + SupportsSync> Uart<Instance, Disabled> {
    /// Would switch the device to synchronous mode. The mode is not
    /// provided: the call reports so, and the handle is used up by it.
    pub fn enable_sync(self, _sync_config: SyncConfig) -> (enabled: Result<
        Uart<Instance, Synchronous>,
        UartError,
    >)
        ensures
            enabled matches Err(error) && error == UartError::FeatureNotSupported,
    {
        Err(UartError::FeatureNotSupported)
    }
}

impl<Instance: UartDevice, StateParam: State> Uart<Instance, StateParam> {
    /// Would send `_data`. Transfers are not provided: the call reports so
    /// and changes nothing.
    pub fn transmit(&mut self, _data: &[u8]) -> (sent: Result<(), UartError>)
        ensures
            sent == Err::<(), UartError>(UartError::FeatureNotSupported),
            *final(self) == *old(self),
    {
        Err(UartError::FeatureNotSupported)
    }

    /// Would fill `_buffer`. Transfers are not provided: the call reports so
    /// and changes nothing.
    pub fn receive(&mut self, _buffer: &mut [u8]) -> (received: Result<(), UartError>)
        ensures
            received == Err::<(), UartError>(UartError::FeatureNotSupported),
            *final(self) == *old(self),
            final(_buffer)@ == old(_buffer)@,
    {
        Err(UartError::FeatureNotSupported)
    }

    /// Would send `_data` without waiting. Transfers are not provided: the
    /// call reports so and changes nothing.
    pub fn transmit_nonblocking(&mut self, _data: &[u8]) -> (sent: Result<(), UartError>)
        ensures
            sent == Err::<(), UartError>(UartError::FeatureNotSupported),
            *final(self) == *old(self),
    {
        Err(UartError::FeatureNotSupported)
    }

    /// Would fill `_buffer` without waiting. Transfers are not provided: the
    /// call reports so and changes nothing.
    pub fn receive_nonblocking(&mut self, _buffer: &mut [u8]) -> (received: Result<
        (),
        UartError,
    >)
        ensures
            received == Err::<(), UartError>(UartError::FeatureNotSupported),
            *final(self) == *old(self),
            final(_buffer)@ == old(_buffer)@,
    {
        Err(UartError::FeatureNotSupported)
    }

    /// Whether a transmission has completed. No transmission can be started,
    /// so none has.
    pub fn is_tx_complete(&self) -> (complete: bool)
        ensures
            !complete,
    {
        false
    }

    /// Whether a reception has completed. No reception can be started, so
    /// none has.
    pub fn is_rx_complete(&self) -> (complete: bool)
        ensures
            !complete,
    {
        false
    }

    /// Would set the fill level at which the transmit queue asks for more.
    /// The queue is not provided: the call reports so and changes nothing.
    pub fn set_tx_fifo_threshold(&mut self, _threshold: FifoThreshold) -> (set: Result<
        (),
        UartError,
    >)
        ensures
            set == Err::<(), UartError>(UartError::FeatureNotSupported),
            *final(self) == *old(self),
    {
        Err(UartError::FeatureNotSupported)
    }

    /// Would set the fill level at which the receive queue asks to be read.
    /// The queue is not provided: the call reports so and changes nothing.
    pub fn set_rx_fifo_threshold(&mut self, _threshold: FifoThreshold) -> (set: Result<
        (),
        UartError,
    >)
        ensures
            set == Err::<(), UartError>(UartError::FeatureNotSupported),
            *final(self) == *old(self),
    {
        Err(UartError::FeatureNotSupported)
    }

    /// Would send a break. Break signalling is not provided: the call
    /// reports so and changes nothing.
    pub fn send_break(&mut self) -> (sent: Result<(), UartError>)
        ensures
            sent == Err::<(), UartError>(UartError::FeatureNotSupported),
            *final(self) == *old(self),
    {
        Err(UartError::FeatureNotSupported)
    }
}

impl<Instance: UartDevice> Uart<Instance, Synchronous> {
    /// Would send `_data` with the clock. Transfers are not provided: the
    /// call reports so and changes nothing.
    pub fn transmit_sync(&mut self, _data: &[u8]) -> (sent: Result<(), UartError>)
        ensures
            sent == Err::<(), UartError>(UartError::FeatureNotSupported),
            *final(self) == *old(self),
    {
        Err(UartError::FeatureNotSupported)
    }

    /// Would fill `_buffer` with the clock. Transfers are not provided: the
    /// call reports so and changes nothing.
    pub fn receive_sync(&mut self, _buffer: &mut [u8]) -> (received: Result<(), UartError>)
        ensures
            received == Err::<(), UartError>(UartError::FeatureNotSupported),
            *final(self) == *old(self),
            final(_buffer)@ == old(_buffer)@,
    {
        Err(UartError::FeatureNotSupported)
    }

    /// Would set the level of the clock line between frames. The setting is
    /// not provided: the call reports so and changes nothing.
    pub fn set_clock_polarity(&mut self, _polarity: ClockPolarity) -> (set: Result<
        (),
        UartError,
    >)
        ensures
            set == Err::<(), UartError>(UartError::FeatureNotSupported),
            *final(self) == *old(self),
    {
        Err(UartError::FeatureNotSupported)
    }

    /// Would set the clock edge at which a bit is sampled. The setting is
    /// not provided: the call reports so and changes nothing.
    pub fn set_clock_phase(&mut self, _phase: ClockPhase) -> (set: Result<(), UartError>)
        ensures
            set == Err::<(), UartError>(UartError::FeatureNotSupported),
            *final(self) == *old(self),
    {
        Err(UartError::FeatureNotSupported)
    }

    /// Would set whether the last bit gets a clock pulse. The setting is not
    /// provided: the call reports so and changes nothing.
    pub fn set_last_bit_clock_pulse(&mut self, _enabled: bool) -> (set: Result<(), UartError>)
        ensures
            set == Err::<(), UartError>(UartError::FeatureNotSupported),
            *final(self) == *old(self),
    {
        Err(UartError::FeatureNotSupported)
    }
}

/// The error rejects the request itself, not the moment at which it came.
pub open spec fn is_configuration_rejection(error: UartError) -> bool {
    error == UartError::BaudNotSupported || error == UartError::PinConfigError
}

/// A transmit pin that the device's table does not list is rejected as a
/// configuration error, and nothing is left taken: the pin can be acquired
/// again at once, and the device is as free as it was before.
///
/// This is stated of requests whose pins are free. Where a pin is taken the
/// construction ends in a conflict before the table is consulted.
pub proof fn lemma_unlisted_transmit_pin_rejected<I: UartDevice>(
    held: Set<Resource>,
    tx_port: Port,
    tx_pin: Pin,
    rx_port: Option<Port>,
    rx_pin: Option<Pin>,
    baud: u32,
)
    requires
        I::tx_function(tx_port, tx_pin) is None,
        !held.contains(Resource::Pin(tx_port, tx_pin)),
        receive_pin(rx_port, rx_pin) matches Some(rx) ==> rx != Resource::Pin(tx_port, tx_pin)
            && !held.contains(rx),
    ensures
        construction::<I>(held, tx_port, tx_pin, rx_port, rx_pin, baud) matches Err(error)
            && is_configuration_rejection(error),
        is_well_formed::<I>(rx_port, rx_pin, baud) ==> construction::<I>(
            held,
            tx_port,
            tx_pin,
            rx_port,
            rx_pin,
            baud,
        ) == Err::<(), UartError>(UartError::PinConfigError),
        held_after::<I>(held, tx_port, tx_pin, rx_port, rx_pin, baud) == held,
        acquisition(
            held_after::<I>(held, tx_port, tx_pin, rx_port, rx_pin, baud),
            Resource::Pin(tx_port, tx_pin),
        ) == Acquisition::Acquired,
        acquisition(
            held_after::<I>(held, tx_port, tx_pin, rx_port, rx_pin, baud),
            Resource::Device(I::device()),
        ) == acquisition(held, Resource::Device(I::device())),
{
}

/// While a device is held, every further request for it that is well formed
/// and names pins of the device's table fails as unavailable. Once the first
/// handle is released, what is taken is what was taken before it was made, so
/// that any request which could succeed then can succeed again.
pub proof fn lemma_device_held_until_released<I: UartDevice>(
    held: Set<Resource>,
    tx_port: Port,
    tx_pin: Pin,
    rx_port: Option<Port>,
    rx_pin: Option<Pin>,
    baud: u32,
    next_tx_port: Port,
    next_tx_pin: Pin,
    next_rx_port: Option<Port>,
    next_rx_pin: Option<Pin>,
    next_baud: u32,
)
    requires
        construction::<I>(held, tx_port, tx_pin, rx_port, rx_pin, baud) is Ok,
        is_well_formed::<I>(next_rx_port, next_rx_pin, next_baud),
        I::tx_function(next_tx_port, next_tx_pin) is Some,
        next_rx_port is Some ==> I::rx_function(next_rx_port->0, next_rx_pin->0) is Some,
    ensures
        construction::<I>(
            held_after::<I>(held, tx_port, tx_pin, rx_port, rx_pin, baud),
            next_tx_port,
            next_tx_pin,
            next_rx_port,
            next_rx_pin,
            next_baud,
        ) == Err::<(), UartError>(UartError::DeviceUnavailable),
        held_after::<I>(
            held_after::<I>(held, tx_port, tx_pin, rx_port, rx_pin, baud),
            next_tx_port,
            next_tx_pin,
            next_rx_port,
            next_rx_pin,
            next_baud,
        ) == held_after::<I>(held, tx_port, tx_pin, rx_port, rx_pin, baud),
        without_bundle(
            held_after::<I>(held, tx_port, tx_pin, rx_port, rx_pin, baud),
            I::device(),
            Resource::Pin(tx_port, tx_pin),
            receive_pin(rx_port, rx_pin),
        ) == held,
{
    let after = held_after::<I>(held, tx_port, tx_pin, rx_port, rx_pin, baud);
    assert(after.contains(Resource::Device(I::device())));
    assert(without_bundle(
        after,
        I::device(),
        Resource::Pin(tx_port, tx_pin),
        receive_pin(rx_port, rx_pin),
    ) =~= held);
}

/// A request that is not well formed, or whose transmit pin is taken, is
/// refused before anything is written: no step is made on the register
/// file, which stays as it was.
pub proof fn lemma_refusal_writes_nothing<I: UartDevice>(
    state: Map<u32, u32>,
    held: Set<Resource>,
    tx_port: Port,
    tx_pin: Pin,
    rx_port: Option<Port>,
    rx_pin: Option<Pin>,
    config: Config,
)
    requires
        config.baud > I::max_baud() || (rx_port is Some) != (rx_pin is Some) || held.contains(
            Resource::Pin(tx_port, tx_pin),
        ),
    ensures
        construction::<I>(held, tx_port, tx_pin, rx_port, rx_pin, config.baud) is Err,
        config.baud > I::max_baud() ==> construction::<I>(
            held,
            tx_port,
            tx_pin,
            rx_port,
            rx_pin,
            config.baud,
        ) == Err::<(), UartError>(UartError::BaudNotSupported),
        construction_stores::<I>(held, tx_port, tx_pin, rx_port, rx_pin, config)
            == Seq::<Store>::empty(),
        registers_after::<I>(state, held, tx_port, tx_pin, rx_port, rx_pin, config) == state,
        held_after::<I>(held, tx_port, tx_pin, rx_port, rx_pin, config.baud) == held,
{
}

/// What switching the clock on and writing a configuration leave of a pin's
/// mode and routing: all of it.
proof fn lemma_device_setup_keeps_pins<I: UartDevice>(
    state: Map<u32, u32>,
    config: Config,
    q: Port,
    j: Pin,
)
    ensures
        mode_of(replayed(state, I::clock_stores() + I::config_stores(config)), q, j) == mode_of(
            state,
            q,
            j,
        ),
        alternate_function_of(
            replayed(state, I::clock_stores() + I::config_stores(config)),
            q,
            j,
        ) == alternate_function_of(state, q, j),
{
    let steps = I::clock_stores() + I::config_stores(config);
    I::lemma_ports_untouched(config);
    lemma_register_kinds(q, MODER_OFFSET);
    lemma_register_kinds(q, AFRL_OFFSET);
    lemma_register_kinds(q, AFRH_OFFSET);
    assert forall|i: int| 0 <= i < steps.len() implies !is_gpio_register(
        (#[trigger] steps[i]).addr(),
    ) by {
        if i < I::clock_stores().len() {
            assert(steps[i] == I::clock_stores()[i]);
        } else {
            assert(steps[i] == I::config_stores(config)[i - I::clock_stores().len()]);
        }
    }
    lemma_replayed_elsewhere(state, steps, q.register(MODER_OFFSET));
    lemma_replayed_elsewhere(state, steps, alternate_function_register(q, j));
}

/// After a successful construction both pins are in alternate mode and
/// routed to the functions that the device's table names for them; the mode
/// and the routing of every other pin are as they were.
pub proof fn lemma_constructed_pins_are_routed<I: UartDevice>(
    state: Map<u32, u32>,
    held: Set<Resource>,
    tx_port: Port,
    tx_pin: Pin,
    rx_port: Option<Port>,
    rx_pin: Option<Pin>,
    config: Config,
    q: Port,
    j: Pin,
)
    requires
        construction::<I>(held, tx_port, tx_pin, rx_port, rx_pin, config.baud) is Ok,
    ensures
        ({
            let after = registers_after::<I>(
                state,
                held,
                tx_port,
                tx_pin,
                rx_port,
                rx_pin,
                config,
            );
            &&& mode_of(after, tx_port, tx_pin) == MODE_ALTERNATE
            &&& alternate_function_of(after, tx_port, tx_pin) == I::tx_function(
                tx_port,
                tx_pin,
            )->0.bits()
            &&& rx_port is Some ==> mode_of(after, rx_port->0, rx_pin->0) == MODE_ALTERNATE
                && alternate_function_of(after, rx_port->0, rx_pin->0) == I::rx_function(
                rx_port->0,
                rx_pin->0,
            )->0.bits()
            &&& Resource::Pin(q, j) != Resource::Pin(tx_port, tx_pin) && Some(Resource::Pin(q, j))
                != receive_pin(rx_port, rx_pin) ==> mode_of(after, q, j) == mode_of(state, q, j)
                && alternate_function_of(after, q, j) == alternate_function_of(state, q, j)
        }),
{
    let tx_fn = I::tx_function(tx_port, tx_pin)->0;
    let device = I::clock_stores() + I::config_stores(config);
    let switch = switch_stores(held, tx_port, tx_pin, rx_port, rx_pin);
    let setup = setup_stores::<I>(tx_port, tx_pin, rx_port, rx_pin, config);
    let first = mode_edit(tx_port, tx_pin, MODE_ALTERNATE);
    let third = alternate_function_edit(tx_port, tx_pin, tx_fn);
    let switched = with_mode(state, tx_port, tx_pin, MODE_ALTERNATE);
    lemma_replayed_in_turn(state, switch, setup);
    lemma_replayed_one(state, first);
    lemma_mode_written(state, tx_port, tx_pin, MODE_ALTERNATE, tx_port, tx_pin);
    lemma_mode_written(state, tx_port, tx_pin, MODE_ALTERNATE, q, j);
    match (rx_port, rx_pin) {
        (Some(port), Some(pin)) => {
            let rx_fn = I::rx_function(port, pin)->0;
            let second = mode_edit(port, pin, MODE_ALTERNATE);
            let fourth = alternate_function_edit(port, pin, rx_fn);
            let both = with_mode(switched, port, pin, MODE_ALTERNATE);
            let sending = with_alternate_function(both, tx_port, tx_pin, tx_fn);
            let routed = with_alternate_function(sending, port, pin, rx_fn);
            assert(switch =~= seq![first].push(second));
            lemma_replayed_push(state, seq![first], second);
            assert(replayed(state, switch) == both);
            assert(setup =~= seq![third].push(fourth) + device);
            lemma_replayed_in_turn(both, seq![third].push(fourth), device);
            lemma_replayed_one(both, third);
            lemma_replayed_push(both, seq![third], fourth);
            assert(replayed(both, seq![third].push(fourth)) == routed);
            lemma_mode_written(state, tx_port, tx_pin, MODE_ALTERNATE, port, pin);
            lemma_mode_written(switched, port, pin, MODE_ALTERNATE, port, pin);
            lemma_mode_written(switched, port, pin, MODE_ALTERNATE, tx_port, tx_pin);
            lemma_mode_written(switched, port, pin, MODE_ALTERNATE, q, j);
            lemma_alternate_function_written(both, tx_port, tx_pin, tx_fn, tx_port, tx_pin);
            lemma_alternate_function_written(both, tx_port, tx_pin, tx_fn, port, pin);
            lemma_alternate_function_written(both, tx_port, tx_pin, tx_fn, q, j);
            lemma_alternate_function_written(sending, port, pin, rx_fn, port, pin);
            lemma_alternate_function_written(sending, port, pin, rx_fn, tx_port, tx_pin);
            lemma_alternate_function_written(sending, port, pin, rx_fn, q, j);
            lemma_device_setup_keeps_pins::<I>(routed, config, tx_port, tx_pin);
            lemma_device_setup_keeps_pins::<I>(routed, config, port, pin);
            lemma_device_setup_keeps_pins::<I>(routed, config, q, j);
        },
        _ => {
            let routed = with_alternate_function(switched, tx_port, tx_pin, tx_fn);
            assert(switch =~= seq![first]);
            assert(setup =~= seq![third] + device);
            lemma_replayed_in_turn(switched, seq![third], device);
            lemma_replayed_one(switched, third);
            lemma_alternate_function_written(switched, tx_port, tx_pin, tx_fn, tx_port, tx_pin);
            lemma_alternate_function_written(switched, tx_port, tx_pin, tx_fn, q, j);
            lemma_device_setup_keeps_pins::<I>(routed, config, tx_port, tx_pin);
            lemma_device_setup_keeps_pins::<I>(routed, config, q, j);
        },
    }
}

/// The steps of a successful construction that come before the
/// configuration is written: the pins are switched and routed, and the
/// device's clock is switched on.
proof fn lemma_steps_before_configuration<I: UartDevice>(
    held: Set<Resource>,
    tx_port: Port,
    tx_pin: Pin,
    rx_port: Option<Port>,
    rx_pin: Option<Pin>,
    config: Config,
) -> (before: Seq<Store>)
    requires
        construction::<I>(held, tx_port, tx_pin, rx_port, rx_pin, config.baud) is Ok,
    ensures
        construction_stores::<I>(held, tx_port, tx_pin, rx_port, rx_pin, config) == before
            + I::config_stores(config),
        before == pin_stores::<I>(held, tx_port, tx_pin, rx_port, rx_pin) + I::clock_stores(),
{
    let before = pin_stores::<I>(held, tx_port, tx_pin, rx_port, rx_pin) + I::clock_stores();
    assert(construction_stores::<I>(held, tx_port, tx_pin, rx_port, rx_pin, config) =~= before
        + I::config_stores(config));
    before
}

/// The stop bits of a request show in the hardware: two constructions that
/// succeed from the same state and ask for different stop bits leave
/// different register files.
pub proof fn lemma_construction_writes_stop_bits<I: UartDevice>(
    state: Map<u32, u32>,
    held: Set<Resource>,
    tx_port: Port,
    tx_pin: Pin,
    rx_port: Option<Port>,
    rx_pin: Option<Pin>,
    first: Config,
    second: Config,
)
    requires
        construction::<I>(held, tx_port, tx_pin, rx_port, rx_pin, first.baud) is Ok,
        construction::<I>(held, tx_port, tx_pin, rx_port, rx_pin, second.baud) is Ok,
        first.stop_bits != second.stop_bits,
    ensures
        registers_after::<I>(state, held, tx_port, tx_pin, rx_port, rx_pin, first)
            != registers_after::<I>(state, held, tx_port, tx_pin, rx_port, rx_pin, second),
{
    let before = lemma_steps_before_configuration::<I>(
        held,
        tx_port,
        tx_pin,
        rx_port,
        rx_pin,
        first,
    );
    let again = lemma_steps_before_configuration::<I>(
        held,
        tx_port,
        tx_pin,
        rx_port,
        rx_pin,
        second,
    );
    lemma_replayed_in_turn(state, before, I::config_stores(first));
    lemma_replayed_in_turn(state, before, I::config_stores(second));
    I::lemma_stop_bits_written(replayed(state, before), first, second);
}

/// What a successful construction of the first serial device leaves in the
/// device's registers: its clock bit set, parity and word length in the
/// first control register, and in the stop bit field of the second the code
/// of the stop bits that the configuration asks for.
pub proof fn lemma_first_device_constructed(
    state: Map<u32, u32>,
    held: Set<Resource>,
    tx_port: Port,
    tx_pin: Pin,
    rx_port: Option<Port>,
    rx_pin: Option<Pin>,
    config: Config,
)
    requires
        construction::<Uart1>(held, tx_port, tx_pin, rx_port, rx_pin, config.baud) is Ok,
    ensures
        ({
            let after = registers_after::<Uart1>(
                state,
                held,
                tx_port,
                tx_pin,
                rx_port,
                rx_pin,
                config,
            );
            &&& after[RCC_APB2ENR] == state[RCC_APB2ENR] | USART1_CLOCK_ENABLE
            &&& after[USART1_CR1] == control_word(state[USART1_CR1], config)
            &&& after[USART1_CR2] == second_control_word(state[USART1_CR2], config)
            &&& (after[USART1_CR2] >> 12) & 0b11 == stop_code(config.stop_bits)
        }),
{
    let pins = pin_stores::<Uart1>(held, tx_port, tx_pin, rx_port, rx_pin);
    let before = lemma_steps_before_configuration::<Uart1>(
        held,
        tx_port,
        tx_pin,
        rx_port,
        rx_pin,
        config,
    );
    let routed = replayed(state, pins);
    let clocked = replayed(state, before);
    lemma_replayed_in_turn(state, before, Uart1::config_stores(config));
    lemma_replayed_in_turn(state, pins, Uart1::clock_stores());
    lemma_first_device_registers(routed, config);
    lemma_first_device_registers(clocked, config);
    lemma_second_control_word(state[USART1_CR2], config);
    lemma_register_kinds(tx_port, MODER_OFFSET);
    lemma_register_kinds(tx_port, AFRL_OFFSET);
    lemma_register_kinds(tx_port, AFRH_OFFSET);
    if rx_port is Some {
        lemma_register_kinds(rx_port->0, MODER_OFFSET);
        lemma_register_kinds(rx_port->0, AFRL_OFFSET);
        lemma_register_kinds(rx_port->0, AFRH_OFFSET);
    }
    assert forall|i: int| 0 <= i < pins.len() implies is_gpio_register((#[trigger] pins[i]).addr())
        && !is_set_reset_register(pins[i].addr()) by {
        let switch = switch_stores(held, tx_port, tx_pin, rx_port, rx_pin);
        if i < switch.len() {
            assert(pins[i] == switch[i]);
        }
    }
    lemma_replayed_elsewhere(state, pins, RCC_APB2ENR);
    lemma_replayed_elsewhere(state, pins, USART1_CR1);
    lemma_replayed_elsewhere(state, pins, USART1_CR2);
}

} // verus!
