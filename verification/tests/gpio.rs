use stm32_nucleo_l4r5zi::arbiter::{Arbiter, Resource};
use stm32_nucleo_l4r5zi::gpio::{
    AlternateFunction, GPIOPin, IntoAlternate, IntoAnalog, IntoInput, IntoOutput, OutputType, Pin,
    Port, PushPullMode, Speed, Undefined, MODE_ALTERNATE, MODE_ANALOG, MODE_INPUT, MODE_OUTPUT,
};
use stm32_nucleo_l4r5zi::registers::{
    HostRegisters, RegisterFile, AFRH_OFFSET, AFRL_OFFSET, BSRR_OFFSET, IDR_OFFSET, MODER_OFFSET,
    ODR_OFFSET, OSPEEDR_OFFSET, OTYPER_OFFSET, PUPDR_OFFSET,
};

const PORTS: [Port; 9] = [
    Port::GPIOA,
    Port::GPIOB,
    Port::GPIOC,
    Port::GPIOD,
    Port::GPIOE,
    Port::GPIOF,
    Port::GPIOG,
    Port::GPIOH,
    Port::GPIOI,
];

const PINS: [Pin; 16] = [
    Pin::PIN0,
    Pin::PIN1,
    Pin::PIN2,
    Pin::PIN3,
    Pin::PIN4,
    Pin::PIN5,
    Pin::PIN6,
    Pin::PIN7,
    Pin::PIN8,
    Pin::PIN9,
    Pin::PIN10,
    Pin::PIN11,
    Pin::PIN12,
    Pin::PIN13,
    Pin::PIN14,
    Pin::PIN15,
];

const FUNCTIONS: [AlternateFunction; 16] = [
    AlternateFunction::AF0,
    AlternateFunction::AF1,
    AlternateFunction::AF2,
    AlternateFunction::AF3,
    AlternateFunction::AF4,
    AlternateFunction::AF5,
    AlternateFunction::AF6,
    AlternateFunction::AF7,
    AlternateFunction::AF8,
    AlternateFunction::AF9,
    AlternateFunction::AF10,
    AlternateFunction::AF11,
    AlternateFunction::AF12,
    AlternateFunction::AF13,
    AlternateFunction::AF14,
    AlternateFunction::AF15,
];

const PATTERN: u32 = 0xA5C3_96F0;

fn field(word: u32, width: u32, index: u32) -> u32 {
    (word >> (width * index)) & ((1u32 << width) - 1)
}

fn take(arbiter: &mut Arbiter, port: Port, pin: Pin) -> GPIOPin<Undefined> {
    match GPIOPin::take(arbiter, port, pin) {
        Ok(handle) => handle,
        Err(()) => panic!("the pin is free"),
    }
}

fn filled(port: Port) -> HostRegisters {
    let mut regs = HostRegisters::new();
    for offset in [
        MODER_OFFSET,
        OTYPER_OFFSET,
        OSPEEDR_OFFSET,
        PUPDR_OFFSET,
        AFRL_OFFSET,
        AFRH_OFFSET,
    ] {
        regs.write(port.base_address() + offset, PATTERN);
    }
    regs
}

fn snapshot(regs: &HostRegisters) -> Vec<u32> {
    let mut words = Vec::new();
    for port in PORTS {
        for number in 0..10u32 {
            words.push(regs.read(port.base_address() + 4 * number));
        }
    }
    words
}

#[test]
fn ports_have_nine_distinct_base_addresses() {
    assert_eq!(Port::GPIOA.base_address(), 0x4800_0000);
    assert_eq!(Port::GPIOB.base_address(), 0x4800_0400);
    assert_eq!(Port::GPIOC.base_address(), 0x4800_0800);
    assert_eq!(Port::GPIOD.base_address(), 0x4800_0C00);
    assert_eq!(Port::GPIOE.base_address(), 0x4800_1000);
    assert_eq!(Port::GPIOF.base_address(), 0x4800_1400);
    assert_eq!(Port::GPIOG.base_address(), 0x4800_1800);
    assert_eq!(Port::GPIOH.base_address(), 0x4800_1C00);
    assert_eq!(Port::GPIOI.base_address(), 0x4800_2000);
    for first in PORTS {
        for second in PORTS {
            assert_eq!(first.base_address() == second.base_address(), first == second);
        }
    }
}

#[test]
fn ports_and_pins_are_numbered_in_order() {
    let mut number = 0;
    for port in PORTS {
        assert_eq!(port.index(), number);
        number += 1;
    }
    let mut number = 0;
    for pin in PINS {
        assert_eq!(pin.index(), number);
        number += 1;
    }
}

#[test]
fn register_addresses_are_base_plus_offset() {
    assert_eq!(Port::GPIOA.register(MODER_OFFSET), 0x4800_0000);
    assert_eq!(Port::GPIOC.register(BSRR_OFFSET), 0x4800_0818);
    assert_eq!(Port::GPIOI.register(AFRH_OFFSET), 0x4800_2024);
}

#[test]
fn codes_of_the_settings() {
    assert_eq!(MODE_INPUT, 0b00);
    assert_eq!(MODE_OUTPUT, 0b01);
    assert_eq!(MODE_ALTERNATE, 0b10);
    assert_eq!(MODE_ANALOG, 0b11);
    assert_eq!(OutputType::PushPull.bits(), 0);
    assert_eq!(OutputType::OpenDrain.bits(), 1);
    assert_eq!(Speed::Low.bits(), 0);
    assert_eq!(Speed::Medium.bits(), 1);
    assert_eq!(Speed::High.bits(), 2);
    assert_eq!(Speed::VeryHigh.bits(), 3);
    assert_eq!(PushPullMode::Disabled.bits(), 0);
    assert_eq!(PushPullMode::PullUp.bits(), 1);
    assert_eq!(PushPullMode::PullDown.bits(), 2);
    let mut code = 0;
    for function in FUNCTIONS {
        assert_eq!(function.bits(), code);
        code += 1;
    }
}

#[test]
fn every_pin_is_taken_once_until_released() {
    let mut arbiter = Arbiter::new();
    let mut count = 0;
    for port in PORTS {
        for pin in PINS {
            let handle = take(&mut arbiter, port, pin);
            assert_eq!(handle.port(), port);
            assert_eq!(handle.pin(), pin);
            assert!(GPIOPin::take(&mut arbiter, port, pin).is_err());
            assert!(arbiter.is_held(Resource::Pin(port, pin)));
            handle.release(&mut arbiter);
            assert!(!arbiter.is_held(Resource::Pin(port, pin)));
            let again = take(&mut arbiter, port, pin);
            again.release(&mut arbiter);
            count += 1;
        }
    }
    assert_eq!(count, 144);
}

#[test]
fn a_failed_take_leaves_the_holder_in_place() {
    let mut arbiter = Arbiter::new();
    let holder = take(&mut arbiter, Port::GPIOD, Pin::PIN2);
    assert!(GPIOPin::take(&mut arbiter, Port::GPIOD, Pin::PIN2).is_err());
    assert!(arbiter.is_held(Resource::Pin(Port::GPIOD, Pin::PIN2)));
    assert!(GPIOPin::take(&mut arbiter, Port::GPIOD, Pin::PIN3).is_ok());
    holder.release(&mut arbiter);
    assert!(GPIOPin::take(&mut arbiter, Port::GPIOD, Pin::PIN2).is_ok());
}

#[test]
fn taking_a_pin_writes_no_register() {
    let mut arbiter = Arbiter::new();
    let regs = HostRegisters::new();
    let handle = take(&mut arbiter, Port::GPIOA, Pin::PIN0);
    assert_eq!(handle.get_base_address(), 0x4800_0000);
    handle.release(&mut arbiter);
    assert_eq!(regs.store_count(), 0);
}

#[test]
fn the_handle_knows_the_base_address_of_its_port() {
    let mut arbiter = Arbiter::new();
    for port in PORTS {
        let handle = take(&mut arbiter, port, Pin::PIN4);
        assert_eq!(handle.get_base_address(), port.base_address());
    }
}

#[test]
fn into_input_writes_code_00() {
    let mut arbiter = Arbiter::new();
    let mut regs = filled(Port::GPIOA);
    let handle = take(&mut arbiter, Port::GPIOA, Pin::PIN5);
    let input = handle.into_input(&mut regs);
    assert!(input.is_ok());
    assert_eq!(regs.read(0x4800_0000), PATTERN & !0x0000_0C00);
}

#[test]
fn into_output_writes_code_01() {
    let mut arbiter = Arbiter::new();
    let mut regs = HostRegisters::new();
    let handle = take(&mut arbiter, Port::GPIOA, Pin::PIN5);
    assert!(handle.into_output(&mut regs).is_ok());
    assert_eq!(regs.read(0x4800_0000), 0x0000_0400);
}

#[test]
fn into_analog_writes_code_11() {
    let mut arbiter = Arbiter::new();
    let mut regs = HostRegisters::new();
    let handle = take(&mut arbiter, Port::GPIOB, Pin::PIN15);
    assert!(handle.into_analog(&mut regs).is_ok());
    assert_eq!(regs.read(0x4800_0400), 0xC000_0000);
}

#[test]
fn into_alternate_writes_code_10() {
    let mut arbiter = Arbiter::new();
    let mut regs = HostRegisters::new();
    let handle = take(&mut arbiter, Port::GPIOI, Pin::PIN0);
    assert!(handle.into_alternate(&mut regs).is_ok());
    assert_eq!(regs.read(0x4800_2000), 0x0000_0002);
}

#[test]
fn a_mode_change_keeps_every_other_pin_and_register() {
    for port in PORTS {
        for pin in PINS {
            for code in [MODE_INPUT, MODE_OUTPUT, MODE_ALTERNATE, MODE_ANALOG] {
                let mut arbiter = Arbiter::new();
                let mut regs = filled(port);
                let before = snapshot(&regs);
                let handle = take(&mut arbiter, port, pin);
                let (held_port, held_pin) = if code == MODE_INPUT {
                    let pin = handle.into_input(&mut regs).ok().expect("always converts");
                    (pin.port(), pin.pin())
                } else if code == MODE_OUTPUT {
                    let pin = handle.into_output(&mut regs).ok().expect("always converts");
                    (pin.port(), pin.pin())
                } else if code == MODE_ALTERNATE {
                    let pin = handle.into_alternate(&mut regs).ok().expect("always converts");
                    (pin.port(), pin.pin())
                } else {
                    let pin = handle.into_analog(&mut regs).ok().expect("always converts");
                    (pin.port(), pin.pin())
                };
                assert_eq!(held_port, port);
                assert_eq!(held_pin, pin);
                let word = regs.read(port.base_address() + MODER_OFFSET);
                assert_eq!(field(word, 2, pin.index()), code);
                for other in PINS {
                    if other != pin {
                        assert_eq!(
                            field(word, 2, other.index()),
                            field(PATTERN, 2, other.index())
                        );
                    }
                }
                let after = snapshot(&regs);
                for place in 0..before.len() {
                    if place != (port.index() as usize) * 10 {
                        assert_eq!(after[place], before[place]);
                    }
                }
                assert_eq!(regs.store_count(), 7);
                assert!(arbiter.is_held(Resource::Pin(port, pin)));
            }
        }
    }
}

#[test]
fn modes_change_from_every_mode_to_every_other() {
    let mut arbiter = Arbiter::new();
    let mut regs = HostRegisters::new();
    let moder = Port::GPIOE.base_address() + MODER_OFFSET;
    let pin = take(&mut arbiter, Port::GPIOE, Pin::PIN3);
    let pin = pin.into_output(&mut regs).ok().expect("always converts");
    assert_eq!(regs.read(moder), 0b01 << 6);
    let pin = pin.into_input(&mut regs).ok().expect("always converts");
    assert_eq!(regs.read(moder), 0b00 << 6);
    let pin = pin.into_analog(&mut regs).ok().expect("always converts");
    assert_eq!(regs.read(moder), 0b11 << 6);
    let pin = pin.into_alternate(&mut regs).ok().expect("always converts");
    assert_eq!(regs.read(moder), 0b10 << 6);
    let pin = pin.into_output(&mut regs).ok().expect("always converts");
    assert_eq!(regs.read(moder), 0b01 << 6);
    let pin = pin.into_analog(&mut regs).ok().expect("always converts");
    assert_eq!(regs.read(moder), 0b11 << 6);
    let pin = pin.into_input(&mut regs).ok().expect("always converts");
    assert_eq!(regs.read(moder), 0b00 << 6);
    let pin = pin.into_alternate(&mut regs).ok().expect("always converts");
    assert_eq!(regs.read(moder), 0b10 << 6);
    let pin = pin.into_input(&mut regs).ok().expect("always converts");
    let pin = pin.into_output(&mut regs).ok().expect("always converts");
    let pin = pin.into_alternate(&mut regs).ok().expect("always converts");
    let pin = pin.into_analog(&mut regs).ok().expect("always converts");
    assert_eq!(regs.read(moder), 0b11 << 6);
    assert!(arbiter.is_held(Resource::Pin(Port::GPIOE, Pin::PIN3)));
    pin.release(&mut arbiter);
    assert!(!arbiter.is_held(Resource::Pin(Port::GPIOE, Pin::PIN3)));
    assert_eq!(regs.read(moder), 0b11 << 6);
}

#[test]
fn set_speed_writes_the_code_to_the_pins_field() {
    let mut arbiter = Arbiter::new();
    let mut regs = HostRegisters::new();
    let ospeedr = 0x4800_0008;
    let mut first = take(&mut arbiter, Port::GPIOA, Pin::PIN0)
        .into_output(&mut regs)
        .ok()
        .expect("always converts");
    let mut third = take(&mut arbiter, Port::GPIOA, Pin::PIN3)
        .into_output(&mut regs)
        .ok()
        .expect("always converts");
    let mut last = take(&mut arbiter, Port::GPIOA, Pin::PIN15)
        .into_output(&mut regs)
        .ok()
        .expect("always converts");
    first.set_speed(&mut regs, Speed::Medium);
    assert_eq!(regs.read(ospeedr), 0x0000_0001);
    third.set_speed(&mut regs, Speed::High);
    assert_eq!(regs.read(ospeedr), 0x0000_0081);
    last.set_speed(&mut regs, Speed::VeryHigh);
    assert_eq!(regs.read(ospeedr), 0xC000_0081);
    third.set_speed(&mut regs, Speed::Low);
    assert_eq!(regs.read(ospeedr), 0xC000_0001);
    assert_eq!(first.pin(), Pin::PIN0);
    assert_eq!(last.port(), Port::GPIOA);
}

#[test]
fn set_speed_reads_back_and_keeps_the_other_pins() {
    for pin in PINS {
        for speed in [Speed::Low, Speed::Medium, Speed::High, Speed::VeryHigh] {
            let mut arbiter = Arbiter::new();
            let mut regs = filled(Port::GPIOF);
            let mut handle = take(&mut arbiter, Port::GPIOF, pin)
                .into_output(&mut regs)
                .ok()
                .expect("always converts");
            let before = snapshot(&regs);
            handle.set_speed(&mut regs, speed);
            let word = regs.read(Port::GPIOF.base_address() + OSPEEDR_OFFSET);
            assert_eq!(field(word, 2, pin.index()), speed.bits());
            for other in PINS {
                if other != pin {
                    assert_eq!(field(word, 2, other.index()), field(PATTERN, 2, other.index()));
                }
            }
            let after = snapshot(&regs);
            for place in 0..before.len() {
                if place != 5 * 10 + 2 {
                    assert_eq!(after[place], before[place]);
                }
            }
        }
    }
}

#[test]
fn set_push_pull_writes_the_code_to_the_pins_field() {
    let mut arbiter = Arbiter::new();
    let mut regs = HostRegisters::new();
    let pupdr = 0x4800_080C;
    let mut seventh = take(&mut arbiter, Port::GPIOC, Pin::PIN7)
        .into_input(&mut regs)
        .ok()
        .expect("always converts");
    let mut eighth = take(&mut arbiter, Port::GPIOC, Pin::PIN8)
        .into_input(&mut regs)
        .ok()
        .expect("always converts");
    seventh.set_push_pull(&mut regs, PushPullMode::PullDown);
    assert_eq!(regs.read(pupdr), 0x0000_8000);
    eighth.set_push_pull(&mut regs, PushPullMode::PullUp);
    assert_eq!(regs.read(pupdr), 0x0001_8000);
    seventh.set_push_pull(&mut regs, PushPullMode::Disabled);
    assert_eq!(regs.read(pupdr), 0x0001_0000);
}

#[test]
fn set_push_pull_reads_back_and_keeps_the_other_pins() {
    for pin in PINS {
        for pull in [PushPullMode::Disabled, PushPullMode::PullUp, PushPullMode::PullDown] {
            let mut arbiter = Arbiter::new();
            let mut regs = filled(Port::GPIOH);
            let mut handle = take(&mut arbiter, Port::GPIOH, pin)
                .into_input(&mut regs)
                .ok()
                .expect("always converts");
            let before = snapshot(&regs);
            handle.set_push_pull(&mut regs, pull);
            let word = regs.read(Port::GPIOH.base_address() + PUPDR_OFFSET);
            assert_eq!(field(word, 2, pin.index()), pull.bits());
            for other in PINS {
                if other != pin {
                    assert_eq!(field(word, 2, other.index()), field(PATTERN, 2, other.index()));
                }
            }
            let after = snapshot(&regs);
            for place in 0..before.len() {
                if place != 7 * 10 + 3 {
                    assert_eq!(after[place], before[place]);
                }
            }
        }
    }
}

#[test]
fn set_outputtype_writes_one_bit() {
    let mut arbiter = Arbiter::new();
    let mut regs = HostRegisters::new();
    let otyper = 0x4800_0404;
    let mut ninth = take(&mut arbiter, Port::GPIOB, Pin::PIN9)
        .into_output(&mut regs)
        .ok()
        .expect("always converts");
    let mut first = take(&mut arbiter, Port::GPIOB, Pin::PIN0)
        .into_output(&mut regs)
        .ok()
        .expect("always converts");
    ninth.set_outputtype(&mut regs, OutputType::OpenDrain);
    assert_eq!(regs.read(otyper), 0x0000_0200);
    first.set_outputtype(&mut regs, OutputType::OpenDrain);
    assert_eq!(regs.read(otyper), 0x0000_0201);
    ninth.set_outputtype(&mut regs, OutputType::PushPull);
    assert_eq!(regs.read(otyper), 0x0000_0001);
}

#[test]
fn set_outputtype_reads_back_and_keeps_the_other_bits() {
    for pin in PINS {
        for kind in [OutputType::PushPull, OutputType::OpenDrain] {
            let mut arbiter = Arbiter::new();
            let mut regs = filled(Port::GPIOD);
            let mut handle = take(&mut arbiter, Port::GPIOD, pin)
                .into_output(&mut regs)
                .ok()
                .expect("always converts");
            let before = snapshot(&regs);
            handle.set_outputtype(&mut regs, kind);
            let word = regs.read(Port::GPIOD.base_address() + OTYPER_OFFSET);
            assert_eq!(field(word, 1, pin.index()), kind.bits());
            assert_eq!(word & !(1u32 << pin.index()), PATTERN & !(1u32 << pin.index()));
            let after = snapshot(&regs);
            for place in 0..before.len() {
                if place != 3 * 10 + 1 {
                    assert_eq!(after[place], before[place]);
                }
            }
        }
    }
}

#[test]
fn low_pins_are_routed_in_the_low_register() {
    let mut arbiter = Arbiter::new();
    let mut regs = HostRegisters::new();
    let mut pin = take(&mut arbiter, Port::GPIOB, Pin::PIN6)
        .into_alternate(&mut regs)
        .ok()
        .expect("always converts");
    pin.set_alternate_function(&mut regs, AlternateFunction::AF7);
    assert_eq!(regs.read(0x4800_0420), 0x0700_0000);
    assert_eq!(regs.read(0x4800_0424), 0);
}

#[test]
fn high_pins_are_routed_in_the_high_register() {
    let mut arbiter = Arbiter::new();
    let mut regs = HostRegisters::new();
    let mut pin = take(&mut arbiter, Port::GPIOA, Pin::PIN9)
        .into_alternate(&mut regs)
        .ok()
        .expect("always converts");
    pin.set_alternate_function(&mut regs, AlternateFunction::AF7);
    assert_eq!(regs.read(0x4800_0020), 0);
    assert_eq!(regs.read(0x4800_0024), 0x0000_0070);
}

#[test]
fn pins_seven_and_eight_lie_on_both_sides_of_the_split() {
    let mut arbiter = Arbiter::new();
    let mut regs = HostRegisters::new();
    let mut seventh = take(&mut arbiter, Port::GPIOG, Pin::PIN7)
        .into_alternate(&mut regs)
        .ok()
        .expect("always converts");
    let mut eighth = take(&mut arbiter, Port::GPIOG, Pin::PIN8)
        .into_alternate(&mut regs)
        .ok()
        .expect("always converts");
    seventh.set_alternate_function(&mut regs, AlternateFunction::AF15);
    eighth.set_alternate_function(&mut regs, AlternateFunction::AF12);
    assert_eq!(regs.read(Port::GPIOG.base_address() + AFRL_OFFSET), 0xF000_0000);
    assert_eq!(regs.read(Port::GPIOG.base_address() + AFRH_OFFSET), 0x0000_000C);
}

#[test]
fn every_function_code_is_written_as_it_is() {
    for pin in PINS {
        for function in FUNCTIONS {
            let mut arbiter = Arbiter::new();
            let mut regs = filled(Port::GPIOC);
            let mut handle = take(&mut arbiter, Port::GPIOC, pin)
                .into_alternate(&mut regs)
                .ok()
                .expect("always converts");
            let before = snapshot(&regs);
            handle.set_alternate_function(&mut regs, function);
            let low = regs.read(Port::GPIOC.base_address() + AFRL_OFFSET);
            let high = regs.read(Port::GPIOC.base_address() + AFRH_OFFSET);
            let (word, untouched, slot, place) = if pin.index() < 8 {
                (low, high, pin.index(), 2 * 10 + 8)
            } else {
                (high, low, pin.index() - 8, 2 * 10 + 9)
            };
            assert_eq!(untouched, PATTERN);
            assert_eq!(field(word, 4, slot), function.bits());
            for other in 0..8u32 {
                if other != slot {
                    assert_eq!(field(word, 4, other), field(PATTERN, 4, other));
                }
            }
            let after = snapshot(&regs);
            for index in 0..before.len() {
                if index != place {
                    assert_eq!(after[index], before[index]);
                }
            }
        }
    }
}

#[test]
fn set_pin_then_read_state_is_high() {
    for port in PORTS {
        for pin in PINS {
            let mut arbiter = Arbiter::new();
            let mut regs = HostRegisters::new();
            let mut handle = take(&mut arbiter, port, pin)
                .into_output(&mut regs)
                .ok()
                .expect("always converts");
            assert!(!handle.read_state(&regs));
            handle.set_pin(&mut regs);
            assert!(handle.read_state(&regs));
            assert_eq!(regs.read(port.base_address() + ODR_OFFSET), 1u32 << pin.index());
            assert_eq!(regs.read(port.base_address() + IDR_OFFSET), 1u32 << pin.index());
            handle.reset_pin(&mut regs);
            assert!(!handle.read_state(&regs));
            assert_eq!(regs.read(port.base_address() + ODR_OFFSET), 0);
            assert_eq!(regs.read(port.base_address() + IDR_OFFSET), 0);
        }
    }
}

#[test]
fn set_and_reset_are_one_store_each() {
    let mut arbiter = Arbiter::new();
    let mut regs = HostRegisters::new();
    let mut handle = take(&mut arbiter, Port::GPIOA, Pin::PIN5)
        .into_output(&mut regs)
        .ok()
        .expect("always converts");
    let before = regs.store_count();
    handle.set_pin(&mut regs);
    assert_eq!(regs.store_count(), before + 1);
    handle.reset_pin(&mut regs);
    assert_eq!(regs.store_count(), before + 2);
    handle.read_state(&regs);
    assert_eq!(regs.store_count(), before + 2);
}

#[test]
fn set_and_reset_keep_the_level_of_every_other_pin() {
    let mut arbiter = Arbiter::new();
    let mut regs = HostRegisters::new();
    let mut third = take(&mut arbiter, Port::GPIOE, Pin::PIN3)
        .into_output(&mut regs)
        .ok()
        .expect("always converts");
    let mut twelfth = take(&mut arbiter, Port::GPIOE, Pin::PIN12)
        .into_output(&mut regs)
        .ok()
        .expect("always converts");
    let other_port = take(&mut arbiter, Port::GPIOF, Pin::PIN3)
        .into_input(&mut regs)
        .ok()
        .expect("always converts");
    third.set_pin(&mut regs);
    twelfth.set_pin(&mut regs);
    assert!(third.read_state(&regs));
    assert!(twelfth.read_state(&regs));
    assert!(!other_port.read_state(&regs));
    third.reset_pin(&mut regs);
    assert!(!third.read_state(&regs));
    assert!(twelfth.read_state(&regs));
    assert_eq!(regs.read(Port::GPIOE.base_address() + IDR_OFFSET), 0x0000_1000);
    third.reset_pin(&mut regs);
    assert_eq!(regs.read(Port::GPIOE.base_address() + IDR_OFFSET), 0x0000_1000);
    twelfth.set_pin(&mut regs);
    assert_eq!(regs.read(Port::GPIOE.base_address() + IDR_OFFSET), 0x0000_1000);
}

#[test]
fn read_state_tests_the_pins_own_bit() {
    let mut arbiter = Arbiter::new();
    let mut regs = HostRegisters::new();
    let low = take(&mut arbiter, Port::GPIOB, Pin::PIN2)
        .into_input(&mut regs)
        .ok()
        .expect("always converts");
    let high = take(&mut arbiter, Port::GPIOB, Pin::PIN3)
        .into_input(&mut regs)
        .ok()
        .expect("always converts");
    regs.write(Port::GPIOB.base_address() + IDR_OFFSET, 0xFFF8_0008);
    assert!(!low.read_state(&regs));
    assert!(high.read_state(&regs));
}

#[test]
fn releasing_a_pin_keeps_its_configuration() {
    let mut arbiter = Arbiter::new();
    let mut regs = HostRegisters::new();
    let mut handle = take(&mut arbiter, Port::GPIOA, Pin::PIN1)
        .into_output(&mut regs)
        .ok()
        .expect("always converts");
    handle.set_speed(&mut regs, Speed::VeryHigh);
    let stores = regs.store_count();
    handle.release(&mut arbiter);
    assert_eq!(regs.store_count(), stores);
    assert_eq!(regs.read(0x4800_0000), 0b01 << 2);
    assert_eq!(regs.read(0x4800_0008), 0b11 << 2);
    assert!(GPIOPin::take(&mut arbiter, Port::GPIOA, Pin::PIN1).is_ok());
}

#[test]
fn edits_of_two_pins_give_the_same_word_in_either_order() {
    let mut arbiter = Arbiter::new();
    let mut first_order = filled(Port::GPIOA);
    let mut second_order = filled(Port::GPIOA);
    let mut fourth = take(&mut arbiter, Port::GPIOA, Pin::PIN4)
        .into_output(&mut first_order)
        .ok()
        .expect("always converts");
    let mut fifth = take(&mut arbiter, Port::GPIOA, Pin::PIN5)
        .into_output(&mut first_order)
        .ok()
        .expect("always converts");
    fourth.set_speed(&mut first_order, Speed::High);
    fifth.set_speed(&mut first_order, Speed::Medium);
    fifth.set_speed(&mut second_order, Speed::Medium);
    fourth.set_speed(&mut second_order, Speed::High);
    let ospeedr = Port::GPIOA.base_address() + OSPEEDR_OFFSET;
    assert_eq!(first_order.read(ospeedr), second_order.read(ospeedr));
    assert_eq!(first_order.read(ospeedr), (PATTERN & !0x0000_0F00) | 0x0000_0600);
}
