use stm32_nucleo_l4r5zi::registers::{
    is_register, HostRegisters, RegisterFile, AFRH_OFFSET, AFRL_OFFSET, BSRR_OFFSET, GPIOA_BASE,
    GPIO_END, GPIO_PORT_STRIDE, IDR_OFFSET, LCKR_OFFSET, MODER_OFFSET, ODR_OFFSET, OSPEEDR_OFFSET,
    OTYPER_OFFSET, PUPDR_OFFSET, RCC_AHB2ENR, RCC_APB2ENR, REGISTER_COUNT, USART1_CR1, USART1_CR2,
};

fn all_registers() -> Vec<u32> {
    let mut all = Vec::new();
    for port in 0..9u32 {
        for word in 0..10u32 {
            all.push(GPIOA_BASE + port * GPIO_PORT_STRIDE + 4 * word);
        }
    }
    all.push(RCC_AHB2ENR);
    all.push(RCC_APB2ENR);
    all.push(USART1_CR1);
    all.push(USART1_CR2);
    all
}

#[test]
fn register_offsets_are_the_hardware_layout() {
    assert_eq!(MODER_OFFSET, 0x00);
    assert_eq!(OTYPER_OFFSET, 0x04);
    assert_eq!(OSPEEDR_OFFSET, 0x08);
    assert_eq!(PUPDR_OFFSET, 0x0C);
    assert_eq!(IDR_OFFSET, 0x10);
    assert_eq!(ODR_OFFSET, 0x14);
    assert_eq!(BSRR_OFFSET, 0x18);
    assert_eq!(LCKR_OFFSET, 0x1C);
    assert_eq!(AFRL_OFFSET, 0x20);
    assert_eq!(AFRH_OFFSET, 0x24);
    assert_eq!(RCC_AHB2ENR, 0x4002_1000 + 0x4C);
    assert_eq!(RCC_APB2ENR, 0x4002_1000 + 0x60);
    assert_eq!(USART1_CR1, 0x4001_3800);
    assert_eq!(USART1_CR2, 0x4001_3800 + 0x04);
}

#[test]
fn the_register_map_holds_ninety_four_registers() {
    let all = all_registers();
    assert_eq!(all.len(), 94);
    assert_eq!(REGISTER_COUNT, 94);
    for addr in &all {
        assert!(is_register(*addr));
    }
}

#[test]
fn addresses_off_the_map_are_no_registers() {
    assert!(!is_register(0));
    assert!(!is_register(GPIOA_BASE - 4));
    assert!(!is_register(GPIOA_BASE + 1));
    assert!(!is_register(GPIOA_BASE + 2));
    assert!(!is_register(GPIOA_BASE + 0x28));
    assert!(!is_register(GPIOA_BASE + 0x3FC));
    assert!(!is_register(GPIO_END));
    assert!(!is_register(RCC_AHB2ENR + 4));
    assert!(!is_register(USART1_CR1 - 4));
    assert!(!is_register(USART1_CR2 + 4));
    assert!(!is_register(USART1_CR1 + 2));
    assert!(!is_register(0xFFFF_FFFC));
}

#[test]
fn fresh_registers_hold_zero() {
    let regs = HostRegisters::new();
    for addr in all_registers() {
        assert_eq!(regs.read(addr), 0);
    }
    assert_eq!(regs.store_count(), 0);
}

#[test]
fn a_store_is_read_back_and_touches_no_other_register() {
    for target in all_registers() {
        if (target >= GPIOA_BASE && target < GPIO_END) && target % GPIO_PORT_STRIDE == BSRR_OFFSET {
            continue;
        }
        let mut regs = HostRegisters::new();
        regs.write(target, 0xDEAD_BEEF);
        for addr in all_registers() {
            let expected = if addr == target { 0xDEAD_BEEF } else { 0 };
            assert_eq!(regs.read(addr), expected);
        }
        assert_eq!(regs.store_count(), 1);
    }
}

#[test]
fn modify_clears_then_sets() {
    let mut regs = HostRegisters::new();
    regs.write(USART1_CR1, 0xFFFF_0000);
    regs.modify(USART1_CR1, 0xF000_000F, 0x0000_0005);
    assert_eq!(regs.read(USART1_CR1), 0x0FFF_0005);
    regs.modify(USART1_CR1, 0, 0);
    assert_eq!(regs.read(USART1_CR1), 0x0FFF_0005);
    regs.modify(USART1_CR1, 0xFFFF_FFFF, 0x1234_5678);
    assert_eq!(regs.read(USART1_CR1), 0x1234_5678);
    assert_eq!(regs.store_count(), 4);
}

#[test]
fn loads_are_not_counted() {
    let mut regs = HostRegisters::new();
    regs.write(RCC_AHB2ENR, 1);
    regs.read(RCC_AHB2ENR);
    regs.read(RCC_APB2ENR);
    assert_eq!(regs.store_count(), 1);
}

#[test]
fn a_set_request_drives_latch_and_input_high() {
    let mut regs = HostRegisters::new();
    let base = GPIOA_BASE + 2 * GPIO_PORT_STRIDE;
    regs.write(base + BSRR_OFFSET, 0x0000_0081);
    assert_eq!(regs.read(base + ODR_OFFSET), 0x0000_0081);
    assert_eq!(regs.read(base + IDR_OFFSET), 0x0000_0081);
    assert_eq!(regs.read(base + BSRR_OFFSET), 0);
    assert_eq!(regs.store_count(), 1);
}

#[test]
fn a_reset_request_drives_latch_and_input_low() {
    let mut regs = HostRegisters::new();
    let base = GPIOA_BASE;
    regs.write(base + BSRR_OFFSET, 0x0000_FFFF);
    regs.write(base + BSRR_OFFSET, 0x0081_0000);
    assert_eq!(regs.read(base + ODR_OFFSET), 0x0000_FF7E);
    assert_eq!(regs.read(base + IDR_OFFSET), 0x0000_FF7E);
}

#[test]
fn set_wins_over_reset() {
    let mut regs = HostRegisters::new();
    let base = GPIOA_BASE + 8 * GPIO_PORT_STRIDE;
    regs.write(base + BSRR_OFFSET, 0x0004_0004);
    assert_eq!(regs.read(base + ODR_OFFSET), 0x0000_0004);
    assert_eq!(regs.read(base + IDR_OFFSET), 0x0000_0004);
}

#[test]
fn a_set_request_touches_no_other_port() {
    let mut regs = HostRegisters::new();
    let base = GPIOA_BASE + 3 * GPIO_PORT_STRIDE;
    regs.write(base + BSRR_OFFSET, 0x0000_8000);
    for addr in all_registers() {
        let expected = if addr == base + ODR_OFFSET || addr == base + IDR_OFFSET {
            0x0000_8000
        } else {
            0
        };
        assert_eq!(regs.read(addr), expected);
    }
}
