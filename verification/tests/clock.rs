use stm32_nucleo_l4r5zi::clock::{enable_gpio_clocks, GPIO_CLOCK_ENABLE};
use stm32_nucleo_l4r5zi::registers::{HostRegisters, RegisterFile, RCC_AHB2ENR, RCC_APB2ENR};

#[test]
fn the_clocks_of_all_nine_ports_are_switched_on() {
    let mut regs = HostRegisters::new();
    enable_gpio_clocks(&mut regs);
    assert_eq!(GPIO_CLOCK_ENABLE, 0x0000_01FF);
    assert_eq!(regs.read(RCC_AHB2ENR), 0x0000_01FF);
    assert_eq!(regs.read(RCC_APB2ENR), 0);
    assert_eq!(regs.store_count(), 1);
}

#[test]
fn the_other_clocks_stay_as_they_were() {
    let mut regs = HostRegisters::new();
    regs.write(RCC_AHB2ENR, 0x0005_2004);
    enable_gpio_clocks(&mut regs);
    assert_eq!(regs.read(RCC_AHB2ENR), 0x0005_21FF);
    enable_gpio_clocks(&mut regs);
    assert_eq!(regs.read(RCC_AHB2ENR), 0x0005_21FF);
}
