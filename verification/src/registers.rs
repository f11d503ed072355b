//! The register file: which addresses hold a register, how the hardware answers
//! a store, and the interface through which every other module reaches it.
//!
//! A register file is described by the word that each register holds and by
//! the steps that have changed it, oldest first. The contracts of this
//! library say of every operation which steps it makes: a plain store where
//! the hardware asks for one, an indivisible masked update everywhere else,
//! and no step at all where a request is refused.

use vstd::prelude::*;

verus! {

/// Base address of the register block of port A; the blocks of the other
/// ports follow at a fixed stride.
pub const GPIOA_BASE: u32 = 0x4800_0000;

/// Distance between the register blocks of two neighbouring ports.
pub const GPIO_PORT_STRIDE: u32 = 0x400;

/// First address behind the register block of the last port.
pub const GPIO_END: u32 = 0x4800_2400;

/// Offset of the mode register: two bits for every pin.
pub const MODER_OFFSET: u32 = 0x00;

/// Offset of the output type register: one bit for every pin.
pub const OTYPER_OFFSET: u32 = 0x04;

/// Offset of the output speed register: two bits for every pin.
pub const OSPEEDR_OFFSET: u32 = 0x08;

/// Offset of the pull resistor register: two bits for every pin.
pub const PUPDR_OFFSET: u32 = 0x0C;

/// Offset of the input data register: the level of every pin.
pub const IDR_OFFSET: u32 = 0x10;

/// Offset of the output data register: the latch of every pin.
pub const ODR_OFFSET: u32 = 0x14;

/// Offset of the set/reset register: a store drives the pins it names.
pub const BSRR_OFFSET: u32 = 0x18;

/// Offset of the configuration lock register.
pub const LCKR_OFFSET: u32 = 0x1C;

/// Offset of the low alternate function register: four bits for each of
/// the pins 0 to 7.
pub const AFRL_OFFSET: u32 = 0x20;

/// Offset of the high alternate function register: four bits for each of
/// the pins 8 to 15.
pub const AFRH_OFFSET: u32 = 0x24;

/// Clock enable register of the bus that carries the ports.
pub const RCC_AHB2ENR: u32 = 0x4002_104C;

/// Clock enable register of the bus that carries the first serial device.
pub const RCC_APB2ENR: u32 = 0x4002_1060;

/// First control register of the first serial device: parity and word
/// length among others.
pub const USART1_CR1: u32 = 0x4001_3800;

/// Second control register of the first serial device: the stop bits among
/// others.
pub const USART1_CR2: u32 = 0x4001_3804;

/// Number of registers that the register file knows.
pub const REGISTER_COUNT: usize = 94;

/// `addr` is a register of one of the nine ports.
pub open spec fn is_gpio_register(addr: u32) -> bool {
    &&& GPIOA_BASE <= addr < GPIO_END
    &&& (addr - GPIOA_BASE) % (GPIO_PORT_STRIDE as int) <= AFRH_OFFSET
    &&& addr % 4 == 0
}

/// `addr` is the set/reset register of one of the nine ports.
pub open spec fn is_set_reset_register(addr: u32) -> bool {
    is_gpio_register(addr) && (addr - GPIOA_BASE) % (GPIO_PORT_STRIDE as int) == BSRR_OFFSET
}

/// `addr` is one of the registers that this library reads or writes.
pub open spec fn spec_is_register(addr: u32) -> bool {
    is_gpio_register(addr) || addr == RCC_AHB2ENR || addr == RCC_APB2ENR || addr == USART1_CR1
        || addr == USART1_CR2
}

/// Whether `addr` is one of the registers that this library reads or writes.
#[verifier::when_used_as_spec(spec_is_register)]
pub fn is_register(addr: u32) -> (known: bool)
    ensures
        known == spec_is_register(addr),
{
    if addr == RCC_AHB2ENR || addr == RCC_APB2ENR || addr == USART1_CR1 || addr == USART1_CR2 {
        true
    } else if addr >= GPIOA_BASE && addr < GPIO_END {
        (addr - GPIOA_BASE) % GPIO_PORT_STRIDE <= AFRH_OFFSET && addr % 4 == 0
    } else {
        false
    }
}

/// Pin levels after a set/reset `request`: a bit in the low half drives its
/// pin high, a bit in the high half drives the pin sixteen places below it
/// low, and where both are given the pin goes high.
pub open spec fn driven(levels: u32, request: u32) -> u32 {
    (levels & !(request >> 16)) | (request & 0xFFFF)
}

/// The register file after `value` has been stored at `addr`.
///
/// A store to a set/reset register keeps nothing in that register: it drives
/// the named pins, and both the output latch and the input data of the port
/// follow. A store to any other register replaces its word.
pub open spec fn written(state: Map<u32, u32>, addr: u32, value: u32) -> Map<u32, u32> {
    if is_set_reset_register(addr) {
        let odr = (addr - (BSRR_OFFSET - ODR_OFFSET)) as u32;
        let idr = (addr - (BSRR_OFFSET - IDR_OFFSET)) as u32;
        state.insert(odr, driven(state[odr], value)).insert(idr, driven(state[idr], value))
    } else {
        state.insert(addr, value)
    }
}

/// One step that changes the register file.
pub enum Store {
    /// A plain store of `value` at `addr`.
    Write { addr: u32, value: u32 },
    /// An indivisible update of the word at `addr`: the bits of `clear` are
    /// cleared and the bits of `set` are set.
    Modify { addr: u32, clear: u32, set: u32 },
}

impl Store {
    /// The register that the step goes to.
    pub open spec fn addr(self) -> u32 {
        match self {
            Store::Write { addr, .. } => addr,
            Store::Modify { addr, .. } => addr,
        }
    }
}

/// The register file after one step.
pub open spec fn applied(state: Map<u32, u32>, store: Store) -> Map<u32, u32> {
    match store {
        Store::Write { addr, value } => written(state, addr, value),
        Store::Modify { addr, clear, set } => written(state, addr, (state[addr] & !clear) | set),
    }
}

/// The register file after the steps of `stores`, first to last.
pub open spec fn replayed(state: Map<u32, u32>, stores: Seq<Store>) -> Map<u32, u32>
    decreases stores.len(),
{
    if stores.len() == 0 {
        state
    } else {
        applied(replayed(state, stores.drop_last()), stores.last())
    }
}

/// No step leaves the register file as it is, and a single step leaves
/// what it writes.
pub proof fn lemma_replayed_one(state: Map<u32, u32>, store: Store)
    ensures
        replayed(state, Seq::empty()) == state,
        replayed(state, seq![store]) == applied(state, store),
{
    assert(seq![store].drop_last() =~= Seq::<Store>::empty());
    assert(replayed(state, seq![store].drop_last()) == state);
}

/// One more step is applied to what the steps before it left.
pub proof fn lemma_replayed_push(state: Map<u32, u32>, stores: Seq<Store>, store: Store)
    ensures
        replayed(state, stores.push(store)) == applied(replayed(state, stores), store),
{
    assert(stores.push(store).drop_last() =~= stores);
}

/// Steps made one after the other are the steps of the whole.
pub proof fn lemma_replayed_in_turn(state: Map<u32, u32>, first: Seq<Store>, second: Seq<Store>)
    ensures
        replayed(state, first + second) == replayed(replayed(state, first), second),
    decreases second.len(),
{
    if second.len() == 0 {
        assert(first + second =~= first);
    } else {
        assert((first + second).drop_last() =~= first + second.drop_last());
        assert((first + second).last() == second.last());
        lemma_replayed_in_turn(state, first, second.drop_last());
    }
}

/// Steps that go to other registers leave a register as it is.
pub proof fn lemma_replayed_elsewhere(state: Map<u32, u32>, stores: Seq<Store>, addr: u32)
    requires
        forall|i: int|
            0 <= i < stores.len() ==> (#[trigger] stores[i]).addr() != addr
                && !is_set_reset_register(stores[i].addr()),
    ensures
        replayed(state, stores)[addr] == state[addr],
    decreases stores.len(),
{
    if stores.len() > 0 {
        lemma_replayed_elsewhere(state, stores.drop_last(), addr);
        assert(stores.last() == stores[stores.len() - 1]);
    }
}

/// Fixed-address, fixed-width storage cells with load, store and an
/// indivisible masked update.
///
/// The contracts describe a register file that only its holder changes: what
/// a load returns is what the last store left. An implementation over real
/// hardware owes its callers the same, and must perform `modify` as one step
/// that no interrupt can split.
pub trait RegisterFile {
    /// The word that each register holds. Where an implementation does not
    /// say what it holds, nothing is known of it.
    open spec fn view(&self) -> Map<u32, u32> {
        arbitrary()
    }

    /// Every step that has changed the register file, oldest first. Where an
    /// implementation does not say which these were, nothing is known of
    /// them.
    open spec fn stores(&self) -> Seq<Store> {
        arbitrary()
    }

    /// Loads the word at `addr`.
    fn read(&self, addr: u32) -> (value: u32)
        requires
            is_register(addr),
        ensures
            value == self@[addr],
    ;

    /// Stores `value` at `addr`.
    fn write(&mut self, addr: u32, value: u32)
        requires
            is_register(addr),
        ensures
            final(self)@ == applied(old(self)@, (Store::Write { addr, value })),
            final(self).stores() == old(self).stores().push((Store::Write { addr, value })),
    ;

    /// Clears the bits of `clear` and sets the bits of `set` in the word at
    /// `addr`, as one step.
    fn modify(&mut self, addr: u32, clear: u32, set: u32)
        requires
            is_register(addr),
        ensures
            final(self)@ == applied(old(self)@, (Store::Modify { addr, clear, set })),
            final(self).stores() == old(self).stores().push((Store::Modify { addr, clear, set })),
    ;
}

/// Place of a register among the cells of [`HostRegisters`]: ten for each
/// port, and one for each of the other registers behind them.
spec fn spec_slot(addr: u32) -> int {
    if addr == RCC_AHB2ENR {
        90
    } else if addr == RCC_APB2ENR {
        91
    } else if addr == USART1_CR1 {
        92
    } else if addr == USART1_CR2 {
        93
    } else {
        ((addr - GPIOA_BASE) / (GPIO_PORT_STRIDE as int)) * 10 + ((addr - GPIOA_BASE) % (
        GPIO_PORT_STRIDE as int)) / 4
    }
}

/// No two registers share a cell.
proof fn lemma_slot_injective(a: u32, b: u32)
    requires
        is_register(a),
        is_register(b),
    ensures
        spec_slot(a) == spec_slot(b) ==> a == b,
        0 <= spec_slot(a) < REGISTER_COUNT,
{
}

/// A register file held in ordinary memory, for use where there is no
/// hardware: every register starts at zero, and the steps that change it
/// are counted.
pub struct HostRegisters {
    cells: [u32; REGISTER_COUNT],
    count: u64,
    made: Ghost<Seq<Store>>,
}

/// The number of steps as the counter shows it: it stops at the largest
/// number that fits.
pub open spec fn counted(steps: nat) -> u64 {
    if steps < u64::MAX {
        steps as u64
    } else {
        u64::MAX
    }
}

impl HostRegisters {
    /// The counter is in step with what was made.
    #[verifier::type_invariant]
    spec fn counts_every_store(&self) -> bool {
        self.count == counted(self.made@.len())
    }

    /// A register file in which every register holds zero and nothing has
    /// been stored yet.
    pub fn new() -> (regs: Self)
        ensures
            regs@ == Map::new(|a: u32| is_register(a), |a: u32| 0u32),
            regs.stores() == Seq::<Store>::empty(),
    {
        let regs = HostRegisters {
            cells: [0u32; REGISTER_COUNT],
            count: 0,
            made: Ghost(Seq::empty()),
        };
        assert(regs@ =~= Map::new(|a: u32| is_register(a), |a: u32| 0u32)) by {
            assert forall|a: u32| is_register(a) implies #[trigger] regs@[a] == 0 by {
                lemma_slot_injective(a, a);
            }
        }
        regs
    }

    /// Number of steps that have changed the register file so far.
    pub fn store_count(&self) -> (n: u64)
        ensures
            n == counted(self.stores().len()),
    {
        proof {
            use_type_invariant(self);
        }
        self.count
    }

    fn slot(addr: u32) -> (i: usize)
        requires
            is_register(addr),
        ensures
            i == spec_slot(addr),
            i < REGISTER_COUNT,
    {
        if addr == RCC_AHB2ENR {
            90
        } else if addr == RCC_APB2ENR {
            91
        } else if addr == USART1_CR1 {
            92
        } else if addr == USART1_CR2 {
            93
        } else {
            let rel: u32 = addr - GPIOA_BASE;
            ((rel / GPIO_PORT_STRIDE) * 10 + (rel % GPIO_PORT_STRIDE) / 4) as usize
        }
    }

    fn drives_pins(addr: u32) -> (drives: bool)
        ensures
            drives == is_set_reset_register(addr),
    {
        addr >= GPIOA_BASE && addr < GPIO_END && (addr - GPIOA_BASE) % GPIO_PORT_STRIDE
            == BSRR_OFFSET
    }

}

impl HostRegisters {
    /// Puts `value` where a store at `addr` puts it, and records `step` as
    /// the step that did so.
    fn put(&mut self, addr: u32, value: u32, step: Ghost<Store>)
        requires
            is_register(addr),
        ensures
            final(self)@ == written(old(self)@, addr, value),
            final(self).stores() == old(self).stores().push(step@),
    {
        proof {
            use_type_invariant(&*self);
        }
        let mut cells = self.cells;
        if Self::drives_pins(addr) {
            let odr: usize = Self::slot(addr - (BSRR_OFFSET - ODR_OFFSET));
            let idr: usize = Self::slot(addr - (BSRR_OFFSET - IDR_OFFSET));
            cells[odr] = (cells[odr] & !(value >> 16)) | (value & 0xFFFF);
            cells[idr] = (cells[idr] & !(value >> 16)) | (value & 0xFFFF);
        } else {
            let i: usize = Self::slot(addr);
            cells[i] = value;
        }
        let count: u64 = if self.count < u64::MAX {
            self.count + 1
        } else {
            self.count
        };
        let ghost made = self.made@.push(step@);
        *self = HostRegisters { cells, count, made: Ghost(made) };
        proof {
            let goal = written(old(self)@, addr, value);
            assert forall|a: u32| is_register(a) implies #[trigger] self@[a] == goal[a] by {
                if is_set_reset_register(addr) {
                    lemma_slot_injective(a, (addr - (BSRR_OFFSET - ODR_OFFSET)) as u32);
                    lemma_slot_injective(a, (addr - (BSRR_OFFSET - IDR_OFFSET)) as u32);
                } else {
                    lemma_slot_injective(a, addr);
                }
            }
            assert(self@ =~= goal);
        }
    }
}

impl RegisterFile for HostRegisters {
    closed spec fn view(&self) -> Map<u32, u32> {
        Map::new(|a: u32| is_register(a), |a: u32| self.cells@[spec_slot(a)])
    }

    closed spec fn stores(&self) -> Seq<Store> {
        self.made@
    }

    fn read(&self, addr: u32) -> (value: u32) {
        self.cells[Self::slot(addr)]
    }

    fn write(&mut self, addr: u32, value: u32) {
        self.put(addr, value, Ghost(Store::Write { addr, value }));
    }

    fn modify(&mut self, addr: u32, clear: u32, set: u32) {
        let word: u32 = self.read(addr);
        self.put(addr, (word & !clear) | set, Ghost(Store::Modify { addr, clear, set }));
    }
}

} // verus!
