//! The ownership arbiter: one bit for every pin and every serial device, set
//! while somebody holds the resource.
//!
//! Every operation takes the arbiter by exclusive reference, so no two of
//! them can overlap: each is one indivisible test-and-set or clear. Where an
//! interrupt can reach the arbiter, its holder must keep it behind a lock.

use vstd::prelude::*;
use crate::gpio::{Pin, Port, lemma_base_addresses_distinct, lemma_pin_indices_distinct};

verus! {

/// The serial devices of the microcontroller.
#[derive(Clone, Copy, PartialEq, Eq, Debug, Structural)]
pub enum SerialDevice {
    Usart1,
    Usart2,
    Usart3,
    Uart4,
    Uart5,
    Lpuart1,
}

/// Something that at most one owner may hold at a time.
#[derive(Clone, Copy, PartialEq, Eq, Debug, Structural)]
pub enum Resource {
    Pin(Port, Pin),
    Device(SerialDevice),
}

/// How an attempt to acquire a resource ended.
#[derive(Clone, Copy, PartialEq, Eq, Debug, Structural)]
pub enum Acquisition {
    /// The resource was free and now belongs to the caller.
    Acquired,
    /// Somebody holds the resource; nothing has changed.
    Conflict,
}

/// Outcome of an attempt to acquire `resource` while `held` is taken.
pub open spec fn acquisition(held: Set<Resource>, resource: Resource) -> Acquisition {
    if held.contains(resource) {
        Acquisition::Conflict
    } else {
        Acquisition::Acquired
    }
}

/// What is taken after an attempt to acquire `resource`.
pub open spec fn after_acquire(held: Set<Resource>, resource: Resource) -> Set<Resource> {
    held.insert(resource)
}

/// What is taken after `resource` has been released.
pub open spec fn after_release(held: Set<Resource>, resource: Resource) -> Set<Resource> {
    held.remove(resource)
}

/// Bit number `bit` of `word` is set.
spec fn bit_is_set(word: u16, bit: u16) -> bool {
    word & (1u16 << bit) != 0
}

/// One step of the test-and-set by which a bit is claimed: the word to store
/// if none of the bits of `mask` is set in `word`, and nothing if one is.
pub fn claim(word: u16, mask: u16) -> (next: Option<u16>)
    ensures
        next == (if word & mask != 0 {
            None
        } else {
            Some(word | mask)
        }),
{
    if word & mask != 0 {
        None
    } else {
        Some(word | mask)
    }
}

/// The word to store when the bits of `mask` are given back.
pub fn relinquish(word: u16, mask: u16) -> (next: u16)
    ensures
        next == word & !mask,
{
    word & !mask
}

proof fn lemma_one_bit(word: u16, i: u16, j: u16)
    by (bit_vector)
    requires
        i < 16,
        j < 16,
    ensures
        bit_is_set(word | (1u16 << i), j) == (i == j || bit_is_set(word, j)),
        bit_is_set(word & !(1u16 << i), j) == (i != j && bit_is_set(word, j)),
        !bit_is_set(0, j),
{
}

impl SerialDevice {
    /// Number of the device's bit among the device bits.
    pub open spec fn spec_index(self) -> u16 {
        match self {
            SerialDevice::Usart1 => 0,
            SerialDevice::Usart2 => 1,
            SerialDevice::Usart3 => 2,
            SerialDevice::Uart4 => 3,
            SerialDevice::Uart5 => 4,
            SerialDevice::Lpuart1 => 5,
        }
    }

    /// Number of the device's bit among the device bits.
    #[verifier::when_used_as_spec(spec_index)]
    pub fn index(self) -> (i: u16)
        ensures
            i == self.spec_index(),
            i < 6,
    {
        match self {
            SerialDevice::Usart1 => 0,
            SerialDevice::Usart2 => 1,
            SerialDevice::Usart3 => 2,
            SerialDevice::Uart4 => 3,
            SerialDevice::Uart5 => 4,
            SerialDevice::Lpuart1 => 5,
        }
    }
}

impl Resource {
    /// The word of the bitmap that holds the resource's bit: one word for
    /// each port, and one more for the devices.
    spec fn spec_word(self) -> int {
        match self {
            Resource::Pin(port, _) => port.index() as int,
            Resource::Device(_) => 9,
        }
    }

    /// The number of the resource's bit within its word.
    spec fn spec_bit(self) -> u16 {
        match self {
            Resource::Pin(_, pin) => pin.index() as u16,
            Resource::Device(device) => device.index(),
        }
    }

    fn word(self) -> (w: usize)
        ensures
            w == self.spec_word(),
            w < 10,
    {
        match self {
            Resource::Pin(port, _) => port.index() as usize,
            Resource::Device(_) => 9,
        }
    }

    fn mask(self) -> (m: u16)
        ensures
            m == 1u16 << self.spec_bit(),
            self.spec_bit() < 16,
    {
        let bit: u16 = match self {
            Resource::Pin(_, pin) => pin.index() as u16,
            Resource::Device(device) => device.index(),
        };
        1u16 << bit
    }
}

/// No two resources share a bit.
proof fn lemma_resource_bits_distinct(a: Resource, b: Resource)
    ensures
        a.spec_word() == b.spec_word() && a.spec_bit() == b.spec_bit() ==> a == b,
        0 <= a.spec_word() < 10,
        a.spec_bit() < 16,
{
    match (a, b) {
        (Resource::Pin(p, i), Resource::Pin(q, j)) => {
            lemma_base_addresses_distinct(p, q);
            lemma_pin_indices_distinct(i, j);
        },
        _ => {},
    }
}

/// The registry of what is taken. All handles of one program must come from
/// one arbiter: a second one knows nothing of what the first has given out.
pub struct Arbiter {
    words: [u16; 10],
}

impl Arbiter {
    /// The resources that are taken.
    pub closed spec fn view(&self) -> Set<Resource> {
        Set::new(|r: Resource| bit_is_set(self.words@[r.spec_word()], r.spec_bit()))
    }

    /// An arbiter with every resource free.
    pub fn new() -> (arbiter: Self)
        ensures
            arbiter@ == Set::<Resource>::empty(),
    {
        let arbiter = Arbiter { words: [0u16; 10] };
        proof {
            assert forall|r: Resource| !arbiter@.contains(r) by {
                lemma_resource_bits_distinct(r, r);
                lemma_one_bit(0, 0, r.spec_bit());
            }
            assert(arbiter@ =~= Set::<Resource>::empty());
        }
        arbiter
    }

    /// Takes `resource` if it is free, and changes nothing if it is not.
    pub fn try_acquire(&mut self, resource: Resource) -> (outcome: Acquisition)
        ensures
            outcome == acquisition(old(self)@, resource),
            final(self)@ == after_acquire(old(self)@, resource),
            outcome == Acquisition::Conflict ==> *final(self) == *old(self),
    {
        let w: usize = resource.word();
        let mask: u16 = resource.mask();
        let word: u16 = self.words[w];
        match claim(word, mask) {
            Some(next) => {
                self.words[w] = next;
                proof {
                    assert forall|r: Resource|
                        self@.contains(r) == old(self)@.insert(resource).contains(r) by {
                        lemma_resource_bits_distinct(r, resource);
                        lemma_one_bit(word, resource.spec_bit(), r.spec_bit());
                    }
                    assert(self@ =~= old(self)@.insert(resource));
                }
                Acquisition::Acquired
            },
            None => {
                assert(self@ =~= old(self)@.insert(resource));
                Acquisition::Conflict
            },
        }
    }

    /// Gives `resource` back. Releasing what is free changes nothing.
    pub fn release(&mut self, resource: Resource)
        ensures
            final(self)@ == after_release(old(self)@, resource),
    {
        let w: usize = resource.word();
        let mask: u16 = resource.mask();
        let word: u16 = self.words[w];
        self.words[w] = relinquish(word, mask);
        proof {
            assert forall|r: Resource|
                self@.contains(r) == old(self)@.remove(resource).contains(r) by {
                lemma_resource_bits_distinct(r, resource);
                lemma_one_bit(word, resource.spec_bit(), r.spec_bit());
            }
            assert(self@ =~= old(self)@.remove(resource));
        }
    }

    /// Whether `resource` is taken.
    pub fn is_held(&self, resource: Resource) -> (held: bool)
        ensures
            held == self@.contains(resource),
    {
        let w: usize = resource.word();
        let mask: u16 = resource.mask();
        self.words[w] & mask != 0
    }
}

/// A free resource can be acquired once; until it is released every further
/// attempt meets a conflict; and after its release it can be acquired again,
/// from the same state as before.
pub proof fn lemma_acquire_release_cycle(held: Set<Resource>, resource: Resource)
    requires
        !held.contains(resource),
    ensures
        acquisition(held, resource) == Acquisition::Acquired,
        acquisition(after_acquire(held, resource), resource) == Acquisition::Conflict,
        after_acquire(after_acquire(held, resource), resource) == after_acquire(held, resource),
        after_release(after_acquire(held, resource), resource) == held,
        acquisition(after_release(after_acquire(held, resource), resource), resource)
            == Acquisition::Acquired,
{
    assert(after_acquire(after_acquire(held, resource), resource) =~= after_acquire(
        held,
        resource,
    ));
    assert(after_release(after_acquire(held, resource), resource) =~= held);
}

/// Of two attempts to acquire one free resource, whichever comes first wins
/// and the other meets a conflict: never both, never neither.
pub proof fn lemma_one_winner(held: Set<Resource>, resource: Resource)
    requires
        !held.contains(resource),
    ensures
        ({
            let first = acquisition(held, resource);
            let second = acquisition(after_acquire(held, resource), resource);
            first == Acquisition::Acquired && second == Acquisition::Conflict
        }),
{
}

/// Acquiring or releasing one resource leaves every other as it was.
pub proof fn lemma_others_untouched(held: Set<Resource>, resource: Resource, other: Resource)
    requires
        other != resource,
    ensures
        after_acquire(held, resource).contains(other) == held.contains(other),
        after_release(held, resource).contains(other) == held.contains(other),
{
}

} // verus!
