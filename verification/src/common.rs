use vstd::prelude::*;

verus! {

/// A 32-bit machine word, as seen on the buses and in the registers of the core.
pub type Word = u32;

/// One more than the largest value of a 32-bit word.
pub open spec fn word_modulus() -> int {
    0x1_0000_0000
}

/// Wrapping 32-bit addition, as done by the address arithmetic of the core.
pub open spec fn wrap_add(a: u32, b: int) -> u32 {
    ((a as int + b) % word_modulus()) as u32
}

/// Wrapping 32-bit addition.
pub fn word_add(a: Word, b: Word) -> (r: Word)
    ensures
        r == wrap_add(a, b as int),
{
    let r = a.wrapping_add(b);
    assert(r == wrap_add(a, b as int)) by {
        if a as int + b as int >= word_modulus() {
            vstd::arithmetic::div_mod::lemma_fundamental_div_mod_converse(
                a as int + b as int, word_modulus(), 1, a as int + b as int - word_modulus());
        } else {
            vstd::arithmetic::div_mod::lemma_small_mod((a as int + b as int) as nat, word_modulus() as nat);
        }
    }
    r
}

/// Wrapping 32-bit subtraction.
pub fn word_sub(a: Word, b: Word) -> (r: Word)
    ensures
        r == wrap_add(a, -(b as int)),
{
    let r = a.wrapping_sub(b);
    assert(r == wrap_add(a, -(b as int))) by {
        if (a as int) - (b as int) < 0 {
            vstd::arithmetic::div_mod::lemma_fundamental_div_mod_converse(
                a as int - b as int, word_modulus(), -1, a as int - b as int + word_modulus());
        } else {
            vstd::arithmetic::div_mod::lemma_small_mod((a as int - b as int) as nat, word_modulus() as nat);
        }
    }
    r
}

/// A byte address on the 32-bit system bus.
#[derive(Clone, Copy, PartialEq, Eq, Structural, Debug)]
pub struct Address(pub u32);

impl Address {
    /// The address `by` bytes further, wrapping around the 32-bit address space.
    pub open spec fn plus(self, by: int) -> Address {
        Address(wrap_add(self.0, by))
    }

    /// The address with the given numeric value.
    pub fn from_const(value: u32) -> (r: Address)
        ensures
            r.0 == value,
    {
        Address(value)
    }

    /// The numeric value of the address.
    pub fn to_word(self) -> (r: Word)
        ensures
            r == self.0,
    {
        self.0
    }

    /// The address `by` bytes further, wrapping around the 32-bit address space.
    pub fn offset(self, by: u32) -> (r: Address)
        ensures
            r == self.plus(by as int),
    {
        Address(word_add(self.0, by))
    }

    /// Whether the address is a multiple of 4.
    pub fn is_aligned_to_4_bytes(self) -> (r: bool)
        ensures
            r == (self.0 % 4 == 0),
    {
        self.0 % 4 == 0
    }

    /// The greatest multiple of 4 that is not above the address.
    pub fn aligned_down_to_4_bytes(self) -> (r: Address)
        ensures
            r.0 == self.0 - self.0 % 4,
    {
        Address(self.0 - self.0 % 4)
    }

    /// The greatest multiple of 2 that is not above the address.
    pub fn aligned_down_to_2_bytes(self) -> (r: Address)
        ensures
            r.0 == self.0 - self.0 % 2,
    {
        Address(self.0 - self.0 % 2)
    }
}

impl From<u32> for Address {
    fn from(value: u32) -> (r: Address) {
        Address(value)
    }
}

impl vstd::std_specs::convert::FromSpecImpl<u32> for Address {
    open spec fn obeys_from_spec() -> bool {
        true
    }

    open spec fn from_spec(v: u32) -> Address {
        Address(v)
    }
}

/// Two consecutive offsets add up, modulo the size of the address space.
pub proof fn lemma_plus_plus(a: Address, x: int, y: int)
    ensures
        a.plus(x).plus(y) == a.plus(x + y),
{
    let m = word_modulus();
    let s = a.0 as int + x;
    vstd::arithmetic::div_mod::lemma_add_mod_noop(s, y, m);
    vstd::arithmetic::div_mod::lemma_mod_twice(y, m);
    vstd::arithmetic::div_mod::lemma_add_mod_noop(s % m, y, m);
}

} // verus!
