use vstd::prelude::*;

verus! {

/// The eight condition bits of the status register.
#[derive(Clone, Copy, Debug, PartialEq, Eq, Structural)]
pub enum Flag {
    Carry,
    Zero,
    InterruptDisable,
    DecimalMode,
    Break,
    Break2,
    Overflow,
    Negative,
}

impl Flag {
    /// The bit that stands for this flag in the status byte.
    pub open spec fn spec_mask(self) -> u8 {
        match self {
            Flag::Carry => 0b0000_0001,
            Flag::Zero => 0b0000_0010,
            Flag::InterruptDisable => 0b0000_0100,
            Flag::DecimalMode => 0b0000_1000,
            Flag::Break => 0b0001_0000,
            Flag::Break2 => 0b0010_0000,
            Flag::Overflow => 0b0100_0000,
            Flag::Negative => 0b1000_0000,
        }
    }

    #[verifier::when_used_as_spec(spec_mask)]
    pub fn mask(self) -> (r: u8)
        ensures
            r == self.spec_mask(),
    {
        match self {
            Flag::Carry => 0b0000_0001,
            Flag::Zero => 0b0000_0010,
            Flag::InterruptDisable => 0b0000_0100,
            Flag::DecimalMode => 0b0000_1000,
            Flag::Break => 0b0001_0000,
            Flag::Break2 => 0b0010_0000,
            Flag::Overflow => 0b0100_0000,
            Flag::Negative => 0b1000_0000,
        }
    }
}

/// The status byte with Zero and Negative recomputed from `result`: Zero is
/// set iff `result` is zero, Negative iff bit 7 of `result` is set, and every
/// other bit of `bits` is kept.
pub open spec fn zn_bits(bits: u8, result: u8) -> u8 {
    (bits & 0b0111_1101) | (if result == 0 {
        0b0000_0010u8
    } else {
        0u8
    }) | (result & 0b1000_0000)
}

/// The processor status: one bit per flag.
#[derive(Clone, Copy, Debug, PartialEq, Eq, Structural)]
pub struct CpuFlags {
    pub bits: u8,
}

proof fn lemma_bit_ops(b: u8, m: u8, n: u8)
    requires
        m == 1 || m == 2 || m == 4 || m == 8 || m == 16 || m == 32 || m == 64 || m == 128,
        n == 1 || n == 2 || n == 4 || n == 8 || n == 16 || n == 32 || n == 64 || n == 128,
    ensures
        (b | m) & m != 0,
        (b & !m) & m == 0,
        m != n ==> (((b | m) & n != 0) <==> (b & n != 0)),
        m != n ==> (((b & !m) & n != 0) <==> (b & n != 0)),
{
    assert((b | m) & m != 0) by (bit_vector)
        requires
            m == 1 || m == 2 || m == 4 || m == 8 || m == 16 || m == 32 || m == 64 || m == 128,
    ;
    assert((b & !m) & m == 0) by (bit_vector);
    assert(m != n ==> (((b | m) & n != 0) <==> (b & n != 0))) by (bit_vector)
        requires
            m == 1 || m == 2 || m == 4 || m == 8 || m == 16 || m == 32 || m == 64 || m == 128,
            n == 1 || n == 2 || n == 4 || n == 8 || n == 16 || n == 32 || n == 64 || n == 128,
    ;
    assert(m != n ==> (((b & !m) & n != 0) <==> (b & n != 0))) by (bit_vector)
        requires
            m == 1 || m == 2 || m == 4 || m == 8 || m == 16 || m == 32 || m == 64 || m == 128,
            n == 1 || n == 2 || n == 4 || n == 8 || n == 16 || n == 32 || n == 64 || n == 128,
    ;
}

/// Zero and Negative as recomputed by `zn_bits`, and the other flags untouched.
pub proof fn lemma_zn_bits(bits: u8, result: u8)
    ensures
        (zn_bits(bits, result) & 0b0000_0010 != 0) == (result == 0),
        (zn_bits(bits, result) & 0b1000_0000 != 0) == (result & 0x80 != 0),
        zn_bits(bits, result) & 0b0111_1101 == bits & 0b0111_1101,
{
    assert((zn_bits(bits, result) & 0b0000_0010 != 0) == (result == 0)) by (bit_vector);
    assert((zn_bits(bits, result) & 0b1000_0000 != 0) == (result & 0x80 != 0)) by (bit_vector);
    assert(zn_bits(bits, result) & 0b0111_1101 == bits & 0b0111_1101) by (bit_vector);
}

impl CpuFlags {
    /// Whether `flag` is set.
    pub open spec fn has(self, flag: Flag) -> bool {
        self.bits & flag.spec_mask() != 0
    }

    /// The flags whose bits are set in `bits`; every bit of a byte names a flag,
    /// so nothing is dropped.
    pub fn from_bits_truncate(bits: u8) -> (r: CpuFlags)
        ensures
            r.bits == bits,
    {
        CpuFlags { bits }
    }

    /// The status byte.
    pub fn bits(&self) -> (r: u8)
        ensures
            r == self.bits,
    {
        self.bits
    }

    pub fn is_set(&self, flag: Flag) -> (r: bool)
        ensures
            r == self.has(flag),
    {
        self.bits & flag.mask() != 0
    }

    /// Sets `flag`, leaving the others as they were.
    pub fn set(&mut self, flag: Flag)
        ensures
            final(self).bits == old(self).bits | flag.spec_mask(),
            final(self).has(flag),
            forall|g: Flag| g != flag ==> final(self).has(g) == old(self).has(g),
    {
        let ghost b = self.bits;
        self.bits = self.bits | flag.mask();
        proof {
            assert forall|g: Flag| g != flag implies self.has(g) == (b & g.spec_mask() != 0) by {
                lemma_bit_ops(b, flag.spec_mask(), g.spec_mask());
            }
            lemma_bit_ops(b, flag.spec_mask(), flag.spec_mask());
        }
    }

    /// Clears `flag`, leaving the others as they were.
    pub fn clear(&mut self, flag: Flag)
        ensures
            final(self).bits == old(self).bits & !flag.spec_mask(),
            !final(self).has(flag),
            forall|g: Flag| g != flag ==> final(self).has(g) == old(self).has(g),
    {
        let ghost b = self.bits;
        self.bits = self.bits & !flag.mask();
        proof {
            assert forall|g: Flag| g != flag implies self.has(g) == (b & g.spec_mask() != 0) by {
                lemma_bit_ops(b, flag.spec_mask(), g.spec_mask());
            }
            lemma_bit_ops(b, flag.spec_mask(), flag.spec_mask());
        }
    }
}

/// The register file: program counter, stack pointer, accumulator, the two
/// index registers and the status flags.
#[derive(Clone, Copy, Debug, PartialEq, Eq, Structural)]
pub struct Register {
    pub program_counter: u16,
    pub pointer: u8,
    pub accumulator: u8,
    pub x: u8,
    pub y: u8,
    pub processor_status: CpuFlags,
}

impl Register {
    /// `self` with Zero and Negative recomputed from `result`.
    pub open spec fn with_zn(self, result: u8) -> Register {
        Register {
            processor_status: CpuFlags { bits: zn_bits(self.processor_status.bits, result) },
            ..self
        }
    }

    /// The power-on state: every register zero, InterruptDisable and Break2 set.
    pub open spec fn new_spec() -> Register {
        Register {
            program_counter: 0,
            pointer: 0,
            accumulator: 0,
            x: 0,
            y: 0,
            processor_status: CpuFlags { bits: 0b0010_0100 },
        }
    }

    pub fn new() -> (r: Register)
        ensures
            r == Register::new_spec(),
    {
        Register {
            program_counter: 0,
            pointer: 0,
            accumulator: 0,
            x: 0,
            y: 0,
            processor_status: CpuFlags::from_bits_truncate(0b0010_0100),
        }
    }

    /// Loads `value` into the accumulator and recomputes Zero and Negative from it.
    pub fn set_accumulator(&mut self, value: u8)
        ensures
            *final(self) == (Register { accumulator: value, ..*old(self) }).with_zn(value),
    {
        self.accumulator = value;
        self.update_zero_and_negative_flags(value);
    }

    pub fn set_carry_flag(&mut self)
        ensures
            final(self).processor_status.bits == old(self).processor_status.bits | Flag::Carry.spec_mask(),
            *final(self) == (Register { processor_status: final(self).processor_status, ..*old(self) }),
    {
        self.processor_status.set(Flag::Carry);
    }

    pub fn clear_carry_flag(&mut self)
        ensures
            final(self).processor_status.bits == old(self).processor_status.bits & !Flag::Carry.spec_mask(),
            *final(self) == (Register { processor_status: final(self).processor_status, ..*old(self) }),
    {
        self.processor_status.clear(Flag::Carry);
    }

    /// Sets Zero iff `result` is zero and Negative iff bit 7 of `result` is set;
    /// no other flag or register changes.
    pub fn update_zero_and_negative_flags(&mut self, result: u8)
        ensures
            *final(self) == old(self).with_zn(result),
            final(self).processor_status.has(Flag::Zero) == (result == 0),
            final(self).processor_status.has(Flag::Negative) == (result & 0x80 != 0),
            forall|g: Flag|
                g != Flag::Zero && g != Flag::Negative ==> final(self).processor_status.has(g)
                    == old(self).processor_status.has(g),
    {
        let ghost b = self.processor_status.bits;
        if result == 0 {
            self.processor_status.set(Flag::Zero);
        } else {
            self.processor_status.clear(Flag::Zero);
        }
        if result & 0b1000_0000 != 0 {
            self.processor_status.set(Flag::Negative);
        } else {
            self.processor_status.clear(Flag::Negative);
        }
        proof {
            let nb = self.processor_status.bits;
            lemma_zn_bits(b, result);
            assert(nb == zn_bits(b, result)) by (bit_vector)
                requires
                    nb == if result & 0b1000_0000 != 0 {
                        (if result == 0 { b | 2 } else { b & !2u8 }) | 128
                    } else {
                        (if result == 0 { b | 2 } else { b & !2u8 }) & !128u8
                    },
            ;
        }
    }
}

} // verus!
