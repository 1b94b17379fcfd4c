use vstd::prelude::*;

use crate::error::CpuError;

verus! {

/// Number of addressable bytes.
pub const MEMORY_SIZE: usize = 0x10000;

/// Address at which program images are placed.
pub const PROGRAM_BASE: u16 = 0x8000;

/// The address following `addr`, wrapping at the top of the address space.
pub open spec fn next_addr(addr: u16) -> u16 {
    addr.wrapping_add(1)
}

/// The little-endian word stored at `addr` and the address after it.
pub open spec fn word_at(mem: Seq<u8>, addr: u16) -> u16 {
    (mem[addr as int] as int + 256 * mem[next_addr(addr) as int] as int) as u16
}

/// `mem` after storing `w` little-endian at `addr` and the address after it.
pub open spec fn with_word(mem: Seq<u8>, addr: u16, w: u16) -> Seq<u8> {
    mem.update(addr as int, (w % 256) as u8).update(next_addr(addr) as int, (w / 256) as u8)
}

/// `mem` with `image` copied in from `base` on.
pub open spec fn with_image(mem: Seq<u8>, image: Seq<u8>, base: int) -> Seq<u8> {
    Seq::new(
        mem.len(),
        |i: int|
            if base <= i < base + image.len() {
                image[i - base]
            } else {
                mem[i]
            },
    )
}

/// Whether an image of `len` bytes fits from the program base to the end of memory.
pub open spec fn image_fits(len: nat) -> bool {
    PROGRAM_BASE as int + len <= MEMORY_SIZE as int
}

/// The 64K byte-addressable memory of the machine.
pub struct Memory {
    cells: [u8; 0x10000],
}

impl View for Memory {
    type V = Seq<u8>;

    closed spec fn view(&self) -> Seq<u8> {
        self.cells@
    }
}

pub(crate) proof fn lemma_combine_bytes(lo: u8, hi: u8)
    ensures
        ((hi as u16) << 8u16) | (lo as u16) == (lo as int + 256 * hi as int) as u16,
        lo as int + 256 * hi as int <= 0xFFFF,
{
    assert(((hi as u16) << 8u16) | (lo as u16) == (lo as u16) + (hi as u16) * 256u16) by (bit_vector);
    assert(lo as int + 256 * hi as int <= 0xFFFF) by (nonlinear_arith);
}

proof fn lemma_split_word(w: u16)
    ensures
        (w & 0xff) as u8 == (w % 256) as u8,
        (w >> 8u16) as u8 == (w / 256) as u8,
{
    assert((w & 0xff) == w % 256) by (bit_vector);
    assert((w >> 8u16) == w / 256) by (bit_vector);
}

impl Memory {
    /// A memory whose cells all hold zero.
    pub fn new() -> (r: Memory)
        ensures
            r@ == Seq::new(MEMORY_SIZE as nat, |i: int| 0u8),
    {
        let r = Memory { cells: [0u8; 0x10000] };
        assert(r@ =~= Seq::new(MEMORY_SIZE as nat, |i: int| 0u8));
        r
    }

    /// Copies `program` into memory from the program base on. An image that
    /// would run past the end of the address space is refused before any cell
    /// is written.
    pub fn load_program(&mut self, program: Vec<u8>) -> (r: Result<(), CpuError>)
        ensures
            image_fits(program@.len()) ==> r is Ok && final(self)@ == with_image(
                old(self)@,
                program@,
                PROGRAM_BASE as int,
            ),
            !image_fits(program@.len()) ==> r == Err::<(), CpuError>(
                CpuError::ImageOverflow { len: program.len() },
            ) && final(self)@ == old(self)@,
    {
        let len = program.len();
        if len > MEMORY_SIZE - PROGRAM_BASE as usize {
            return Err(CpuError::ImageOverflow { len });
        }
        let ghost before = self@;
        let base: usize = PROGRAM_BASE as usize;
        let mut i: usize = 0;
        while i < len
            invariant
                len == program@.len(),
                base == PROGRAM_BASE,
                base + len <= MEMORY_SIZE,
                i <= len,
                self@.len() == MEMORY_SIZE,
                forall|j: int|
                    0 <= j < MEMORY_SIZE ==> #[trigger] self@[j] == if base <= j < base + i {
                        program@[j - base]
                    } else {
                        before[j]
                    },
            decreases len - i,
        {
            self.cells[base + i] = program[i];
            i = i + 1;
        }
        assert(self@ =~= with_image(before, program@, PROGRAM_BASE as int));
        Ok(())
    }

    /// The byte stored at `address`.
    pub fn read(&self, address: u16) -> (r: u8)
        ensures
            r == self@[address as int],
    {
        self.cells[address as usize]
    }

    /// Stores `data` at `address`, leaving every other cell as it was.
    pub fn write(&mut self, address: u16, data: u8)
        ensures
            final(self)@ == old(self)@.update(address as int, data),
    {
        self.cells[address as usize] = data;
    }

    /// The little-endian word at `pos`; the high byte comes from the next
    /// address, which wraps from 0xFFFF to 0x0000.
    pub fn read_u16(&self, pos: u16) -> (r: u16)
        ensures
            r == word_at(self@, pos),
    {
        let lo = self.read(pos);
        let hi = self.read(pos.wrapping_add(1));
        proof {
            lemma_combine_bytes(lo, hi);
        }
        ((hi as u16) << 8u16) | (lo as u16)
    }

    /// Stores `data` little-endian at `pos`: low byte at `pos`, high byte at
    /// the next address.
    pub fn write_u16(&mut self, pos: u16, data: u16)
        ensures
            final(self)@ == with_word(old(self)@, pos, data),
    {
        let hi = (data >> 8u16) as u8;
        let lo = (data & 0xff) as u8;
        proof {
            lemma_split_word(data);
        }
        self.write(pos, lo);
        self.write(pos.wrapping_add(1), hi);
    }
}

/// Writing a word and reading it back at the same address gives that word.
pub proof fn lemma_word_round_trip(mem: Seq<u8>, addr: u16, w: u16)
    requires
        mem.len() == MEMORY_SIZE,
    ensures
        word_at(with_word(mem, addr, w), addr) == w,
{
    let m = with_word(mem, addr, w);
    assert(next_addr(addr) != addr);
    assert(m[addr as int] == (w % 256) as u8);
    assert(m[next_addr(addr) as int] == (w / 256) as u8);
}

} // verus!
