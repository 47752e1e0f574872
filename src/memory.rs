use vstd::prelude::*;

use crate::error::CpuError;

verus! {

/// Number of addressable bytes.
pub const MEM_SIZE: usize = 65536;

/// The highest address.
pub const MEM_ADDR_MAX: u16 = 0xffff;

/// The little-endian word whose low byte is `lo` and high byte is `hi`.
pub open spec fn word(lo: u8, hi: u8) -> u16 {
    (hi as int * 256 + lo as int) as u16
}

/// The word stored at `addr` and `addr + 1` of `m`, or the error for a word that would
/// start at the top address.
pub open spec fn word_at(m: Seq<u8>, addr: u16) -> Result<u16, CpuError> {
    if addr == MEM_ADDR_MAX {
        Err(CpuError::OutOfRangeAccess { addr })
    } else {
        Ok(word(m[addr as int], m[addr as int + 1]))
    }
}

/// `m` with `v` stored little-endian at `addr` and `addr + 1`.
pub open spec fn store_word(m: Seq<u8>, addr: u16, v: u16) -> Seq<u8>
    recommends
        addr < MEM_ADDR_MAX,
{
    m.update(addr as int, (v % 256) as u8).update(addr as int + 1, (v / 256) as u8)
}

/// `m` with `bytes` copied to the addresses from `start` on.
pub open spec fn store_range(m: Seq<u8>, start: int, bytes: Seq<u8>) -> Seq<u8> {
    Seq::new(
        m.len(),
        |i: int|
            if start <= i < start + bytes.len() {
                bytes[i - start]
            } else {
                m[i]
            },
    )
}

/// The 64 KiB memory of the machine. Every 16-bit address is valid.
pub struct Mem {
    data: [u8; 65536],
}

impl View for Mem {
    type V = Seq<u8>;

    closed spec fn view(&self) -> Seq<u8> {
        self.data@
    }
}

/// Every memory holds `MEM_SIZE` bytes.
pub broadcast proof fn lemma_mem_len(m: &Mem)
    ensures
        #[trigger] m@.len() == MEM_SIZE,
{
}

impl Mem {
    /// Memory with every byte zero.
    pub fn new() -> (r: Mem)
        ensures
            r@ == Seq::new(MEM_SIZE as nat, |i: int| 0u8),
    {
        let r = Mem { data: [0u8; 65536] };
        assert(r@ =~= Seq::new(MEM_SIZE as nat, |i: int| 0u8));
        r
    }

    /// The byte at `addr`.
    pub fn read(&self, addr: u16) -> (r: u8)
        ensures
            r == self@[addr as int],
    {
        self.data[addr as usize]
    }

    /// The little-endian word at `addr` and `addr + 1`; an error at the top address.
    pub fn read16(&self, addr: u16) -> (r: Result<u16, CpuError>)
        ensures
            r == word_at(self@, addr),
    {
        if addr == MEM_ADDR_MAX {
            return Err(CpuError::OutOfRangeAccess { addr });
        }
        let lo = self.read(addr);
        let hi = self.read(addr + 1);
        Ok(hi as u16 * 256 + lo as u16)
    }

    /// Stores `val` at `addr`.
    pub fn write(&mut self, addr: u16, val: u8)
        ensures
            final(self)@ == old(self)@.update(addr as int, val),
    {
        self.data[addr as usize] = val;
    }

    /// Stores `val` little-endian at `addr` and `addr + 1`; an error at the top address,
    /// where nothing is written.
    pub fn write16(&mut self, addr: u16, val: u16) -> (r: Result<(), CpuError>)
        ensures
            addr == MEM_ADDR_MAX ==> r == Err::<(), CpuError>(
                CpuError::OutOfRangeAccess { addr },
            ) && final(self)@ == old(self)@,
            addr != MEM_ADDR_MAX ==> r is Ok && final(self)@ == store_word(old(self)@, addr, val),
    {
        if addr == MEM_ADDR_MAX {
            return Err(CpuError::OutOfRangeAccess { addr });
        }
        self.write(addr, (val % 256) as u8);
        self.write(addr + 1, (val / 256) as u8);
        Ok(())
    }

    /// Copies `val` to the addresses from `start_addr` on. Fails, writing nothing, when
    /// the bytes would run past the top of the address space.
    pub fn write_range(&mut self, start_addr: u16, val: &[u8]) -> (r: Result<(), CpuError>)
        ensures
            start_addr as int + val@.len() > MEM_SIZE ==> r == Err::<(), CpuError>(
                CpuError::RangeOverflow { start: start_addr, len: val@.len() as usize },
            ) && final(self)@ == old(self)@,
            start_addr as int + val@.len() <= MEM_SIZE ==> r is Ok && final(self)@ == store_range(
                old(self)@,
                start_addr as int,
                val@,
            ),
    {
        if val.len() > MEM_SIZE - start_addr as usize {
            return Err(CpuError::RangeOverflow { start: start_addr, len: val.len() });
        }
        let mut i: usize = 0;
        while i < val.len()
            invariant
                i <= val@.len(),
                start_addr as int + val@.len() <= MEM_SIZE,
                self@.len() == MEM_SIZE,
                self@ == store_range(old(self)@, start_addr as int, val@.subrange(0, i as int)),
            decreases val@.len() - i,
        {
            let addr = start_addr + i as u16;
            self.write(addr, val[i]);
            i = i + 1;
            assert(self@ =~= store_range(old(self)@, start_addr as int, val@.subrange(0, i as int)));
        }
        assert(val@.subrange(0, i as int) =~= val@);
        Ok(())
    }
}

} // verus!
