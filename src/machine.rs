use vstd::prelude::*;

verus! {

/// Why the execution core refused a register or memory access.
#[derive(Clone, Copy, Debug, PartialEq, Eq, Structural)]
pub enum CoreFault {
    InvalidRegister,
    UnmappedMemory,
}

/// `len` bytes from `addr` are all mapped in `mem`, without wrapping the address space.
pub open spec fn range_mapped(mem: Map<u64, u8>, addr: int, len: int) -> bool {
    &&& 0 <= addr
    &&& addr + len <= u64::MAX + 1
    &&& forall|i: int| 0 <= i < len ==> #[trigger] mem.contains_key((addr + i) as u64)
}

/// The `len` bytes of `mem` from `addr`.
pub open spec fn read_range(mem: Map<u64, u8>, addr: int, len: int) -> Seq<u8> {
    Seq::new(len as nat, |i: int| mem[(addr + i) as u64])
}

/// `mem` with `data` stored from `addr`; the set of mapped addresses is kept.
pub open spec fn write_range(mem: Map<u64, u8>, addr: int, data: Seq<u8>) -> Map<u64, u8> {
    Map::new(
        |a: u64| mem.contains_key(a),
        |a: u64|
            if addr <= a < addr + data.len() {
                data[a - addr]
            } else {
                mem[a]
            },
    )
}

/// Register bank and linear memory of a CPU, as the calling-convention engine sees them.
///
/// `regs` maps each register that can be accessed to its value; `mem` maps each mapped
/// address to the byte stored there.
pub trait ExecCore {
    spec fn regs(&self) -> Map<i32, u64>;

    spec fn mem(&self) -> Map<u64, u8>;

    fn reg_read(&self, id: i32) -> (r: Result<u64, CoreFault>)
        ensures
            self.regs().contains_key(id) ==> r == Ok::<u64, CoreFault>(self.regs()[id]),
            !self.regs().contains_key(id) ==> r == Err::<u64, CoreFault>(CoreFault::InvalidRegister),
    ;

    fn reg_write(&mut self, id: i32, value: u64) -> (r: Result<(), CoreFault>)
        ensures
            final(self).mem() == old(self).mem(),
            old(self).regs().contains_key(id) ==> r is Ok && final(self).regs() == old(
                self,
            ).regs().insert(id, value),
            !old(self).regs().contains_key(id) ==> r == Err::<(), CoreFault>(CoreFault::InvalidRegister)
                && final(self).regs() == old(
                self,
            ).regs(),
    ;

    fn mem_read(&self, addr: u64, len: usize) -> (r: Result<Vec<u8>, CoreFault>)
        ensures
            range_mapped(self.mem(), addr as int, len as int) ==> r is Ok && r->Ok_0@
                == read_range(self.mem(), addr as int, len as int),
            !range_mapped(self.mem(), addr as int, len as int) ==> r == Err::<Vec<u8>, CoreFault>(
                CoreFault::UnmappedMemory,
            ),
    ;

    fn mem_write(&mut self, addr: u64, data: &[u8]) -> (r: Result<(), CoreFault>)
        ensures
            final(self).regs() == old(self).regs(),
            range_mapped(old(self).mem(), addr as int, data@.len() as int) ==> r is Ok
                && final(self).mem() == write_range(old(self).mem(), addr as int, data@),
            !range_mapped(old(self).mem(), addr as int, data@.len() as int) ==> r == Err::<(), CoreFault>(
                CoreFault::UnmappedMemory,
            ) && final(self).mem() == old(self).mem(),
    ;
}

/// A self-contained execution core: registers numbered `0 .. regs.len()` and one
/// mapped memory region starting at `base`.
pub struct FlatMachine {
    pub regs: Vec<u64>,
    pub base: u64,
    pub memory: Vec<u8>,
}

impl FlatMachine {
    pub open spec fn wf(&self) -> bool {
        &&& self.regs@.len() <= i32::MAX
        &&& self.base + self.memory@.len() <= u64::MAX + 1
    }

    /// A machine with `nregs` zeroed registers and `size` zeroed bytes mapped at `base`.
    pub fn new(nregs: usize, base: u64, size: usize) -> (r: FlatMachine)
        requires
            nregs <= i32::MAX,
            base + size <= u64::MAX + 1,
        ensures
            r.wf(),
            r.base == base,
            r.regs@ == Seq::new(nregs as nat, |i: int| 0u64),
            r.memory@ == Seq::new(size as nat, |i: int| 0u8),
    {
        let mut regs: Vec<u64> = Vec::new();
        let mut i: usize = 0;
        while i < nregs
            invariant
                i <= nregs,
                regs@ == Seq::new(i as nat, |j: int| 0u64),
            decreases nregs - i,
        {
            regs.push(0);
            i = i + 1;
        }
        let mut memory: Vec<u8> = Vec::new();
        let mut k: usize = 0;
        while k < size
            invariant
                k <= size,
                memory@ == Seq::new(k as nat, |j: int| 0u8),
            decreases size - k,
        {
            memory.push(0);
            k = k + 1;
        }
        FlatMachine { regs, base, memory }
    }
}

impl ExecCore for FlatMachine {
    open spec fn regs(&self) -> Map<i32, u64> {
        Map::new(|id: i32| 0 <= id < self.regs@.len(), |id: i32| self.regs@[id as int])
    }

    open spec fn mem(&self) -> Map<u64, u8> {
        Map::new(
            |a: u64| self.base <= a && a - self.base < self.memory@.len(),
            |a: u64| self.memory@[a - self.base],
        )
    }

    fn reg_read(&self, id: i32) -> (r: Result<u64, CoreFault>) {
        if id >= 0 && (id as usize) < self.regs.len() {
            Ok(self.regs[id as usize])
        } else {
            Err(CoreFault::InvalidRegister)
        }
    }

    fn reg_write(&mut self, id: i32, value: u64) -> (r: Result<(), CoreFault>) {
        if id >= 0 && (id as usize) < self.regs.len() {
            self.regs.set(id as usize, value);
            assert(self.regs() =~= old(self).regs().insert(id, value));
            Ok(())
        } else {
            Err(CoreFault::InvalidRegister)
        }
    }

    fn mem_read(&self, addr: u64, len: usize) -> (r: Result<Vec<u8>, CoreFault>) {
        let size = self.memory.len();
        if len == 0 {
            proof {
                assert(read_range(self.mem(), addr as int, 0) =~= Seq::<u8>::empty());
            }
            return Ok(Vec::new());
        }
        if addr < self.base || addr - self.base > size as u64 || len as u64 > size as u64 - (addr - self.base)
            || (len - 1) as u64 > u64::MAX - addr {
            proof {
                if range_mapped(self.mem(), addr as int, len as int) {
                    if len > 0 {
                        assert(self.mem().contains_key((addr as int + 0) as u64));
                        assert(self.mem().contains_key((addr as int + (len as int - 1)) as u64));
                    }
                }
            }
            return Err(CoreFault::UnmappedMemory);
        }
        let off = addr - self.base;
        assert(off <= size);
        let start = off as usize;
        assert(start as int == addr - self.base);
        assert(start + len <= size);
        let mut out: Vec<u8> = Vec::new();
        let mut i: usize = 0;
        while i < len
            invariant
                i <= len,
                start + len <= self.memory@.len(),
                size == self.memory@.len(),
                addr + len <= u64::MAX + 1,
                start == addr - self.base,
                out@ == read_range(self.mem(), addr as int, i as int),
            decreases len - i,
        {
            out.push(self.memory[start + i]);
            i = i + 1;
            assert(out@ =~= read_range(self.mem(), addr as int, i as int));
        }
        Ok(out)
    }

    fn mem_write(&mut self, addr: u64, data: &[u8]) -> (r: Result<(), CoreFault>) {
        let size = self.memory.len();
        let len = data.len();
        if len == 0 {
            proof {
                assert(write_range(self.mem(), addr as int, data@) =~= self.mem());
            }
            return Ok(());
        }
        if addr < self.base || addr - self.base > size as u64 || len as u64 > size as u64 - (addr - self.base)
            || (len - 1) as u64 > u64::MAX - addr {
            proof {
                if range_mapped(self.mem(), addr as int, len as int) {
                    if len > 0 {
                        assert(self.mem().contains_key((addr as int + 0) as u64));
                        assert(self.mem().contains_key((addr as int + (len as int - 1)) as u64));
                    }
                }
            }
            return Err(CoreFault::UnmappedMemory);
        }
        let off = addr - self.base;
        assert(off <= size);
        let start = off as usize;
        assert(start as int == addr - self.base);
        assert(start + len <= size);
        let mut i: usize = 0;
        while i < len
            invariant
                i <= len,
                len == data@.len(),
                start + len <= self.memory@.len(),
                size == self.memory@.len(),
                addr + len <= u64::MAX + 1,
                start == addr - self.base,
                self.base == old(self).base,
                self.regs == old(self).regs,
                self.memory@.len() == old(self).memory@.len(),
                forall|j: int|
                    0 <= j < self.memory@.len() ==> #[trigger] self.memory@[j] == if start <= j
                        < start + i {
                        data@[j - start]
                    } else {
                        old(self).memory@[j]
                    },
            decreases len - i,
        {
            self.memory.set(start + i, data[i]);
            i = i + 1;
        }
        assert(self.mem() =~= write_range(old(self).mem(), addr as int, data@));
        assert(range_mapped(old(self).mem(), addr as int, len as int));
        Ok(())
    }
}

} // verus!
