use crate::codec::{byte_range, lemma_byte_range_eight, lemma_byte_range_mono, decode_word, encode_word, lemma_word_round_trip, word_bytes, word_value, Endian};
use crate::machine::{range_mapped, read_range, write_range, CoreFault, ExecCore};
use vstd::prelude::*;

verus! {

/// Largest shadow area, in words. With at most 255 register and 255 stack slots and words
/// of at most 8 bytes, it keeps every stack offset within a `u64`.
pub const MAX_SHADOW_WORDS: u64 = 0xffff;

/// Failure of a calling-convention operation.
#[derive(Clone, Copy, Debug, PartialEq, Eq, Structural)]
pub enum CcError {
    /// The slot maps to no argument register and to no addressable stack word.
    InvalidSlot,
    /// The architecture defines no semantics for the operation.
    UnsupportedOperation,
    /// The execution core refused the register or memory access.
    UnderlyingAccessFailure(CoreFault),
}

/// Where a call leaves its return address.
#[derive(Clone, Copy, Debug, PartialEq, Eq, Structural)]
pub enum ReturnAddress {
    /// In the given register.
    LinkRegister(i32),
    /// In the pointer-sized word at the stack pointer.
    OnStack,
    /// Nowhere this binding knows of.
    Undefined,
}

/// Physical home of one argument slot.
#[derive(Clone, Copy, Debug, PartialEq, Eq, Structural)]
pub enum Location {
    Register(i32),
    /// Byte offset from the stack pointer.
    Stack(u64),
}

/// The ABI constants of one architecture, and the cursor of slots already consumed.
#[derive(Clone, Debug)]
pub struct CallingConventionCommon {
    pub ret_reg: i32,
    pub arg_regs: Vec<i32>,
    /// Number of argument slots that live on the stack.
    pub arg_on_stack: u8,
    /// Stack words that the caller reserves below the first stack argument.
    pub shadow: u64,
    pub ret_addr: ReturnAddress,
    pub pointer_size: u8,
    pub sp_reg: i32,
    pub endian: Endian,
    /// Slots consumed so far by `reserve`.
    pub consumed: u64,
}

/// The low `n` bytes of `v`: what a register of an `n`-byte-word architecture keeps.
pub open spec fn word_of(v: u64, n: nat) -> u64 {
    ((v as nat) % byte_range(n)) as u64
}

/// `r`, the result of a write, and the core's registers and memory before (`regs0`, `mem0`)
/// and after (`regs1`, `mem1`) agree with `expected`.
pub open spec fn write_outcome(
    expected: Result<(Map<i32, u64>, Map<u64, u8>), CcError>,
    r: Result<(), CcError>,
    regs0: Map<i32, u64>,
    mem0: Map<u64, u8>,
    regs1: Map<i32, u64>,
    mem1: Map<u64, u8>,
) -> bool {
    match expected {
        Ok((regs, mem)) => r is Ok && regs1 == regs && mem1 == mem,
        Err(e) => r == Err::<(), CcError>(e) && regs1 == regs0 && mem1 == mem0,
    }
}

impl CallingConventionCommon {
    pub open spec fn wf(&self) -> bool {
        &&& self.arg_regs@.len() <= 255
        &&& self.shadow <= MAX_SHADOW_WORDS
        &&& 1 <= self.pointer_size <= 8
        &&& self.consumed <= self.total_slots()
    }

    /// Number of addressable argument slots: registers first, then stack words.
    pub open spec fn total_slots(&self) -> nat {
        (self.arg_regs@.len() + self.arg_on_stack) as nat
    }

    pub open spec fn ret_addr_words(&self) -> nat {
        if self.ret_addr == ReturnAddress::OnStack {
            1
        } else {
            0
        }
    }

    /// Stack offset, in bytes, of the stack slot with absolute index `k`.
    pub open spec fn stack_offset(&self, k: nat) -> nat {
        (((k - self.arg_regs@.len()) + self.shadow + self.ret_addr_words()) * self.pointer_size) as nat
    }

    /// Home of the slot with absolute index `k` (counted from the first argument).
    pub open spec fn slot_location(&self, k: nat) -> Option<Location> {
        if k >= self.total_slots() {
            None
        } else if k < self.arg_regs@.len() {
            Some(Location::Register(self.arg_regs@[k as int]))
        } else {
            Some(Location::Stack(self.stack_offset(k) as u64))
        }
    }

    /// Value read from `loc` on a core whose registers and memory are `regs` and `mem`.
    pub open spec fn read_at(&self, regs: Map<i32, u64>, mem: Map<u64, u8>, loc: Location) -> Result<u64, CcError> {
        match loc {
            Location::Register(id) => if regs.contains_key(id) {
                Ok(regs[id])
            } else {
                Err(CcError::UnderlyingAccessFailure(CoreFault::InvalidRegister))
            },
            Location::Stack(off) => self.read_stack(regs, mem, off as nat),
        }
    }

    /// Pointer-sized word at stack pointer + `off`.
    pub open spec fn read_stack(&self, regs: Map<i32, u64>, mem: Map<u64, u8>, off: nat) -> Result<u64, CcError> {
        if !regs.contains_key(self.sp_reg) {
            Err(CcError::UnderlyingAccessFailure(CoreFault::InvalidRegister))
        } else if regs[self.sp_reg] + off > u64::MAX {
            Err(CcError::InvalidSlot)
        } else if !range_mapped(mem, regs[self.sp_reg] + off, self.pointer_size as int) {
            Err(CcError::UnderlyingAccessFailure(CoreFault::UnmappedMemory))
        } else {
            Ok(word_value(read_range(mem, regs[self.sp_reg] + off, self.pointer_size as int), self.endian) as u64)
        }
    }

    /// Registers and memory after writing `v` at `loc`, or the failure.
    pub open spec fn write_at(&self, regs: Map<i32, u64>, mem: Map<u64, u8>, loc: Location, v: u64) -> Result<(Map<i32, u64>, Map<u64, u8>), CcError> {
        match loc {
            Location::Register(id) => if regs.contains_key(id) {
                Ok((regs.insert(id, word_of(v, self.pointer_size as nat)), mem))
            } else {
                Err(CcError::UnderlyingAccessFailure(CoreFault::InvalidRegister))
            },
            Location::Stack(off) => self.write_stack(regs, mem, off as nat, v),
        }
    }

    /// Registers and memory after storing the low pointer-sized word of `v` at stack pointer + `off`.
    pub open spec fn write_stack(&self, regs: Map<i32, u64>, mem: Map<u64, u8>, off: nat, v: u64) -> Result<(Map<i32, u64>, Map<u64, u8>), CcError> {
        if !regs.contains_key(self.sp_reg) {
            Err(CcError::UnderlyingAccessFailure(CoreFault::InvalidRegister))
        } else if regs[self.sp_reg] + off > u64::MAX {
            Err(CcError::InvalidSlot)
        } else if !range_mapped(mem, regs[self.sp_reg] + off, self.pointer_size as int) {
            Err(CcError::UnderlyingAccessFailure(CoreFault::UnmappedMemory))
        } else {
            Ok((regs, write_range(mem, regs[self.sp_reg] + off, word_bytes(v as nat, self.pointer_size as nat, self.endian))))
        }
    }

    /// What `get_raw_param(slot)` returns on a core with `regs` and `mem`.
    pub open spec fn param_read(&self, regs: Map<i32, u64>, mem: Map<u64, u8>, slot: nat) -> Result<u64, CcError> {
        match self.slot_location((self.consumed + slot) as nat) {
            None => Err(CcError::InvalidSlot),
            Some(loc) => self.read_at(regs, mem, loc),
        }
    }

    /// What `set_raw_param(slot, v)` does to a core with `regs` and `mem`.
    pub open spec fn param_write(&self, regs: Map<i32, u64>, mem: Map<u64, u8>, slot: nat, v: u64) -> Result<(Map<i32, u64>, Map<u64, u8>), CcError> {
        match self.slot_location((self.consumed + slot) as nat) {
            None => Err(CcError::InvalidSlot),
            Some(loc) => self.write_at(regs, mem, loc, v),
        }
    }

    /// Number of slots that an argument of `argbits` bits takes: `argbits / (8 * pointer_size)`
    /// rounded up, and at least one.
    pub open spec fn num_slots(&self, argbits: nat) -> nat {
        let unit = self.pointer_size * 8;
        let ceil = (argbits + unit - 1) / unit;
        if ceil < 1 {
            1
        } else {
            ceil as nat
        }
    }

    /// The same constants with `n` more slots consumed.
    pub open spec fn advanced(&self, n: nat) -> Self {
        CallingConventionCommon { consumed: (self.consumed + n) as u64, ..*self }
    }

    /// Outcome of a write: the new registers and memory, or the failure.
    pub open spec fn ret_addr_write(&self, regs: Map<i32, u64>, mem: Map<u64, u8>, addr: u64) -> Result<(Map<i32, u64>, Map<u64, u8>), CcError> {
        match self.ret_addr {
            ReturnAddress::LinkRegister(id) => self.write_at(regs, mem, Location::Register(id), addr),
            ReturnAddress::OnStack => self.write_stack(regs, mem, 0, addr),
            ReturnAddress::Undefined => Err(CcError::UnsupportedOperation),
        }
    }

    /// Stack words that the arguments of a call taking `n` slots occupy.
    pub open spec fn stack_words_of(&self, n: nat) -> nat {
        if n > self.arg_regs@.len() {
            (n - self.arg_regs@.len()) as nat
        } else {
            0
        }
    }

    /// Bytes released when a call that took `n` slots is unwound on a stack-return
    /// architecture: its return word and its stack arguments. The shadow words belong to
    /// the caller and stay.
    pub open spec fn frame_size(&self, n: nat) -> nat {
        ((1 + self.stack_words_of(n)) * self.pointer_size) as nat
    }

    /// The return address of a just-completed call that took `n` slots, with the registers
    /// after its frame was popped.
    pub open spec fn unwound(&self, regs: Map<i32, u64>, mem: Map<u64, u8>, n: nat) -> Result<(u64, Map<i32, u64>), CcError> {
        match self.ret_addr {
            ReturnAddress::LinkRegister(id) => match self.read_at(regs, mem, Location::Register(id)) {
                Ok(v) => Ok((v, regs)),
                Err(e) => Err(e),
            },
            ReturnAddress::OnStack => if n > self.total_slots() {
                Err(CcError::InvalidSlot)
            } else {
                match self.read_stack(regs, mem, 0) {
                    Ok(v) => if regs[self.sp_reg] + self.frame_size(n) > u64::MAX {
                        Err(CcError::InvalidSlot)
                    } else {
                        Ok((v, regs.insert(self.sp_reg, (regs[self.sp_reg] + self.frame_size(n)) as u64)))
                    },
                    Err(e) => Err(e),
                }
            },
            ReturnAddress::Undefined => Err(CcError::UnsupportedOperation),
        }
    }

    pub fn new(
        ret_reg: i32,
        arg_regs: Vec<i32>,
        arg_on_stack: u8,
        shadow: u64,
        ret_addr: ReturnAddress,
        pointer_size: u8,
        sp_reg: i32,
        endian: Endian,
    ) -> (r: CallingConventionCommon)
        requires
            arg_regs@.len() <= 255,
            shadow <= MAX_SHADOW_WORDS,
            1 <= pointer_size <= 8,
        ensures
            r.wf(),
            r.ret_reg == ret_reg,
            r.arg_regs@ == arg_regs@,
            r.arg_on_stack == arg_on_stack,
            r.shadow == shadow,
            r.ret_addr == ret_addr,
            r.pointer_size == pointer_size,
            r.sp_reg == sp_reg,
            r.endian == endian,
            r.consumed == 0,
    {
        CallingConventionCommon {
            ret_reg,
            arg_regs,
            arg_on_stack,
            shadow,
            ret_addr,
            pointer_size,
            sp_reg,
            endian,
            consumed: 0,
        }
    }

    pub fn get_num_slots(&self, argbits: u64) -> (r: u64)
        requires
            self.wf(),
        ensures
            r == self.num_slots(argbits as nat),
    {
        let unit: u64 = self.pointer_size as u64 * 8;
        proof {
            lemma_ceil_div(argbits as nat, unit as nat);
        }
        if argbits <= unit {
            1
        } else {
            (argbits - 1) / unit + 1
        }
    }

    /// Home of logical slot `slot`, counted from the cursor.
    pub fn resolve(&self, slot: u64) -> (r: Result<Location, CcError>)
        requires
            self.wf(),
        ensures
            r == match self.slot_location((self.consumed + slot) as nat) {
                None => Err(CcError::InvalidSlot),
                Some(loc) => Ok(loc),
            },
    {
        let nregs = self.arg_regs.len() as u64;
        let total = nregs + self.arg_on_stack as u64;
        if slot >= total - self.consumed {
            return Err(CcError::InvalidSlot);
        }
        let k = self.consumed + slot;
        if k < nregs {
            Ok(Location::Register(self.arg_regs[k as usize]))
        } else {
            let ra: u64 = match self.ret_addr {
                ReturnAddress::OnStack => 1,
                _ => 0,
            };
            let words = (k - nregs) + self.shadow + ra;
            let p = self.pointer_size as u64;
            assert(words * p <= words * 8) by (nonlinear_arith)
                requires
                    p <= 8,
            ;
            Ok(Location::Stack(words * p))
        }
    }

    fn read_stack_word<C: ExecCore>(&self, core: &C, off: u64) -> (r: Result<u64, CcError>)
        requires
            self.wf(),
        ensures
            r == self.read_stack(core.regs(), core.mem(), off as nat),
    {
        let sp = match core.reg_read(self.sp_reg) {
            Ok(v) => v,
            Err(e) => {
                return Err(CcError::UnderlyingAccessFailure(e));
            },
        };
        if off > u64::MAX - sp {
            return Err(CcError::InvalidSlot);
        }
        match core.mem_read(sp + off, self.pointer_size as usize) {
            Ok(bytes) => Ok(decode_word(bytes.as_slice(), self.endian)),
            Err(e) => Err(CcError::UnderlyingAccessFailure(e)),
        }
    }

    fn write_stack_word<C: ExecCore>(&self, core: &mut C, off: u64, v: u64) -> (r: Result<(), CcError>)
        requires
            self.wf(),
        ensures
            write_outcome(
                self.write_stack(old(core).regs(), old(core).mem(), off as nat, v),
                r,
                old(core).regs(),
                old(core).mem(),
                final(core).regs(),
                final(core).mem(),
            ),
    {
        let sp = match core.reg_read(self.sp_reg) {
            Ok(x) => x,
            Err(e) => {
                return Err(CcError::UnderlyingAccessFailure(e));
            },
        };
        if off > u64::MAX - sp {
            return Err(CcError::InvalidSlot);
        }
        let bytes = encode_word(v, self.pointer_size as usize, self.endian);
        proof {
            lemma_word_round_trip(v as nat, self.pointer_size as nat, self.endian);
        }
        match core.mem_write(sp + off, bytes.as_slice()) {
            Ok(()) => Ok(()),
            Err(e) => Err(CcError::UnderlyingAccessFailure(e)),
        }
    }

    fn read_location<C: ExecCore>(&self, core: &C, loc: Location) -> (r: Result<u64, CcError>)
        requires
            self.wf(),
        ensures
            r == self.read_at(core.regs(), core.mem(), loc),
    {
        match loc {
            Location::Register(id) => match core.reg_read(id) {
                Ok(v) => Ok(v),
                Err(e) => Err(CcError::UnderlyingAccessFailure(e)),
            },
            Location::Stack(off) => self.read_stack_word(core, off),
        }
    }

    fn write_location<C: ExecCore>(&self, core: &mut C, loc: Location, v: u64) -> (r: Result<(), CcError>)
        requires
            self.wf(),
        ensures
            write_outcome(
                self.write_at(old(core).regs(), old(core).mem(), loc, v),
                r,
                old(core).regs(),
                old(core).mem(),
                final(core).regs(),
                final(core).mem(),
            ),
    {
        match loc {
            Location::Register(id) => match core.reg_write(id, self.truncate(v)) {
                Ok(()) => Ok(()),
                Err(e) => Err(CcError::UnderlyingAccessFailure(e)),
            },
            Location::Stack(off) => self.write_stack_word(core, off, v),
        }
    }

    /// Reads logical slot `slot`. The width `argbits` does not change which location is
    /// read: a register slot yields the whole register, a stack slot one pointer-sized word.
    pub fn get_raw_param<C: ExecCore>(&self, core: &C, slot: u64, argbits: Option<u64>) -> (r: Result<u64, CcError>)
        requires
            self.wf(),
        ensures
            r == self.param_read(core.regs(), core.mem(), slot as nat),
    {
        match self.resolve(slot) {
            Ok(loc) => self.read_location(core, loc),
            Err(e) => Err(e),
        }
    }

    /// Writes the low pointer-sized word of `value` to logical slot `slot`.
    pub fn set_raw_param<C: ExecCore>(&self, core: &mut C, slot: u64, value: u64, argbits: Option<u64>) -> (r: Result<(), CcError>)
        requires
            self.wf(),
        ensures
            write_outcome(
                self.param_write(old(core).regs(), old(core).mem(), slot as nat, value),
                r,
                old(core).regs(),
                old(core).mem(),
                final(core).regs(),
                final(core).mem(),
            ),
    {
        match self.resolve(slot) {
            Ok(loc) => self.write_location(core, loc, value),
            Err(e) => Err(e),
        }
    }

    pub fn get_return_value<C: ExecCore>(&self, core: &C) -> (r: Result<u64, CcError>)
        requires
            self.wf(),
        ensures
            r == self.read_at(core.regs(), core.mem(), Location::Register(self.ret_reg)),
    {
        self.read_location(core, Location::Register(self.ret_reg))
    }

    pub fn set_return_value<C: ExecCore>(&self, core: &mut C, value: u64) -> (r: Result<(), CcError>)
        requires
            self.wf(),
        ensures
            write_outcome(
                self.write_at(old(core).regs(), old(core).mem(), Location::Register(self.ret_reg), value),
                r,
                old(core).regs(),
                old(core).mem(),
                final(core).regs(),
                final(core).mem(),
            ),
    {
        self.write_location(core, Location::Register(self.ret_reg), value)
    }

    /// Stores `addr` where the architecture keeps the return address.
    pub fn set_return_address<C: ExecCore>(&self, core: &mut C, addr: u64) -> (r: Result<(), CcError>)
        requires
            self.wf(),
        ensures
            write_outcome(
                self.ret_addr_write(old(core).regs(), old(core).mem(), addr),
                r,
                old(core).regs(),
                old(core).mem(),
                final(core).regs(),
                final(core).mem(),
            ),
    {
        match self.ret_addr {
            ReturnAddress::LinkRegister(id) => self.write_location(core, Location::Register(id), addr),
            ReturnAddress::OnStack => self.write_stack_word(core, 0, addr),
            ReturnAddress::Undefined => Err(CcError::UnsupportedOperation),
        }
    }

    /// Skips `nslots` slots without touching registers or memory.
    pub fn reserve(&mut self, nslots: u64) -> (r: Result<(), CcError>)
        requires
            old(self).wf(),
        ensures
            final(self).wf(),
            old(self).consumed + nslots <= old(self).total_slots() ==> r is Ok && *final(self)
                == old(self).advanced(nslots as nat),
            old(self).consumed + nslots > old(self).total_slots() ==> r == Err::<(), CcError>(
                CcError::InvalidSlot,
            ) && *final(self) == *old(self),
    {
        let total = self.arg_regs.len() as u64 + self.arg_on_stack as u64;
        if nslots > total - self.consumed {
            return Err(CcError::InvalidSlot);
        }
        self.consumed = self.consumed + nslots;
        Ok(())
    }

    /// The low pointer-sized word of `v`.
    fn truncate(&self, v: u64) -> (r: u64)
        requires
            self.wf(),
        ensures
            r == word_of(v, self.pointer_size as nat),
    {
        if self.pointer_size == 8 {
            proof {
                lemma_byte_range_eight();
                vstd::arithmetic::div_mod::lemma_small_mod(v as nat, byte_range(8));
            }
            return v;
        }
        let mut range: u64 = 1;
        let mut i: u8 = 0;
        while i < self.pointer_size
            invariant
                i <= self.pointer_size < 8,
                range == byte_range(i as nat),
                range > 0,
            decreases self.pointer_size - i,
        {
            proof {
                lemma_byte_range_mono(i as nat + 1, 7);
                reveal_with_fuel(byte_range, 8);
            }
            range = range * 256;
            i = i + 1;
        }
        v % range
    }

    /// Return address of a call that took `nslots` slots. A link-register architecture reads
    /// the register, whatever `nslots` is; a stack-return architecture pops the word at the
    /// stack pointer together with the call's stack arguments.
    pub fn unwind<C: ExecCore>(&self, core: &mut C, nslots: u64) -> (r: Result<u64, CcError>)
        requires
            self.wf(),
        ensures
            final(core).mem() == old(core).mem(),
            match self.unwound(old(core).regs(), old(core).mem(), nslots as nat) {
                Ok((v, regs)) => r == Ok::<u64, CcError>(v) && final(core).regs() == regs,
                Err(e) => r == Err::<u64, CcError>(e) && final(core).regs() == old(core).regs(),
            },
    {
        match self.ret_addr {
            ReturnAddress::LinkRegister(id) => self.read_location(core, Location::Register(id)),
            ReturnAddress::OnStack => {
                let nregs = self.arg_regs.len() as u64;
                if nslots > nregs + self.arg_on_stack as u64 {
                    return Err(CcError::InvalidSlot);
                }
                let v = match self.read_stack_word(core, 0) {
                    Ok(v) => v,
                    Err(e) => {
                        return Err(e);
                    },
                };
                let sp = match core.reg_read(self.sp_reg) {
                    Ok(x) => x,
                    Err(e) => {
                        return Err(CcError::UnderlyingAccessFailure(e));
                    },
                };
                let words: u64 = if nslots > nregs {
                    nslots - nregs
                } else {
                    0
                };
                let p = self.pointer_size as u64;
                assert((1 + words) * p <= (1 + words) * 8) by (nonlinear_arith)
                    requires
                        p <= 8,
                ;
                let frame = (1 + words) * p;
                if sp > u64::MAX - frame {
                    return Err(CcError::InvalidSlot);
                }
                match core.reg_write(self.sp_reg, sp + frame) {
                    Ok(()) => Ok(v),
                    Err(e) => Err(CcError::UnderlyingAccessFailure(e)),
                }
            },
            ReturnAddress::Undefined => Err(CcError::UnsupportedOperation),
        }
    }
}

/// `argbits / unit` rounded up, in closed form.
pub proof fn lemma_ceil_div(argbits: nat, unit: nat)
    requires
        unit > 0,
    ensures
        argbits == 0 ==> (argbits + unit - 1) / (unit as int) == 0,
        argbits > 0 ==> (argbits + unit - 1) / (unit as int) == (argbits - 1) / (unit as int) + 1,
        0 < argbits <= unit ==> (argbits - 1) / (unit as int) == 0,
{
    if argbits == 0 {
        vstd::arithmetic::div_mod::lemma_basic_div(unit - 1, unit as int);
    } else {
        vstd::arithmetic::div_mod::lemma_hoist_over_denominator(argbits - 1, 1, unit);
        if argbits <= unit {
            vstd::arithmetic::div_mod::lemma_basic_div(argbits - 1, unit as int);
        }
    }
}

} // verus!
