use crate::cc::{word_of, write_outcome, CallingConventionCommon, CcError, ReturnAddress};
use crate::codec::Endian;
use crate::machine::{CoreFault, ExecCore};
use vstd::prelude::*;

verus! {

/// CPU family, as the emulation engine names it.
#[derive(Clone, Copy, Debug, PartialEq, Eq, Structural)]
pub enum Arch {
    Mips,
}

/// Mode flags of the emulation engine (word size and byte order), as a bit set.
#[derive(Clone, Copy, Debug, PartialEq, Eq, Structural)]
pub struct Mode {
    pub bits: u32,
}

pub const MODE_LITTLE_ENDIAN: u32 = 0;
pub const MODE_BIG_ENDIAN: u32 = 0x4000_0000;
pub const MODE_32: u32 = 4;
pub const MODE_64: u32 = 8;

/// Register numbers of the emulation engine's MIPS register file.
pub const MIPS_REG_PC: i32 = 1;
pub const MIPS_REG_V0: i32 = 4;
pub const MIPS_REG_A0: i32 = 6;
pub const MIPS_REG_A1: i32 = 7;
pub const MIPS_REG_A2: i32 = 8;
pub const MIPS_REG_A3: i32 = 9;
pub const MIPS_REG_SP: i32 = 31;
pub const MIPS_REG_RA: i32 = 33;

/// Argument slots of the MIPS o32 convention that live on the stack.
pub const MIPS_ARG_ON_STACK: u8 = 12;
/// Words reserved on the stack for the four register arguments.
pub const MIPS_SHADOW: u64 = 4;

/// Everything an architecture descriptor tells about its architecture.
#[derive(Clone, Copy, Debug, PartialEq, Eq, Structural)]
pub struct ArchInfo {
    pub endian: Endian,
    pub pointer_size: u8,
    pub mode: Mode,
    pub pc_reg_id: i32,
    pub sp_reg_id: i32,
    pub arch: Arch,
}

/// An architecture descriptor.
pub trait ArchT {
    spec fn info(&self) -> ArchInfo;

    fn endian(&self) -> (r: Endian)
        ensures
            r == self.info().endian,
    ;

    fn pointer_size(&self) -> (r: u8)
        ensures
            r == self.info().pointer_size,
    ;

    fn pc_reg_id(&self) -> (r: i32)
        ensures
            r == self.info().pc_reg_id,
    ;

    fn sp_reg_id(&self) -> (r: i32)
        ensures
            r == self.info().sp_reg_id,
    ;

    fn arch(&self) -> (r: Arch)
        ensures
            r == self.info().arch,
    ;

    fn mode(&self) -> (r: Mode)
        ensures
            r == self.info().mode,
    ;
}

/// A MIPS variant: 32- or 64-bit, in either byte order.
#[derive(Clone, Copy, Debug, PartialEq, Eq, Structural)]
pub struct ArchMIPS {
    pub mode32: bool,
    pub endian: Endian,
}

impl ArchMIPS {
    pub open spec fn spec_pointer_size(&self) -> u8 {
        if self.mode32 {
            4
        } else {
            8
        }
    }

    pub open spec fn spec_mode(&self) -> Mode {
        let word = if self.mode32 {
            MODE_32
        } else {
            MODE_64
        };
        let order = match self.endian {
            Endian::Little => MODE_LITTLE_ENDIAN,
            Endian::Big => MODE_BIG_ENDIAN,
        };
        Mode { bits: word | order }
    }

    pub fn new(mode32: bool, endian: Endian) -> (r: ArchMIPS)
        ensures
            r.mode32 == mode32,
            r.endian == endian,
    {
        ArchMIPS { mode32, endian }
    }
}

impl Default for ArchMIPS {
    /// 32-bit big-endian MIPS.
    fn default() -> (r: ArchMIPS)
        ensures
            r.mode32,
            r.endian == Endian::Big,
    {
        ArchMIPS { mode32: true, endian: Endian::Big }
    }
}

impl ArchT for ArchMIPS {
    open spec fn info(&self) -> ArchInfo {
        ArchInfo {
            endian: self.endian,
            pointer_size: self.spec_pointer_size(),
            mode: self.spec_mode(),
            pc_reg_id: MIPS_REG_PC,
            sp_reg_id: MIPS_REG_SP,
            arch: Arch::Mips,
        }
    }

    fn endian(&self) -> (r: Endian) {
        self.endian
    }

    fn pointer_size(&self) -> (r: u8) {
        if self.mode32 {
            4
        } else {
            8
        }
    }

    fn pc_reg_id(&self) -> (r: i32) {
        MIPS_REG_PC
    }

    fn sp_reg_id(&self) -> (r: i32) {
        MIPS_REG_SP
    }

    fn arch(&self) -> (r: Arch) {
        Arch::Mips
    }

    fn mode(&self) -> (r: Mode) {
        let word = if self.mode32 {
            MODE_32
        } else {
            MODE_64
        };
        let order = match self.endian {
            Endian::Little => MODE_LITTLE_ENDIAN,
            Endian::Big => MODE_BIG_ENDIAN,
        };
        Mode { bits: word | order }
    }
}

/// The o32 calling convention on the given MIPS variant: result in `v0`, arguments in
/// `a0`..`a3` and then in twelve stack words above four reserved ones, return address in `ra`.
pub open spec fn is_mips_cc(cc: CallingConventionCommon, arch: ArchMIPS) -> bool {
    &&& cc.ret_reg == MIPS_REG_V0
    &&& cc.arg_regs@ == seq![MIPS_REG_A0, MIPS_REG_A1, MIPS_REG_A2, MIPS_REG_A3]
    &&& cc.arg_on_stack == MIPS_ARG_ON_STACK
    &&& cc.shadow == MIPS_SHADOW
    &&& cc.ret_addr == ReturnAddress::LinkRegister(MIPS_REG_RA)
    &&& cc.pointer_size == arch.spec_pointer_size()
    &&& cc.sp_reg == MIPS_REG_SP
    &&& cc.endian == arch.endian
}

/// A MIPS architecture with its calling convention.
#[derive(Clone, Debug)]
pub struct MIPS {
    pub arch_info: ArchMIPS,
    pub cc: CallingConventionCommon,
}

impl MIPS {
    pub open spec fn wf(&self) -> bool {
        &&& self.cc.wf()
        &&& is_mips_cc(self.cc, self.arch_info)
    }

    pub fn new(arch: ArchMIPS) -> (r: MIPS)
        ensures
            r.wf(),
            r.arch_info == arch,
            r.cc.consumed == 0,
    {
        let regs: Vec<i32> = vec![MIPS_REG_A0, MIPS_REG_A1, MIPS_REG_A2, MIPS_REG_A3];
        let cc = CallingConventionCommon::new(
            MIPS_REG_V0,
            regs,
            MIPS_ARG_ON_STACK,
            MIPS_SHADOW,
            ReturnAddress::LinkRegister(MIPS_REG_RA),
            arch.pointer_size(),
            MIPS_REG_SP,
            arch.endian,
        );
        MIPS { arch_info: arch, cc }
    }

    pub fn pointersize(&self) -> (r: u8)
        ensures
            r == self.arch_info.spec_pointer_size(),
    {
        self.arch_info.pointer_size()
    }

    pub fn endian(&self) -> (r: Endian)
        ensures
            r == self.arch_info.endian,
    {
        self.arch_info.endian
    }

    pub fn get_num_slots(&self, argbits: u64) -> (r: u64)
        requires
            self.wf(),
        ensures
            r == self.cc.num_slots(argbits as nat),
    {
        self.cc.get_num_slots(argbits)
    }

    pub fn get_raw_param<C: ExecCore>(&self, core: &C, slot: u64, argbits: Option<u64>) -> (r: Result<u64, CcError>)
        requires
            self.wf(),
        ensures
            r == self.cc.param_read(core.regs(), core.mem(), slot as nat),
    {
        self.cc.get_raw_param(core, slot, argbits)
    }

    pub fn set_raw_param<C: ExecCore>(&self, core: &mut C, slot: u64, value: u64, argbits: Option<u64>) -> (r: Result<(), CcError>)
        requires
            self.wf(),
        ensures
            write_outcome(
                self.cc.param_write(old(core).regs(), old(core).mem(), slot as nat, value),
                r,
                old(core).regs(),
                old(core).mem(),
                final(core).regs(),
                final(core).mem(),
            ),
    {
        self.cc.set_raw_param(core, slot, value, argbits)
    }

    pub fn get_return_value<C: ExecCore>(&self, core: &C) -> (r: Result<u64, CcError>)
        requires
            self.wf(),
        ensures
            core.regs().contains_key(MIPS_REG_V0) ==> r == Ok::<u64, CcError>(core.regs()[MIPS_REG_V0]),
            r == self.cc.read_at(core.regs(), core.mem(), crate::cc::Location::Register(MIPS_REG_V0)),
    {
        self.cc.get_return_value(core)
    }

    /// Stores the low pointer-sized word of `value` in `v0`.
    pub fn set_return_value<C: ExecCore>(&self, core: &mut C, value: u64) -> (r: Result<(), CcError>)
        requires
            self.wf(),
        ensures
            final(core).mem() == old(core).mem(),
            old(core).regs().contains_key(MIPS_REG_V0) ==> r is Ok && final(core).regs() == old(
                core,
            ).regs().insert(MIPS_REG_V0, word_of(value, self.cc.pointer_size as nat)),
            !old(core).regs().contains_key(MIPS_REG_V0) ==> r == Err::<(), CcError>(
                CcError::UnderlyingAccessFailure(CoreFault::InvalidRegister),
            ) && final(core).regs() == old(core).regs(),
    {
        self.cc.set_return_value(core, value)
    }

    /// Stores the low pointer-sized word of `addr` in `ra`.
    pub fn set_return_address<C: ExecCore>(&self, core: &mut C, addr: u64) -> (r: Result<(), CcError>)
        requires
            self.wf(),
        ensures
            final(core).mem() == old(core).mem(),
            old(core).regs().contains_key(MIPS_REG_RA) ==> r is Ok && final(core).regs() == old(
                core,
            ).regs().insert(MIPS_REG_RA, word_of(addr, self.cc.pointer_size as nat)),
            !old(core).regs().contains_key(MIPS_REG_RA) ==> r == Err::<(), CcError>(
                CcError::UnderlyingAccessFailure(CoreFault::InvalidRegister),
            ) && final(core).regs() == old(core).regs(),
    {
        self.cc.set_return_address(core, addr)
    }

    pub fn reserve(&mut self, nslots: u64) -> (r: Result<(), CcError>)
        requires
            old(self).wf(),
        ensures
            final(self).wf(),
            final(self).arch_info == old(self).arch_info,
            old(self).cc.consumed + nslots <= old(self).cc.total_slots() ==> r is Ok && final(self).cc
                == old(self).cc.advanced(nslots as nat),
            old(self).cc.consumed + nslots > old(self).cc.total_slots() ==> r == Err::<(), CcError>(
                CcError::InvalidSlot,
            ) && final(self).cc == old(self).cc,
    {
        self.cc.reserve(nslots)
    }

    /// The return address in `ra`; the registers and memory are left as they are.
    pub fn unwind<C: ExecCore>(&self, core: &mut C, nslots: u64) -> (r: Result<u64, CcError>)
        requires
            self.wf(),
        ensures
            final(core).mem() == old(core).mem(),
            final(core).regs() == old(core).regs(),
            old(core).regs().contains_key(MIPS_REG_RA) ==> r == Ok::<u64, CcError>(old(core).regs()[MIPS_REG_RA]),
            !old(core).regs().contains_key(MIPS_REG_RA) ==> r == Err::<u64, CcError>(
                CcError::UnderlyingAccessFailure(CoreFault::InvalidRegister),
            ),
    {
        self.cc.unwind(core, nslots)
    }
}

impl ArchT for MIPS {
    open spec fn info(&self) -> ArchInfo {
        self.arch_info.info()
    }

    fn endian(&self) -> (r: Endian) {
        self.arch_info.endian
    }

    fn pointer_size(&self) -> (r: u8) {
        self.arch_info.pointer_size()
    }

    fn pc_reg_id(&self) -> (r: i32) {
        self.arch_info.pc_reg_id()
    }

    fn sp_reg_id(&self) -> (r: i32) {
        self.arch_info.sp_reg_id()
    }

    fn arch(&self) -> (r: Arch) {
        self.arch_info.arch()
    }

    fn mode(&self) -> (r: Mode) {
        self.arch_info.mode()
    }
}

} // verus!
