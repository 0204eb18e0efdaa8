use omo::{
    decode_word, encode_word, Arch, ArchMIPS, ArchT, CallingConventionCommon, CcError, CoreFault,
    Endian, ExecCore, FlatMachine, Location, ReturnAddress, MIPS, MIPS_REG_A0, MIPS_REG_A1,
    MIPS_REG_A2, MIPS_REG_A3, MIPS_REG_PC, MIPS_REG_RA, MIPS_REG_SP, MIPS_REG_V0, MODE_32,
    MODE_64, MODE_BIG_ENDIAN, MODE_LITTLE_ENDIAN,
};

const STACK_BASE: u64 = 0x7000;

fn machine_with_stack(sp: u64) -> FlatMachine {
    let mut m = FlatMachine::new(40, STACK_BASE, 0x100);
    m.reg_write(MIPS_REG_SP, sp).unwrap();
    m
}

#[test]
fn six_arguments_round_trip_on_mips32() {
    let mips = MIPS::new(ArchMIPS::default());
    let mut m = machine_with_stack(STACK_BASE);
    for (slot, v) in [1u64, 2, 3, 4, 5, 6].iter().enumerate() {
        mips.set_raw_param(&mut m, slot as u64, *v, None).unwrap();
    }
    assert_eq!(m.reg_read(MIPS_REG_A0), Ok(1));
    assert_eq!(m.reg_read(MIPS_REG_A1), Ok(2));
    assert_eq!(m.reg_read(MIPS_REG_A2), Ok(3));
    assert_eq!(m.reg_read(MIPS_REG_A3), Ok(4));
    assert_eq!(m.mem_read(STACK_BASE + 16, 4), Ok(vec![0, 0, 0, 5]));
    assert_eq!(m.mem_read(STACK_BASE + 20, 4), Ok(vec![0, 0, 0, 6]));
    let back: Vec<u64> = (0..6).map(|s| mips.get_raw_param(&m, s, Some(32)).unwrap()).collect();
    assert_eq!(back, vec![1, 2, 3, 4, 5, 6]);
}

#[test]
fn slot_locations_on_mips32() {
    let mips = MIPS::new(ArchMIPS::default());
    assert_eq!(mips.cc.resolve(0), Ok(Location::Register(MIPS_REG_A0)));
    assert_eq!(mips.cc.resolve(3), Ok(Location::Register(MIPS_REG_A3)));
    assert_eq!(mips.cc.resolve(4), Ok(Location::Stack(16)));
    assert_eq!(mips.cc.resolve(5), Ok(Location::Stack(20)));
    assert_eq!(mips.cc.resolve(15), Ok(Location::Stack(60)));
    assert_eq!(mips.cc.resolve(16), Err(CcError::InvalidSlot));
}

#[test]
fn slot_locations_on_mips64_use_eight_byte_words() {
    let mips = MIPS::new(ArchMIPS::new(false, Endian::Little));
    assert_eq!(mips.cc.resolve(4), Ok(Location::Stack(32)));
    assert_eq!(mips.cc.resolve(5), Ok(Location::Stack(40)));
}

#[test]
fn return_value_round_trip() {
    let mips = MIPS::new(ArchMIPS::default());
    let mut m = machine_with_stack(STACK_BASE);
    mips.set_return_value(&mut m, 0xdead).unwrap();
    assert_eq!(mips.get_return_value(&m), Ok(0xdead));
    assert_eq!(m.reg_read(MIPS_REG_V0), Ok(0xdead));
}

#[test]
fn unwind_returns_link_register_whatever_the_slot_count() {
    let mips = MIPS::new(ArchMIPS::default());
    let mut m = machine_with_stack(STACK_BASE);
    m.reg_write(MIPS_REG_RA, 0x40_1234).unwrap();
    assert_eq!(mips.unwind(&mut m, 6), Ok(0x40_1234));
    assert_eq!(mips.unwind(&mut m, 0), Ok(0x40_1234));
    assert_eq!(m.reg_read(MIPS_REG_SP), Ok(STACK_BASE));
}

#[test]
fn set_return_address_writes_link_register() {
    let mips = MIPS::new(ArchMIPS::default());
    let mut m = machine_with_stack(STACK_BASE);
    mips.set_return_address(&mut m, 0x8000_0010).unwrap();
    assert_eq!(m.reg_read(MIPS_REG_RA), Ok(0x8000_0010));
}

#[test]
fn far_slot_is_invalid() {
    let mips = MIPS::new(ArchMIPS::default());
    let mut m = FlatMachine::new(40, STACK_BASE, 0x10);
    m.reg_write(MIPS_REG_SP, STACK_BASE).unwrap();
    assert_eq!(mips.get_raw_param(&m, 1000, None), Err(CcError::InvalidSlot));
    assert_eq!(mips.set_raw_param(&mut m, 1000, 7, None), Err(CcError::InvalidSlot));
}

#[test]
fn unmapped_stack_slot_is_an_access_failure() {
    let mips = MIPS::new(ArchMIPS::default());
    let mut m = FlatMachine::new(40, STACK_BASE, 0x10);
    m.reg_write(MIPS_REG_SP, STACK_BASE).unwrap();
    assert_eq!(
        mips.get_raw_param(&m, 5, None),
        Err(CcError::UnderlyingAccessFailure(CoreFault::UnmappedMemory))
    );
}

#[test]
fn missing_register_is_an_access_failure() {
    let mips = MIPS::new(ArchMIPS::default());
    let m = FlatMachine::new(8, STACK_BASE, 0x100);
    assert_eq!(
        mips.get_raw_param(&m, 4, None),
        Err(CcError::UnderlyingAccessFailure(CoreFault::InvalidRegister))
    );
    assert_eq!(
        mips.get_return_value(&m),
        Ok(0)
    );
    assert_eq!(
        mips.get_raw_param(&m, 3, None),
        Err(CcError::UnderlyingAccessFailure(CoreFault::InvalidRegister))
    );
}

#[test]
fn stack_address_overflow_is_invalid_slot() {
    let mips = MIPS::new(ArchMIPS::default());
    let m = machine_with_stack(u64::MAX - 8);
    assert_eq!(mips.get_raw_param(&m, 4, None), Err(CcError::InvalidSlot));
}

#[test]
fn reserve_shifts_the_cursor() {
    let mut mips = MIPS::new(ArchMIPS::default());
    let mut m = machine_with_stack(STACK_BASE);
    for s in 0..8u64 {
        mips.set_raw_param(&mut m, s, 100 + s, None).unwrap();
    }
    let fresh = mips.get_raw_param(&m, 5, None);
    mips.reserve(5).unwrap();
    assert_eq!(mips.get_raw_param(&m, 0, None), fresh);
    assert_eq!(mips.get_raw_param(&m, 0, None), Ok(105));
    assert_eq!(mips.reserve(12), Err(CcError::InvalidSlot));
    assert_eq!(mips.reserve(11), Ok(()));
    assert_eq!(mips.get_raw_param(&m, 0, None), Err(CcError::InvalidSlot));
}

#[test]
fn num_slots_rounds_up() {
    let m32 = MIPS::new(ArchMIPS::default());
    assert_eq!(m32.get_num_slots(0), 1);
    assert_eq!(m32.get_num_slots(8), 1);
    assert_eq!(m32.get_num_slots(32), 1);
    assert_eq!(m32.get_num_slots(33), 2);
    assert_eq!(m32.get_num_slots(64), 2);
    assert_eq!(m32.get_num_slots(65), 3);
    let m64 = MIPS::new(ArchMIPS::new(false, Endian::Big));
    assert_eq!(m64.get_num_slots(64), 1);
    assert_eq!(m64.get_num_slots(128), 2);
}

#[test]
fn stack_word_is_truncated_to_pointer_size() {
    let mips = MIPS::new(ArchMIPS::default());
    let mut m = machine_with_stack(STACK_BASE);
    mips.set_raw_param(&mut m, 4, 0x1_2345_6789, None).unwrap();
    assert_eq!(mips.get_raw_param(&m, 4, None), Ok(0x2345_6789));
}

#[test]
fn little_endian_stack_words() {
    let mips = MIPS::new(ArchMIPS::new(true, Endian::Little));
    let mut m = machine_with_stack(STACK_BASE);
    mips.set_raw_param(&mut m, 4, 0x0102_0304, None).unwrap();
    assert_eq!(m.mem_read(STACK_BASE + 16, 4), Ok(vec![4, 3, 2, 1]));
    assert_eq!(mips.get_raw_param(&m, 4, None), Ok(0x0102_0304));
}

fn stack_return_convention() -> CallingConventionCommon {
    CallingConventionCommon::new(0, vec![1, 2], 4, 0, ReturnAddress::OnStack, 8, 5, Endian::Little)
}

#[test]
fn return_address_on_stack_pops_frame() {
    let cc = stack_return_convention();
    let mut m = FlatMachine::new(8, STACK_BASE, 0x100);
    m.reg_write(5, STACK_BASE).unwrap();
    cc.set_return_address(&mut m, 0x1122_3344_5566_7788).unwrap();
    assert_eq!(cc.resolve(2), Ok(Location::Stack(8)));
    assert_eq!(cc.unwind(&mut m, 3), Ok(0x1122_3344_5566_7788));
    assert_eq!(m.reg_read(5), Ok(STACK_BASE + 16));
}

#[test]
fn stack_return_frame_grows_with_stack_arguments() {
    let cc = stack_return_convention();
    for (n, sp_after) in [(0u64, 8u64), (2, 8), (3, 16), (6, 40)] {
        let mut m = FlatMachine::new(8, STACK_BASE, 0x100);
        m.reg_write(5, STACK_BASE).unwrap();
        assert_eq!(cc.unwind(&mut m, n), Ok(0));
        assert_eq!(m.reg_read(5), Ok(STACK_BASE + sp_after));
    }
    let mut m = FlatMachine::new(8, STACK_BASE, 0x100);
    m.reg_write(5, STACK_BASE).unwrap();
    assert_eq!(cc.unwind(&mut m, 7), Err(CcError::InvalidSlot));
    assert_eq!(m.reg_read(5), Ok(STACK_BASE));
}

#[test]
fn register_writes_keep_pointer_width() {
    let mips = MIPS::new(ArchMIPS::default());
    let mut m = machine_with_stack(STACK_BASE);
    mips.set_return_value(&mut m, 0x1_0000_0001).unwrap();
    assert_eq!(mips.get_return_value(&m), Ok(1));
    mips.set_raw_param(&mut m, 0, 0xffff_ffff_dead_beef, None).unwrap();
    assert_eq!(mips.get_raw_param(&m, 0, None), Ok(0xdead_beef));
    let mips64 = MIPS::new(ArchMIPS::new(false, Endian::Big));
    mips64.set_return_value(&mut m, 0x1_0000_0001).unwrap();
    assert_eq!(mips64.get_return_value(&m), Ok(0x1_0000_0001));
}

#[test]
fn undefined_return_address_is_unsupported() {
    let cc = CallingConventionCommon::new(
        0,
        vec![1],
        0,
        0,
        ReturnAddress::Undefined,
        4,
        5,
        Endian::Big,
    );
    let mut m = FlatMachine::new(8, STACK_BASE, 0x100);
    assert_eq!(cc.set_return_address(&mut m, 1), Err(CcError::UnsupportedOperation));
    assert_eq!(cc.unwind(&mut m, 0), Err(CcError::UnsupportedOperation));
}

#[test]
fn mips_descriptor() {
    let be32 = ArchMIPS::default();
    assert_eq!(be32.pointer_size(), 4);
    assert_eq!(ArchT::endian(&be32), Endian::Big);
    assert_eq!(be32.mode().bits, MODE_32 | MODE_BIG_ENDIAN);
    assert_eq!(be32.mode().bits, 0x4000_0004);
    assert_eq!(be32.arch(), Arch::Mips);
    assert_eq!(be32.pc_reg_id(), MIPS_REG_PC);
    assert_eq!(be32.sp_reg_id(), MIPS_REG_SP);
    let le64 = MIPS::new(ArchMIPS::new(false, Endian::Little));
    assert_eq!(le64.pointersize(), 8);
    assert_eq!(le64.endian(), Endian::Little);
    assert_eq!(ArchT::mode(&le64).bits, MODE_64 | MODE_LITTLE_ENDIAN);
    assert_eq!(ArchT::pointer_size(&le64), 8);
}

#[test]
fn word_codec() {
    assert_eq!(encode_word(0x0102_0304, 4, Endian::Big), vec![1, 2, 3, 4]);
    assert_eq!(encode_word(0x0102_0304, 4, Endian::Little), vec![4, 3, 2, 1]);
    assert_eq!(decode_word(&[1, 2, 3, 4], Endian::Big), 0x0102_0304);
    assert_eq!(decode_word(&[1, 2, 3, 4], Endian::Little), 0x0403_0201);
    assert_eq!(decode_word(&[0xff; 8], Endian::Little), u64::MAX);
    assert_eq!(decode_word(&[], Endian::Big), 0);
}

#[test]
fn missing_return_and_link_registers_are_access_failures() {
    let mips = MIPS::new(ArchMIPS::default());
    let mut m = FlatMachine::new(4, STACK_BASE, 0x100);
    assert_eq!(
        mips.set_return_value(&mut m, 0xdead),
        Err(CcError::UnderlyingAccessFailure(CoreFault::InvalidRegister))
    );
    assert_eq!(
        mips.set_return_address(&mut m, 0x10),
        Err(CcError::UnderlyingAccessFailure(CoreFault::InvalidRegister))
    );
    assert_eq!(
        mips.unwind(&mut m, 2),
        Err(CcError::UnderlyingAccessFailure(CoreFault::InvalidRegister))
    );
}

#[test]
fn two_byte_pointer_binding() {
    let cc = CallingConventionCommon::new(
        0,
        vec![1],
        3,
        1,
        ReturnAddress::OnStack,
        2,
        5,
        Endian::Big,
    );
    let mut m = FlatMachine::new(8, STACK_BASE, 0x100);
    m.reg_write(5, STACK_BASE).unwrap();
    assert_eq!(cc.resolve(1), Ok(Location::Stack(4)));
    assert_eq!(cc.get_num_slots(17), 2);
    cc.set_raw_param(&mut m, 1, 0xabcd, None).unwrap();
    assert_eq!(m.mem_read(STACK_BASE + 4, 2), Ok(vec![0xab, 0xcd]));
    assert_eq!(cc.get_raw_param(&m, 1, None), Ok(0xabcd));
}
