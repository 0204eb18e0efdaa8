use crate::cc::{lemma_ceil_div, CallingConventionCommon, CcError, Location, ReturnAddress};
use crate::codec::{byte_range, lemma_word_round_trip, word_bytes};
use crate::machine::{range_mapped, read_range, write_range};
use vstd::prelude::*;

verus! {

/// A slot that falls on an argument register reads that register, whatever width is asked.
pub proof fn lemma_register_slot(
    cc: CallingConventionCommon,
    regs: Map<i32, u64>,
    mem: Map<u64, u8>,
    slot: nat,
)
    requires
        cc.wf(),
        cc.consumed + slot < cc.arg_regs@.len(),
    ensures
        ({
            let id = cc.arg_regs@[cc.consumed + slot];
            &&& cc.slot_location((cc.consumed + slot) as nat) == Some(Location::Register(id))
            &&& regs.contains_key(id) ==> cc.param_read(regs, mem, slot) == Ok::<u64, CcError>(regs[id])
        }),
{
}

/// A slot past the argument registers reads the pointer-sized word at
/// `(index - register slots + shadow words + return-address word) * pointer size` bytes
/// above the stack pointer.
pub proof fn lemma_stack_slot(cc: CallingConventionCommon, regs: Map<i32, u64>, mem: Map<u64, u8>, slot: nat)
    requires
        cc.wf(),
        cc.arg_regs@.len() <= cc.consumed + slot < cc.total_slots(),
    ensures
        ({
            let off = ((cc.consumed + slot - cc.arg_regs@.len()) + cc.shadow + cc.ret_addr_words())
                * cc.pointer_size;
            &&& cc.slot_location((cc.consumed + slot) as nat) == Some(Location::Stack(off as u64))
            &&& cc.param_read(regs, mem, slot) == cc.read_stack(regs, mem, off as nat)
        }),
{
    let k = cc.consumed + slot;
    let w = (k - cc.arg_regs@.len()) + cc.shadow + cc.ret_addr_words();
    assert(w * cc.pointer_size <= w * 8) by (nonlinear_arith)
        requires
            cc.pointer_size <= 8,
            w >= 0,
    ;
}

proof fn lemma_read_back(mem: Map<u64, u8>, addr: int, data: Seq<u8>)
    requires
        range_mapped(mem, addr, data.len() as int),
    ensures
        range_mapped(write_range(mem, addr, data), addr, data.len() as int),
        read_range(write_range(mem, addr, data), addr, data.len() as int) =~= data,
{
    let m2 = write_range(mem, addr, data);
    assert forall|i: int| 0 <= i < data.len() implies #[trigger] m2.contains_key((addr + i) as u64) by {
        assert(mem.contains_key((addr + i) as u64));
    }
}

/// Writing a value that fits in one pointer-sized word to a slot and reading the slot back
/// gives the value.
pub proof fn lemma_set_get_round_trip(
    cc: CallingConventionCommon,
    regs: Map<i32, u64>,
    mem: Map<u64, u8>,
    slot: nat,
    v: u64,
)
    requires
        cc.wf(),
        cc.param_write(regs, mem, slot, v) is Ok,
        v < byte_range(cc.pointer_size as nat),
    ensures
        ({
            let (regs2, mem2) = cc.param_write(regs, mem, slot, v)->Ok_0;
            cc.param_read(regs2, mem2, slot) == Ok::<u64, CcError>(v)
        }),
{
    let k = (cc.consumed + slot) as nat;
    if k >= cc.arg_regs@.len() {
        lemma_stack_slot(cc, regs, mem, slot);
        let loc = cc.slot_location(k)->Some_0;
        let off = loc->Stack_0 as nat;
        let addr = regs[cc.sp_reg] + off;
        let data = word_bytes(v as nat, cc.pointer_size as nat, cc.endian);
        lemma_word_round_trip(v as nat, cc.pointer_size as nat, cc.endian);
        lemma_read_back(mem, addr, data);
    }
    vstd::arithmetic::div_mod::lemma_small_mod(v as nat, byte_range(cc.pointer_size as nat));
}

/// Beyond the last addressable slot every read fails with `InvalidSlot`.
pub proof fn lemma_slot_out_of_range(cc: CallingConventionCommon, regs: Map<i32, u64>, mem: Map<u64, u8>, slot: nat)
    requires
        cc.wf(),
        cc.consumed + slot >= cc.total_slots(),
    ensures
        cc.param_read(regs, mem, slot) == Err::<u64, CcError>(CcError::InvalidSlot),
        cc.param_write(regs, mem, slot, 0) == Err::<(Map<i32, u64>, Map<u64, u8>), CcError>(CcError::InvalidSlot),
{
}

/// The slot count of an argument never shrinks as the argument widens, and an argument no
/// wider than a pointer takes one slot.
pub proof fn lemma_num_slots_monotonic(cc: CallingConventionCommon, w1: nat, w2: nat)
    requires
        cc.wf(),
        w1 <= w2,
    ensures
        cc.num_slots(w1) <= cc.num_slots(w2),
        w2 <= cc.pointer_size * 8 ==> cc.num_slots(w2) == 1,
{
    let unit = (cc.pointer_size * 8) as nat;
    lemma_ceil_div(w2, unit);
    vstd::arithmetic::div_mod::lemma_div_is_ordered(
        (w1 + unit - 1) as int,
        (w2 + unit - 1) as int,
        unit as int,
    );
}

/// Reserving `n` slots and then reading slot `j` reads what slot `n + j` was before.
pub proof fn lemma_reserve_shifts_slots(
    cc: CallingConventionCommon,
    regs: Map<i32, u64>,
    mem: Map<u64, u8>,
    n: nat,
    j: nat,
)
    requires
        cc.wf(),
        cc.consumed + n <= cc.total_slots(),
    ensures
        cc.advanced(n).wf(),
        cc.advanced(n).param_read(regs, mem, j) == cc.param_read(regs, mem, n + j),
        cc.advanced(n).param_read(regs, mem, 0) == cc.param_read(regs, mem, n),
{
    assert(cc.advanced(n).consumed + j == cc.consumed + (n + j));
}

/// With a link register, unwinding returns that register and leaves the registers as they
/// are, whatever number of slots the call took.
pub proof fn lemma_unwind_link_register(
    cc: CallingConventionCommon,
    regs: Map<i32, u64>,
    mem: Map<u64, u8>,
    id: i32,
    n: nat,
)
    requires
        cc.wf(),
        cc.ret_addr == ReturnAddress::LinkRegister(id),
        regs.contains_key(id),
    ensures
        cc.unwound(regs, mem, n) == Ok::<(u64, Map<i32, u64>), CcError>((regs[id], regs)),
        cc.unwound(regs, mem, n) == cc.unwound(regs, mem, 0),
{
}

/// With the return address on the stack, unwinding a call that took `n` slots returns the
/// word at the stack pointer and raises the stack pointer past that word and the call's
/// stack arguments: by `(1 + max(0, n - register slots)) * pointer size` bytes.
pub proof fn lemma_unwind_on_stack(
    cc: CallingConventionCommon,
    regs: Map<i32, u64>,
    mem: Map<u64, u8>,
    n: nat,
    v: u64,
)
    requires
        cc.wf(),
        cc.ret_addr == ReturnAddress::OnStack,
        n <= cc.total_slots(),
        cc.read_stack(regs, mem, 0) == Ok::<u64, CcError>(v),
        regs[cc.sp_reg] + cc.frame_size(n) <= u64::MAX,
    ensures
        cc.frame_size(n) == (1 + (if n > cc.arg_regs@.len() {
            n - cc.arg_regs@.len()
        } else {
            0
        })) * cc.pointer_size,
        cc.unwound(regs, mem, n) == Ok::<(u64, Map<i32, u64>), CcError>(
            (v, regs.insert(cc.sp_reg, (regs[cc.sp_reg] + cc.frame_size(n)) as u64)),
        ),
{
}

} // verus!
