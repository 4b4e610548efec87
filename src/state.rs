//! The per-task user-interrupt state: the 48-byte image of the six registers
//! that the processor's state-save area holds, and its transfers to and from
//! a core's registers.
use vstd::prelude::*;

use crate::cpu::{CpuState, RegisterOp};
use crate::field::{field_get, field_put};
use crate::msr::{
    bit, lemma_uif_round_trip, Misc, PostDesc, StackAdjust, StackAdjustMode, TargetTable, UintrMsr, MISC_UIF_MASK,
    MISC_UIF_SHIFT, MISC_UINV_MASK, MISC_UITTSZ_MASK, PD_ADDR_BITS, STACK_ADDR_BITS,
    TT_ADDR_BITS,
};

verus! {

/// The user-interrupt state of one task.
#[derive(Debug, Clone, Copy, PartialEq, Eq, Structural)]
pub struct UintrState {
    /// UIHANDLER: the linear address that delivery loads into RIP.
    pub handler: u64,
    pub stack_adjust: StackAdjust,
    pub misc: Misc,
    pub post_desc: PostDesc,
    /// UIRR: one request bit for each of the 64 user-interrupt vectors.
    pub uirr: u64,
    pub target_table: TargetTable,
}

/// The misc word as saved from a core: the register's value with bit 63
/// standing for the core's user-interrupt flag.
pub open spec fn misc_from(cpu: CpuState) -> Misc {
    Misc { value: field_put(cpu.misc, MISC_UIF_SHIFT, MISC_UIF_MASK, bit(cpu.uif)) }
}

impl UintrState {
    /// The state after saving the sender half from `cpu`.
    pub open spec fn saved_sender(self, cpu: CpuState) -> UintrState {
        UintrState { misc: misc_from(cpu), target_table: TargetTable { value: cpu.tt }, ..self }
    }

    /// The state after saving the receiver half from `cpu`.
    pub open spec fn saved_receiver(self, cpu: CpuState) -> UintrState {
        UintrState {
            handler: cpu.handler,
            stack_adjust: StackAdjust { value: cpu.stack_adjust },
            misc: misc_from(cpu),
            post_desc: PostDesc { value: cpu.pd },
            uirr: cpu.rr,
            ..self
        }
    }

    /// The state after saving everything from `cpu`.
    pub open spec fn saved_all(self, cpu: CpuState) -> UintrState {
        UintrState {
            handler: cpu.handler,
            stack_adjust: StackAdjust { value: cpu.stack_adjust },
            misc: misc_from(cpu),
            post_desc: PostDesc { value: cpu.pd },
            uirr: cpu.rr,
            target_table: TargetTable { value: cpu.tt },
        }
    }

    /// The flag transition that restoring performs.
    pub open spec fn flag_op(self) -> RegisterOp {
        if self.misc.uif() {
            RegisterOp::SetUif
        } else {
            RegisterOp::ClearUif
        }
    }

    /// The flag transition, then the misc word with its flag copy cleared.
    pub open spec fn misc_ops(self) -> Seq<RegisterOp> {
        seq![self.flag_op(), RegisterOp::Write(UintrMsr::IA32_UINTR_MISC, self.misc.hardware_value())]
    }

    pub open spec fn restore_sender_ops(self) -> Seq<RegisterOp> {
        self.misc_ops().push(RegisterOp::Write(UintrMsr::IA32_UINTR_TT, self.target_table.value))
    }

    pub open spec fn restore_receiver_ops(self) -> Seq<RegisterOp> {
        self.misc_ops().push(RegisterOp::Write(UintrMsr::IA32_UINTR_HANDLER, self.handler)).push(
            RegisterOp::Write(UintrMsr::IA32_UINTR_STACKADJUST, self.stack_adjust.value),
        ).push(RegisterOp::Write(UintrMsr::IA32_UINTR_PD, self.post_desc.value)).push(
            RegisterOp::Write(UintrMsr::IA32_UINTR_RR, self.uirr),
        )
    }

    pub open spec fn restore_all_ops(self) -> Seq<RegisterOp> {
        self.restore_receiver_ops().push(
            RegisterOp::Write(UintrMsr::IA32_UINTR_TT, self.target_table.value),
        )
    }

    /// The state with every register zero.
    pub fn default() -> (r: Self)
        ensures
            r.handler == 0,
            r.stack_adjust.value == 0,
            r.misc.value == 0,
            r.post_desc.value == 0,
            r.uirr == 0,
            r.target_table.value == 0,
    {
        UintrState {
            handler: 0,
            stack_adjust: StackAdjust { value: 0 },
            misc: Misc { value: 0 },
            post_desc: PostDesc { value: 0 },
            uirr: 0,
            target_table: TargetTable { value: 0 },
        }
    }

    /// A state for a task that sends through the table at `uitt_addr` whose
    /// highest index is `uitt_sz`, and receives through the handler at
    /// `handler_addr` and the descriptor at `post_desc_addr`. No request is
    /// pending.
    pub fn new(
        uitt_addr: u64,
        uitt_sz: u64,
        sender_enabled: bool,
        handler_addr: u64,
        stack_addr: u64,
        stack_mode: StackAdjustMode,
        notif_vector: u64,
        receiver_enabled: bool,
        post_desc_addr: u64,
    ) -> (r: Self)
        ensures
            r.handler == handler_addr,
            r.stack_adjust.value == (stack_addr & STACK_ADDR_BITS) | StackAdjust::mode_bit(
                stack_mode,
            ),
            r.stack_adjust.mode() == stack_mode,
            r.stack_adjust.address() == stack_addr & STACK_ADDR_BITS,
            r.misc.value == Misc::word_of(uitt_sz, notif_vector, receiver_enabled),
            r.misc.uitt_size() == uitt_sz & MISC_UITTSZ_MASK,
            r.misc.notif_vector() == notif_vector & MISC_UINV_MASK,
            r.misc.uif() == receiver_enabled,
            r.post_desc.value == post_desc_addr & PD_ADDR_BITS,
            r.uirr == 0,
            r.target_table.value == bit(sender_enabled) | (uitt_addr & TT_ADDR_BITS),
            r.target_table.send_enabled() == sender_enabled,
            r.target_table.address() == uitt_addr & TT_ADDR_BITS,
    {
        UintrState {
            handler: handler_addr,
            stack_adjust: StackAdjust::new(stack_addr, stack_mode),
            misc: Misc::new(uitt_sz, notif_vector, receiver_enabled),
            post_desc: PostDesc::new(post_desc_addr),
            uirr: 0,
            target_table: TargetTable::new(uitt_addr, sender_enabled),
        }
    }

    /// Where the target table lies: its address and its number of entries,
    /// one more than the highest valid index.
    pub fn uitt_region(&self) -> (r: (u64, u64))
        ensures
            r.0 == self.target_table.address(),
            r.1 == self.misc.uitt_size() + 1,
    {
        let sz = self.misc.uitt_size();
        proof {
            let v = self.misc.value;
            assert(field_get(v, 0, 0xffff_ffff) <= 0xffff_ffff) by (bit_vector);
        }
        (self.target_table.address(), sz + 1)
    }

    /// Stores the sender half: the table's address, its size and the enable
    /// bit. Registers are not touched.
    pub fn set_sender(&mut self, uitt_addr: u64, uitt_sz: u64, enabled: bool)
        ensures
            *final(self) == (UintrState {
                misc: Misc {
                    value: field_put(
                        old(self).misc.value,
                        crate::msr::MISC_UITTSZ_SHIFT,
                        MISC_UITTSZ_MASK,
                        uitt_sz,
                    ),
                },
                target_table: TargetTable {
                    value: bit(enabled) | (uitt_addr & TT_ADDR_BITS),
                },
                ..*old(self)
            }),
            final(self).misc.uitt_size() == uitt_sz & MISC_UITTSZ_MASK,
            final(self).misc.notif_vector() == old(self).misc.notif_vector(),
            final(self).misc.uif() == old(self).misc.uif(),
            final(self).target_table.send_enabled() == enabled,
            final(self).target_table.address() == uitt_addr & TT_ADDR_BITS,
    {
        self.misc.set_uitt_size(uitt_sz);
        self.target_table = TargetTable::new(uitt_addr, enabled);
    }

    /// Stores the receiver half: handler, stack adjustment, notification
    /// vector, flag and descriptor address. Registers are not touched, and
    /// the request bits are kept.
    pub fn set_receiver(
        &mut self,
        handler_addr: u64,
        stack_addr: u64,
        stack_mode: StackAdjustMode,
        notif_vector: u64,
        enabled: bool,
        post_desc_addr: u64,
    )
        ensures
            final(self).handler == handler_addr,
            final(self).stack_adjust.value == (stack_addr & STACK_ADDR_BITS)
                | StackAdjust::mode_bit(stack_mode),
            final(self).stack_adjust.mode() == stack_mode,
            final(self).stack_adjust.address() == stack_addr & STACK_ADDR_BITS,
            final(self).misc.value == field_put(
                field_put(
                    old(self).misc.value,
                    crate::msr::MISC_UINV_SHIFT,
                    MISC_UINV_MASK,
                    notif_vector,
                ),
                MISC_UIF_SHIFT,
                MISC_UIF_MASK,
                bit(enabled),
            ),
            final(self).misc.uitt_size() == old(self).misc.uitt_size(),
            final(self).misc.notif_vector() == notif_vector & MISC_UINV_MASK,
            final(self).misc.uif() == enabled,
            final(self).post_desc.value == post_desc_addr & PD_ADDR_BITS,
            final(self).uirr == old(self).uirr,
            final(self).target_table == old(self).target_table,
    {
        self.handler = handler_addr;
        self.stack_adjust = StackAdjust::new(stack_addr, stack_mode);
        self.misc.set_notif_vector(notif_vector);
        self.misc.set_uif(enabled);
        self.post_desc = PostDesc::new(post_desc_addr);
    }

    /// Reads the misc register, taking the flag from the core's UIF rather
    /// than from the register's reserved bit.
    fn read_misc(&mut self, cpu: &CpuState)
        ensures
            *final(self) == (UintrState { misc: misc_from(*cpu), ..*old(self) }),
    {
        self.misc = Misc { value: cpu.read_msr(UintrMsr::IA32_UINTR_MISC) };
        self.misc.set_uif(cpu.uif);
    }

    /// Saves the table address, its size and the enable bit from `cpu`.
    pub fn save_sender(&mut self, cpu: &CpuState)
        ensures
            *final(self) == old(self).saved_sender(*cpu),
    {
        self.target_table = TargetTable { value: cpu.read_msr(UintrMsr::IA32_UINTR_TT) };
        self.read_misc(cpu);
    }

    /// Saves handler, stack adjustment, misc word with the flag, descriptor
    /// address and request bits from `cpu`.
    pub fn save_receiver(&mut self, cpu: &CpuState)
        ensures
            *final(self) == old(self).saved_receiver(*cpu),
    {
        self.handler = cpu.read_msr(UintrMsr::IA32_UINTR_HANDLER);
        self.stack_adjust = StackAdjust { value: cpu.read_msr(UintrMsr::IA32_UINTR_STACKADJUST) };
        self.read_misc(cpu);
        self.post_desc = PostDesc { value: cpu.read_msr(UintrMsr::IA32_UINTR_PD) };
        self.uirr = cpu.read_msr(UintrMsr::IA32_UINTR_RR);
    }

    /// Saves the whole state from `cpu`.
    pub fn save_all(&mut self, cpu: &CpuState)
        ensures
            *final(self) == old(self).saved_all(*cpu),
    {
        self.handler = cpu.read_msr(UintrMsr::IA32_UINTR_HANDLER);
        self.stack_adjust = StackAdjust { value: cpu.read_msr(UintrMsr::IA32_UINTR_STACKADJUST) };
        self.read_misc(cpu);
        self.post_desc = PostDesc { value: cpu.read_msr(UintrMsr::IA32_UINTR_PD) };
        self.uirr = cpu.read_msr(UintrMsr::IA32_UINTR_RR);
        self.target_table = TargetTable { value: cpu.read_msr(UintrMsr::IA32_UINTR_TT) };
    }

    /// Appends the flag transition and then the misc word, flag copy cleared.
    fn write_misc(&self, ops: &mut Vec<RegisterOp>)
        ensures
            final(ops)@ == old(ops)@ + self.misc_ops(),
    {
        if self.misc.uif() {
            ops.push(RegisterOp::SetUif);
        } else {
            ops.push(RegisterOp::ClearUif);
        }
        ops.push(RegisterOp::Write(UintrMsr::IA32_UINTR_MISC, self.misc.hardware_value()));
        assert(ops@ =~= old(ops)@ + self.misc_ops());
    }

    /// The writes that restore the sender half, in order.
    pub fn restore_sender(&self) -> (r: Vec<RegisterOp>)
        ensures
            r@ == self.restore_sender_ops(),
    {
        let mut ops: Vec<RegisterOp> = Vec::new();
        self.write_misc(&mut ops);
        ops.push(RegisterOp::Write(UintrMsr::IA32_UINTR_TT, self.target_table.value));
        assert(ops@ =~= self.restore_sender_ops());
        ops
    }

    /// The writes that restore the receiver half, in order.
    pub fn restore_receiver(&self) -> (r: Vec<RegisterOp>)
        ensures
            r@ == self.restore_receiver_ops(),
    {
        let mut ops: Vec<RegisterOp> = Vec::new();
        self.write_misc(&mut ops);
        ops.push(RegisterOp::Write(UintrMsr::IA32_UINTR_HANDLER, self.handler));
        ops.push(RegisterOp::Write(UintrMsr::IA32_UINTR_STACKADJUST, self.stack_adjust.value));
        ops.push(RegisterOp::Write(UintrMsr::IA32_UINTR_PD, self.post_desc.value));
        ops.push(RegisterOp::Write(UintrMsr::IA32_UINTR_RR, self.uirr));
        assert(ops@ =~= self.restore_receiver_ops());
        ops
    }

    /// The writes that restore the whole state, in order.
    pub fn restore_all(&self) -> (r: Vec<RegisterOp>)
        ensures
            r@ == self.restore_all_ops(),
    {
        let mut ops: Vec<RegisterOp> = Vec::new();
        self.write_misc(&mut ops);
        ops.push(RegisterOp::Write(UintrMsr::IA32_UINTR_HANDLER, self.handler));
        ops.push(RegisterOp::Write(UintrMsr::IA32_UINTR_STACKADJUST, self.stack_adjust.value));
        ops.push(RegisterOp::Write(UintrMsr::IA32_UINTR_PD, self.post_desc.value));
        ops.push(RegisterOp::Write(UintrMsr::IA32_UINTR_RR, self.uirr));
        ops.push(RegisterOp::Write(UintrMsr::IA32_UINTR_TT, self.target_table.value));
        assert(ops@ =~= self.restore_all_ops());
        ops
    }
}

/// Restoring a state to a core and saving it back from that core gives the
/// same state, for each of the three halves, whatever the core held before.
pub proof fn lemma_restore_then_save(s: UintrState, cpu: CpuState)
    ensures
        s.saved_sender(cpu.after(s.restore_sender_ops())) == s,
        s.saved_receiver(cpu.after(s.restore_receiver_ops())) == s,
        s.saved_all(cpu.after(s.restore_all_ops())) == s,
{
    reveal_with_fuel(CpuState::after, 8);
    lemma_uif_round_trip(s.misc.value);
    let c1 = cpu.after(s.restore_sender_ops());
    let c2 = cpu.after(s.restore_receiver_ops());
    let c3 = cpu.after(s.restore_all_ops());
    assert(s.restore_sender_ops().drop_last() =~= s.misc_ops());
    assert(s.misc_ops().drop_last() =~= seq![s.flag_op()]);
    assert(seq![s.flag_op()].drop_last() =~= Seq::<RegisterOp>::empty());
    assert(s.restore_receiver_ops().drop_last().drop_last().drop_last().drop_last()
        =~= s.misc_ops());
    assert(s.restore_all_ops().drop_last() =~= s.restore_receiver_ops());
    assert(misc_from(c1) == s.misc);
    assert(misc_from(c2) == s.misc);
    assert(misc_from(c3) == s.misc);
}

/// Every restore writes the misc register with the flag copy cleared, after
/// setting the core's flag from that copy; the flag then equals the copy.
pub proof fn lemma_restore_clears_flag_copy(s: UintrState, cpu: CpuState)
    ensures
        forall|i: int|
            0 <= i < s.restore_sender_ops().len() ==> misc_write_clear(
                #[trigger] s.restore_sender_ops()[i],
            ),
        forall|i: int|
            0 <= i < s.restore_receiver_ops().len() ==> misc_write_clear(
                #[trigger] s.restore_receiver_ops()[i],
            ),
        forall|i: int|
            0 <= i < s.restore_all_ops().len() ==> misc_write_clear(
                #[trigger] s.restore_all_ops()[i],
            ),
        field_get(cpu.after(s.restore_all_ops()).misc, MISC_UIF_SHIFT, MISC_UIF_MASK) == 0,
        cpu.after(s.restore_all_ops()).uif == s.misc.uif(),
        cpu.after(s.restore_sender_ops()).uif == s.misc.uif(),
        cpu.after(s.restore_receiver_ops()).uif == s.misc.uif(),
{
    reveal_with_fuel(CpuState::after, 8);
    crate::msr::lemma_layout();
    crate::field::lemma_get_put(s.misc.value, MISC_UIF_SHIFT, MISC_UIF_MASK, 0);
    crate::field::lemma_zero(0, MISC_UIF_MASK);
    assert(misc_write_clear(s.flag_op()));
    assert(s.restore_sender_ops().drop_last() =~= s.misc_ops());
    assert(s.misc_ops().drop_last() =~= seq![s.flag_op()]);
    assert(seq![s.flag_op()].drop_last() =~= Seq::<RegisterOp>::empty());
    assert(s.restore_receiver_ops().drop_last().drop_last().drop_last().drop_last()
        =~= s.misc_ops());
    assert(s.restore_all_ops().drop_last() =~= s.restore_receiver_ops());
}

/// The operation writes the misc register only with the flag copy clear.
pub open spec fn misc_write_clear(op: RegisterOp) -> bool {
    match op {
        RegisterOp::Write(UintrMsr::IA32_UINTR_MISC, v) => field_get(
            v,
            MISC_UIF_SHIFT,
            MISC_UIF_MASK,
        ) == 0,
        _ => true,
    }
}

} // verus!
