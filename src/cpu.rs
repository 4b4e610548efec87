//! A model of one core's user-interrupt registers: the six registers and the
//! user-interrupt flag. Saving reads such a set; restoring yields the
//! operations that write one, in the order they must be performed.
use vstd::prelude::*;

use crate::handler::UintrInfo;
use crate::msr::{StackAdjust, UintrMsr};
use vstd::std_specs::bits::axiom_u64_leading_zeros;

verus! {

/// The values of one core's user-interrupt registers and flag.
#[derive(Debug, Clone, Copy, PartialEq, Eq, Structural, Default)]
pub struct CpuState {
    pub rr: u64,
    pub handler: u64,
    pub stack_adjust: u64,
    pub misc: u64,
    pub pd: u64,
    pub tt: u64,
    /// UIF: user interrupts may be delivered.
    pub uif: bool,
}

/// One step of writing the registers.
#[derive(Debug, Clone, Copy, PartialEq, Eq, Structural)]
pub enum RegisterOp {
    /// STUI: set the user-interrupt flag.
    SetUif,
    /// CLUI: clear the user-interrupt flag.
    ClearUif,
    /// WRMSR of a value to a register.
    Write(UintrMsr, u64),
}

impl CpuState {
    pub open spec fn spec_read_msr(&self, msr: UintrMsr) -> u64 {
        match msr {
            UintrMsr::IA32_UINTR_RR => self.rr,
            UintrMsr::IA32_UINTR_HANDLER => self.handler,
            UintrMsr::IA32_UINTR_STACKADJUST => self.stack_adjust,
            UintrMsr::IA32_UINTR_MISC => self.misc,
            UintrMsr::IA32_UINTR_PD => self.pd,
            UintrMsr::IA32_UINTR_TT => self.tt,
        }
    }

    /// The state after writing `value` to `msr`.
    pub open spec fn written(self, msr: UintrMsr, value: u64) -> CpuState {
        match msr {
            UintrMsr::IA32_UINTR_RR => CpuState { rr: value, ..self },
            UintrMsr::IA32_UINTR_HANDLER => CpuState { handler: value, ..self },
            UintrMsr::IA32_UINTR_STACKADJUST => CpuState { stack_adjust: value, ..self },
            UintrMsr::IA32_UINTR_MISC => CpuState { misc: value, ..self },
            UintrMsr::IA32_UINTR_PD => CpuState { pd: value, ..self },
            UintrMsr::IA32_UINTR_TT => CpuState { tt: value, ..self },
        }
    }

    /// The state after one operation.
    pub open spec fn applied(self, op: RegisterOp) -> CpuState {
        match op {
            RegisterOp::SetUif => CpuState { uif: true, ..self },
            RegisterOp::ClearUif => CpuState { uif: false, ..self },
            RegisterOp::Write(msr, value) => self.written(msr, value),
        }
    }

    /// The state after the operations, performed first to last.
    pub open spec fn after(self, ops: Seq<RegisterOp>) -> CpuState
        decreases ops.len(),
    {
        if ops.len() == 0 {
            self
        } else {
            self.after(ops.drop_last()).applied(ops.last())
        }
    }

    /// The value that reading `msr` gives.
    #[verifier::when_used_as_spec(spec_read_msr)]
    pub fn read_msr(&self, msr: UintrMsr) -> (r: u64)
        ensures
            r == self.spec_read_msr(msr),
    {
        match msr {
            UintrMsr::IA32_UINTR_RR => self.rr,
            UintrMsr::IA32_UINTR_HANDLER => self.handler,
            UintrMsr::IA32_UINTR_STACKADJUST => self.stack_adjust,
            UintrMsr::IA32_UINTR_MISC => self.misc,
            UintrMsr::IA32_UINTR_PD => self.pd,
            UintrMsr::IA32_UINTR_TT => self.tt,
        }
    }

    /// Writes `value` to `msr`.
    pub fn write_msr(&mut self, msr: UintrMsr, value: u64)
        ensures
            *final(self) == old(self).written(msr, value),
    {
        match msr {
            UintrMsr::IA32_UINTR_RR => self.rr = value,
            UintrMsr::IA32_UINTR_HANDLER => self.handler = value,
            UintrMsr::IA32_UINTR_STACKADJUST => self.stack_adjust = value,
            UintrMsr::IA32_UINTR_MISC => self.misc = value,
            UintrMsr::IA32_UINTR_PD => self.pd = value,
            UintrMsr::IA32_UINTR_TT => self.tt = value,
        }
    }

    /// Performs one operation.
    pub fn apply(&mut self, op: RegisterOp)
        ensures
            *final(self) == old(self).applied(op),
    {
        match op {
            RegisterOp::SetUif => self.uif = true,
            RegisterOp::ClearUif => self.uif = false,
            RegisterOp::Write(msr, value) => self.write_msr(msr, value),
        }
    }

    /// Performs the operations, first to last.
    pub fn apply_all(&mut self, ops: &Vec<RegisterOp>)
        ensures
            *final(self) == old(self).after(ops@),
    {
        let ghost start = *self;
        let mut i: usize = 0;
        while i < ops.len()
            invariant
                0 <= i <= ops@.len(),
                *self == start.after(ops@.subrange(0, i as int)),
            decreases ops@.len() - i,
        {
            proof {
                assert(ops@.subrange(0, i as int + 1).drop_last() =~= ops@.subrange(0, i as int));
            }
            self.apply(ops[i]);
            i = i + 1;
        }
        assert(ops@.subrange(0, ops@.len() as int) =~= ops@);
    }
}

/// What a user-interrupt delivery hands to the handler's entry point.
#[derive(Debug, Clone, Copy, PartialEq, Eq, Structural)]
pub struct Delivery {
    /// The words pushed on the new stack.
    pub info: UintrInfo,
    /// The stack pointer after the pushes.
    pub rsp: u64,
    /// Where execution continues: the handler address.
    pub rip: u64,
}

/// `v` is the highest vector whose request bit is set in `uirr`.
pub open spec fn is_highest_request(uirr: u64, v: u64) -> bool {
    &&& v < 64
    &&& (uirr >> v) & 1 == 1
    &&& forall|j: u64| v < j < 64 ==> #[trigger] ((uirr >> j) & 1) == 0
}

/// UIRRV: the highest vector with a request pending.
pub fn highest_request(uirr: u64) -> (r: u64)
    requires
        uirr != 0,
    ensures
        is_highest_request(uirr, r),
{
    proof {
        axiom_u64_leading_zeros(uirr);
    }
    let lz = uirr.leading_zeros();
    let r = 63 - lz as u64;
    proof {
        let b = (uirr >> r) & 1;
        assert(b != 0);
        assert(b != 0 ==> b == 1) by (bit_vector)
            requires
                b == (uirr >> r) & 1,
        ;
    }
    r
}

impl CpuState {
    /// A user interrupt is delivered when UIF is set and a request is
    /// pending: the highest pending vector's request is taken, UIF is
    /// cleared, and the interrupted RIP, RFLAGS and RSP and the vector are
    /// pushed on the stack that UISTACKADJUST selects. Otherwise nothing
    /// happens and `None` comes back.
    pub fn deliver(&mut self, rsp: u64, rip: u64, rflags: u64) -> (r: Option<Delivery>)
        ensures
            r.is_some() == (old(self).uif && old(self).rr != 0),
            r.is_none() ==> *final(self) == *old(self),
            r.is_some() ==> {
                let d = r.unwrap();
                &&& is_highest_request(old(self).rr, d.info.uirr_vector)
                &&& d.info.rip == rip
                &&& d.info.rflags == rflags
                &&& d.info.rsp == rsp
                &&& d.rip == old(self).handler
                &&& d.rsp == (StackAdjust { value: old(self).stack_adjust }).delivery_rsp(
                    rsp,
                ).wrapping_sub(32)
                &&& *final(self) == (CpuState {
                    rr: old(self).rr & !(1u64 << d.info.uirr_vector),
                    uif: false,
                    ..*old(self)
                })
            },
    {
        if !self.uif || self.rr == 0 {
            return None;
        }
        let v = highest_request(self.rr);
        let top = StackAdjust { value: self.stack_adjust }.delivery_rsp(rsp);
        self.rr = self.rr & !(1u64 << v);
        self.uif = false;
        Some(
            Delivery {
                info: UintrInfo { uirr_vector: v, rip, rflags, rsp },
                rsp: top.wrapping_sub(32),
                rip: self.handler,
            },
        )
    }

    /// UIRET's effect on the flag: delivery is allowed again.
    pub fn uiret(&mut self)
        ensures
            *final(self) == (CpuState { uif: true, ..*old(self) }),
    {
        self.uif = true;
    }
}

} // verus!
