//! The user-interrupt model-specific registers and typed views of the 64-bit
//! words they hold.
use vstd::prelude::*;

use crate::field::{
    disjoint, field_get, field_put, field_val, fits, lemma_get_or, lemma_zero, lemma_get_put,
    lemma_get_put_other, lemma_get_val, lemma_get_val_other,
};

verus! {

/// CPUID feature number of user-interrupt support.
pub const X86_FEATURE_UINTR: u32 = 18 * 32 + 5;

/// Bit of CR4 that enables user interrupts.
pub const X86_CR4_UINTR_BIT: u32 = 25;

/// CR4 mask that enables user interrupts.
pub const X86_CR4_UINTR: u32 = 1 << 25;

/// The six user-interrupt registers.
#[allow(non_camel_case_types)]
#[derive(Debug, Clone, Copy, PartialEq, Eq, Structural)]
pub enum UintrMsr {
    IA32_UINTR_RR,
    IA32_UINTR_HANDLER,
    IA32_UINTR_STACKADJUST,
    IA32_UINTR_MISC,
    IA32_UINTR_PD,
    IA32_UINTR_TT,
}

impl UintrMsr {
    pub open spec fn spec_address(self) -> u32 {
        match self {
            UintrMsr::IA32_UINTR_RR => 0x985,
            UintrMsr::IA32_UINTR_HANDLER => 0x986,
            UintrMsr::IA32_UINTR_STACKADJUST => 0x987,
            UintrMsr::IA32_UINTR_MISC => 0x988,
            UintrMsr::IA32_UINTR_PD => 0x989,
            UintrMsr::IA32_UINTR_TT => 0x98a,
        }
    }

    /// The register's number, as `rdmsr` and `wrmsr` take it.
    #[verifier::when_used_as_spec(spec_address)]
    pub fn address(self) -> (r: u32)
        ensures
            r == self.spec_address(),
    {
        match self {
            UintrMsr::IA32_UINTR_RR => 0x985,
            UintrMsr::IA32_UINTR_HANDLER => 0x986,
            UintrMsr::IA32_UINTR_STACKADJUST => 0x987,
            UintrMsr::IA32_UINTR_MISC => 0x988,
            UintrMsr::IA32_UINTR_PD => 0x989,
            UintrMsr::IA32_UINTR_TT => 0x98a,
        }
    }
}

// UISTACKADJUST: bit 0 selects the mode, bits 63:1 hold the address.
pub const STACK_MODE_SHIFT: u64 = 0;
pub const STACK_MODE_MASK: u64 = 1;
pub const STACK_ADDR_SHIFT: u64 = 1;
pub const STACK_ADDR_MASK: u64 = 0x7fff_ffff_ffff_ffff;
/// The address bits of UISTACKADJUST, in place.
pub const STACK_ADDR_BITS: u64 = 0xffff_ffff_ffff_fffe;

// IA32_UINTR_MISC: UITTSZ in bits 31:0, UINV in bits 39:32, and UIF in bit 63,
// which only the saved state holds and the register treats as reserved.
pub const MISC_UITTSZ_SHIFT: u64 = 0;
pub const MISC_UITTSZ_MASK: u64 = 0xffff_ffff;
pub const MISC_UINV_SHIFT: u64 = 32;
pub const MISC_UINV_MASK: u64 = 0xff;
pub const MISC_UIF_SHIFT: u64 = 63;
pub const MISC_UIF_MASK: u64 = 1;

// IA32_UINTR_PD: UPIDADDR in bits 63:6.
pub const PD_ADDR_SHIFT: u64 = 6;
pub const PD_ADDR_MASK: u64 = 0x03ff_ffff_ffff_ffff;
/// The address bits of IA32_UINTR_PD, in place.
pub const PD_ADDR_BITS: u64 = 0xffff_ffff_ffff_ffc0;

// IA32_UINTR_TT: SENDUIPI enable in bit 0, UITTADDR in bits 63:4.
pub const TT_SEND_ENABLED_SHIFT: u64 = 0;
pub const TT_SEND_ENABLED_MASK: u64 = 1;
pub const TT_ADDR_SHIFT: u64 = 4;
pub const TT_ADDR_MASK: u64 = 0x0fff_ffff_ffff_ffff;
/// The address bits of IA32_UINTR_TT, in place.
pub const TT_ADDR_BITS: u64 = 0xffff_ffff_ffff_fff0;

/// The field layout of the four words.
pub proof fn lemma_layout()
    by (bit_vector)
    ensures
        fits(STACK_MODE_SHIFT, STACK_MODE_MASK),
        fits(STACK_ADDR_SHIFT, STACK_ADDR_MASK),
        disjoint(STACK_MODE_SHIFT, STACK_MODE_MASK, STACK_ADDR_SHIFT, STACK_ADDR_MASK),
        STACK_ADDR_MASK << STACK_ADDR_SHIFT == STACK_ADDR_BITS,
        fits(MISC_UITTSZ_SHIFT, MISC_UITTSZ_MASK),
        fits(MISC_UINV_SHIFT, MISC_UINV_MASK),
        fits(MISC_UIF_SHIFT, MISC_UIF_MASK),
        disjoint(MISC_UITTSZ_SHIFT, MISC_UITTSZ_MASK, MISC_UINV_SHIFT, MISC_UINV_MASK),
        disjoint(MISC_UINV_SHIFT, MISC_UINV_MASK, MISC_UITTSZ_SHIFT, MISC_UITTSZ_MASK),
        disjoint(MISC_UITTSZ_SHIFT, MISC_UITTSZ_MASK, MISC_UIF_SHIFT, MISC_UIF_MASK),
        disjoint(MISC_UIF_SHIFT, MISC_UIF_MASK, MISC_UITTSZ_SHIFT, MISC_UITTSZ_MASK),
        disjoint(MISC_UINV_SHIFT, MISC_UINV_MASK, MISC_UIF_SHIFT, MISC_UIF_MASK),
        disjoint(MISC_UIF_SHIFT, MISC_UIF_MASK, MISC_UINV_SHIFT, MISC_UINV_MASK),
        fits(PD_ADDR_SHIFT, PD_ADDR_MASK),
        PD_ADDR_MASK << PD_ADDR_SHIFT == PD_ADDR_BITS,
        fits(TT_SEND_ENABLED_SHIFT, TT_SEND_ENABLED_MASK),
        fits(TT_ADDR_SHIFT, TT_ADDR_MASK),
        disjoint(TT_SEND_ENABLED_SHIFT, TT_SEND_ENABLED_MASK, TT_ADDR_SHIFT, TT_ADDR_MASK),
        TT_ADDR_MASK << TT_ADDR_SHIFT == TT_ADDR_BITS,
{
}

/// 1 for `true`, 0 for `false`.
pub open spec fn bit(b: bool) -> u64 {
    if b {
        1
    } else {
        0
    }
}

pub fn bit_of(b: bool) -> (r: u64)
    ensures
        r == bit(b),
{
    if b {
        1
    } else {
        0
    }
}

/// How user-interrupt delivery computes the stack pointer.
#[derive(Debug, Clone, Copy, PartialEq, Eq, Structural)]
pub enum StackAdjustMode {
    /// Subtract the stored value from the interrupted stack pointer.
    Subtract,
    /// Load the stored value into the stack pointer.
    Load,
}

/// UISTACKADJUST: a 63-bit address and a 1-bit mode.
#[derive(Debug, Clone, Copy, PartialEq, Eq, Structural)]
pub struct StackAdjust {
    pub value: u64,
}

impl StackAdjust {
    pub open spec fn spec_mode(&self) -> StackAdjustMode {
        if field_get(self.value, STACK_MODE_SHIFT, STACK_MODE_MASK) == 1 {
            StackAdjustMode::Load
        } else {
            StackAdjustMode::Subtract
        }
    }

    pub open spec fn spec_address(&self) -> u64 {
        self.value & STACK_ADDR_BITS
    }

    pub open spec fn mode_bit(mode: StackAdjustMode) -> u64 {
        match mode {
            StackAdjustMode::Subtract => 0,
            StackAdjustMode::Load => 1,
        }
    }

    /// The word for `addr` (its bit 0 dropped) in `mode`.
    pub fn new(addr: u64, mode: StackAdjustMode) -> (r: Self)
        ensures
            r.value == (addr & STACK_ADDR_BITS) | Self::mode_bit(mode),
            r.mode() == mode,
            r.address() == addr & STACK_ADDR_BITS,
    {
        let m: u64 = match mode {
            StackAdjustMode::Subtract => 0,
            StackAdjustMode::Load => 1,
        };
        let value = (addr & STACK_ADDR_BITS) | m;
        let a = addr;
        assert(field_get((a & 0xffff_ffff_ffff_fffe) | m, 0, 1) == m) by (bit_vector)
            requires
                m <= 1,
        ;
        assert(((a & 0xffff_ffff_ffff_fffe) | m) & 0xffff_ffff_ffff_fffe == a
            & 0xffff_ffff_ffff_fffe) by (bit_vector)
            requires
                m <= 1,
        ;
        StackAdjust { value }
    }

    #[verifier::when_used_as_spec(spec_mode)]
    pub fn mode(&self) -> (r: StackAdjustMode)
        ensures
            r == self.spec_mode(),
    {
        if crate::field::read(self.value, STACK_MODE_SHIFT, STACK_MODE_MASK) == 1 {
            StackAdjustMode::Load
        } else {
            StackAdjustMode::Subtract
        }
    }

    /// The stack pointer that delivery switches to from `rsp`: the stored
    /// value in load mode, `rsp` less the stored value (modulo 2^64) in
    /// subtract mode; either way aligned down to 16 bytes.
    pub open spec fn spec_delivery_rsp(&self, rsp: u64) -> u64 {
        (match self.mode() {
            StackAdjustMode::Load => self.value,
            StackAdjustMode::Subtract => rsp.wrapping_sub(self.value),
        }) & 0xffff_ffff_ffff_fff0
    }

    #[verifier::when_used_as_spec(spec_delivery_rsp)]
    pub fn delivery_rsp(&self, rsp: u64) -> (r: u64)
        ensures
            r == self.spec_delivery_rsp(rsp),
    {
        let base = match self.mode() {
            StackAdjustMode::Load => self.value,
            StackAdjustMode::Subtract => rsp.wrapping_sub(self.value),
        };
        base & 0xffff_ffff_ffff_fff0
    }

    /// The address, in place, with the mode bit cleared.
    #[verifier::when_used_as_spec(spec_address)]
    pub fn address(&self) -> (r: u64)
        ensures
            r == self.spec_address(),
    {
        self.value & STACK_ADDR_BITS
    }
}

/// IA32_UINTR_MISC as the saved state holds it: the target-table size, the
/// notification vector, and a copy of the user-interrupt flag in bit 63.
#[derive(Debug, Clone, Copy, PartialEq, Eq, Structural)]
pub struct Misc {
    pub value: u64,
}

impl Misc {
    pub open spec fn spec_uitt_size(&self) -> u64 {
        field_get(self.value, MISC_UITTSZ_SHIFT, MISC_UITTSZ_MASK)
    }

    pub open spec fn spec_notif_vector(&self) -> u64 {
        field_get(self.value, MISC_UINV_SHIFT, MISC_UINV_MASK)
    }

    pub open spec fn spec_uif(&self) -> bool {
        field_get(self.value, MISC_UIF_SHIFT, MISC_UIF_MASK) == 1
    }

    /// The word with the flag copy cleared, as the register takes it.
    pub open spec fn spec_hardware_value(&self) -> u64 {
        field_put(self.value, MISC_UIF_SHIFT, MISC_UIF_MASK, 0)
    }

    /// The word built from the three fields, each cut to its width.
    pub open spec fn word_of(uitt_size: u64, notif_vector: u64, uif: bool) -> u64 {
        field_val(MISC_UITTSZ_SHIFT, MISC_UITTSZ_MASK, uitt_size) | field_val(
            MISC_UINV_SHIFT,
            MISC_UINV_MASK,
            notif_vector,
        ) | field_val(MISC_UIF_SHIFT, MISC_UIF_MASK, bit(uif))
    }

    pub fn new(uitt_size: u64, notif_vector: u64, uif: bool) -> (r: Self)
        ensures
            r.value == Self::word_of(uitt_size, notif_vector, uif),
            r.uitt_size() == uitt_size & MISC_UITTSZ_MASK,
            r.notif_vector() == notif_vector & MISC_UINV_MASK,
            r.uif() == uif,
    {
        let a = crate::field::val(MISC_UITTSZ_SHIFT, MISC_UITTSZ_MASK, uitt_size);
        let b = crate::field::val(MISC_UINV_SHIFT, MISC_UINV_MASK, notif_vector);
        let c = crate::field::val(MISC_UIF_SHIFT, MISC_UIF_MASK, bit_of(uif));
        proof {
            lemma_layout();
            lemma_get_or(a | b, c, MISC_UITTSZ_SHIFT, MISC_UITTSZ_MASK);
            lemma_get_or(a, b, MISC_UITTSZ_SHIFT, MISC_UITTSZ_MASK);
            lemma_get_or(a | b, c, MISC_UINV_SHIFT, MISC_UINV_MASK);
            lemma_get_or(a, b, MISC_UINV_SHIFT, MISC_UINV_MASK);
            lemma_get_or(a | b, c, MISC_UIF_SHIFT, MISC_UIF_MASK);
            lemma_get_or(a, b, MISC_UIF_SHIFT, MISC_UIF_MASK);
            lemma_get_val(MISC_UITTSZ_SHIFT, MISC_UITTSZ_MASK, uitt_size);
            lemma_get_val(MISC_UINV_SHIFT, MISC_UINV_MASK, notif_vector);
            lemma_get_val(MISC_UIF_SHIFT, MISC_UIF_MASK, bit(uif));
            lemma_get_val_other(MISC_UINV_SHIFT, MISC_UINV_MASK, MISC_UITTSZ_SHIFT, MISC_UITTSZ_MASK, notif_vector);
            lemma_get_val_other(MISC_UIF_SHIFT, MISC_UIF_MASK, MISC_UITTSZ_SHIFT, MISC_UITTSZ_MASK, bit(uif));
            lemma_get_val_other(MISC_UITTSZ_SHIFT, MISC_UITTSZ_MASK, MISC_UINV_SHIFT, MISC_UINV_MASK, uitt_size);
            lemma_get_val_other(MISC_UIF_SHIFT, MISC_UIF_MASK, MISC_UINV_SHIFT, MISC_UINV_MASK, bit(uif));
            lemma_get_val_other(MISC_UITTSZ_SHIFT, MISC_UITTSZ_MASK, MISC_UIF_SHIFT, MISC_UIF_MASK, uitt_size);
            lemma_get_val_other(MISC_UINV_SHIFT, MISC_UINV_MASK, MISC_UIF_SHIFT, MISC_UIF_MASK, notif_vector);
            lemma_small_or(bit(uif));
            lemma_zero(uitt_size & MISC_UITTSZ_MASK, 0);
            lemma_zero(notif_vector & MISC_UINV_MASK, 0);
            lemma_zero(bit(uif), 0);
            lemma_zero(0, 0);
        }
        Misc { value: a | b | c }
    }

    /// UITTSZ: the highest valid index of the target table.
    #[verifier::when_used_as_spec(spec_uitt_size)]
    pub fn uitt_size(&self) -> (r: u64)
        ensures
            r == self.spec_uitt_size(),
    {
        crate::field::read(self.value, MISC_UITTSZ_SHIFT, MISC_UITTSZ_MASK)
    }

    /// UINV: the notification vector.
    #[verifier::when_used_as_spec(spec_notif_vector)]
    pub fn notif_vector(&self) -> (r: u64)
        ensures
            r == self.spec_notif_vector(),
    {
        crate::field::read(self.value, MISC_UINV_SHIFT, MISC_UINV_MASK)
    }

    /// The copy of the user-interrupt flag.
    #[verifier::when_used_as_spec(spec_uif)]
    pub fn uif(&self) -> (r: bool)
        ensures
            r == self.spec_uif(),
    {
        crate::field::read(self.value, MISC_UIF_SHIFT, MISC_UIF_MASK) == 1
    }

    /// The word to write to the register: the flag copy cleared, the rest kept.
    #[verifier::when_used_as_spec(spec_hardware_value)]
    pub fn hardware_value(&self) -> (r: u64)
        ensures
            r == self.spec_hardware_value(),
            field_get(r, MISC_UIF_SHIFT, MISC_UIF_MASK) == 0,
            field_get(r, MISC_UITTSZ_SHIFT, MISC_UITTSZ_MASK) == self.uitt_size(),
            field_get(r, MISC_UINV_SHIFT, MISC_UINV_MASK) == self.notif_vector(),
    {
        proof {
            lemma_layout();
            lemma_get_put(self.value, MISC_UIF_SHIFT, MISC_UIF_MASK, 0);
            lemma_zero(0, MISC_UIF_MASK);
            lemma_get_put_other(self.value, MISC_UIF_SHIFT, MISC_UIF_MASK, MISC_UITTSZ_SHIFT, MISC_UITTSZ_MASK, 0);
            lemma_get_put_other(self.value, MISC_UIF_SHIFT, MISC_UIF_MASK, MISC_UINV_SHIFT, MISC_UINV_MASK, 0);
        }
        crate::field::modify(self.value, MISC_UIF_SHIFT, MISC_UIF_MASK, 0)
    }

    pub fn set_uitt_size(&mut self, uitt_size: u64)
        ensures
            final(self).value == field_put(old(self).value, MISC_UITTSZ_SHIFT, MISC_UITTSZ_MASK, uitt_size),
            final(self).uitt_size() == uitt_size & MISC_UITTSZ_MASK,
            final(self).notif_vector() == old(self).notif_vector(),
            final(self).uif() == old(self).uif(),
    {
        proof {
            lemma_layout();
            lemma_get_put(self.value, MISC_UITTSZ_SHIFT, MISC_UITTSZ_MASK, uitt_size);
            lemma_get_put_other(self.value, MISC_UITTSZ_SHIFT, MISC_UITTSZ_MASK, MISC_UINV_SHIFT, MISC_UINV_MASK, uitt_size);
            lemma_get_put_other(self.value, MISC_UITTSZ_SHIFT, MISC_UITTSZ_MASK, MISC_UIF_SHIFT, MISC_UIF_MASK, uitt_size);
        }
        self.value = crate::field::modify(self.value, MISC_UITTSZ_SHIFT, MISC_UITTSZ_MASK, uitt_size);
    }

    pub fn set_notif_vector(&mut self, notif_vector: u64)
        ensures
            final(self).value == field_put(old(self).value, MISC_UINV_SHIFT, MISC_UINV_MASK, notif_vector),
            final(self).uitt_size() == old(self).uitt_size(),
            final(self).notif_vector() == notif_vector & MISC_UINV_MASK,
            final(self).uif() == old(self).uif(),
    {
        proof {
            lemma_layout();
            lemma_get_put(self.value, MISC_UINV_SHIFT, MISC_UINV_MASK, notif_vector);
            lemma_get_put_other(self.value, MISC_UINV_SHIFT, MISC_UINV_MASK, MISC_UITTSZ_SHIFT, MISC_UITTSZ_MASK, notif_vector);
            lemma_get_put_other(self.value, MISC_UINV_SHIFT, MISC_UINV_MASK, MISC_UIF_SHIFT, MISC_UIF_MASK, notif_vector);
        }
        self.value = crate::field::modify(self.value, MISC_UINV_SHIFT, MISC_UINV_MASK, notif_vector);
    }

    pub fn set_uif(&mut self, uif: bool)
        ensures
            final(self).value == field_put(old(self).value, MISC_UIF_SHIFT, MISC_UIF_MASK, bit(uif)),
            final(self).uitt_size() == old(self).uitt_size(),
            final(self).notif_vector() == old(self).notif_vector(),
            final(self).uif() == uif,
    {
        proof {
            lemma_layout();
            lemma_get_put(self.value, MISC_UIF_SHIFT, MISC_UIF_MASK, bit(uif));
            lemma_get_put_other(self.value, MISC_UIF_SHIFT, MISC_UIF_MASK, MISC_UITTSZ_SHIFT, MISC_UITTSZ_MASK, bit(uif));
            lemma_get_put_other(self.value, MISC_UIF_SHIFT, MISC_UIF_MASK, MISC_UINV_SHIFT, MISC_UINV_MASK, bit(uif));
            lemma_small_or(bit(uif));
        }
        self.value = crate::field::modify(self.value, MISC_UIF_SHIFT, MISC_UIF_MASK, bit_of(uif));
    }
}

proof fn lemma_small_or(b: u64)
    requires
        b <= 1,
    ensures
        b & 1 == b,
        (0u64 | b) == b,
{
    assert(b & 1 == b && (0u64 | b) == b) by (bit_vector)
        requires
            b <= 1,
    ;
}

/// IA32_UINTR_PD: the 64-byte aligned address of the posted-interrupt
/// descriptor; bits 5:0 are reserved and kept zero.
#[derive(Debug, Clone, Copy, PartialEq, Eq, Structural)]
pub struct PostDesc {
    pub value: u64,
}

impl PostDesc {
    pub open spec fn spec_address(&self) -> u64 {
        self.value & PD_ADDR_BITS
    }

    /// The word for `addr` with its reserved low bits cleared.
    pub fn new(addr: u64) -> (r: Self)
        ensures
            r.value == addr & PD_ADDR_BITS,
            r.address() == addr & PD_ADDR_BITS,
    {
        let a = addr;
        assert((a & 0xffff_ffff_ffff_ffc0) & 0xffff_ffff_ffff_ffc0 == a & 0xffff_ffff_ffff_ffc0)
            by (bit_vector);
        PostDesc { value: addr & PD_ADDR_BITS }
    }

    #[verifier::when_used_as_spec(spec_address)]
    pub fn address(&self) -> (r: u64)
        ensures
            r == self.spec_address(),
    {
        self.value & PD_ADDR_BITS
    }
}

/// IA32_UINTR_TT: the SENDUIPI enable bit and the 16-byte aligned address of
/// the target table.
#[derive(Debug, Clone, Copy, PartialEq, Eq, Structural)]
pub struct TargetTable {
    pub value: u64,
}

impl TargetTable {
    pub open spec fn spec_send_enabled(&self) -> bool {
        field_get(self.value, TT_SEND_ENABLED_SHIFT, TT_SEND_ENABLED_MASK) == 1
    }

    pub open spec fn spec_address(&self) -> u64 {
        self.value & TT_ADDR_BITS
    }

    /// The word for a table at `addr` (its low four bits dropped), with
    /// SENDUIPI enabled or not.
    pub fn new(addr: u64, send_enabled: bool) -> (r: Self)
        ensures
            r.value == bit(send_enabled) | (addr & TT_ADDR_BITS),
            r.send_enabled() == send_enabled,
            r.address() == addr & TT_ADDR_BITS,
    {
        let e = bit_of(send_enabled);
        let a = addr;
        assert(field_get(e | (a & 0xffff_ffff_ffff_fff0), 0, 1) == e) by (bit_vector)
            requires
                e <= 1,
        ;
        assert((e | (a & 0xffff_ffff_ffff_fff0)) & 0xffff_ffff_ffff_fff0 == a
            & 0xffff_ffff_ffff_fff0) by (bit_vector)
            requires
                e <= 1,
        ;
        TargetTable { value: e | (addr & TT_ADDR_BITS) }
    }

    /// Whether SENDUIPI is enabled.
    #[verifier::when_used_as_spec(spec_send_enabled)]
    pub fn send_enabled(&self) -> (r: bool)
        ensures
            r == self.spec_send_enabled(),
    {
        crate::field::read(self.value, TT_SEND_ENABLED_SHIFT, TT_SEND_ENABLED_MASK) == 1
    }

    /// The table's address, in place.
    #[verifier::when_used_as_spec(spec_address)]
    pub fn address(&self) -> (r: u64)
        ensures
            r == self.spec_address(),
    {
        self.value & TT_ADDR_BITS
    }
}

/// Clearing the flag copy and then setting it back from the flag that the
/// word held gives the word back.
pub proof fn lemma_uif_round_trip(m: u64)
    ensures
        field_put(
            field_put(m, MISC_UIF_SHIFT, MISC_UIF_MASK, 0),
            MISC_UIF_SHIFT,
            MISC_UIF_MASK,
            bit(field_get(m, MISC_UIF_SHIFT, MISC_UIF_MASK) == 1),
        ) == m,
{
    let b = field_get(m, MISC_UIF_SHIFT, MISC_UIF_MASK);
    assert(b == 0 || b == 1) by (bit_vector)
        requires
            b == field_get(m, 63, 1),
    ;
    assert(field_put(field_put(m, 63, 1, 0), 63, 1, b) == m) by (bit_vector)
        requires
            b == field_get(m, 63, 1),
    ;
}

} // verus!
