//! The user-interrupt flag instructions, on the model of a core.
use vstd::prelude::*;

use crate::cpu::CpuState;
use crate::field::field_get;
use crate::uitte::UittEntry;
use crate::upid::Upid;

verus! {

/// TESTUI: whether user-interrupt delivery is enabled on the core.
pub fn uirqs_enabled(cpu: &CpuState) -> (r: bool)
    ensures
        r == cpu.uif,
{
    cpu.uif
}

/// CLUI: blocks user-interrupt delivery; nothing else changes.
pub fn disable_uirqs(cpu: &mut CpuState)
    ensures
        *final(cpu) == (CpuState { uif: false, ..*old(cpu) }),
{
    cpu.uif = false;
}

/// STUI: allows user-interrupt delivery; nothing else changes.
pub fn enable_uirqs(cpu: &mut CpuState)
    ensures
        *final(cpu) == (CpuState { uif: true, ..*old(cpu) }),
{
    cpu.uif = true;
}

/// The notification interrupt that a send asks for.
#[derive(Debug, Clone, Copy, PartialEq, Eq, Structural)]
pub struct Notification {
    /// The ordinary interrupt vector to send.
    pub vector: u64,
    /// The APIC ID to send it to.
    pub destination: u64,
}

/// SENDUIPI on the sender's target table: posts the vector of entry `index`
/// in `upid`, the descriptor that the entry addresses, and returns the
/// notification to send, if any. The index must be in the table and its
/// entry valid.
pub fn send_uipi(uitt: &Vec<UittEntry>, index: usize, upid: &mut Upid) -> (r: Option<
    Notification,
>)
    requires
        index < uitt@.len(),
        uitt@[index as int].is_valid(),
    ensures
        final(upid).posted_uirq == old(upid).posted_uirq | (1u64
            << uitt@[index as int].uintr_vector()),
        final(upid).suppressed() == old(upid).suppressed(),
        final(upid).notif_vector() == old(upid).notif_vector(),
        final(upid).destination() == old(upid).destination(),
        final(upid).outstanding() == (old(upid).outstanding() || !old(upid).suppressed()),
        r == if !old(upid).suppressed() && !old(upid).outstanding() {
            Some(
                Notification {
                    vector: old(upid).notif_vector(),
                    destination: old(upid).destination(),
                },
            )
        } else {
            None
        },
{
    let v = uitt[index].uintr_vector();
    proof {
        assert(v == field_get(uitt@[index as int].state, 8, 0x3f));
        let st = uitt@[index as int].state;
        assert(field_get(st, 8, 0x3f) < 64) by (bit_vector);
    }
    if upid.post(v) {
        Some(Notification { vector: upid.notif_vector(), destination: upid.destination() })
    } else {
        None
    }
}

} // verus!
