//! UPID: the user posted-interrupt descriptor of a receiving task.
use vstd::prelude::*;

use crate::field::{
    disjoint, field_get, field_put, field_val, fits, lemma_get_put, lemma_get_put_other,
};
use crate::msr::{bit, bit_of};

verus! {

// The notification-control word.
pub const UPID_ON_SHIFT: u64 = 0;
pub const UPID_ON_MASK: u64 = 1;
pub const UPID_SN_SHIFT: u64 = 1;
pub const UPID_SN_MASK: u64 = 1;
pub const UPID_NV_SHIFT: u64 = 16;
pub const UPID_NV_MASK: u64 = 0xff;
pub const UPID_NDST_SHIFT: u64 = 32;
pub const UPID_NDST_MASK: u64 = 0xffff_ffff;

pub proof fn lemma_upid_layout()
    by (bit_vector)
    ensures
        fits(UPID_ON_SHIFT, UPID_ON_MASK),
        fits(UPID_SN_SHIFT, UPID_SN_MASK),
        fits(UPID_NV_SHIFT, UPID_NV_MASK),
        fits(UPID_NDST_SHIFT, UPID_NDST_MASK),
        disjoint(UPID_ON_SHIFT, UPID_ON_MASK, UPID_SN_SHIFT, UPID_SN_MASK),
        disjoint(UPID_ON_SHIFT, UPID_ON_MASK, UPID_NV_SHIFT, UPID_NV_MASK),
        disjoint(UPID_ON_SHIFT, UPID_ON_MASK, UPID_NDST_SHIFT, UPID_NDST_MASK),
        disjoint(UPID_SN_SHIFT, UPID_SN_MASK, UPID_ON_SHIFT, UPID_ON_MASK),
        disjoint(UPID_SN_SHIFT, UPID_SN_MASK, UPID_NV_SHIFT, UPID_NV_MASK),
        disjoint(UPID_SN_SHIFT, UPID_SN_MASK, UPID_NDST_SHIFT, UPID_NDST_MASK),
{
}

/// A posted-interrupt descriptor: the notification control word and one
/// request bit for each user-interrupt vector.
#[derive(Debug, Clone, Copy, PartialEq, Eq, Structural)]
pub struct Upid {
    pub control: u64,
    /// PIR: bit `i` set when a user interrupt with vector `i` is posted.
    pub posted_uirq: u64,
}

impl Upid {
    pub open spec fn spec_outstanding(&self) -> bool {
        field_get(self.control, UPID_ON_SHIFT, UPID_ON_MASK) == 1
    }

    pub open spec fn spec_suppressed(&self) -> bool {
        field_get(self.control, UPID_SN_SHIFT, UPID_SN_MASK) == 1
    }

    pub open spec fn spec_notif_vector(&self) -> u64 {
        field_get(self.control, UPID_NV_SHIFT, UPID_NV_MASK)
    }

    pub open spec fn spec_destination(&self) -> u64 {
        field_get(self.control, UPID_NDST_SHIFT, UPID_NDST_MASK)
    }

    /// The control word built from its four fields.
    pub open spec fn control_of(
        outstanding: bool,
        suppressed: bool,
        notif_vector: u8,
        destination: u32,
    ) -> u64 {
        field_val(UPID_ON_SHIFT, UPID_ON_MASK, bit(outstanding)) | field_val(
            UPID_SN_SHIFT,
            UPID_SN_MASK,
            bit(suppressed),
        ) | field_val(UPID_NV_SHIFT, UPID_NV_MASK, notif_vector as u64) | field_val(
            UPID_NDST_SHIFT,
            UPID_NDST_MASK,
            destination as u64,
        )
    }

    /// A descriptor with the given control fields and no request posted.
    pub fn new(outstanding: bool, suppressed: bool, notif_vector: u8, destination: u32) -> (r:
        Self)
        ensures
            r.control == Self::control_of(outstanding, suppressed, notif_vector, destination),
            r.posted_uirq == 0,
            r.outstanding() == outstanding,
            r.suppressed() == suppressed,
            r.notif_vector() == notif_vector as u64,
            r.destination() == destination as u64,
    {
        let o = bit_of(outstanding);
        let s = bit_of(suppressed);
        let v = notif_vector as u64;
        let d = destination as u64;
        let control = crate::field::val(UPID_ON_SHIFT, UPID_ON_MASK, o) | crate::field::val(
            UPID_SN_SHIFT,
            UPID_SN_MASK,
            s,
        ) | crate::field::val(UPID_NV_SHIFT, UPID_NV_MASK, v) | crate::field::val(
            UPID_NDST_SHIFT,
            UPID_NDST_MASK,
            d,
        );
        assert({
            let c = ((o & 1) << 0) | ((s & 1) << 1) | ((v & 0xff) << 16) | ((d & 0xffff_ffff)
                << 32);
            &&& field_get(c, 0, 1) == o
            &&& field_get(c, 1, 1) == s
            &&& field_get(c, 16, 0xff) == v
            &&& field_get(c, 32, 0xffff_ffff) == d
        }) by (bit_vector)
            requires
                o <= 1,
                s <= 1,
                v <= 0xff,
                d <= 0xffff_ffff,
        ;
        Upid { control, posted_uirq: 0 }
    }

    /// ON: a notification is outstanding for one or more posted requests.
    #[verifier::when_used_as_spec(spec_outstanding)]
    pub fn outstanding(&self) -> (r: bool)
        ensures
            r == self.spec_outstanding(),
    {
        crate::field::read(self.control, UPID_ON_SHIFT, UPID_ON_MASK) == 1
    }

    /// SN: senders post requests without sending notifications.
    #[verifier::when_used_as_spec(spec_suppressed)]
    pub fn suppressed(&self) -> (r: bool)
        ensures
            r == self.spec_suppressed(),
    {
        crate::field::read(self.control, UPID_SN_SHIFT, UPID_SN_MASK) == 1
    }

    /// NV: the vector of the notification interrupt.
    #[verifier::when_used_as_spec(spec_notif_vector)]
    pub fn notif_vector(&self) -> (r: u64)
        ensures
            r == self.spec_notif_vector(),
    {
        crate::field::read(self.control, UPID_NV_SHIFT, UPID_NV_MASK)
    }

    /// NDST: the APIC ID that notifications go to.
    #[verifier::when_used_as_spec(spec_destination)]
    pub fn destination(&self) -> (r: u64)
        ensures
            r == self.spec_destination(),
    {
        crate::field::read(self.control, UPID_NDST_SHIFT, UPID_NDST_MASK)
    }

    /// Lets senders notify (clears SN) or stops them (sets SN); nothing else
    /// changes.
    pub fn set_notification_enabled(&mut self, enabled: bool)
        ensures
            final(self).control == field_put(
                old(self).control,
                UPID_SN_SHIFT,
                UPID_SN_MASK,
                bit(!enabled),
            ),
            final(self).suppressed() == !enabled,
            final(self).outstanding() == old(self).outstanding(),
            final(self).notif_vector() == old(self).notif_vector(),
            final(self).destination() == old(self).destination(),
            final(self).posted_uirq == old(self).posted_uirq,
    {
        proof {
            let b = bit(!enabled);
            lemma_upid_layout();
            lemma_get_put(self.control, UPID_SN_SHIFT, UPID_SN_MASK, b);
            lemma_get_put_other(self.control, UPID_SN_SHIFT, UPID_SN_MASK, UPID_ON_SHIFT, UPID_ON_MASK, b);
            lemma_get_put_other(self.control, UPID_SN_SHIFT, UPID_SN_MASK, UPID_NV_SHIFT, UPID_NV_MASK, b);
            lemma_get_put_other(self.control, UPID_SN_SHIFT, UPID_SN_MASK, UPID_NDST_SHIFT, UPID_NDST_MASK, b);
            assert(b <= 1 ==> b & 1 == b) by (bit_vector);
        }
        self.control = crate::field::modify(self.control, UPID_SN_SHIFT, UPID_SN_MASK, bit_of(!enabled));
    }

    /// Sets or clears ON; nothing else changes.
    pub fn set_outstanding_notification(&mut self, outstanding: bool)
        ensures
            final(self).control == field_put(
                old(self).control,
                UPID_ON_SHIFT,
                UPID_ON_MASK,
                bit(outstanding),
            ),
            final(self).outstanding() == outstanding,
            final(self).suppressed() == old(self).suppressed(),
            final(self).notif_vector() == old(self).notif_vector(),
            final(self).destination() == old(self).destination(),
            final(self).posted_uirq == old(self).posted_uirq,
    {
        proof {
            let b = bit(outstanding);
            lemma_upid_layout();
            lemma_get_put(self.control, UPID_ON_SHIFT, UPID_ON_MASK, b);
            lemma_get_put_other(self.control, UPID_ON_SHIFT, UPID_ON_MASK, UPID_SN_SHIFT, UPID_SN_MASK, b);
            lemma_get_put_other(self.control, UPID_ON_SHIFT, UPID_ON_MASK, UPID_NV_SHIFT, UPID_NV_MASK, b);
            lemma_get_put_other(self.control, UPID_ON_SHIFT, UPID_ON_MASK, UPID_NDST_SHIFT, UPID_NDST_MASK, b);
            assert(b <= 1 ==> b & 1 == b) by (bit_vector);
        }
        self.control = crate::field::modify(self.control, UPID_ON_SHIFT, UPID_ON_MASK, bit_of(outstanding));
    }
    /// Posts a user interrupt with vector `uintr_vector`, as SENDUIPI does:
    /// sets its request bit, and when no notification is outstanding and
    /// none is suppressed, marks one outstanding and answers that a
    /// notification interrupt must be sent.
    pub fn post(&mut self, uintr_vector: u64) -> (notify: bool)
        requires
            uintr_vector < 64,
        ensures
            final(self).posted_uirq == old(self).posted_uirq | (1u64 << uintr_vector),
            notify == (!old(self).suppressed() && !old(self).outstanding()),
            final(self).control == if notify {
                field_put(old(self).control, UPID_ON_SHIFT, UPID_ON_MASK, 1)
            } else {
                old(self).control
            },
            final(self).outstanding() == (old(self).outstanding() || notify),
            final(self).suppressed() == old(self).suppressed(),
            final(self).notif_vector() == old(self).notif_vector(),
            final(self).destination() == old(self).destination(),
    {
        self.posted_uirq = self.posted_uirq | (1u64 << uintr_vector);
        if !self.suppressed() && !self.outstanding() {
            self.set_outstanding_notification(true);
            true
        } else {
            false
        }
    }
}

} // verus!
