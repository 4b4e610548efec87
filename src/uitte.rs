//! UITTE: an entry of the user-interrupt target table that SENDUIPI reads.
use vstd::prelude::*;

use crate::field::{
    disjoint, field_get, field_put, field_val, fits, lemma_get_put, lemma_get_put_other,
};
use crate::msr::{bit, bit_of, PostDesc, PD_ADDR_BITS};

verus! {

// The entry's first word: the valid bit in bit 0, the vector in bits 13:8.
pub const UITTE_VALID_SHIFT: u64 = 0;
pub const UITTE_VALID_MASK: u64 = 1;
pub const UITTE_VECTOR_SHIFT: u64 = 8;
pub const UITTE_VECTOR_MASK: u64 = 0x3f;

pub proof fn lemma_uitte_layout()
    by (bit_vector)
    ensures
        fits(UITTE_VALID_SHIFT, UITTE_VALID_MASK),
        fits(UITTE_VECTOR_SHIFT, UITTE_VECTOR_MASK),
        disjoint(UITTE_VALID_SHIFT, UITTE_VALID_MASK, UITTE_VECTOR_SHIFT, UITTE_VECTOR_MASK),
        disjoint(UITTE_VECTOR_SHIFT, UITTE_VECTOR_MASK, UITTE_VALID_SHIFT, UITTE_VALID_MASK),
{
}

/// A target-table entry: which user-interrupt vector to post, and in which
/// receiver's posted-interrupt descriptor.
#[derive(Debug, Clone, Copy, PartialEq, Eq, Structural)]
pub struct UittEntry {
    pub state: u64,
    pub upid_addr: PostDesc,
}

impl UittEntry {
    pub open spec fn spec_is_valid(&self) -> bool {
        field_get(self.state, UITTE_VALID_SHIFT, UITTE_VALID_MASK) == 1
    }

    pub open spec fn spec_uintr_vector(&self) -> u64 {
        field_get(self.state, UITTE_VECTOR_SHIFT, UITTE_VECTOR_MASK)
    }

    /// A valid entry posting `uintr_vector` (cut to six bits) to the
    /// descriptor at `upid_addr` (its low six bits dropped).
    pub fn new(uintr_vector: u8, upid_addr: u64) -> (r: Self)
        ensures
            r.state == 1 | field_val(UITTE_VECTOR_SHIFT, UITTE_VECTOR_MASK, uintr_vector as u64),
            r.is_valid(),
            r.uintr_vector() == uintr_vector as u64 & UITTE_VECTOR_MASK,
            r.upid_addr.value == upid_addr & PD_ADDR_BITS,
            r.upid_addr.address() == upid_addr & PD_ADDR_BITS,
    {
        let v = uintr_vector as u64;
        let state = 1 | crate::field::val(UITTE_VECTOR_SHIFT, UITTE_VECTOR_MASK, v);
        assert(field_get(1 | ((v & 0x3f) << 8), 0, 1) == 1) by (bit_vector);
        assert(field_get(1 | ((v & 0x3f) << 8), 8, 0x3f) == v & 0x3f) by (bit_vector);
        UittEntry { state, upid_addr: PostDesc::new(upid_addr) }
    }

    #[verifier::when_used_as_spec(spec_is_valid)]
    pub fn is_valid(&self) -> (r: bool)
        ensures
            r == self.spec_is_valid(),
    {
        crate::field::read(self.state, UITTE_VALID_SHIFT, UITTE_VALID_MASK) == 1
    }

    /// Marks the entry valid or not; the vector and address are kept.
    pub fn set_valid(&mut self, valid: bool)
        ensures
            final(self).state == field_put(
                old(self).state,
                UITTE_VALID_SHIFT,
                UITTE_VALID_MASK,
                bit(valid),
            ),
            final(self).is_valid() == valid,
            final(self).uintr_vector() == old(self).uintr_vector(),
            final(self).upid_addr == old(self).upid_addr,
    {
        proof {
            lemma_uitte_layout();
            lemma_get_put(self.state, UITTE_VALID_SHIFT, UITTE_VALID_MASK, bit(valid));
            lemma_get_put_other(
                self.state,
                UITTE_VALID_SHIFT,
                UITTE_VALID_MASK,
                UITTE_VECTOR_SHIFT,
                UITTE_VECTOR_MASK,
                bit(valid),
            );
            let b = bit(valid);
            assert(b <= 1 ==> b & 1 == b) by (bit_vector);
        }
        self.state = crate::field::modify(
            self.state,
            UITTE_VALID_SHIFT,
            UITTE_VALID_MASK,
            bit_of(valid),
        );
    }

    /// The user-interrupt vector that the entry posts.
    #[verifier::when_used_as_spec(spec_uintr_vector)]
    pub fn uintr_vector(&self) -> (r: u64)
        ensures
            r == self.spec_uintr_vector(),
    {
        crate::field::read(self.state, UITTE_VECTOR_SHIFT, UITTE_VECTOR_MASK)
    }
}

} // verus!
