//! What the user-interrupt entry trampoline works with: the register frame it
//! builds on the stack, and the slot that names the installed handler.
use vstd::prelude::*;

use core::sync::atomic::Ordering;

verus! {

/// The registers that the trampoline saves, in stack order.
#[derive(Debug, Default, Clone, Copy, PartialEq, Eq, Structural)]
pub struct GeneralRegisters {
    // argument registers
    pub rdi: u64,
    pub rsi: u64,
    pub rdx: u64,
    pub rcx: u64,
    pub r8: u64,
    pub r9: u64,
    pub r10: u64,
    pub r11: u64,
    // callee-saved registers
    pub rbx: u64,
    pub rbp: u64,
    pub r12: u64,
    pub r13: u64,
    pub r14: u64,
    pub r15: u64,
    // return value
    pub rax: u64,
}

/// The words that user-interrupt delivery pushes, in stack order.
#[derive(Debug, Default, Clone, Copy, PartialEq, Eq, Structural)]
pub struct UintrInfo {
    pub uirr_vector: u64,
    pub rip: u64,
    pub rflags: u64,
    pub rsp: u64,
}

/// The frame that the handler receives.
#[derive(Debug, Default, Clone, Copy, PartialEq, Eq, Structural)]
pub struct UintrTrapframe {
    pub regs: GeneralRegisters,
    pub info: UintrInfo,
}

/// Number of 64-bit words in a frame on the stack.
pub const TRAPFRAME_WORDS: usize = 19;

impl UintrTrapframe {
    /// The frame as the stack holds it, lowest address first: the registers
    /// that the trampoline pushed last come first, then the words that
    /// delivery pushed.
    pub open spec fn words_of(self) -> Seq<u64> {
        seq![
            self.regs.rdi,
            self.regs.rsi,
            self.regs.rdx,
            self.regs.rcx,
            self.regs.r8,
            self.regs.r9,
            self.regs.r10,
            self.regs.r11,
            self.regs.rbx,
            self.regs.rbp,
            self.regs.r12,
            self.regs.r13,
            self.regs.r14,
            self.regs.r15,
            self.regs.rax,
            self.info.uirr_vector,
            self.info.rip,
            self.info.rflags,
            self.info.rsp,
        ]
    }

    /// Reads a frame from the words on the stack, lowest address first.
    pub fn from_words(w: &[u64; 19]) -> (r: Self)
        ensures
            r.words_of() == w@,
    {
        let r = UintrTrapframe {
            regs: GeneralRegisters {
                rdi: w[0],
                rsi: w[1],
                rdx: w[2],
                rcx: w[3],
                r8: w[4],
                r9: w[5],
                r10: w[6],
                r11: w[7],
                rbx: w[8],
                rbp: w[9],
                r12: w[10],
                r13: w[11],
                r14: w[12],
                r15: w[13],
                rax: w[14],
            },
            info: UintrInfo { uirr_vector: w[15], rip: w[16], rflags: w[17], rsp: w[18] },
        };
        assert(r.words_of() =~= w@);
        r
    }

    /// The words to put back on the stack, lowest address first.
    pub fn to_words(&self) -> (r: [u64; 19])
        ensures
            r@ == self.words_of(),
    {
        let r = [
            self.regs.rdi,
            self.regs.rsi,
            self.regs.rdx,
            self.regs.rcx,
            self.regs.r8,
            self.regs.r9,
            self.regs.r10,
            self.regs.r11,
            self.regs.rbx,
            self.regs.rbp,
            self.regs.r12,
            self.regs.r13,
            self.regs.r14,
            self.regs.r15,
            self.regs.rax,
            self.info.uirr_vector,
            self.info.rip,
            self.info.rflags,
            self.info.rsp,
        ];
        assert(r@ =~= self.words_of());
        r
    }
}

/// A frame is determined by its stack words, so a frame written to the stack
/// and read back is the same frame.
pub proof fn lemma_frame_words_determine(t: UintrTrapframe, u: UintrTrapframe)
    requires
        t.words_of() == u.words_of(),
    ensures
        t == u,
{
    assert(u.words_of()[0] == t.words_of()[0]);
    assert(u.words_of()[1] == t.words_of()[1]);
    assert(u.words_of()[2] == t.words_of()[2]);
    assert(u.words_of()[3] == t.words_of()[3]);
    assert(u.words_of()[4] == t.words_of()[4]);
    assert(u.words_of()[5] == t.words_of()[5]);
    assert(u.words_of()[6] == t.words_of()[6]);
    assert(u.words_of()[7] == t.words_of()[7]);
    assert(u.words_of()[8] == t.words_of()[8]);
    assert(u.words_of()[9] == t.words_of()[9]);
    assert(u.words_of()[10] == t.words_of()[10]);
    assert(u.words_of()[11] == t.words_of()[11]);
    assert(u.words_of()[12] == t.words_of()[12]);
    assert(u.words_of()[13] == t.words_of()[13]);
    assert(u.words_of()[14] == t.words_of()[14]);
    assert(u.words_of()[15] == t.words_of()[15]);
    assert(u.words_of()[16] == t.words_of()[16]);
    assert(u.words_of()[17] == t.words_of()[17]);
    assert(u.words_of()[18] == t.words_of()[18]);
}

/// Names an installed handler: its index in the dispatcher's table of
/// handlers. Index 0 is the handler that does nothing.
#[derive(Debug, Default, Clone, Copy, PartialEq, Eq, Structural)]
pub struct UintrHandler(pub usize);

#[verifier::external_type_specification]
#[verifier::external_body]
#[verifier::reject_recursive_types(T)]
pub struct ExAtomic<T>(atomic::Atomic<T>);

/// Relies on atomic::Atomic::new: a cell holding `v`.
#[verifier::external_body]
fn atomic_new(v: usize) -> atomic::Atomic<usize> {
    atomic::Atomic::new(v)
}

/// Relies on atomic::Atomic::load with sequentially consistent ordering: one
/// whole value that some store (or `new`) put in the cell.
#[verifier::external_body]
fn atomic_load(cell: &atomic::Atomic<usize>) -> usize {
    cell.load(Ordering::SeqCst)
}

/// Relies on atomic::Atomic::store with sequentially consistent ordering.
#[verifier::external_body]
fn atomic_store(cell: &atomic::Atomic<usize>, v: usize) {
    cell.store(v, Ordering::SeqCst)
}

/// The process-wide handler reference: replaced by one atomic store, read by
/// one atomic load, never torn.
pub struct HandlerSlot {
    cell: atomic::Atomic<usize>,
}

impl HandlerSlot {
    /// A slot holding `initial`.
    pub fn new(initial: UintrHandler) -> (r: Self) {
        HandlerSlot { cell: atomic_new(initial.0) }
    }

    /// The handler installed at the moment of the load.
    pub fn current(&self) -> (r: UintrHandler) {
        UintrHandler(atomic_load(&self.cell))
    }
}

/// Installs `handler` in `slot` with one sequentially consistent store.
pub fn set_handler(slot: &HandlerSlot, handler: UintrHandler) {
    atomic_store(&slot.cell, handler.0);
}

} // verus!
