//! The register state that the monitor gives the virtual CPU before its
//! first run.

use vstd::prelude::*;

verus! {

/// The flag bit that the processor keeps set at all times.
pub const FLAG_RESERVED: u64 = 0x2;

/// The flag bit that makes the processor trap after each instruction.
pub const FLAG_TRAP: u64 = 0x100;

/// The flag bit that lets maskable interrupts through.
pub const FLAG_INTERRUPT: u64 = 0x200;

/// The alignment of the initial stack pointer, in bytes.
pub const STACK_ALIGNMENT: u64 = 16;

/// The general-purpose registers, instruction pointer and flags.
#[derive(Clone, Copy, Debug, PartialEq, Eq)]
pub struct Registers {
    pub rax: u64,
    pub rbx: u64,
    pub rcx: u64,
    pub rdx: u64,
    pub rsi: u64,
    pub rdi: u64,
    pub rsp: u64,
    pub rbp: u64,
    pub r8: u64,
    pub r9: u64,
    pub r10: u64,
    pub r11: u64,
    pub r12: u64,
    pub r13: u64,
    pub r14: u64,
    pub r15: u64,
    pub rip: u64,
    pub rflags: u64,
}

/// One segment register.
#[derive(Clone, Copy, Debug, PartialEq, Eq)]
pub struct Segment {
    pub base: u64,
    pub limit: u32,
    pub selector: u16,
    pub type_: u8,
    pub present: u8,
    pub dpl: u8,
    pub db: u8,
    pub s: u8,
    pub l: u8,
    pub g: u8,
    pub avl: u8,
    pub unusable: u8,
}

/// The top of a guest memory of `memory_size` bytes, less the padding that
/// aligns it: the highest multiple of the stack alignment that is not
/// above the top.
pub open spec fn stack_top(memory_size: u64) -> u64 {
    (memory_size - memory_size % STACK_ALIGNMENT) as u64
}

impl Registers {
    /// All registers zero.
    pub open spec fn zeroed() -> Registers {
        Registers {
            rax: 0,
            rbx: 0,
            rcx: 0,
            rdx: 0,
            rsi: 0,
            rdi: 0,
            rsp: 0,
            rbp: 0,
            r8: 0,
            r9: 0,
            r10: 0,
            r11: 0,
            r12: 0,
            r13: 0,
            r14: 0,
            r15: 0,
            rip: 0,
            rflags: 0,
        }
    }

    /// The state before the first run: execution starts at guest address 0,
    /// the stack starts at the top of guest memory, only the reserved flag is
    /// set, and every other register is zero.
    pub open spec fn initial_state(memory_size: u64) -> Registers {
        Registers { rsp: stack_top(memory_size), rflags: FLAG_RESERVED, ..Self::zeroed() }
    }

    /// The registers for the first run of a guest whose memory has
    /// `memory_size` bytes. Nothing of it depends on what the memory holds.
    pub fn initial(memory_size: u64) -> (regs: Registers)
        ensures
            regs == Self::initial_state(memory_size),
            regs.rip == 0,
            regs.rbp == 0,
            regs.rflags == FLAG_RESERVED,
            regs.rflags & FLAG_INTERRUPT == 0,
            regs.rflags & FLAG_TRAP == 0,
            regs.rsp <= memory_size,
            memory_size - regs.rsp < STACK_ALIGNMENT,
            regs.rsp % STACK_ALIGNMENT == 0,
            memory_size % STACK_ALIGNMENT == 0 ==> regs.rsp == memory_size,
    {
        assert(FLAG_RESERVED & FLAG_INTERRUPT == 0) by (bit_vector);
        assert(FLAG_RESERVED & FLAG_TRAP == 0) by (bit_vector);
        Registers {
            rax: 0,
            rbx: 0,
            rcx: 0,
            rdx: 0,
            rsi: 0,
            rdi: 0,
            rsp: memory_size - memory_size % STACK_ALIGNMENT,
            rbp: 0,
            r8: 0,
            r9: 0,
            r10: 0,
            r11: 0,
            r12: 0,
            r13: 0,
            r14: 0,
            r15: 0,
            rip: 0,
            rflags: FLAG_RESERVED,
        }
    }
}

impl Segment {
    /// The segment with base and selector 0, so that its addresses are the
    /// guest's physical addresses; everything else stays as it is.
    pub open spec fn flattened(self) -> Segment {
        Segment { base: 0, selector: 0, ..self }
    }

    /// Makes the segment flat: base and selector 0, the rest unchanged.
    pub fn flat(self) -> (seg: Segment)
        ensures
            seg == self.flattened(),
            seg.base == 0,
            seg.selector == 0,
    {
        Segment { base: 0, selector: 0, ..self }
    }
}

} // verus!
