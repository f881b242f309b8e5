//! Power64 register model: register classes, physical and virtual registers,
//! and the fixed architectural-role registers.

use vstd::prelude::*;

verus! {

/// A partition of registers by the kind of value they hold.  Mirrors the
/// three classes the external allocator distinguishes.
#[derive(Clone, Copy, Debug, PartialEq, Eq, Structural)]
pub enum RegClass {
    Int,
    Float,
    Vector,
}

impl RegClass {
    /// The numeric code of a class, as the external allocator encodes it:
    /// integer registers are class 0, floats class 1, vectors class 2.
    pub open spec fn code(self) -> int {
        match self {
            RegClass::Int => 0,
            RegClass::Float => 1,
            RegClass::Vector => 2,
        }
    }
}

/// Highest hardware encoding a physical register may carry: the allocator
/// packs encodings into 6 bits, so at most 64 registers per class.
pub const MAX_REG_ENC: u8 = 63;

/// A register operand: either a concrete architectural register, identified
/// by its class and hardware encoding, or an allocator-agnostic virtual
/// register to be replaced by a physical one after allocation.
#[derive(Clone, Copy, Debug, PartialEq, Eq, Structural)]
pub enum Reg {
    /// A physical register `(class, encoding)`.
    Phys { class: RegClass, enc: u8 },
    /// A virtual register `(class, number)`.
    Virt { class: RegClass, num: u32 },
}

impl Reg {
    /// The class of the value this register holds.
    pub open spec fn spec_class(self) -> RegClass {
        match self {
            Reg::Phys { class, .. } => class,
            Reg::Virt { class, .. } => class,
        }
    }

    /// True of a concrete architectural register.
    pub open spec fn is_phys(self) -> bool {
        self is Phys
    }

    /// Well-formed registers keep their hardware encoding in the 6-bit
    /// range the allocator supports.
    pub open spec fn wf(self) -> bool {
        match self {
            Reg::Phys { enc, .. } => enc <= MAX_REG_ENC,
            Reg::Virt { .. } => true,
        }
    }

    /// The class of the value this register holds.
    #[verifier::when_used_as_spec(spec_class)]
    pub fn class(self) -> (r: RegClass)
        ensures
            r == self.spec_class(),
    {
        match self {
            Reg::Phys { class, .. } => class,
            Reg::Virt { class, .. } => class,
        }
    }

    /// The index of a physical register in the allocator's single index
    /// space over all classes: 0..=63 are the integer registers, 64..=127
    /// the floats, 128..=191 the vectors.
    pub open spec fn index(self) -> int
        recommends
            self is Phys,
    {
        match self {
            Reg::Phys { class, enc } => class.code() * 64 + enc,
            Reg::Virt { .. } => 0,
        }
    }
}

/// The integer register with the given hardware encoding.
pub fn x_reg(enc: u8) -> (r: Reg)
    requires
        enc <= MAX_REG_ENC,
    ensures
        r == (Reg::Phys { class: RegClass::Int, enc }),
{
    Reg::Phys { class: RegClass::Int, enc }
}

/// The float register with the given hardware encoding.
pub fn f_reg(enc: u8) -> (r: Reg)
    requires
        enc <= MAX_REG_ENC,
    ensures
        r == (Reg::Phys { class: RegClass::Float, enc }),
{
    Reg::Phys { class: RegClass::Float, enc }
}

/// The integer register of encoding 0.
pub fn x0() -> (r: Reg)
    ensures
        r == (Reg::Phys { class: RegClass::Int, enc: 0 }),
{
    x_reg(0)
}

/// The link register, which holds the return address: x1.
pub fn link_reg() -> (r: Reg)
    ensures
        r == spec_link_reg(),
{
    x_reg(1)
}

/// The stack pointer: x2.
pub fn stack_reg() -> (r: Reg)
    ensures
        r == spec_stack_reg(),
{
    x_reg(2)
}

/// The frame pointer: x8.
pub fn fp_reg() -> (r: Reg)
    ensures
        r == spec_fp_reg(),
{
    x_reg(8)
}

/// The register reserved as a temporary for spill code: x16.  It is kept
/// out of the allocatable pool so that spill/reload sequences inserted
/// after allocation always have a scratch register.
pub fn spilltmp_reg() -> (r: Reg)
    ensures
        r == spec_spilltmp_reg(),
{
    x_reg(16)
}

/// The link register: x1.
pub open spec fn spec_link_reg() -> Reg {
    Reg::Phys { class: RegClass::Int, enc: 1 }
}

/// The stack pointer: x2.
pub open spec fn spec_stack_reg() -> Reg {
    Reg::Phys { class: RegClass::Int, enc: 2 }
}

/// The frame pointer: x8.
pub open spec fn spec_fp_reg() -> Reg {
    Reg::Phys { class: RegClass::Int, enc: 8 }
}

/// The spill-temporary register: x16.
pub open spec fn spec_spilltmp_reg() -> Reg {
    Reg::Phys { class: RegClass::Int, enc: 16 }
}

/// The registers with fixed architectural roles are pairwise distinct, and
/// none of them is allocatable.
pub proof fn lemma_role_regs_distinct()
    ensures
        spec_link_reg() != spec_stack_reg(),
        spec_link_reg() != spec_fp_reg(),
        spec_link_reg() != spec_spilltmp_reg(),
        spec_stack_reg() != spec_fp_reg(),
        spec_stack_reg() != spec_spilltmp_reg(),
        spec_fp_reg() != spec_spilltmp_reg(),
        !is_allocatable(spec_link_reg()),
        !is_allocatable(spec_stack_reg()),
        !is_allocatable(spec_fp_reg()),
        !is_allocatable(spec_spilltmp_reg()),
{
}

/// Whether a physical register may be handed out by the allocator.  The
/// registers with fixed roles (x0 as the constant-zero/platform register,
/// the link register, the stack pointer, the frame pointer and the spill
/// temporary) are excluded; every other integer or float register and every
/// vector register is allocatable.
pub open spec fn is_allocatable(r: Reg) -> bool {
    match r {
        Reg::Phys { class, enc } => enc <= MAX_REG_ENC && match class {
            RegClass::Int => enc != 0 && enc != 1 && enc != 2 && enc != 8 && enc != 16,
            RegClass::Float => true,
            RegClass::Vector => true,
        },
        Reg::Virt { .. } => false,
    }
}

/// Whether a physical register is callee-saved under the power64 calling
/// conventions: a callee must restore it before returning.  Integer
/// registers x9 and x18..=x27 and float registers f8, f9 and f18..=f27 are
/// callee-saved; everything else is caller-saved.
pub open spec fn spec_is_callee_saved(r: Reg) -> bool {
    match r {
        Reg::Phys { class: RegClass::Int, enc } => enc == 9 || (18 <= enc && enc <= 27),
        Reg::Phys { class: RegClass::Float, enc } => enc == 8 || enc == 9 || (18 <= enc
            && enc <= 27),
        _ => false,
    }
}

/// Whether a register is callee-saved (see [`spec_is_callee_saved`]).
#[verifier::when_used_as_spec(spec_is_callee_saved)]
pub fn is_callee_saved(r: Reg) -> (b: bool)
    ensures
        b == spec_is_callee_saved(r),
{
    match r {
        Reg::Phys { class: RegClass::Int, enc } => enc == 9 || (18 <= enc && enc <= 27),
        Reg::Phys { class: RegClass::Float, enc } => enc == 8 || enc == 9 || (18 <= enc
            && enc <= 27),
        _ => false,
    }
}

} // verus!
