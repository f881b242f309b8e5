//! Power64 machine-instruction representation: the instruction variants the
//! backend emits, their classification predicates, operand enumeration for
//! the external register allocator, and the post-allocation rewrite of
//! virtual registers to physical ones.

use vstd::prelude::*;
use crate::abi::CallConv;
use crate::regs::{Reg, RegClass};
use crate::types::Type;

verus! {

/// A branch target inside the function being emitted, identified by index.
#[derive(Clone, Copy, Debug, PartialEq, Eq, Structural)]
pub struct MachLabel {
    pub index: u32,
}

/// A two-operand ALU operation.
#[derive(Clone, Copy, Debug, PartialEq, Eq, Structural)]
pub enum AluOp {
    Add,
    Sub,
    And,
    Or,
    Xor,
}

/// One (virtual register, fixed physical register) pairing of the
/// argument/return pseudo-instructions.
#[derive(Clone, Copy, Debug, PartialEq, Eq, Structural)]
pub struct ArgPair {
    pub vreg: Reg,
    pub preg: Reg,
}

/// A power64 machine instruction.
#[derive(Clone, Debug, PartialEq, Eq)]
pub enum Inst {
    /// A zero-byte no-op (a pure padding marker).
    Nop0,
    /// A four-byte no-op.
    Nop4,
    /// `rd = rs1 op rs2`.
    AluRRR { op: AluOp, rd: Reg, rs1: Reg, rs2: Reg },
    /// `rd = rs op imm`, with a 12-bit signed immediate.
    AluRRImm { op: AluOp, rd: Reg, rs: Reg, imm: i32 },
    /// Materialize a constant into a register.
    LoadConst { rd: Reg, imm: i64 },
    /// A register-to-register move.
    Mov { rd: Reg, rm: Reg, ty: Type },
    /// Load from `[base + offset]`.
    Load { rd: Reg, base: Reg, offset: i32, ty: Type },
    /// Store to `[base + offset]`.
    Store { rs: Reg, base: Reg, offset: i32, ty: Type },
    /// Adjust the stack pointer by a signed amount.
    AdjustSp { amount: i32 },
    /// An unconditional jump.
    Jump { dest: MachLabel },
    /// Branch to `taken` when `cond` is non-zero, else to `not_taken`.
    CondBr { cond: Reg, taken: MachLabel, not_taken: MachLabel },
    /// A call to an external name, identified by index, under the
    /// callee's calling convention (which determines the registers the
    /// call clobbers).
    Call { callee: u32, callee_conv: CallConv },
    /// A tail call: the frame is already restored and the argument
    /// values sit in their assigned locations, recorded here as
    /// virtual-to-fixed-register pairings; control never returns.
    ReturnCall { callee: u32, uses: Vec<ArgPair> },
    /// Return to the caller.
    Ret,
    /// A guaranteed trap.
    Trap,
    /// The prologue pseudo-instruction defining the argument virtual
    /// registers from their fixed physical locations.
    Args { args: Vec<ArgPair> },
    /// The pseudo-instruction using the return virtual registers in their
    /// fixed physical locations.
    Rets { rets: Vec<ArgPair> },
    /// Keeps a register live without emitting code.
    DummyUse { reg: Reg },
    /// Touch stack memory at `[sp + offset]` so a guard page faults
    /// deterministically before the frame is used.
    StackProbe { offset: i32 },
}

/// How an instruction ends (or does not end) a basic block.
#[derive(Clone, Copy, Debug, PartialEq, Eq, Structural)]
pub enum MachTerminator {
    NotTerm,
    Uncond,
    Cond,
    Ret,
    RetCall,
}

/// The role of one register operand.
#[derive(Clone, Copy, Debug, PartialEq, Eq, Structural)]
pub enum OperandKind {
    Use,
    Def,
}

/// One register operand of an instruction, with its role and, for the
/// pseudo-instruction pairings, the physical register the operand is
/// pinned to.
#[derive(Clone, Copy, Debug, PartialEq, Eq, Structural)]
pub struct Operand {
    pub reg: Reg,
    pub kind: OperandKind,
    pub fixed: Option<Reg>,
}

/// Shorthand for an unconstrained use operand.
pub open spec fn op_use(r: Reg) -> Operand {
    Operand { reg: r, kind: OperandKind::Use, fixed: Option::None }
}

/// Shorthand for an unconstrained def operand.
pub open spec fn op_def(r: Reg) -> Operand {
    Operand { reg: r, kind: OperandKind::Def, fixed: Option::None }
}

/// Shorthand for a use operand pinned to a physical register.
pub open spec fn op_use_fixed(r: Reg, p: Reg) -> Operand {
    Operand { reg: r, kind: OperandKind::Use, fixed: Some(p) }
}

/// Shorthand for a def operand pinned to a physical register.
pub open spec fn op_def_fixed(r: Reg, p: Reg) -> Operand {
    Operand { reg: r, kind: OperandKind::Def, fixed: Some(p) }
}

/// The register operands of an instruction, with their roles, in a fixed
/// order: this is the enumeration the external allocator consumes.
pub open spec fn spec_operands(i: Inst) -> Seq<Operand> {
    match i {
        Inst::AluRRR { rd, rs1, rs2, .. } => seq![op_use(rs1), op_use(rs2), op_def(rd)],
        Inst::AluRRImm { rd, rs, .. } => seq![op_use(rs), op_def(rd)],
        Inst::LoadConst { rd, .. } => seq![op_def(rd)],
        Inst::Mov { rd, rm, .. } => seq![op_use(rm), op_def(rd)],
        Inst::Load { rd, base, .. } => seq![op_use(base), op_def(rd)],
        Inst::Store { rs, base, .. } => seq![op_use(rs), op_use(base)],
        Inst::CondBr { cond, .. } => seq![op_use(cond)],
        Inst::Args { args } => args@.map_values(|p: ArgPair| op_def_fixed(p.vreg, p.preg)),
        Inst::Rets { rets } => rets@.map_values(|p: ArgPair| op_use_fixed(p.vreg, p.preg)),
        Inst::ReturnCall { uses, .. } => uses@.map_values(
            |p: ArgPair| op_use_fixed(p.vreg, p.preg),
        ),
        Inst::DummyUse { reg } => seq![op_use(reg)],
        _ => Seq::empty(),
    }
}

impl Inst {
    /// The register operands of this instruction, with their roles (see
    /// [`spec_operands`]).
    pub fn get_operands(&self) -> (v: Vec<Operand>)
        ensures
            v@ == spec_operands(*self),
    {
        match self {
            Inst::AluRRR { rd, rs1, rs2, .. } => vec![op_use_x(*rs1), op_use_x(*rs2), op_def_x(
                *rd)],
            Inst::AluRRImm { rd, rs, .. } => vec![op_use_x(*rs), op_def_x(*rd)],
            Inst::LoadConst { rd, .. } => vec![op_def_x(*rd)],
            Inst::Mov { rd, rm, .. } => vec![op_use_x(*rm), op_def_x(*rd)],
            Inst::Load { rd, base, .. } => vec![op_use_x(*base), op_def_x(*rd)],
            Inst::Store { rs, base, .. } => vec![op_use_x(*rs), op_use_x(*base)],
            Inst::CondBr { cond, .. } => vec![op_use_x(*cond)],
            Inst::Args { args } => {
                let mut v: Vec<Operand> = Vec::new();
                let mut k: usize = 0;
                while k < args.len()
                    invariant
                        k <= args.len(),
                        v@ == args@.take(k as int).map_values(
                            |p: ArgPair| op_def_fixed(p.vreg, p.preg),
                        ),
                    decreases args.len() - k,
                {
                    v.push(Operand {
                        reg: args[k].vreg,
                        kind: OperandKind::Def,
                        fixed: Some(args[k].preg),
                    });
                    proof {
                        assert(args@.take(k as int + 1).map_values(
                            |p: ArgPair| op_def_fixed(p.vreg, p.preg)) =~= args@.take(
                            k as int).map_values(|p: ArgPair| op_def_fixed(p.vreg,
                            p.preg)).push(op_def_fixed(args@[k as int].vreg, args@[
                            k as int].preg)));
                    }
                    k = k + 1;
                }
                proof {
                    assert(args@.take(args@.len() as int) =~= args@);
                }
                v
            },
            Inst::Rets { rets } => {
                let mut v: Vec<Operand> = Vec::new();
                let mut k: usize = 0;
                while k < rets.len()
                    invariant
                        k <= rets.len(),
                        v@ == rets@.take(k as int).map_values(
                            |p: ArgPair| op_use_fixed(p.vreg, p.preg),
                        ),
                    decreases rets.len() - k,
                {
                    v.push(Operand {
                        reg: rets[k].vreg,
                        kind: OperandKind::Use,
                        fixed: Some(rets[k].preg),
                    });
                    proof {
                        assert(rets@.take(k as int + 1).map_values(
                            |p: ArgPair| op_use_fixed(p.vreg, p.preg)) =~= rets@.take(
                            k as int).map_values(|p: ArgPair| op_use_fixed(p.vreg,
                            p.preg)).push(op_use_fixed(rets@[k as int].vreg, rets@[
                            k as int].preg)));
                    }
                    k = k + 1;
                }
                proof {
                    assert(rets@.take(rets@.len() as int) =~= rets@);
                }
                v
            },
            Inst::ReturnCall { uses, .. } => {
                let mut v: Vec<Operand> = Vec::new();
                let mut k: usize = 0;
                while k < uses.len()
                    invariant
                        k <= uses.len(),
                        v@ == uses@.take(k as int).map_values(
                            |p: ArgPair| op_use_fixed(p.vreg, p.preg),
                        ),
                    decreases uses.len() - k,
                {
                    v.push(Operand {
                        reg: uses[k].vreg,
                        kind: OperandKind::Use,
                        fixed: Some(uses[k].preg),
                    });
                    proof {
                        assert(uses@.take(k as int + 1).map_values(
                            |p: ArgPair| op_use_fixed(p.vreg, p.preg)) =~= uses@.take(
                            k as int).map_values(|p: ArgPair| op_use_fixed(p.vreg,
                            p.preg)).push(op_use_fixed(uses@[k as int].vreg, uses@[
                            k as int].preg)));
                    }
                    k = k + 1;
                }
                proof {
                    assert(uses@.take(uses@.len() as int) =~= uses@);
                }
                v
            },
            Inst::DummyUse { reg } => vec![op_use_x(*reg)],
            _ => Vec::new(),
        }
    }

    /// A register move's destination and source, if this is one.
    pub fn is_move(&self) -> (r: Option<(Reg, Reg)>)
        ensures
            match *self {
                Inst::Mov { rd, rm, .. } => r == Some((rd, rm)),
                _ => r is None,
            },
    {
        match self {
            Inst::Mov { rd, rm, .. } => Some((*rd, *rm)),
            _ => Option::None,
        }
    }

    /// How this instruction terminates a block, if it does.
    pub fn is_term(&self) -> (r: MachTerminator)
        ensures
            r == spec_terminator(*self),
    {
        match self {
            Inst::Jump { .. } => MachTerminator::Uncond,
            Inst::CondBr { .. } => MachTerminator::Cond,
            Inst::Ret => MachTerminator::Ret,
            Inst::ReturnCall { .. } => MachTerminator::RetCall,
            _ => MachTerminator::NotTerm,
        }
    }

    /// Whether this instruction is a guaranteed trap.
    pub fn is_trap(&self) -> (r: bool)
        ensures
            r == (self is Trap),
    {
        matches!(self, Inst::Trap)
    }

    /// Whether this is the argument pseudo-instruction.
    pub fn is_args(&self) -> (r: bool)
        ensures
            r == (self is Args),
    {
        matches!(self, Inst::Args { .. })
    }

    /// Whether a call through this instruction is counted in the clobber
    /// set: every instruction but the argument pseudo-instruction is.
    pub fn is_included_in_clobbers(&self) -> (r: bool)
        ensures
            r == !(self is Args),
    {
        !matches!(self, Inst::Args { .. })
    }

    /// Whether this instruction reads or writes memory.
    pub fn is_mem_access(&self) -> (r: bool)
        ensures
            r == (self is Load || self is Store || self is StackProbe),
    {
        matches!(self, Inst::Load { .. } | Inst::Store { .. } | Inst::StackProbe { .. })
    }

    /// Whether a safepoint is recorded at this instruction: only calls.
    pub fn is_safepoint(&self) -> (r: bool)
        ensures
            r == (self is Call),
    {
        matches!(self, Inst::Call { .. })
    }

    /// A move of `ty` from `from_reg` into `to_reg`.
    pub fn gen_move(to_reg: Reg, from_reg: Reg, ty: Type) -> (r: Inst)
        ensures
            r == (Inst::Mov { rd: to_reg, rm: from_reg, ty }),
    {
        Inst::Mov { rd: to_reg, rm: from_reg, ty }
    }

    /// An unconditional jump to `target`.
    pub fn gen_jump(target: MachLabel) -> (r: Inst)
        ensures
            r == (Inst::Jump { dest: target }),
    {
        Inst::Jump { dest: target }
    }

    /// A use of `reg` that emits no code.
    pub fn gen_dummy_use(reg: Reg) -> (r: Inst)
        ensures
            r == (Inst::DummyUse { reg }),
    {
        Inst::DummyUse { reg }
    }

    /// A no-op of the preferred size: zero bytes, or one four-byte no-op.
    /// No instruction of this target is shorter than four bytes, so sizes
    /// strictly between zero and four cannot be produced.
    pub fn gen_nop(preferred_size: usize) -> (r: Inst)
        requires
            preferred_size == 0 || preferred_size >= 4,
        ensures
            preferred_size == 0 ==> r == Inst::Nop0,
            preferred_size >= 4 ==> r == Inst::Nop4,
    {
        if preferred_size == 0 {
            return Inst::Nop0;
        }
        Inst::Nop4
    }

    /// The largest number of bytes any one instruction can occupy: the
    /// three words of a full-width constant materialization.
    pub fn worst_case_size() -> (r: u32)
        ensures
            r == 12,
    {
        12
    }

    /// The register class holding reference-typed values.
    pub fn ref_type_regclass() -> (r: RegClass)
        ensures
            r == RegClass::Int,
    {
        RegClass::Int
    }
}

/// How an instruction terminates a block, if it does.
pub open spec fn spec_terminator(i: Inst) -> MachTerminator {
    match i {
        Inst::Jump { .. } => MachTerminator::Uncond,
        Inst::CondBr { .. } => MachTerminator::Cond,
        Inst::Ret => MachTerminator::Ret,
        Inst::ReturnCall { .. } => MachTerminator::RetCall,
        _ => MachTerminator::NotTerm,
    }
}

/// An unconstrained use operand.
fn op_use_x(r: Reg) -> (o: Operand)
    ensures
        o == op_use(r),
{
    Operand { reg: r, kind: OperandKind::Use, fixed: Option::None }
}

/// An unconstrained def operand.
fn op_def_x(r: Reg) -> (o: Operand)
    ensures
        o == op_def(r),
{
    Operand { reg: r, kind: OperandKind::Def, fixed: Option::None }
}

/// The register `r` after allocation: a virtual register is replaced by
/// the physical register the allocator assigned to its number; a physical
/// register is left as it is.
pub open spec fn spec_map_reg(map: Seq<Reg>, r: Reg) -> Reg {
    match r {
        Reg::Virt { num, .. } => map[num as int],
        Reg::Phys { .. } => r,
    }
}

/// One argument/return pairing after allocation: the virtual side is
/// rewritten, the fixed physical side kept.
pub open spec fn spec_map_pair(map: Seq<Reg>, p: ArgPair) -> ArgPair {
    ArgPair { vreg: spec_map_reg(map, p.vreg), preg: p.preg }
}

/// A pairing list after allocation.
pub open spec fn spec_map_pairs(map: Seq<Reg>, ps: Seq<ArgPair>) -> Seq<ArgPair> {
    ps.map_values(|p: ArgPair| spec_map_pair(map, p))
}

/// The instruction after allocation: every register operand rewritten by
/// [`spec_map_reg`]; immediates, labels and types unchanged.  The
/// argument/return pseudo-instructions are excepted: their rewritten
/// pairing lists are stated by [`spec_map_pairs`], since a specification
/// cannot repackage a sequence as a new vector.
pub open spec fn spec_map_inst(map: Seq<Reg>, i: Inst) -> Inst {
    match i {
        Inst::AluRRR { op, rd, rs1, rs2 } => Inst::AluRRR {
            op,
            rd: spec_map_reg(map, rd),
            rs1: spec_map_reg(map, rs1),
            rs2: spec_map_reg(map, rs2),
        },
        Inst::AluRRImm { op, rd, rs, imm } => Inst::AluRRImm {
            op,
            rd: spec_map_reg(map, rd),
            rs: spec_map_reg(map, rs),
            imm,
        },
        Inst::LoadConst { rd, imm } => Inst::LoadConst { rd: spec_map_reg(map, rd), imm },
        Inst::Mov { rd, rm, ty } => Inst::Mov {
            rd: spec_map_reg(map, rd),
            rm: spec_map_reg(map, rm),
            ty,
        },
        Inst::Load { rd, base, offset, ty } => Inst::Load {
            rd: spec_map_reg(map, rd),
            base: spec_map_reg(map, base),
            offset,
            ty,
        },
        Inst::Store { rs, base, offset, ty } => Inst::Store {
            rs: spec_map_reg(map, rs),
            base: spec_map_reg(map, base),
            offset,
            ty,
        },
        Inst::CondBr { cond, taken, not_taken } => Inst::CondBr {
            cond: spec_map_reg(map, cond),
            taken,
            not_taken,
        },
        Inst::DummyUse { reg } => Inst::DummyUse { reg: spec_map_reg(map, reg) },
        _ => i,
    }
}

/// How an instruction relates to its pre-allocation form: the rewrite that
/// [`Inst::map_regs`] performs.
pub open spec fn spec_rewritten(map: Seq<Reg>, before: Inst, after: Inst) -> bool {
    match (before, after) {
        (Inst::Args { args: a0 }, Inst::Args { args: a1 }) => a1@ == spec_map_pairs(map, a0@),
        (Inst::Rets { rets: r0 }, Inst::Rets { rets: r1 }) => r1@ == spec_map_pairs(map, r0@),
        (
            Inst::ReturnCall { callee: c0, uses: u0 },
            Inst::ReturnCall { callee: c1, uses: u1 },
        ) => c1 == c0 && u1@ == spec_map_pairs(map, u0@),
        (b, a) => !(b is Args) && !(a is Args) && !(b is Rets) && !(a is Rets) && !(b
            is ReturnCall) && !(a is ReturnCall) && a == spec_map_inst(map, b),
    }
}

/// Whether the allocator's returned assignment is usable for this
/// instruction: every virtual operand has an entry, the entry is a
/// well-formed physical register, and it belongs to the class that the
/// operand's position requires.
pub open spec fn spec_alloc_ok(map: Seq<Reg>, i: Inst) -> bool {
    forall|k: int|
        0 <= k < spec_operands(i).len() ==> ((#[trigger] spec_operands(i)[k]).reg matches
            Reg::Virt { class, num } ==> num < map.len() && map[num as int] is Phys && map[
            num as int].spec_class() == class && map[num as int].wf())
}

/// The register `r` after allocation (see [`spec_map_reg`]).
fn map_one(map: &Vec<Reg>, r: Reg) -> (m: Reg)
    requires
        (r matches Reg::Virt { num, .. } ==> num < map@.len()),
    ensures
        m == spec_map_reg(map@, r),
{
    match r {
        Reg::Virt { num, .. } => map[num as usize],
        Reg::Phys { .. } => r,
    }
}

impl Inst {
    /// Rewrite every virtual register operand of this instruction, in
    /// place, to the physical register the allocator assigned; for the
    /// argument/return pseudo-instructions, the virtual side of each
    /// pairing.
    pub fn map_regs(&mut self, map: &Vec<Reg>)
        requires
            spec_alloc_ok(map@, *old(self)),
        ensures
            spec_rewritten(map@, *old(self), *final(self)),
    {
        match self {
            Inst::AluRRR { rd, rs1, rs2, .. } => {
                proof {
                    assert(spec_operands(*old(self))[2].reg == *rd);
                    assert(spec_operands(*old(self))[0].reg == *rs1);
                    assert(spec_operands(*old(self))[1].reg == *rs2);
                }
                *rd = map_one(map, *rd);
                *rs1 = map_one(map, *rs1);
                *rs2 = map_one(map, *rs2);
            },
            Inst::AluRRImm { rd, rs, .. } => {
                proof {
                    assert(spec_operands(*old(self))[1].reg == *rd);
                    assert(spec_operands(*old(self))[0].reg == *rs);
                }
                *rd = map_one(map, *rd);
                *rs = map_one(map, *rs);
            },
            Inst::LoadConst { rd, .. } => {
                proof {
                    assert(spec_operands(*old(self))[0].reg == *rd);
                }
                *rd = map_one(map, *rd);
            },
            Inst::Mov { rd, rm, .. } => {
                proof {
                    assert(spec_operands(*old(self))[1].reg == *rd);
                    assert(spec_operands(*old(self))[0].reg == *rm);
                }
                *rd = map_one(map, *rd);
                *rm = map_one(map, *rm);
            },
            Inst::Load { rd, base, .. } => {
                proof {
                    assert(spec_operands(*old(self))[1].reg == *rd);
                    assert(spec_operands(*old(self))[0].reg == *base);
                }
                *rd = map_one(map, *rd);
                *base = map_one(map, *base);
            },
            Inst::Store { rs, base, .. } => {
                proof {
                    assert(spec_operands(*old(self))[0].reg == *rs);
                    assert(spec_operands(*old(self))[1].reg == *base);
                }
                *rs = map_one(map, *rs);
                *base = map_one(map, *base);
            },
            Inst::CondBr { cond, .. } => {
                proof {
                    assert(spec_operands(*old(self))[0].reg == *cond);
                }
                *cond = map_one(map, *cond);
            },
            Inst::DummyUse { reg } => {
                proof {
                    assert(spec_operands(*old(self))[0].reg == *reg);
                }
                *reg = map_one(map, *reg);
            },
            Inst::Args { args } => {
                let ghost a0 = args@;
                let mut k: usize = 0;
                while k < args.len()
                    invariant
                        k <= args@.len(),
                        args@.len() == a0.len(),
                        spec_alloc_ok(map@, Inst::Args { args: (*old(self))->Args_args }),
                        a0 == old(self)->Args_args@,
                        forall|t: int| 0 <= t < k ==> args@[t] == spec_map_pair(map@, a0[t]),
                        forall|t: int| k <= t < a0.len() ==> args@[t] == a0[t],
                    decreases args@.len() - k,
                {
                    proof {
                        assert(spec_operands(Inst::Args { args: (*old(self))->Args_args })[
                            k as int].reg == a0[k as int].vreg);
                    }
                    let pair = args[k];
                    let mapped = ArgPair { vreg: map_one(map, pair.vreg), preg: pair.preg };
                    args[k] = mapped;
                    k = k + 1;
                }
                proof {
                    assert(args@ =~= spec_map_pairs(map@, a0));
                }
            },
            Inst::ReturnCall { uses, .. } => {
                let ghost u0 = uses@;
                let mut k: usize = 0;
                while k < uses.len()
                    invariant
                        k <= uses@.len(),
                        uses@.len() == u0.len(),
                        spec_alloc_ok(map@, *old(self)),
                        *old(self) is ReturnCall,
                        (*old(self))->ReturnCall_uses@ == u0,
                        forall|t: int| 0 <= t < k ==> uses@[t] == spec_map_pair(map@, u0[t]),
                        forall|t: int| k <= t < u0.len() ==> uses@[t] == u0[t],
                    decreases uses@.len() - k,
                {
                    proof {
                        assert(spec_operands(*old(self))[k as int].reg == u0[k as int].vreg);
                    }
                    let pair = uses[k];
                    let mapped = ArgPair { vreg: map_one(map, pair.vreg), preg: pair.preg };
                    uses[k] = mapped;
                    k = k + 1;
                }
                proof {
                    assert(uses@ =~= spec_map_pairs(map@, u0));
                }
            },
            Inst::Rets { rets } => {
                let ghost r0 = rets@;
                let mut k: usize = 0;
                while k < rets.len()
                    invariant
                        k <= rets@.len(),
                        rets@.len() == r0.len(),
                        spec_alloc_ok(map@, Inst::Rets { rets: (*old(self))->Rets_rets }),
                        r0 == old(self)->Rets_rets@,
                        forall|t: int| 0 <= t < k ==> rets@[t] == spec_map_pair(map@, r0[t]),
                        forall|t: int| k <= t < r0.len() ==> rets@[t] == r0[t],
                    decreases rets@.len() - k,
                {
                    proof {
                        assert(spec_operands(Inst::Rets { rets: (*old(self))->Rets_rets })[
                            k as int].reg == r0[k as int].vreg);
                    }
                    let pair = rets[k];
                    let mapped = ArgPair { vreg: map_one(map, pair.vreg), preg: pair.preg };
                    rets[k] = mapped;
                    k = k + 1;
                }
                proof {
                    assert(rets@ =~= spec_map_pairs(map@, r0));
                }
            },
            _ => {},
        }
    }
}

/// Register class conservation: after the allocator's assignment is
/// rewritten into an instruction, every register operand is a physical
/// register of exactly the class its position required before allocation,
/// operands keep their order and roles, and operands that were already
/// physical are untouched.
pub proof fn lemma_register_class_conservation(map: Seq<Reg>, before: Inst, after: Inst)
    requires
        spec_alloc_ok(map, before),
        spec_rewritten(map, before, after),
    ensures
        spec_operands(after).len() == spec_operands(before).len(),
        forall|k: int|
            0 <= k < spec_operands(before).len() ==> {
                &&& (#[trigger] spec_operands(after)[k]).kind == spec_operands(before)[k].kind
                &&& spec_operands(after)[k].reg.spec_class() == spec_operands(
                    before,
                )[k].reg.spec_class()
                &&& (spec_operands(before)[k].reg is Phys ==> spec_operands(after)[k].reg
                    == spec_operands(before)[k].reg)
                &&& (spec_operands(before)[k].reg is Virt ==> spec_operands(after)[k].reg
                    is Phys && spec_operands(after)[k].reg.wf())
                &&& spec_operands(after)[k].fixed == spec_operands(before)[k].fixed
            },
{
    match (before, after) {
        (Inst::Args { args: a0 }, Inst::Args { args: a1 }) => {
            assert forall|k: int| 0 <= k < spec_operands(before).len() implies (
            #[trigger] spec_operands(after)[k]) == op_def_fixed(spec_map_reg(map,
                spec_operands(before)[k].reg), a0@[k].preg) by {
                assert(spec_operands(before)[k] == op_def_fixed(a0@[k].vreg, a0@[k].preg));
                assert(spec_operands(after)[k] == op_def_fixed(a1@[k].vreg, a1@[k].preg));
                assert(a1@[k] == spec_map_pair(map, a0@[k]));
            }
        },
        (Inst::Rets { rets: r0 }, Inst::Rets { rets: r1 }) => {
            assert forall|k: int| 0 <= k < spec_operands(before).len() implies (
            #[trigger] spec_operands(after)[k]) == op_use_fixed(spec_map_reg(map,
                spec_operands(before)[k].reg), r0@[k].preg) by {
                assert(spec_operands(before)[k] == op_use_fixed(r0@[k].vreg, r0@[k].preg));
                assert(spec_operands(after)[k] == op_use_fixed(r1@[k].vreg, r1@[k].preg));
                assert(r1@[k] == spec_map_pair(map, r0@[k]));
            }
        },
        (
            Inst::ReturnCall { uses: u0, .. },
            Inst::ReturnCall { uses: u1, .. },
        ) => {
            assert forall|k: int| 0 <= k < spec_operands(before).len() implies (
            #[trigger] spec_operands(after)[k]) == op_use_fixed(spec_map_reg(map,
                spec_operands(before)[k].reg), u0@[k].preg) by {
                assert(spec_operands(before)[k] == op_use_fixed(u0@[k].vreg, u0@[k].preg));
                assert(spec_operands(after)[k] == op_use_fixed(u1@[k].vreg, u1@[k].preg));
                assert(u1@[k] == spec_map_pair(map, u0@[k]));
            }
        },
        _ => {},
    }
}

/// The alignment required of function starts.
#[derive(Clone, Copy, Debug, PartialEq, Eq, Structural)]
pub struct FunctionAlignment {
    pub minimum: u32,
    pub preferred: u32,
}

impl Inst {
    /// Functions start on four-byte boundaries: the instruction word
    /// size, required and preferred alike.
    pub fn function_alignment() -> (r: FunctionAlignment)
        ensures
            r == (FunctionAlignment { minimum: 4u32, preferred: 4u32 }),
    {
        FunctionAlignment { minimum: 4, preferred: 4 }
    }
}

} // verus!
