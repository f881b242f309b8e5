//! Instruction selection for power64: a priority-ordered rule set mapping
//! IR operations to machine instructions, with constant operands folded
//! into immediate forms where the target has one, and the backend facade
//! composing lowering with the rest of the framework contract.

use vstd::prelude::*;
use crate::abi::{Flags, PowerFlags};
use crate::inst::{AluOp, Inst, MachLabel};
use crate::regs::Reg;

verus! {

/// The IR operations this backend lowers.  Operands are value numbers
/// resolved through the lowering context.
#[derive(Clone, Copy, Debug, PartialEq, Eq, Structural)]
pub enum IRInst {
    /// An integer constant.
    Iconst { imm: i64 },
    /// Integer addition of two values.
    Iadd { a: u32, b: u32 },
    /// Integer subtraction of two values.
    Isub { a: u32, b: u32 },
    /// An unconditional jump to the block's single successor.
    Jump,
    /// A two-way branch on a condition value.
    Brif { cond: u32 },
}

/// The lowering context: for each value number, the operation that
/// defines it (when visible for fusion) and the virtual register holding
/// it.
pub struct LowerCtx {
    pub value_defs: Vec<Option<IRInst>>,
    pub value_regs: Vec<Reg>,
}

impl LowerCtx {
    /// Well-formedness: every value number has both a definition slot
    /// and a register.
    pub open spec fn wf(self) -> bool {
        self.value_defs@.len() == self.value_regs@.len()
    }

    /// Whether `v` is a valid value number here.
    pub open spec fn spec_has_value(self, v: u32) -> bool {
        v < self.value_regs@.len()
    }
}

/// Whether an immediate fits the 12-bit signed field of the immediate
/// ALU forms.
pub open spec fn spec_imm_fits(imm: i64) -> bool {
    -2048 <= imm <= 2047
}

/// Whether lowering covers an IR operation: every non-terminator of the
/// supported subset has a rule, so `None` from [`lower`] on one of these
/// is an internal error of the rule set, never a silent fallback.
pub open spec fn spec_lowerable(i: IRInst) -> bool {
    match i {
        IRInst::Iconst { .. } => true,
        IRInst::Iadd { .. } => true,
        IRInst::Isub { .. } => true,
        IRInst::Jump => false,
        IRInst::Brif { .. } => false,
    }
}

/// The constant that defines value `v`, when its definition is visible.
pub open spec fn spec_iconst_of(ctx: LowerCtx, v: u32) -> Option<i64> {
    match ctx.value_defs@[v as int] {
        Some(IRInst::Iconst { imm }) => Some(imm),
        _ => Option::None,
    }
}

/// The register-form addition selected when no constant folds.
pub open spec fn spec_add_rrr(ctx: LowerCtx, a: u32, b: u32, dst: Reg) -> Seq<Inst> {
    seq![
        Inst::AluRRR {
            op: AluOp::Add,
            rd: dst,
            rs1: ctx.value_regs@[a as int],
            rs2: ctx.value_regs@[b as int],
        },
    ]
}

/// The addition rules after the second-operand fold failed: fold a small
/// constant first operand by commuting, else the register form.
pub open spec fn spec_add_tail(ctx: LowerCtx, a: u32, b: u32, dst: Reg) -> Seq<Inst> {
    match spec_iconst_of(ctx, a) {
        Some(ia) => if spec_imm_fits(ia) {
            seq![
                Inst::AluRRImm {
                    op: AluOp::Add,
                    rd: dst,
                    rs: ctx.value_regs@[b as int],
                    imm: ia as i32,
                },
            ]
        } else {
            spec_add_rrr(ctx, a, b, dst)
        },
        Option::None => spec_add_rrr(ctx, a, b, dst),
    }
}

/// The instructions selected for one non-terminator IR operation, with
/// its result bound to `dst`.  Rules are priority-ordered: an addition or
/// subtraction whose second operand is a small visible constant folds
/// into the immediate form (for addition, a small first operand folds by
/// commuting); otherwise the register form is selected, and a constant
/// is materialized directly.
pub open spec fn spec_lower(ctx: LowerCtx, i: IRInst, dst: Reg) -> Seq<Inst>
    recommends
        spec_lowerable(i),
{
    match i {
        IRInst::Iconst { imm } => seq![Inst::LoadConst { rd: dst, imm }],
        IRInst::Iadd { a, b } => match spec_iconst_of(ctx, b) {
            Some(ib) => if spec_imm_fits(ib) {
                seq![
                    Inst::AluRRImm {
                        op: AluOp::Add,
                        rd: dst,
                        rs: ctx.value_regs@[a as int],
                        imm: ib as i32,
                    },
                ]
            } else {
                spec_add_tail(ctx, a, b, dst)
            },
            Option::None => spec_add_tail(ctx, a, b, dst),
        },
        IRInst::Isub { a, b } => match spec_iconst_of(ctx, b) {
            Some(ib) => if -2047 <= ib <= 2048 {
                seq![
                    Inst::AluRRImm {
                        op: AluOp::Sub,
                        rd: dst,
                        rs: ctx.value_regs@[a as int],
                        imm: ib as i32,
                    },
                ]
            } else {
                seq![
                    Inst::AluRRR {
                        op: AluOp::Sub,
                        rd: dst,
                        rs1: ctx.value_regs@[a as int],
                        rs2: ctx.value_regs@[b as int],
                    },
                ]
            },
            Option::None => seq![
                Inst::AluRRR {
                    op: AluOp::Sub,
                    rd: dst,
                    rs1: ctx.value_regs@[a as int],
                    rs2: ctx.value_regs@[b as int],
                },
            ],
        },
        _ => Seq::empty(),
    }
}

/// Lower one non-terminator IR operation into machine instructions, its
/// result bound to `dst`.  Returns the selection [`spec_lower`]
/// describes, and `None` exactly for the operations outside the
/// non-terminator rule set.
pub fn lower(ctx: &LowerCtx, i: &IRInst, dst: Reg) -> (r: Option<Vec<Inst>>)
    requires
        ctx.wf(),
        (*i matches IRInst::Iadd { a, b } ==> ctx.spec_has_value(a) && ctx.spec_has_value(b)),
        (*i matches IRInst::Isub { a, b } ==> ctx.spec_has_value(a) && ctx.spec_has_value(b)),
    ensures
        match r {
            Some(insts) => spec_lowerable(*i) && insts@ == spec_lower(*ctx, *i, dst),
            Option::None => !spec_lowerable(*i),
        },
{
    match i {
        IRInst::Iconst { imm } => {
            let v = vec![Inst::LoadConst { rd: dst, imm: *imm }];
            proof {
                assert(v@ =~= spec_lower(*ctx, *i, dst));
            }
            Some(v)
        },
        IRInst::Iadd { a, b } => {
            let v: Vec<Inst>;
            if let Some(IRInst::Iconst { imm }) = ctx.value_defs[*b as usize] {
                if -2048 <= imm && imm <= 2047 {
                    v = vec![
                        Inst::AluRRImm {
                            op: AluOp::Add,
                            rd: dst,
                            rs: ctx.value_regs[*a as usize],
                            imm: imm as i32,
                        },
                    ];
                    proof {
                        assert(v@ =~= spec_lower(*ctx, *i, dst));
                    }
                    return Some(v);
                }
            }
            if let Some(IRInst::Iconst { imm }) = ctx.value_defs[*a as usize] {
                if -2048 <= imm && imm <= 2047 {
                    v = vec![
                        Inst::AluRRImm {
                            op: AluOp::Add,
                            rd: dst,
                            rs: ctx.value_regs[*b as usize],
                            imm: imm as i32,
                        },
                    ];
                    proof {
                        assert(v@ =~= spec_lower(*ctx, *i, dst));
                    }
                    return Some(v);
                }
            }
            v = vec![
                Inst::AluRRR {
                    op: AluOp::Add,
                    rd: dst,
                    rs1: ctx.value_regs[*a as usize],
                    rs2: ctx.value_regs[*b as usize],
                },
            ];
            proof {
                assert(v@ =~= spec_lower(*ctx, *i, dst));
            }
            Some(v)
        },
        IRInst::Isub { a, b } => {
            let v: Vec<Inst>;
            if let Some(IRInst::Iconst { imm }) = ctx.value_defs[*b as usize] {
                if -2047 <= imm && imm <= 2048 {
                    v = vec![
                        Inst::AluRRImm {
                            op: AluOp::Sub,
                            rd: dst,
                            rs: ctx.value_regs[*a as usize],
                            imm: imm as i32,
                        },
                    ];
                    proof {
                        assert(v@ =~= spec_lower(*ctx, *i, dst));
                    }
                    return Some(v);
                }
            }
            v = vec![
                Inst::AluRRR {
                    op: AluOp::Sub,
                    rd: dst,
                    rs1: ctx.value_regs[*a as usize],
                    rs2: ctx.value_regs[*b as usize],
                },
            ];
            proof {
                assert(v@ =~= spec_lower(*ctx, *i, dst));
            }
            Some(v)
        },
        IRInst::Jump => Option::None,
        IRInst::Brif { .. } => Option::None,
    }
}

/// Lower one block terminator against its concrete successor labels: a
/// jump takes the single successor, a two-way branch its taken and
/// not-taken successors in order.  `None` exactly for non-terminators.
pub fn lower_branch(ctx: &LowerCtx, i: &IRInst, targets: &Vec<MachLabel>) -> (r: Option<
    Vec<Inst>>)
    requires
        ctx.wf(),
        (*i is Jump ==> targets@.len() >= 1),
        (*i matches IRInst::Brif { cond } ==> targets@.len() >= 2 && ctx.spec_has_value(cond)),
    ensures
        match r {
            Some(insts) => match *i {
                IRInst::Jump => insts@ == seq![Inst::Jump { dest: targets@[0] }],
                IRInst::Brif { cond } => insts@ == seq![
                    Inst::CondBr {
                        cond: ctx.value_regs@[cond as int],
                        taken: targets@[0],
                        not_taken: targets@[1],
                    },
                ],
                _ => false,
            },
            Option::None => !(*i is Jump) && !(*i is Brif),
        },
{
    match i {
        IRInst::Jump => {
            let v = vec![Inst::Jump { dest: targets[0] }];
            proof {
                assert(v@ =~= seq![Inst::Jump { dest: targets@[0] }]);
            }
            Some(v)
        },
        IRInst::Brif { cond } => {
            let v = vec![
                Inst::CondBr {
                    cond: ctx.value_regs[*cond as usize],
                    taken: targets[0],
                    not_taken: targets[1],
                },
            ];
            proof {
                assert(v@ =~= seq![
                    Inst::CondBr {
                        cond: ctx.value_regs@[*cond as int],
                        taken: targets@[0],
                        not_taken: targets@[1],
                    },
                ]);
            }
            Some(v)
        },
        _ => Option::None,
    }
}

/// The backend facade: the composition root implementing the framework's
/// lowering contract for the power64 target.
pub struct Power64Backend {
    pub flags: Flags,
    pub isa_flags: PowerFlags,
}

impl Power64Backend {
    /// Lower one non-terminator IR operation (see [`lower`]).
    pub fn lower(&self, ctx: &LowerCtx, i: &IRInst, dst: Reg) -> (r: Option<Vec<Inst>>)
        requires
            ctx.wf(),
            (*i matches IRInst::Iadd { a, b } ==> ctx.spec_has_value(a) && ctx.spec_has_value(
                b,
            )),
            (*i matches IRInst::Isub { a, b } ==> ctx.spec_has_value(a) && ctx.spec_has_value(
                b,
            )),
        ensures
            match r {
                Some(insts) => spec_lowerable(*i) && insts@ == spec_lower(*ctx, *i, dst),
                Option::None => !spec_lowerable(*i),
            },
    {
        lower(ctx, i, dst)
    }

    /// Lower one block terminator (see [`lower_branch`]).
    pub fn lower_branch(&self, ctx: &LowerCtx, i: &IRInst, targets: &Vec<MachLabel>) -> (r:
        Option<Vec<Inst>>)
        requires
            ctx.wf(),
            (*i is Jump ==> targets@.len() >= 1),
            (*i matches IRInst::Brif { cond } ==> targets@.len() >= 2 && ctx.spec_has_value(
                cond,
            )),
        ensures
            match r {
                Some(insts) => match *i {
                    IRInst::Jump => insts@ == seq![Inst::Jump { dest: targets@[0] }],
                    IRInst::Brif { cond } => insts@ == seq![
                        Inst::CondBr {
                            cond: ctx.value_regs@[cond as int],
                            taken: targets@[0],
                            not_taken: targets@[1],
                        },
                    ],
                    _ => false,
                },
                Option::None => !(*i is Jump) && !(*i is Brif),
            },
    {
        lower_branch(ctx, i, targets)
    }

    /// This target reserves no pinned register.
    pub fn maybe_pinned_reg(&self) -> (r: Option<Reg>)
        ensures
            r is None,
    {
        Option::None
    }
}

} // verus!
