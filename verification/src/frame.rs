//! Stack-frame construction for power64: the finalized frame layout, and
//! the prologue, epilogue, clobber-save and related code-generation
//! phases, each with the exact instruction sequence it produces.

use vstd::prelude::*;
use crate::abi::{ArgumentExtension, CallConv, Flags, PowerFlags, STACK_ALIGN_BYTES,
    STACK_ARG_RET_SIZE_LIMIT, spec_align_up, align_up_u32, lemma_align_up};
use crate::inst::Inst;
use crate::regs::{Reg, RegClass, is_callee_saved, spec_fp_reg, spec_is_callee_saved,
    spec_link_reg, spec_spilltmp_reg, spec_stack_reg};
use crate::seqvec::{InstVec, inst_vec_get, inst_vec_len, inst_vec_new, inst_vec_push,
    inst_vec_view};
use crate::types::Type;

verus! {

/// The finalized stack shape of one function, computed once instruction
/// selection is complete and the clobber set is known; immutable
/// thereafter.
#[derive(Clone, Debug, PartialEq, Eq)]
pub struct FrameLayout {
    /// Bytes of incoming arguments on the caller's side of the frame.
    pub incoming_args_size: u32,
    /// Bytes reserved so a tail call can overwrite the incoming argument
    /// area; at least `incoming_args_size`.
    pub tail_args_size: u32,
    /// Bytes of the frame-setup area holding the saved return address and
    /// frame pointer: 16, or 0 when no frame is needed.
    pub setup_area_size: u32,
    /// Bytes of the clobber-save area, aligned to the stack alignment.
    pub clobber_size: u32,
    /// Bytes of fixed local storage.
    pub fixed_frame_storage_size: u32,
    /// Bytes of the outgoing-argument area.
    pub outgoing_args_size: u32,
    /// The callee-saved registers the function body overwrites, each
    /// spilled in the clobber-save area in this order.
    pub clobbered_callee_saves: Vec<Reg>,
}

/// The callee-saved registers of a clobber list, in order.
pub open spec fn spec_callee_saves(regs: Seq<Reg>) -> Seq<Reg>
    decreases regs.len(),
{
    if regs.len() == 0 {
        Seq::empty()
    } else {
        let rest = spec_callee_saves(regs.drop_first());
        if spec_is_callee_saved(regs[0]) {
            seq![regs[0]].add(rest)
        } else {
            rest
        }
    }
}

/// The callee-saved sublist keeps only callee-saved registers, introduces
/// no new registers, and keeps distinctness.
pub proof fn lemma_callee_saves_props(regs: Seq<Reg>)
    ensures
        spec_callee_saves(regs).len() <= regs.len(),
        forall|k: int| 0 <= k < spec_callee_saves(regs).len() ==> spec_is_callee_saved(
            #[trigger] spec_callee_saves(regs)[k]),
        forall|r: Reg| spec_callee_saves(regs).contains(r) ==> regs.contains(r),
        regs.no_duplicates() ==> spec_callee_saves(regs).no_duplicates(),
    decreases regs.len(),
{
    if regs.len() == 0 {
    } else {
        let rest = regs.drop_first();
        lemma_callee_saves_props(rest);
        let sub = spec_callee_saves(rest);
        assert forall|r: Reg| spec_callee_saves(regs).contains(r) implies regs.contains(r) by {
            let out = spec_callee_saves(regs);
            let j = choose|j: int| 0 <= j < out.len() && out[j] == r;
            if spec_is_callee_saved(regs[0]) {
                assert(out == seq![regs[0]].add(sub));
                if j == 0 {
                    assert(regs[0] == r);
                } else {
                    assert(out[j] == sub[j - 1]);
                    assert(sub.contains(r)) by {
                        assert(sub[j - 1] == r);
                    }
                    assert(rest.contains(r));
                    let t = choose|t: int| 0 <= t < rest.len() && rest[t] == r;
                    assert(regs[t + 1] == rest[t]);
                }
            } else {
                assert(out == sub);
                assert(sub[j] == r);
                assert(sub.contains(r));
                assert(rest.contains(r));
                let t = choose|t: int| 0 <= t < rest.len() && rest[t] == r;
                assert(regs[t + 1] == rest[t]);
            }
        }
        if regs.no_duplicates() {
            assert(rest.no_duplicates());
            if spec_is_callee_saved(regs[0]) {
                assert(!rest.contains(regs[0])) by {
                    if rest.contains(regs[0]) {
                        let t = choose|t: int| 0 <= t < rest.len() && rest[t] == regs[0];
                        assert(regs[t + 1] == regs[0]);
                    }
                }
                assert(!sub.contains(regs[0]));
                let out = seq![regs[0]].add(sub);
                assert forall|p: int, q: int|
                    0 <= p < q < out.len() implies out[p] != out[q] by {
                    if p == 0 {
                        assert(out[q] == sub[q - 1]);
                        assert(sub.contains(sub[q - 1]));
                    } else {
                        assert(out[p] == sub[p - 1] && out[q] == sub[q - 1]);
                    }
                }
            }
        }
    }
}

/// The larger of two sizes.
pub open spec fn spec_max_u32(a: int, b: int) -> int {
    if a < b {
        b
    } else {
        a
    }
}

/// The frame-setup area is empty only for a leaf function with nothing to
/// save and no frame-resident storage; otherwise it holds the saved
/// return address and frame pointer.
pub open spec fn spec_setup_area_size(
    is_leaf: bool,
    n_clobbers: int,
    fixed: int,
    outgoing: int,
) -> int {
    if is_leaf && n_clobbers == 0 && fixed == 0 && outgoing == 0 {
        0
    } else {
        16
    }
}

impl FrameLayout {
    /// Well-formedness: the clobber list holds distinct callee-saved
    /// registers, the clobber area is their aligned spill space, the
    /// setup area is empty or exactly one register pair, and every area
    /// is within the implementation limit.
    pub open spec fn wf(self) -> bool {
        &&& self.clobbered_callee_saves@.no_duplicates()
        &&& forall|k: int| 0 <= k < self.clobbered_callee_saves@.len()
            ==> spec_is_callee_saved(#[trigger] self.clobbered_callee_saves@[k])
        &&& self.clobbered_callee_saves@.len() <= 192
        &&& self.clobber_size == spec_align_up(8 * self.clobbered_callee_saves@.len() as int, 16)
        &&& (self.setup_area_size == 0 || self.setup_area_size == 16)
        &&& self.fixed_frame_storage_size <= STACK_ARG_RET_SIZE_LIMIT
        &&& self.outgoing_args_size <= STACK_ARG_RET_SIZE_LIMIT
        &&& self.incoming_args_size <= self.tail_args_size <= STACK_ARG_RET_SIZE_LIMIT
        &&& (self.tail_args_size as int) % (STACK_ALIGN_BYTES as int) == 0
    }

    /// The byte size of the area the clobber-save phase allocates below
    /// the setup area: clobber spills, fixed storage and outgoing
    /// arguments, rounded up to the stack alignment so the one stack
    /// adjustment that allocates it keeps the stack pointer aligned.
    pub open spec fn spec_clobber_area(self) -> int {
        spec_align_up(
            self.clobber_size + self.fixed_frame_storage_size + self.outgoing_args_size,
            STACK_ALIGN_BYTES as int,
        )
    }

    /// The total frame size below the incoming arguments: the (tail-)
    /// argument area, the setup area, and the clobber/fixed/outgoing
    /// area.
    pub open spec fn spec_frame_total(self) -> int {
        self.tail_args_size + self.setup_area_size + self.spec_clobber_area()
    }
}

/// Compute the finalized frame layout from the clobber set the allocator
/// reported and the sizes selection determined.  Deterministic in its
/// inputs; the clobber list keeps only the callee-saved registers, in
/// their incoming order.
pub fn compute_frame_layout(
    _call_conv: CallConv,
    _flags: &Flags,
    regs: &Vec<Reg>,
    is_leaf: bool,
    incoming_args_size: u32,
    tail_args_size: u32,
    fixed_frame_storage_size: u32,
    outgoing_args_size: u32,
) -> (fl: FrameLayout)
    requires
        regs@.no_duplicates(),
        regs@.len() <= 192,
        incoming_args_size <= STACK_ARG_RET_SIZE_LIMIT,
        tail_args_size <= STACK_ARG_RET_SIZE_LIMIT,
        fixed_frame_storage_size <= STACK_ARG_RET_SIZE_LIMIT,
        outgoing_args_size <= STACK_ARG_RET_SIZE_LIMIT,
        incoming_args_size % STACK_ALIGN_BYTES == 0,
        tail_args_size % STACK_ALIGN_BYTES == 0,
    ensures
        fl.wf(),
        fl.spec_frame_total() % (STACK_ALIGN_BYTES as int) == 0,
        fl.clobbered_callee_saves@ == spec_callee_saves(regs@),
        fl.incoming_args_size == incoming_args_size,
        fl.tail_args_size == spec_max_u32(incoming_args_size as int, tail_args_size as int),
        fl.fixed_frame_storage_size == fixed_frame_storage_size,
        fl.outgoing_args_size == outgoing_args_size,
        fl.clobber_size == spec_align_up(8 * spec_callee_saves(regs@).len() as int, 16),
        fl.setup_area_size == spec_setup_area_size(is_leaf, spec_callee_saves(regs@).len()
            as int, fixed_frame_storage_size as int, outgoing_args_size as int),
{
    let mut saves: Vec<Reg> = Vec::new();
    proof {
        assert(regs@.skip(0) =~= regs@);
        assert(saves@.add(spec_callee_saves(regs@)) =~= spec_callee_saves(regs@));
    }
    let mut k: usize = 0;
    #[verifier::loop_isolation(false)]
    while k < regs.len()
        invariant
            k <= regs.len(),
            saves@.len() <= k,
            spec_callee_saves(regs@) == saves@.add(spec_callee_saves(regs@.skip(k as int))),
        decreases regs.len() - k,
    {
        proof {
            assert(regs@.skip(k as int).len() > 0);
            assert(regs@.skip(k as int)[0] == regs@[k as int]);
            assert(regs@.skip(k as int).drop_first() =~= regs@.skip(k as int + 1));
        }
        let ghost saves_before = saves@;
        let r = regs[k];
        if is_callee_saved(r) {
            saves.push(r);
        }
        proof {
            let rest = spec_callee_saves(regs@.skip(k as int + 1));
            if spec_is_callee_saved(regs@[k as int]) {
                assert(saves_before.add(seq![regs@[k as int]].add(rest)) =~= saves@.add(rest));
            }
        }
        k = k + 1;
    }
    proof {
        assert(regs@.skip(regs@.len() as int) =~= Seq::<Reg>::empty());
        assert(saves@.add(Seq::<Reg>::empty()) =~= saves@);
        lemma_callee_saves_props(regs@);
    }
    let n_clobbers = saves.len();
    let clobber_size = align_up_u32((n_clobbers as u32) * 8, 16);
    let setup_area_size: u32 = if is_leaf && n_clobbers == 0 && fixed_frame_storage_size == 0
        && outgoing_args_size == 0 {
        0
    } else {
        16
    };
    let tail = if incoming_args_size < tail_args_size {
        tail_args_size
    } else {
        incoming_args_size
    };
    FrameLayout {
        incoming_args_size,
        tail_args_size: tail,
        setup_area_size,
        clobber_size,
        fixed_frame_storage_size,
        outgoing_args_size,
        clobbered_callee_saves: saves,
    }
}

/// The type a register's spill slot holds: the canonical full-width type
/// of its class.
pub open spec fn spec_store_ty(r: Reg) -> Type {
    if r.spec_class() == RegClass::Float {
        Type::F64
    } else {
        Type::I64
    }
}

/// The prologue frame-setup sequence: allocate the setup area, save the
/// return address and the old frame pointer in it, and point the frame
/// pointer at it.  Empty when the layout needs no frame.
pub open spec fn spec_prologue_seq(fl: FrameLayout) -> Seq<Inst> {
    if fl.setup_area_size == 0 {
        Seq::empty()
    } else {
        seq![
            Inst::AdjustSp { amount: -16i32 },
            Inst::Store { rs: spec_link_reg(), base: spec_stack_reg(), offset: 8, ty: Type::I64 },
            Inst::Store { rs: spec_fp_reg(), base: spec_stack_reg(), offset: 0, ty: Type::I64 },
            Inst::Mov { rd: spec_fp_reg(), rm: spec_stack_reg(), ty: Type::I64 },
        ]
    }
}

/// The epilogue frame-restore sequence: reload the frame pointer and the
/// return address, then free the setup area.  The exact inverse of
/// [`spec_prologue_seq`].
pub open spec fn spec_epilogue_seq(fl: FrameLayout) -> Seq<Inst> {
    if fl.setup_area_size == 0 {
        Seq::empty()
    } else {
        seq![
            Inst::Load { rd: spec_fp_reg(), base: spec_stack_reg(), offset: 0, ty: Type::I64 },
            Inst::Load { rd: spec_link_reg(), base: spec_stack_reg(), offset: 8, ty: Type::I64 },
            Inst::AdjustSp { amount: 16i32 },
        ]
    }
}

/// The stores spilling the clobbered registers: register `k` of the list
/// goes to `[sp + off + 8k]`.
pub open spec fn spec_save_seq(cs: Seq<Reg>, off: int) -> Seq<Inst>
    decreases cs.len(),
{
    if cs.len() == 0 {
        Seq::empty()
    } else {
        seq![
            Inst::Store {
                rs: cs[0],
                base: spec_stack_reg(),
                offset: off as i32,
                ty: spec_store_ty(cs[0]),
            },
        ].add(spec_save_seq(cs.drop_first(), off + 8))
    }
}

/// The loads reloading the clobbered registers, from the same slots the
/// matching stores used.
pub open spec fn spec_restore_seq(cs: Seq<Reg>, off: int) -> Seq<Inst>
    decreases cs.len(),
{
    if cs.len() == 0 {
        Seq::empty()
    } else {
        seq![
            Inst::Load {
                rd: cs[0],
                base: spec_stack_reg(),
                offset: off as i32,
                ty: spec_store_ty(cs[0]),
            },
        ].add(spec_restore_seq(cs.drop_first(), off + 8))
    }
}

/// The clobber-save sequence: allocate the clobber, fixed-storage and
/// outgoing areas in one stack adjustment, then spill each clobbered
/// register above the fixed and outgoing areas.
pub open spec fn spec_clobber_save_seq(fl: FrameLayout) -> Seq<Inst> {
    let area = fl.spec_clobber_area();
    let adj: Seq<Inst> = if area == 0 {
        Seq::empty()
    } else {
        seq![Inst::AdjustSp { amount: (-area) as i32 }]
    };
    adj.add(
        spec_save_seq(
            fl.clobbered_callee_saves@,
            fl.fixed_frame_storage_size + fl.outgoing_args_size,
        ),
    )
}

/// The clobber-restore sequence: reload each clobbered register, then
/// free the areas in one stack adjustment.  The exact inverse of
/// [`spec_clobber_save_seq`].
pub open spec fn spec_clobber_restore_seq(fl: FrameLayout) -> Seq<Inst> {
    let area = fl.spec_clobber_area();
    let adj: Seq<Inst> = if area == 0 {
        Seq::empty()
    } else {
        seq![Inst::AdjustSp { amount: area as i32 }]
    };
    spec_restore_seq(
        fl.clobbered_callee_saves@,
        fl.fixed_frame_storage_size + fl.outgoing_args_size,
    ).add(adj)
}

/// Generate the prologue frame setup (see [`spec_prologue_seq`]).
pub fn gen_prologue_frame_setup(
    _call_conv: CallConv,
    _flags: &Flags,
    _isa_flags: &PowerFlags,
    frame_layout: &FrameLayout,
) -> (insts: InstVec)
    ensures
        inst_vec_view(insts) == spec_prologue_seq(*frame_layout),
{
    let mut v = inst_vec_new();
    if frame_layout.setup_area_size > 0 {
        inst_vec_push(&mut v, Inst::AdjustSp { amount: -16 });
        inst_vec_push(&mut v, Inst::Store {
            rs: crate::regs::link_reg(),
            base: crate::regs::stack_reg(),
            offset: 8,
            ty: Type::I64,
        });
        inst_vec_push(&mut v, Inst::Store {
            rs: crate::regs::fp_reg(),
            base: crate::regs::stack_reg(),
            offset: 0,
            ty: Type::I64,
        });
        inst_vec_push(&mut v, Inst::Mov {
            rd: crate::regs::fp_reg(),
            rm: crate::regs::stack_reg(),
            ty: Type::I64,
        });
        proof {
            assert(inst_vec_view(v) =~= spec_prologue_seq(*frame_layout));
        }
    } else {
        proof {
            assert(inst_vec_view(v) =~= spec_prologue_seq(*frame_layout));
        }
    }
    v
}

/// Generate the epilogue frame restore (see [`spec_epilogue_seq`]).
pub fn gen_epilogue_frame_restore(
    _call_conv: CallConv,
    _flags: &Flags,
    _isa_flags: &PowerFlags,
    frame_layout: &FrameLayout,
) -> (insts: InstVec)
    ensures
        inst_vec_view(insts) == spec_epilogue_seq(*frame_layout),
{
    let mut v = inst_vec_new();
    if frame_layout.setup_area_size > 0 {
        inst_vec_push(&mut v, Inst::Load {
            rd: crate::regs::fp_reg(),
            base: crate::regs::stack_reg(),
            offset: 0,
            ty: Type::I64,
        });
        inst_vec_push(&mut v, Inst::Load {
            rd: crate::regs::link_reg(),
            base: crate::regs::stack_reg(),
            offset: 8,
            ty: Type::I64,
        });
        inst_vec_push(&mut v, Inst::AdjustSp { amount: 16 });
        proof {
            assert(inst_vec_view(v) =~= spec_epilogue_seq(*frame_layout));
        }
    } else {
        proof {
            assert(inst_vec_view(v) =~= spec_epilogue_seq(*frame_layout));
        }
    }
    v
}

/// Generate the return sequence: a single return instruction.
pub fn gen_return(
    _call_conv: CallConv,
    _isa_flags: &PowerFlags,
    _frame_layout: &FrameLayout,
) -> (insts: InstVec)
    ensures
        inst_vec_view(insts) == seq![Inst::Ret],
{
    let mut v = inst_vec_new();
    inst_vec_push(&mut v, Inst::Ret);
    proof {
        assert(inst_vec_view(v) =~= seq![Inst::Ret]);
    }
    v
}

/// Generate the clobber-save sequence (see [`spec_clobber_save_seq`]).
#[verifier::loop_isolation(false)]
pub fn gen_clobber_save(
    _call_conv: CallConv,
    _flags: &Flags,
    frame_layout: &FrameLayout,
) -> (insts: InstVec)
    requires
        frame_layout.wf(),
    ensures
        inst_vec_view(insts) == spec_clobber_save_seq(*frame_layout),
{
    let mut v = inst_vec_new();
    let cs = &frame_layout.clobbered_callee_saves;
    proof {
        lemma_align_up(8 * cs@.len() as int, 16);
    }
    let area: u32 = align_up_u32(
        frame_layout.clobber_size + frame_layout.fixed_frame_storage_size
            + frame_layout.outgoing_args_size,
        STACK_ALIGN_BYTES,
    );
    if area > 0 {
        inst_vec_push(&mut v, Inst::AdjustSp { amount: -(area as i32) });
    }
    let ghost adj = inst_vec_view(v);
    let off0: u32 = frame_layout.fixed_frame_storage_size + frame_layout.outgoing_args_size;
    proof {
        assert(cs@.skip(0) =~= cs@);
        assert(Seq::<Inst>::empty().add(spec_save_seq(cs@, off0 as int)) =~= spec_save_seq(
            cs@, off0 as int));
    }
    let mut k: usize = 0;
    while k < cs.len()
        invariant
            k <= cs@.len(),
            spec_save_seq(cs@, off0 as int) == inst_vec_view(v).skip(adj.len() as int).add(
                spec_save_seq(cs@.skip(k as int), off0 + 8 * k)),
            inst_vec_view(v).take(adj.len() as int) == adj,
            inst_vec_view(v).len() == adj.len() + k,
        decreases cs@.len() - k,
    {
        proof {
            assert(cs@.skip(k as int).len() > 0);
            assert(cs@.skip(k as int)[0] == cs@[k as int]);
            assert(cs@.skip(k as int).drop_first() =~= cs@.skip(k as int + 1));
        }
        let r = cs[k];
        let ty = if matches!(r.class(), RegClass::Float) {
            Type::F64
        } else {
            Type::I64
        };
        let offset: u32 = off0 + 8 * (k as u32);
        let ghost view_before = inst_vec_view(v);
        inst_vec_push(&mut v, Inst::Store {
            rs: r,
            base: crate::regs::stack_reg(),
            offset: offset as i32,
            ty,
        });
        proof {
            let st = Inst::Store {
                rs: cs@[k as int],
                base: spec_stack_reg(),
                offset: (off0 + 8 * k) as i32,
                ty: spec_store_ty(cs@[k as int]),
            };
            assert(inst_vec_view(v) == view_before.push(st));
            assert(inst_vec_view(v).take(adj.len() as int) =~= adj);
            assert(inst_vec_view(v).skip(adj.len() as int) =~= view_before.skip(
                adj.len() as int).push(st));
            assert(view_before.skip(adj.len() as int).push(st).add(spec_save_seq(cs@.skip(
                k as int + 1), off0 + 8 * (k + 1))) =~= view_before.skip(adj.len() as int).add(
                seq![st].add(spec_save_seq(cs@.skip(k as int + 1), off0 + 8 * (k + 1)))));
        }
        k = k + 1;
    }
    proof {
        assert(cs@.skip(cs@.len() as int) =~= Seq::<Reg>::empty());
        assert(inst_vec_view(v).skip(adj.len() as int).add(Seq::<Inst>::empty())
            =~= inst_vec_view(v).skip(adj.len() as int));
        assert(inst_vec_view(v) =~= adj.add(inst_vec_view(v).skip(adj.len() as int)));
        assert(inst_vec_view(v) =~= spec_clobber_save_seq(*frame_layout));
    }
    v
}

/// Generate the clobber-restore sequence (see
/// [`spec_clobber_restore_seq`]).
#[verifier::loop_isolation(false)]
pub fn gen_clobber_restore(
    _call_conv: CallConv,
    _flags: &Flags,
    frame_layout: &FrameLayout,
) -> (insts: InstVec)
    requires
        frame_layout.wf(),
    ensures
        inst_vec_view(insts) == spec_clobber_restore_seq(*frame_layout),
{
    let mut v = inst_vec_new();
    let cs = &frame_layout.clobbered_callee_saves;
    proof {
        lemma_align_up(8 * cs@.len() as int, 16);
        assert(cs@.skip(0) =~= cs@);
        assert(Seq::<Inst>::empty().add(spec_restore_seq(cs@, (
        frame_layout.fixed_frame_storage_size + frame_layout.outgoing_args_size) as int))
            =~= spec_restore_seq(cs@, (frame_layout.fixed_frame_storage_size
            + frame_layout.outgoing_args_size) as int));
    }
    let off0: u32 = frame_layout.fixed_frame_storage_size + frame_layout.outgoing_args_size;
    let mut k: usize = 0;
    while k < cs.len()
        invariant
            k <= cs@.len(),
            spec_restore_seq(cs@, off0 as int) == inst_vec_view(v).add(spec_restore_seq(
                cs@.skip(k as int), off0 + 8 * k)),
            inst_vec_view(v).len() == k,
        decreases cs@.len() - k,
    {
        proof {
            assert(cs@.skip(k as int).len() > 0);
            assert(cs@.skip(k as int)[0] == cs@[k as int]);
            assert(cs@.skip(k as int).drop_first() =~= cs@.skip(k as int + 1));
        }
        let r = cs[k];
        let ty = if matches!(r.class(), RegClass::Float) {
            Type::F64
        } else {
            Type::I64
        };
        let offset: u32 = off0 + 8 * (k as u32);
        let ghost view_before = inst_vec_view(v);
        inst_vec_push(&mut v, Inst::Load {
            rd: r,
            base: crate::regs::stack_reg(),
            offset: offset as i32,
            ty,
        });
        proof {
            let ld = Inst::Load {
                rd: cs@[k as int],
                base: spec_stack_reg(),
                offset: (off0 + 8 * k) as i32,
                ty: spec_store_ty(cs@[k as int]),
            };
            assert(inst_vec_view(v) == view_before.push(ld));
            assert(view_before.push(ld).add(spec_restore_seq(cs@.skip(k as int + 1), off0 + 8
                * (k + 1))) =~= view_before.add(seq![ld].add(spec_restore_seq(cs@.skip(
                k as int + 1), off0 + 8 * (k + 1)))));
        }
        k = k + 1;
    }
    let area: u32 = align_up_u32(
        frame_layout.clobber_size + frame_layout.fixed_frame_storage_size
            + frame_layout.outgoing_args_size,
        STACK_ALIGN_BYTES,
    );
    if area > 0 {
        inst_vec_push(&mut v, Inst::AdjustSp { amount: area as i32 });
    }
    proof {
        assert(cs@.skip(cs@.len() as int) =~= Seq::<Reg>::empty());
        assert(inst_vec_view(v) =~= spec_clobber_restore_seq(*frame_layout));
    }
    v
}

/// An abstract machine state the frame phases act on: register contents
/// and stack memory, byte-addressed, one word per address.
pub ghost struct MachState {
    pub regs: Map<Reg, int>,
    pub mem: Map<int, int>,
}

/// One step of the abstract machine, for the instructions the frame
/// phases emit; every other instruction leaves the state unchanged here.
pub open spec fn spec_step(s: MachState, i: Inst) -> MachState {
    match i {
        Inst::AdjustSp { amount } => MachState {
            regs: s.regs.insert(
                spec_stack_reg(),
                s.regs[spec_stack_reg()] + amount as int,
            ),
            mem: s.mem,
        },
        Inst::Store { rs, base, offset, .. } => MachState {
            regs: s.regs,
            mem: s.mem.insert(s.regs[base] + offset as int, s.regs[rs]),
        },
        Inst::Load { rd, base, offset, .. } => MachState {
            regs: s.regs.insert(rd, s.mem[s.regs[base] + offset as int]),
            mem: s.mem,
        },
        Inst::Mov { rd, rm, .. } => MachState { regs: s.regs.insert(rd, s.regs[rm]), mem: s.mem },
        _ => s,
    }
}

/// Run the abstract machine over an instruction sequence, in order.
pub open spec fn spec_run(s: MachState, insts: Seq<Inst>) -> MachState
    decreases insts.len(),
{
    if insts.len() == 0 {
        s
    } else {
        spec_run(spec_step(s, insts[0]), insts.drop_first())
    }
}

/// Running a concatenation runs the parts in order.
proof fn lemma_run_add(s: MachState, a: Seq<Inst>, b: Seq<Inst>)
    ensures
        spec_run(s, a.add(b)) == spec_run(spec_run(s, a), b),
    decreases a.len(),
{
    if a.len() == 0 {
        assert(a.add(b) =~= b);
    } else {
        assert(a.add(b)[0] == a[0]);
        assert(a.add(b).drop_first() =~= a.drop_first().add(b));
        lemma_run_add(spec_step(s, a[0]), a.drop_first(), b);
    }
}

/// Effect of the clobber-save stores: registers untouched; each saved
/// register's value sits at its slot; all other memory untouched.
proof fn lemma_save_effect(cs: Seq<Reg>, off: int, s: MachState)
    requires
        0 <= off,
        off + 8 * cs.len() <= 0x4000_0000,
    ensures
        spec_run(s, spec_save_seq(cs, off)).regs == s.regs,
        forall|a: int|
            (a < s.regs[spec_stack_reg()] + off || a >= s.regs[spec_stack_reg()] + off + 8
                * cs.len()) ==> spec_run(s, spec_save_seq(cs, off)).mem[a] == s.mem[a],
        forall|k: int|
            0 <= k < cs.len() ==> spec_run(s, spec_save_seq(cs, off)).mem[s.regs[
                spec_stack_reg()] + off + 8 * k] == s.regs[#[trigger] cs[k]],
    decreases cs.len(),
{
    if cs.len() == 0 {
    } else {
        let sp = spec_stack_reg();
        let sp0 = s.regs[sp];
        let st = Inst::Store {
            rs: cs[0],
            base: sp,
            offset: off as i32,
            ty: spec_store_ty(cs[0]),
        };
        let sq = spec_save_seq(cs, off);
        assert(sq[0] == st);
        assert(sq.drop_first() =~= spec_save_seq(cs.drop_first(), off + 8));
        let s1 = spec_step(s, st);
        assert(s1.regs == s.regs);
        assert(s1.mem == s.mem.insert(sp0 + off, s.regs[cs[0]]));
        lemma_save_effect(cs.drop_first(), off + 8, s1);
        let sf = spec_run(s1, spec_save_seq(cs.drop_first(), off + 8));
        assert(spec_run(s, sq) == sf);
        assert forall|a: int|
            (a < sp0 + off || a >= sp0 + off + 8 * cs.len()) implies sf.mem[a] == s.mem[a] by {
            assert(a < s1.regs[sp] + (off + 8) || a >= s1.regs[sp] + (off + 8) + 8 * (cs.len()
                - 1));
            assert(sf.mem[a] == s1.mem[a]);
            assert(a != sp0 + off);
        }
        assert forall|k: int| 0 <= k < cs.len() implies sf.mem[sp0 + off + 8 * k] == s.regs[
            #[trigger] cs[k]] by {
            if k == 0 {
                assert(sp0 + off < s1.regs[sp] + (off + 8));
                assert(sf.mem[sp0 + off] == s1.mem[sp0 + off]);
            } else {
                assert(cs.drop_first()[k - 1] == cs[k]);
                assert(sf.mem[s1.regs[sp] + (off + 8) + 8 * (k - 1)] == s1.regs[cs.drop_first()[
                    k - 1]]);
                assert(s1.regs[sp] + (off + 8) + 8 * (k - 1) == sp0 + off + 8 * k);
            }
        }
    }
}

/// Effect of the clobber-restore loads: memory untouched; each restored
/// register reads its slot; all other registers untouched.
proof fn lemma_restore_effect(cs: Seq<Reg>, off: int, s: MachState)
    requires
        0 <= off,
        off + 8 * cs.len() <= 0x4000_0000,
        cs.no_duplicates(),
        forall|k: int| 0 <= k < cs.len() ==> #[trigger] cs[k] != spec_stack_reg(),
    ensures
        spec_run(s, spec_restore_seq(cs, off)).mem == s.mem,
        forall|k: int|
            0 <= k < cs.len() ==> spec_run(s, spec_restore_seq(cs, off)).regs[#[trigger] cs[k]]
                == s.mem[s.regs[spec_stack_reg()] + off + 8 * k],
        forall|r: Reg|
            !cs.contains(r) ==> spec_run(s, spec_restore_seq(cs, off)).regs[r] == s.regs[r],
    decreases cs.len(),
{
    if cs.len() == 0 {
    } else {
        let sp = spec_stack_reg();
        let sp0 = s.regs[sp];
        let ld = Inst::Load {
            rd: cs[0],
            base: sp,
            offset: off as i32,
            ty: spec_store_ty(cs[0]),
        };
        let sq = spec_restore_seq(cs, off);
        assert(sq[0] == ld);
        assert(sq.drop_first() =~= spec_restore_seq(cs.drop_first(), off + 8));
        let s1 = spec_step(s, ld);
        assert(s1.mem == s.mem);
        assert(s1.regs == s.regs.insert(cs[0], s.mem[sp0 + off]));
        assert(s1.regs[sp] == sp0);
        let rest = cs.drop_first();
        assert(rest.no_duplicates());
        assert forall|k: int| 0 <= k < rest.len() implies #[trigger] rest[k]
            != spec_stack_reg() by {
            assert(rest[k] == cs[k + 1]);
        }
        lemma_restore_effect(rest, off + 8, s1);
        let sf = spec_run(s1, spec_restore_seq(rest, off + 8));
        assert(spec_run(s, sq) == sf);
        assert(!rest.contains(cs[0])) by {
            if rest.contains(cs[0]) {
                let t = choose|t: int| 0 <= t < rest.len() && rest[t] == cs[0];
                assert(cs[t + 1] == cs[0]);
            }
        }
        assert forall|k: int| 0 <= k < cs.len() implies sf.regs[#[trigger] cs[k]] == s.mem[sp0
            + off + 8 * k] by {
            if k == 0 {
                assert(sf.regs[cs[0]] == s1.regs[cs[0]]);
            } else {
                assert(rest[k - 1] == cs[k]);
                assert(sf.regs[rest[k - 1]] == s1.mem[s1.regs[sp] + (off + 8) + 8 * (k - 1)]);
                assert(s1.regs[sp] + (off + 8) + 8 * (k - 1) == sp0 + off + 8 * k);
            }
        }
        assert forall|r: Reg| !cs.contains(r) implies sf.regs[r] == s.regs[r] by {
            assert(!rest.contains(r)) by {
                if rest.contains(r) {
                    let t = choose|t: int| 0 <= t < rest.len() && rest[t] == r;
                    assert(cs[t + 1] == r);
                }
            }
            assert(r != cs[0]) by {
                assert(cs[0] == cs[0]);
            }
            assert(sf.regs[r] == s1.regs[r]);
        }
    }
}

/// Prologue/epilogue inverse property: running the generated prologue and
/// clobber save, then the generated clobber restore and epilogue, leaves
/// the stack pointer, the frame pointer, the return address and every
/// clobbered callee-saved register exactly as they were.
#[verifier::rlimit(100)]
#[verifier::spinoff_prover]
pub proof fn lemma_prologue_epilogue_inverse(fl: FrameLayout, s0: MachState)
    requires
        fl.wf(),
    ensures
        ({
            let entered = spec_run(s0, spec_prologue_seq(fl).add(spec_clobber_save_seq(fl)));
            let left = spec_run(
                entered,
                spec_clobber_restore_seq(fl).add(spec_epilogue_seq(fl)),
            );
            &&& left.regs[spec_stack_reg()] == s0.regs[spec_stack_reg()]
            &&& left.regs[spec_fp_reg()] == s0.regs[spec_fp_reg()]
            &&& left.regs[spec_link_reg()] == s0.regs[spec_link_reg()]
            &&& forall|k: int|
                0 <= k < fl.clobbered_callee_saves@.len() ==> left.regs[
                    #[trigger] fl.clobbered_callee_saves@[k]] == s0.regs[
                    fl.clobbered_callee_saves@[k]]
        }),
{
    reveal_with_fuel(spec_run, 8);
    let sp = spec_stack_reg();
    let fp = spec_fp_reg();
    let lr = spec_link_reg();
    let cs = fl.clobbered_callee_saves@;
    let off0 = fl.fixed_frame_storage_size + fl.outgoing_args_size;
    let area = fl.spec_clobber_area();
    lemma_align_up(8 * cs.len() as int, 16);
    assert(8 * cs.len() <= fl.clobber_size);
    assert forall|k: int| 0 <= k < cs.len() implies #[trigger] cs[k] != sp && cs[k] != fp
        && cs[k] != lr by {
        assert(spec_is_callee_saved(cs[k]));
    }

    // Run the prologue frame setup.
    let sA = spec_run(s0, spec_prologue_seq(fl));
    let sp0 = s0.regs[sp];
    let sp1 = if fl.setup_area_size == 0 {
        sp0
    } else {
        sp0 - 16
    };
    if fl.setup_area_size == 0 {
        assert(sA == s0);
    } else {
        let i0 = Inst::AdjustSp { amount: -16i32 };
        let i1 = Inst::Store { rs: lr, base: sp, offset: 8, ty: Type::I64 };
        let i2 = Inst::Store { rs: fp, base: sp, offset: 0, ty: Type::I64 };
        let i3 = Inst::Mov { rd: fp, rm: sp, ty: Type::I64 };
        let pro = spec_prologue_seq(fl);
        assert(pro =~= seq![i0, i1, i2, i3]);
        let t1 = spec_step(s0, i0);
        let t2 = spec_step(t1, i1);
        let t3 = spec_step(t2, i2);
        let t4 = spec_step(t3, i3);
        assert(pro.drop_first() =~= seq![i1, i2, i3]);
        assert(seq![i1, i2, i3].drop_first() =~= seq![i2, i3]);
        assert(seq![i2, i3].drop_first() =~= seq![i3]);
        assert(seq![i3].drop_first() =~= Seq::<Inst>::empty());
        assert(spec_run(s0, pro) == t4);
        assert(t1.regs[sp] == sp0 - 16);
        assert(sA.regs[sp] == sp1);
        assert(sA.regs[lr] == s0.regs[lr]);
        assert(sA.mem == s0.mem.insert(sp1 + 8, s0.regs[lr]).insert(sp1, s0.regs[fp]));
    }
    assert(sA.regs[sp] == sp1);
    assert forall|k: int| 0 <= k < cs.len() implies sA.regs[#[trigger] cs[k]] == s0.regs[
        cs[k]] by {}

    // Run the clobber save: one stack adjustment, then the spills.
    lemma_run_add(s0, spec_prologue_seq(fl), spec_clobber_save_seq(fl));
    let adj: Seq<Inst> = if area == 0 {
        Seq::<Inst>::empty()
    } else {
        seq![Inst::AdjustSp { amount: (-area) as i32 }]
    };
    lemma_run_add(sA, adj, spec_save_seq(cs, off0 as int));
    let sB1 = spec_run(sA, adj);
    let sp2 = sp1 - area;
    if area == 0 {
        assert(sB1 == sA);
        assert(cs.len() == 0);
    } else {
        assert(adj.drop_first() =~= Seq::<Inst>::empty());
        assert(sB1 == spec_step(sA, adj[0]));
        assert((-area) as i32 as int == -area);
    }
    assert(sB1.regs[sp] == sp2);
    lemma_save_effect(cs, off0 as int, sB1);
    let sB = spec_run(sB1, spec_save_seq(cs, off0 as int));
    let entered = spec_run(s0, spec_prologue_seq(fl).add(spec_clobber_save_seq(fl)));
    assert(entered == sB);
    assert(sB.regs == sB1.regs);

    // Run the clobber restore: the reloads, then the inverse adjustment.
    let radj: Seq<Inst> = if area == 0 {
        Seq::<Inst>::empty()
    } else {
        seq![Inst::AdjustSp { amount: area as i32 }]
    };
    lemma_run_add(sB, spec_restore_seq(cs, off0 as int), radj);
    lemma_restore_effect(cs, off0 as int, sB);
    let sC1 = spec_run(sB, spec_restore_seq(cs, off0 as int));
    assert forall|k: int| 0 <= k < cs.len() implies sC1.regs[#[trigger] cs[k]] == s0.regs[
        cs[k]] by {
        assert(sC1.regs[cs[k]] == sB.mem[sB.regs[sp] + off0 + 8 * k]);
        assert(sB.regs[sp] == sp2);
        assert(sB.mem[sp2 + off0 + 8 * k] == sB1.regs[cs[k]]);
    }
    assert(sC1.regs[sp] == sp2) by {
        if cs.contains(sp) {
            let t = choose|t: int| 0 <= t < cs.len() && cs[t] == sp;
        }
    }
    assert(sC1.regs[fp] == sB.regs[fp]) by {
        if cs.contains(fp) {
            let t = choose|t: int| 0 <= t < cs.len() && cs[t] == fp;
        }
    }
    assert(sC1.regs[lr] == sB.regs[lr]) by {
        if cs.contains(lr) {
            let t = choose|t: int| 0 <= t < cs.len() && cs[t] == lr;
        }
    }
    let sC = spec_run(sC1, radj);
    if area == 0 {
        assert(sC == sC1);
    } else {
        assert(radj.drop_first() =~= Seq::<Inst>::empty());
        assert(sC == spec_step(sC1, radj[0]));
        assert(area as i32 as int == area);
    }
    assert(sC.regs[sp] == sp1);
    assert(sC.mem == sB.mem);

    // Run the epilogue frame restore.
    lemma_run_add(sB, spec_clobber_restore_seq(fl), spec_epilogue_seq(fl));
    assert(spec_clobber_restore_seq(fl) =~= spec_restore_seq(cs, off0 as int).add(radj));
    let left = spec_run(sC, spec_epilogue_seq(fl));
    if fl.setup_area_size == 0 {
        assert(left == sC);
        assert(left.regs[sp] == sp0);
    } else {
        let j0 = Inst::Load { rd: fp, base: sp, offset: 0, ty: Type::I64 };
        let j1 = Inst::Load { rd: lr, base: sp, offset: 8, ty: Type::I64 };
        let j2 = Inst::AdjustSp { amount: 16i32 };
        let epi = spec_epilogue_seq(fl);
        assert(epi =~= seq![j0, j1, j2]);
        let u1 = spec_step(sC, j0);
        let u2 = spec_step(u1, j1);
        let u3 = spec_step(u2, j2);
        assert(epi.drop_first() =~= seq![j1, j2]);
        assert(seq![j1, j2].drop_first() =~= seq![j2]);
        assert(seq![j2].drop_first() =~= Seq::<Inst>::empty());
        assert(spec_run(sC, epi) == u3);
        // The setup-area slots were below neither spill range nor touched
        // by the restores.
        assert(sB.mem[sp1] == s0.regs[fp]) by {
            assert(sp1 >= sB1.regs[sp] + off0 + 8 * cs.len());
            assert(sB.mem[sp1] == sB1.mem[sp1]);
            assert(sA.mem[sp1] == s0.regs[fp]);
        }
        assert(sB.mem[sp1 + 8] == s0.regs[lr]) by {
            assert(sp1 + 8 >= sB1.regs[sp] + off0 + 8 * cs.len());
            assert(sB.mem[sp1 + 8] == sB1.mem[sp1 + 8]);
            assert(sA.mem[sp1 + 8] == s0.regs[lr]);
        }
        assert(u1.regs[fp] == s0.regs[fp]);
        assert(u2.regs[lr] == s0.regs[lr]);
        assert(u3.regs[sp] == sp1 + 16);
        assert forall|k: int| 0 <= k < cs.len() implies u3.regs[#[trigger] cs[k]] == s0.regs[
            cs[k]] by {}
    }
}

/// Append one instruction sequence to another.
pub fn inst_vec_extend(dst: &mut InstVec, src: &InstVec)
    ensures
        inst_vec_view(*final(dst)) == inst_vec_view(*old(dst)).add(inst_vec_view(*src)),
{
    proof {
        assert(inst_vec_view(*dst).add(inst_vec_view(*src).take(0)) =~= inst_vec_view(*dst));
    }
    let n = inst_vec_len(src);
    let mut k: usize = 0;
    #[verifier::loop_isolation(false)]
    while k < n
        invariant
            k <= n,
            n == inst_vec_view(*src).len(),
            inst_vec_view(*dst) == inst_vec_view(*old(dst)).add(inst_vec_view(*src).take(
                k as int)),
        decreases n - k,
    {
        let i = inst_vec_get(src, k);
        inst_vec_push(dst, i);
        proof {
            assert(inst_vec_view(*old(dst)).add(inst_vec_view(*src).take(k as int)).push(
                inst_vec_view(*src)[k as int]) =~= inst_vec_view(*old(dst)).add(inst_vec_view(
                *src).take(k as int + 1)));
        }
        k = k + 1;
    }
    proof {
        assert(inst_vec_view(*src).take(n as int) =~= inst_vec_view(*src));
    }
}

/// Adjust the stack pointer by a signed amount; an empty sequence when
/// the amount is zero.
pub fn gen_sp_reg_adjust(amount: i32) -> (insts: InstVec)
    ensures
        amount == 0 ==> inst_vec_view(insts) == Seq::<Inst>::empty(),
        amount != 0 ==> inst_vec_view(insts) == seq![Inst::AdjustSp { amount }],
{
    let mut v = inst_vec_new();
    if amount != 0 {
        inst_vec_push(&mut v, Inst::AdjustSp { amount });
        proof {
            assert(inst_vec_view(v) =~= seq![Inst::AdjustSp { amount }]);
        }
    }
    v
}

/// Load a value of type `ty` from the stack at `[sp + offset]`.
pub fn gen_load_stack(offset: i32, into_reg: Reg, ty: Type) -> (r: Inst)
    ensures
        r == (Inst::Load { rd: into_reg, base: spec_stack_reg(), offset, ty }),
{
    Inst::Load { rd: into_reg, base: crate::regs::stack_reg(), offset, ty }
}

/// Store a value of type `ty` to the stack at `[sp + offset]`.
pub fn gen_store_stack(offset: i32, from_reg: Reg, ty: Type) -> (r: Inst)
    ensures
        r == (Inst::Store { rs: from_reg, base: spec_stack_reg(), offset, ty }),
{
    Inst::Store { rs: from_reg, base: crate::regs::stack_reg(), offset, ty }
}

/// Load a value of type `ty` from `[base + offset]`.
pub fn gen_load_base_offset(into_reg: Reg, base: Reg, offset: i32, ty: Type) -> (r: Inst)
    ensures
        r == (Inst::Load { rd: into_reg, base, offset, ty }),
{
    Inst::Load { rd: into_reg, base, offset, ty }
}

/// Store a value of type `ty` to `[base + offset]`.
pub fn gen_store_base_offset(base: Reg, offset: i32, from_reg: Reg, ty: Type) -> (r: Inst)
    ensures
        r == (Inst::Store { rs: from_reg, base, offset, ty }),
{
    Inst::Store { rs: from_reg, base, offset, ty }
}

/// The argument pseudo-instruction for the function entry.
pub fn gen_args(args: Vec<crate::inst::ArgPair>) -> (r: Inst)
    ensures
        r == (Inst::Args { args }),
{
    Inst::Args { args }
}

/// The return-value pseudo-instruction for the function exit.
pub fn gen_rets(rets: Vec<crate::inst::ArgPair>) -> (r: Inst)
    ensures
        r == (Inst::Rets { rets }),
{
    Inst::Rets { rets }
}

/// Largest immediate an ALU immediate form carries.
pub const MAX_ALU_IMM: u32 = 2047;

/// Add an immediate to a register: one immediate-form addition when the
/// immediate fits, else a constant materialized into the spill temporary
/// followed by a register-form addition.
pub fn gen_add_imm(into_reg: Reg, from_reg: Reg, imm: u32) -> (insts: InstVec)
    requires
        imm > MAX_ALU_IMM ==> from_reg != spec_spilltmp_reg(),
    ensures
        imm <= MAX_ALU_IMM ==> inst_vec_view(insts) == seq![
            Inst::AluRRImm {
                op: crate::inst::AluOp::Add,
                rd: into_reg,
                rs: from_reg,
                imm: imm as i32,
            },
        ],
        imm > MAX_ALU_IMM ==> inst_vec_view(insts) == seq![
            Inst::LoadConst { rd: spec_spilltmp_reg(), imm: imm as i64 },
            Inst::AluRRR {
                op: crate::inst::AluOp::Add,
                rd: into_reg,
                rs1: from_reg,
                rs2: spec_spilltmp_reg(),
            },
        ],
{
    let mut v = inst_vec_new();
    if imm <= MAX_ALU_IMM {
        inst_vec_push(&mut v, Inst::AluRRImm {
            op: crate::inst::AluOp::Add,
            rd: into_reg,
            rs: from_reg,
            imm: imm as i32,
        });
        proof {
            assert(inst_vec_view(v) =~= seq![
                Inst::AluRRImm {
                    op: crate::inst::AluOp::Add,
                    rd: into_reg,
                    rs: from_reg,
                    imm: imm as i32,
                },
            ]);
        }
    } else {
        let tmp = crate::regs::spilltmp_reg();
        inst_vec_push(&mut v, Inst::LoadConst { rd: tmp, imm: imm as i64 });
        inst_vec_push(&mut v, Inst::AluRRR {
            op: crate::inst::AluOp::Add,
            rd: into_reg,
            rs1: from_reg,
            rs2: tmp,
        });
        proof {
            assert(inst_vec_view(v) =~= seq![
                Inst::LoadConst { rd: spec_spilltmp_reg(), imm: imm as i64 },
                Inst::AluRRR {
                    op: crate::inst::AluOp::Add,
                    rd: into_reg,
                    rs1: from_reg,
                    rs2: spec_spilltmp_reg(),
                },
            ]);
        }
    }
    v
}

/// The external name of the stack-probe helper routine.
pub const LIBCALL_PROBESTACK: u32 = 0;

/// Probe the stack through the probe helper: materialize the frame size
/// in the first integer argument register, then call the helper.
pub fn gen_probestack(frame_size: u32) -> (insts: InstVec)
    ensures
        inst_vec_view(insts) == seq![
            Inst::LoadConst {
                rd: (Reg::Phys { class: RegClass::Int, enc: crate::abi::FIRST_ARG_X }),
                imm: frame_size as i64,
            },
            Inst::Call { callee: LIBCALL_PROBESTACK, callee_conv: CallConv::SystemV },
        ],
{
    let mut v = inst_vec_new();
    inst_vec_push(&mut v, Inst::LoadConst {
        rd: crate::regs::x_reg(crate::abi::FIRST_ARG_X),
        imm: frame_size as i64,
    });
    inst_vec_push(&mut v, Inst::Call {
        callee: LIBCALL_PROBESTACK,
        callee_conv: CallConv::SystemV,
    });
    proof {
        assert(inst_vec_view(v) =~= seq![
            Inst::LoadConst {
                rd: (Reg::Phys { class: RegClass::Int, enc: crate::abi::FIRST_ARG_X }),
                imm: frame_size as i64,
            },
            Inst::Call { callee: LIBCALL_PROBESTACK, callee_conv: CallConv::SystemV },
        ]);
    }
    v
}

/// The probes that touch one guard-page stride each, from just below the
/// stack pointer down to the end of the frame: probe `k` touches
/// `[sp - guard_size * (k + 1)]`.
pub open spec fn spec_probe_seq(frame_size: int, guard_size: int) -> Seq<Inst> {
    Seq::new(
        (spec_align_up(frame_size, guard_size) / guard_size) as nat,
        |k: int| Inst::StackProbe { offset: (-(guard_size * (k + 1))) as i32 },
    )
}

/// Probe every guard-page stride of a large frame inline, so a stack
/// overflow faults deterministically before the frame is used: one probe
/// per stride, covering the whole frame size.
#[verifier::loop_isolation(false)]
pub fn gen_inline_probestack(frame_size: u32, guard_size: u32) -> (insts: InstVec)
    requires
        1 <= guard_size <= STACK_ARG_RET_SIZE_LIMIT,
        frame_size <= STACK_ARG_RET_SIZE_LIMIT,
    ensures
        inst_vec_view(insts) == spec_probe_seq(frame_size as int, guard_size as int),
{
    proof {
        lemma_align_up(frame_size as int, guard_size as int);
        lemma_div_bounds(frame_size as int, guard_size as int);
    }
    let count: u32 = align_up_u32(frame_size, guard_size) / guard_size;
    let mut v = inst_vec_new();
    let mut k: u32 = 0;
    while k < count
        invariant
            k <= count,
            count * guard_size == spec_align_up(frame_size as int, guard_size as int),
            count <= frame_size + guard_size,
            inst_vec_view(v) == spec_probe_seq(frame_size as int, guard_size as int).take(
                k as int),
        decreases count - k,
    {
        proof {
            assert((k + 1) * guard_size <= count * guard_size) by (nonlinear_arith)
                requires
                    k < count,
                    guard_size >= 1,
            ;
        }
        let off: u32 = guard_size * (k + 1);
        inst_vec_push(&mut v, Inst::StackProbe { offset: -(off as i32) });
        proof {
            assert(guard_size * (k + 1) == guard_size as int * (k as int + 1))
                by (nonlinear_arith);
            assert(spec_probe_seq(frame_size as int, guard_size as int).take(k as int).push(
                Inst::StackProbe { offset: (-(guard_size as int * (k as int + 1))) as i32 })
                =~= spec_probe_seq(frame_size as int, guard_size as int).take(k as int + 1));
        }
        k = k + 1;
    }
    proof {
        assert(spec_probe_seq(frame_size as int, guard_size as int).take(count as int)
            =~= spec_probe_seq(frame_size as int, guard_size as int));
    }
    v
}

/// The aligned size divided by the stride is bounded by the size plus one
/// stride.
proof fn lemma_div_bounds(x: int, a: int)
    requires
        0 <= x,
        1 <= a,
    ensures
        0 <= spec_align_up(x, a) / a,
        (spec_align_up(x, a) / a) * a == spec_align_up(x, a),
        spec_align_up(x, a) / a <= x + a,
{
    lemma_align_up(x, a);
    lemma_fundamental_div_mod_neat(spec_align_up(x, a), a);
}

/// Division recomposes for a nonnegative multiple of the divisor.
proof fn lemma_fundamental_div_mod_neat(m: int, a: int)
    requires
        0 <= m,
        1 <= a,
        m % a == 0,
    ensures
        (m / a) * a == m,
        0 <= m / a <= m,
{
    vstd::arithmetic::div_mod::lemma_fundamental_div_mod(m, a);
    assert((m / a) * a == a * (m / a)) by (nonlinear_arith);
    assert(m / a <= m) by (nonlinear_arith)
        requires
            0 <= m,
            1 <= a,
    ;
    assert(0 <= m / a) by (nonlinear_arith)
        requires
            0 <= m,
            1 <= a,
    ;
}

/// The implementation point for the power64 machine-dependent behavior:
/// word size, alignment, and the fixed-role register choices the ABI
/// engine relies on.
pub struct Power64MachineDeps {}

impl Power64MachineDeps {
    /// The machine word width, in bits.
    pub fn word_bits() -> (r: u32)
        ensures
            r == 64,
    {
        64
    }

    /// The stack alignment every frame keeps, in bytes.
    pub fn stack_align(_call_conv: CallConv) -> (r: u32)
        ensures
            r == 16,
    {
        16
    }

    /// The register a stack-limit check may use as scratch: the spill
    /// temporary, which is never allocatable.
    pub fn get_stacklimit_reg(_call_conv: CallConv) -> (r: Reg)
        ensures
            r == spec_spilltmp_reg(),
    {
        crate::regs::spilltmp_reg()
    }

    /// The extension mode actually applied to a narrow argument: this
    /// target honors exactly what the signature specified.
    pub fn get_ext_mode(_call_conv: CallConv, specified: ArgumentExtension) -> (r:
        ArgumentExtension)
        ensures
            r == specified,
    {
        specified
    }

    /// Spill slots (of one word each) a value of the given class needs.
    pub fn get_number_of_spillslots_for_value(
        rc: RegClass,
        _target_vector_bytes: u32,
        _isa_flags: &PowerFlags,
    ) -> (r: u32)
        ensures
            rc == RegClass::Int ==> r == 1,
            rc == RegClass::Float ==> r == 1,
            rc == RegClass::Vector ==> r == 2,
    {
        match rc {
            RegClass::Int => 1,
            RegClass::Float => 1,
            RegClass::Vector => 2,
        }
    }
}

/// One stack-resident tail-call argument: the register holding the value
/// and the frame-pointer-relative offset of its slot in the tail-call
/// argument area (the caller computes it as 16 plus the area offset that
/// the location assignment gave the argument).
#[derive(Clone, Copy, Debug, PartialEq, Eq, Structural)]
pub struct TailStackArg {
    pub src: Reg,
    pub offset: i32,
    pub ty: Type,
}

/// The stores placing the stack-resident tail-call arguments into their
/// assigned slots, frame-pointer relative, in order.
pub open spec fn spec_tail_arg_stores(args: Seq<TailStackArg>) -> Seq<Inst>
    decreases args.len(),
{
    if args.len() == 0 {
        Seq::empty()
    } else {
        seq![
            Inst::Store {
                rs: args[0].src,
                base: spec_fp_reg(),
                offset: args[0].offset,
                ty: args[0].ty,
            },
        ].add(spec_tail_arg_stores(args.drop_first()))
    }
}

/// The caller side of one power64 call site: the callee it targets and
/// the argument locations the callee's signature assigned — fixed
/// register pairings for the register arguments, frame-pointer-relative
/// slots in the tail-call argument area for the stack arguments.
pub struct Power64ABICallSite {
    pub callee: u32,
    pub uses: Vec<crate::inst::ArgPair>,
    pub stack_args: Vec<TailStackArg>,
}

impl Power64ABICallSite {
    /// Emit a tail call: store the stack-resident argument values into
    /// their assigned slots of the tail-call argument area (which starts
    /// sixteen bytes above the frame pointer and extends for the
    /// layout's tail-argument size), restore the clobbered registers,
    /// undo the frame exactly as the epilogue does, and transfer to the
    /// callee without pushing a new return address; the register
    /// arguments travel as the transfer's fixed-register pairings.
    #[verifier::loop_isolation(false)]
    pub fn emit_return_call(
        self,
        call_conv: CallConv,
        flags: &Flags,
        isa_flags: &PowerFlags,
        frame_layout: &FrameLayout,
    ) -> (insts: InstVec)
        requires
            frame_layout.wf(),
            forall|k: int|
                0 <= k < self.stack_args@.len() ==> 16 <= (
                #[trigger] self.stack_args@[k]).offset as int && self.stack_args@[k].offset
                    as int + crate::abi::spec_slot_size(self.stack_args@[k].ty) <= 16
                    + frame_layout.tail_args_size as int,
        ensures
            inst_vec_view(insts) == spec_tail_arg_stores(self.stack_args@).add(
                spec_clobber_restore_seq(*frame_layout)).add(
                spec_epilogue_seq(*frame_layout)).push(
                Inst::ReturnCall { callee: self.callee, uses: self.uses },
            ),
    {
        let Power64ABICallSite { callee, uses, stack_args } = self;
        let mut v = inst_vec_new();
        proof {
            assert(stack_args@.skip(0) =~= stack_args@);
            assert(inst_vec_view(v).add(spec_tail_arg_stores(stack_args@))
                =~= spec_tail_arg_stores(stack_args@));
        }
        let mut k: usize = 0;
        while k < stack_args.len()
            invariant
                k <= stack_args@.len(),
                spec_tail_arg_stores(stack_args@) == inst_vec_view(v).add(
                    spec_tail_arg_stores(stack_args@.skip(k as int))),
            decreases stack_args@.len() - k,
        {
            proof {
                assert(stack_args@.skip(k as int).len() > 0);
                assert(stack_args@.skip(k as int)[0] == stack_args@[k as int]);
                assert(stack_args@.skip(k as int).drop_first() =~= stack_args@.skip(
                    k as int + 1));
            }
            let a = stack_args[k];
            let ghost view_before = inst_vec_view(v);
            inst_vec_push(&mut v, Inst::Store {
                rs: a.src,
                base: crate::regs::fp_reg(),
                offset: a.offset,
                ty: a.ty,
            });
            proof {
                let st = Inst::Store {
                    rs: stack_args@[k as int].src,
                    base: spec_fp_reg(),
                    offset: stack_args@[k as int].offset,
                    ty: stack_args@[k as int].ty,
                };
                assert(view_before.push(st).add(spec_tail_arg_stores(stack_args@.skip(
                    k as int + 1))) =~= view_before.add(seq![st].add(spec_tail_arg_stores(
                    stack_args@.skip(k as int + 1)))));
            }
            k = k + 1;
        }
        proof {
            assert(stack_args@.skip(stack_args@.len() as int) =~= Seq::<TailStackArg>::empty());
            assert(inst_vec_view(v).add(Seq::<Inst>::empty()) =~= inst_vec_view(v));
        }
        let restore = gen_clobber_restore(call_conv, flags, frame_layout);
        inst_vec_extend(&mut v, &restore);
        let epi = gen_epilogue_frame_restore(call_conv, flags, isa_flags, frame_layout);
        inst_vec_extend(&mut v, &epi);
        inst_vec_push(&mut v, Inst::ReturnCall { callee, uses });
        v
    }
}

/// Generate the call sequence for a direct call to a callee of the given
/// convention: the argument registers were already populated through the
/// argument pseudo-instructions, so one call instruction remains, and the
/// convention it records determines the clobber set the call reports (see
/// [`crate::inst::Inst::call_clobbers`]).
pub fn gen_call(callee: u32, callee_conv: CallConv) -> (insts: InstVec)
    ensures
        inst_vec_view(insts) == seq![Inst::Call { callee, callee_conv }],
{
    let mut v = inst_vec_new();
    inst_vec_push(&mut v, Inst::Call { callee, callee_conv });
    proof {
        assert(inst_vec_view(v) =~= seq![Inst::Call { callee, callee_conv }]);
    }
    v
}

} // verus!
