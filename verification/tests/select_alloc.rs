use power64_backend::abi::{Flags, PowerFlags};
use power64_backend::inst::{AluOp, ArgPair, Inst, MachLabel, MachTerminator, Operand, OperandKind};
use power64_backend::lower::{lower, lower_branch, IRInst, LowerCtx, Power64Backend};
use power64_backend::machenv::{get_machine_env, get_regs_clobbered_by_call, preg_set_contains};
use power64_backend::regs::{x0, x_reg, f_reg, Reg, RegClass};
use power64_backend::types::{canonical_type_for_rc, rc_for_type, Type};
use power64_backend::abi::CallConv;

fn x(enc: u8) -> Reg {
    Reg::Phys { class: RegClass::Int, enc }
}

fn virt(num: u32) -> Reg {
    Reg::Virt { class: RegClass::Int, num }
}

fn ctx() -> LowerCtx {
    LowerCtx {
        value_defs: vec![
            Some(IRInst::Iconst { imm: 5 }),
            None,
            Some(IRInst::Iconst { imm: 100_000 }),
        ],
        value_regs: vec![virt(0), virt(1), virt(2)],
    }
}

#[test]
fn small_constant_folds_into_immediate_add() {
    let r = lower(&ctx(), &IRInst::Iadd { a: 1, b: 0 }, virt(9)).unwrap();
    assert_eq!(
        r,
        vec![Inst::AluRRImm { op: AluOp::Add, rd: virt(9), rs: virt(1), imm: 5 }]
    );
    // The fold also fires when the constant is the first operand.
    let r = lower(&ctx(), &IRInst::Iadd { a: 0, b: 1 }, virt(9)).unwrap();
    assert_eq!(
        r,
        vec![Inst::AluRRImm { op: AluOp::Add, rd: virt(9), rs: virt(1), imm: 5 }]
    );
}

#[test]
fn large_constant_uses_the_register_form() {
    let r = lower(&ctx(), &IRInst::Iadd { a: 1, b: 2 }, virt(9)).unwrap();
    assert_eq!(
        r,
        vec![Inst::AluRRR { op: AluOp::Add, rd: virt(9), rs1: virt(1), rs2: virt(2) }]
    );
}

#[test]
fn constants_materialize_directly() {
    let r = lower(&ctx(), &IRInst::Iconst { imm: -7 }, virt(4)).unwrap();
    assert_eq!(r, vec![Inst::LoadConst { rd: virt(4), imm: -7 }]);
}

#[test]
fn terminators_lower_against_their_successor_labels() {
    let backend = Power64Backend {
        flags: Flags { enable_multi_ret_implicit_sret: false },
        isa_flags: PowerFlags {},
    };
    assert!(backend.maybe_pinned_reg().is_none());
    let targets = vec![MachLabel { index: 3 }, MachLabel { index: 4 }];
    let r = lower_branch(&ctx(), &IRInst::Jump, &targets).unwrap();
    assert_eq!(r, vec![Inst::Jump { dest: MachLabel { index: 3 } }]);
    let r = lower_branch(&ctx(), &IRInst::Brif { cond: 1 }, &targets).unwrap();
    assert_eq!(
        r,
        vec![Inst::CondBr {
            cond: virt(1),
            taken: MachLabel { index: 3 },
            not_taken: MachLabel { index: 4 },
        }]
    );
    // Non-terminators take the other entry point, and vice versa.
    assert!(lower_branch(&ctx(), &IRInst::Iconst { imm: 0 }, &targets).is_none());
    assert!(lower(&ctx(), &IRInst::Jump, virt(9)).is_none());
}

#[test]
fn operands_carry_roles_and_classes() {
    let i = Inst::AluRRR { op: AluOp::Sub, rd: virt(2), rs1: virt(0), rs2: virt(1) };
    let ops = i.get_operands();
    assert_eq!(
        ops,
        vec![
            Operand { reg: virt(0), kind: OperandKind::Use, fixed: None },
            Operand { reg: virt(1), kind: OperandKind::Use, fixed: None },
            Operand { reg: virt(2), kind: OperandKind::Def, fixed: None },
        ]
    );
    let args = Inst::Args {
        args: vec![ArgPair { vreg: virt(0), preg: x(10) }, ArgPair { vreg: virt(1), preg: x(11) }],
    };
    let ops = args.get_operands();
    assert_eq!(ops.len(), 2);
    // The pairings report their fixed-register constraints.
    assert_eq!(ops[0], Operand { reg: virt(0), kind: OperandKind::Def, fixed: Some(x(10)) });
    assert_eq!(ops[1], Operand { reg: virt(1), kind: OperandKind::Def, fixed: Some(x(11)) });
}

#[test]
fn allocation_rewrites_virtuals_and_preserves_classes() {
    let mut i = Inst::AluRRR { op: AluOp::Add, rd: virt(2), rs1: virt(0), rs2: virt(1) };
    let map = vec![x(10), x(11), x(12)];
    i.map_regs(&map);
    assert_eq!(i, Inst::AluRRR { op: AluOp::Add, rd: x(12), rs1: x(10), rs2: x(11) });
    for o in i.get_operands() {
        assert!(matches!(o.reg, Reg::Phys { class: RegClass::Int, .. }));
    }
}

#[test]
fn classification_predicates() {
    let mv = Inst::Mov { rd: x(3), rm: x(4), ty: Type::I64 };
    assert_eq!(mv.is_move(), Some((x(3), x(4))));
    assert_eq!(mv.is_term(), MachTerminator::NotTerm);
    assert_eq!(Inst::Ret.is_term(), MachTerminator::Ret);
    assert_eq!(Inst::Jump { dest: MachLabel { index: 0 } }.is_term(), MachTerminator::Uncond);
    assert!(Inst::Trap.is_trap());
    assert!(Inst::Args { args: Vec::new() }.is_args());
    assert!(!Inst::Args { args: Vec::new() }.is_included_in_clobbers());
    assert!(Inst::Load { rd: x(1), base: x(2), offset: 0, ty: Type::I64 }.is_mem_access());
    assert!(Inst::Call { callee: 0, callee_conv: CallConv::SystemV }.is_safepoint());
    assert_eq!(Inst::gen_nop(0), Inst::Nop0);
    assert_eq!(Inst::gen_nop(8), Inst::Nop4);
    assert_eq!(Inst::worst_case_size(), 12);
    assert_eq!(Inst::ref_type_regclass(), RegClass::Int);
}

#[test]
fn register_constructors_and_types() {
    assert_eq!(x0(), x(0));
    assert_eq!(x_reg(31), Reg::Phys { class: RegClass::Int, enc: 31 });
    assert_eq!(f_reg(5), Reg::Phys { class: RegClass::Float, enc: 5 });
    assert_eq!(canonical_type_for_rc(RegClass::Int), Type::I64);
    assert_eq!(canonical_type_for_rc(RegClass::Float), Type::F64);
    assert_eq!(canonical_type_for_rc(RegClass::Vector), Type::I8X16);
    assert_eq!(Type::I128.bits(), 128);
    let pairs = rc_for_type(Type::I128).unwrap();
    assert_eq!(pairs, vec![(RegClass::Int, Type::I64), (RegClass::Int, Type::I64)]);
    assert!(rc_for_type(Type::F128).is_err());
}

#[test]
fn call_clobbers_are_the_caller_saved_pool() {
    let s = get_regs_clobbered_by_call(CallConv::SystemV);
    // Argument registers are clobbered by any call.
    assert!(preg_set_contains(&s, RegClass::Int, 10));
    assert!(preg_set_contains(&s, RegClass::Float, 17));
    // Callee-saved registers are not.
    assert!(!preg_set_contains(&s, RegClass::Int, 9));
    assert!(!preg_set_contains(&s, RegClass::Float, 8));
    // Fixed-role registers are never handed out at all.
    assert!(!preg_set_contains(&s, RegClass::Int, 2));
    assert!(!preg_set_contains(&s, RegClass::Int, 16));
}

#[test]
fn machine_env_pools_exclude_fixed_roles() {
    let env = get_machine_env(&Flags { enable_multi_ret_implicit_sret: false }, CallConv::SystemV);
    let int_pref = env.preferred_regs_by_class[0];
    let int_npref = env.non_preferred_regs_by_class[0];
    for enc in [0u8, 1, 2, 8, 16] {
        assert!(!int_pref.contains(regalloc2::PReg::new(enc as usize, regalloc2::RegClass::Int)));
        assert!(!int_npref.contains(regalloc2::PReg::new(enc as usize, regalloc2::RegClass::Int)));
    }
    // x9 is callee-saved: allocatable, but only as a fallback.
    assert!(!int_pref.contains(regalloc2::PReg::new(9, regalloc2::RegClass::Int)));
    assert!(int_npref.contains(regalloc2::PReg::new(9, regalloc2::RegClass::Int)));
    // x10 is caller-saved and preferred.
    assert!(int_pref.contains(regalloc2::PReg::new(10, regalloc2::RegClass::Int)));
}

#[test]
fn a_call_records_its_callee_conventions_clobbers() {
    let call = Inst::Call { callee: 4, callee_conv: CallConv::SystemV };
    let clobbers = call.call_clobbers().unwrap();
    assert!(preg_set_contains(&clobbers, RegClass::Int, 10));
    assert!(!preg_set_contains(&clobbers, RegClass::Int, 9));
    assert!(Inst::Ret.call_clobbers().is_none());
}
