use power64_backend::abi::{ArgumentExtension, CallConv, Flags, PowerFlags};
use power64_backend::emit::{EmitInfo, EmitState, LabelUse, emit_inst, read_word, resolve_fixup};
use power64_backend::types::CodegenError;
use power64_backend::frame::{
    compute_frame_layout, gen_add_imm, gen_call, gen_clobber_restore, gen_clobber_save,
    gen_epilogue_frame_restore, gen_inline_probestack, gen_load_stack, gen_probestack,
    gen_prologue_frame_setup, gen_return, gen_sp_reg_adjust, gen_store_stack,
    Power64ABICallSite, Power64MachineDeps, TailStackArg, LIBCALL_PROBESTACK,
};
use power64_backend::inst::{AluOp, ArgPair};
use power64_backend::inst::Inst;
use power64_backend::regs::{fp_reg, link_reg, spilltmp_reg, stack_reg, Reg, RegClass};
use power64_backend::seqvec::{inst_vec_get, inst_vec_len, InstVec};
use power64_backend::types::Type;

fn flags() -> Flags {
    Flags { enable_multi_ret_implicit_sret: false }
}

fn to_vec(v: &InstVec) -> Vec<Inst> {
    let mut out = Vec::new();
    for i in 0..inst_vec_len(v) {
        out.push(inst_vec_get(v, i));
    }
    out
}

fn x(enc: u8) -> Reg {
    Reg::Phys { class: RegClass::Int, enc }
}

#[test]
fn fixed_role_registers_are_distinct() {
    let roles = [link_reg(), stack_reg(), fp_reg(), spilltmp_reg()];
    assert_eq!(roles[0], x(1));
    assert_eq!(roles[1], x(2));
    assert_eq!(roles[2], x(8));
    assert_eq!(roles[3], x(16));
    for i in 0..roles.len() {
        for j in 0..roles.len() {
            if i != j {
                assert_ne!(roles[i], roles[j]);
            }
        }
    }
}

#[test]
fn frame_layout_filters_callee_saves() {
    let clobbers = vec![
        x(9),
        Reg::Phys { class: RegClass::Float, enc: 8 },
        x(10), // caller-saved: not kept
    ];
    let fl = compute_frame_layout(CallConv::SystemV, &flags(), &clobbers, false, 0, 0, 32, 16);
    assert_eq!(fl.clobbered_callee_saves.len(), 2);
    assert_eq!(fl.clobbered_callee_saves[0], x(9));
    assert_eq!(fl.clobber_size, 16);
    assert_eq!(fl.setup_area_size, 16);
    assert_eq!(fl.fixed_frame_storage_size, 32);
    assert_eq!(fl.outgoing_args_size, 16);
}

#[test]
fn leaf_with_nothing_to_save_needs_no_frame() {
    let fl = compute_frame_layout(CallConv::SystemV, &flags(), &Vec::new(), true, 0, 0, 0, 0);
    assert_eq!(fl.setup_area_size, 0);
    let pro = gen_prologue_frame_setup(CallConv::SystemV, &flags(), &PowerFlags {}, &fl);
    assert_eq!(inst_vec_len(&pro), 0);
}

#[test]
fn prologue_and_epilogue_mirror_each_other() {
    let fl = compute_frame_layout(CallConv::SystemV, &flags(), &vec![x(9)], false, 0, 0, 0, 0);
    let pro = to_vec(&gen_prologue_frame_setup(CallConv::SystemV, &flags(), &PowerFlags {}, &fl));
    assert_eq!(
        pro,
        vec![
            Inst::AdjustSp { amount: -16 },
            Inst::Store { rs: x(1), base: x(2), offset: 8, ty: Type::I64 },
            Inst::Store { rs: x(8), base: x(2), offset: 0, ty: Type::I64 },
            Inst::Mov { rd: x(8), rm: x(2), ty: Type::I64 },
        ]
    );
    let epi = to_vec(&gen_epilogue_frame_restore(CallConv::SystemV, &flags(), &PowerFlags {}, &fl));
    assert_eq!(
        epi,
        vec![
            Inst::Load { rd: x(8), base: x(2), offset: 0, ty: Type::I64 },
            Inst::Load { rd: x(1), base: x(2), offset: 8, ty: Type::I64 },
            Inst::AdjustSp { amount: 16 },
        ]
    );
}

#[test]
fn clobber_save_and_restore_use_matching_slots() {
    let fl = compute_frame_layout(CallConv::SystemV, &flags(), &vec![x(9), x(18)], false, 0, 0, 0, 0);
    let save = to_vec(&gen_clobber_save(CallConv::SystemV, &flags(), &fl));
    assert_eq!(
        save,
        vec![
            Inst::AdjustSp { amount: -16 },
            Inst::Store { rs: x(9), base: x(2), offset: 0, ty: Type::I64 },
            Inst::Store { rs: x(18), base: x(2), offset: 8, ty: Type::I64 },
        ]
    );
    let restore = to_vec(&gen_clobber_restore(CallConv::SystemV, &flags(), &fl));
    assert_eq!(
        restore,
        vec![
            Inst::Load { rd: x(9), base: x(2), offset: 0, ty: Type::I64 },
            Inst::Load { rd: x(18), base: x(2), offset: 8, ty: Type::I64 },
            Inst::AdjustSp { amount: 16 },
        ]
    );
}

#[test]
fn return_call_places_args_restores_frame_then_transfers() {
    // A sixteen-byte tail-call argument area holds the one stack argument.
    let fl = compute_frame_layout(CallConv::Tail, &flags(), &vec![x(9)], false, 0, 16, 0, 0);
    let reg_arg = ArgPair { vreg: Reg::Virt { class: RegClass::Int, num: 0 }, preg: x(10) };
    let stack_arg = TailStackArg {
        src: Reg::Virt { class: RegClass::Int, num: 1 },
        offset: 16,
        ty: Type::I64,
    };
    let site = Power64ABICallSite { callee: 7, uses: vec![reg_arg], stack_args: vec![stack_arg] };
    let seq = to_vec(&site.emit_return_call(CallConv::Tail, &flags(), &PowerFlags {}, &fl));
    // The stack argument lands in the tail-call area first, frame-pointer
    // relative; the transfer carries the register-argument pairing.
    assert_eq!(
        seq[0],
        Inst::Store { rs: stack_arg.src, base: fp_reg(), offset: 16, ty: Type::I64 }
    );
    assert!(seq.contains(&Inst::AdjustSp { amount: 16 }));
    assert_eq!(seq.last(), Some(&Inst::ReturnCall { callee: 7, uses: vec![reg_arg] }));
}

#[test]
fn unaligned_fixed_storage_still_gets_an_aligned_frame() {
    // Eight bytes of fixed locals: the clobber-save adjustment is rounded
    // up so the stack pointer stays 16-aligned.
    let fl = compute_frame_layout(CallConv::SystemV, &flags(), &Vec::new(), false, 0, 0, 8, 0);
    let save = to_vec(&gen_clobber_save(CallConv::SystemV, &flags(), &fl));
    assert_eq!(save, vec![Inst::AdjustSp { amount: -16 }]);
    let restore = to_vec(&gen_clobber_restore(CallConv::SystemV, &flags(), &fl));
    assert_eq!(restore, vec![Inst::AdjustSp { amount: 16 }]);
    let total = fl.tail_args_size + fl.setup_area_size + 16;
    assert_eq!(total % 16, 0);
}

#[test]
fn sp_adjust_of_zero_emits_nothing() {
    assert_eq!(inst_vec_len(&gen_sp_reg_adjust(0)), 0);
    assert_eq!(to_vec(&gen_sp_reg_adjust(-32)), vec![Inst::AdjustSp { amount: -32 }]);
}

#[test]
fn gen_return_is_a_single_ret() {
    let fl = compute_frame_layout(CallConv::SystemV, &flags(), &Vec::new(), true, 0, 0, 0, 0);
    assert_eq!(to_vec(&gen_return(CallConv::SystemV, &PowerFlags {}, &fl)), vec![Inst::Ret]);
}

#[test]
fn inline_probestack_covers_the_frame_in_strides() {
    let probes = to_vec(&gen_inline_probestack(8192, 4096));
    assert_eq!(
        probes,
        vec![Inst::StackProbe { offset: -4096 }, Inst::StackProbe { offset: -8192 }]
    );
    let probes = to_vec(&gen_inline_probestack(4097, 4096));
    assert_eq!(probes.len(), 2);
}

#[test]
fn machine_deps_constants() {
    assert_eq!(Power64MachineDeps::word_bits(), 64);
    assert_eq!(Power64MachineDeps::stack_align(CallConv::SystemV), 16);
    assert_eq!(Power64MachineDeps::get_stacklimit_reg(CallConv::SystemV), spilltmp_reg());
    assert_eq!(
        Power64MachineDeps::get_ext_mode(CallConv::SystemV, ArgumentExtension::Sext),
        ArgumentExtension::Sext
    );
    assert_eq!(
        Power64MachineDeps::get_number_of_spillslots_for_value(RegClass::Vector, 16, &PowerFlags {}),
        2
    );
}

#[test]
fn branch_patch_decodes_to_its_target() {
    let mut buffer = vec![0u8; 16];
    LabelUse::Branch16.patch(&mut buffer, 4, 12);
    let word = read_word(&buffer, 4);
    assert_eq!(LabelUse::Branch16.decoded_target(word, 4), 12);
}

#[test]
fn backward_branch_patch_decodes_to_its_target() {
    let mut buffer = vec![0u8; 16];
    LabelUse::Jump26.patch(&mut buffer, 12, 0);
    let word = read_word(&buffer, 12);
    assert_eq!(LabelUse::Jump26.decoded_target(word, 12), 0);
}

#[test]
fn out_of_range_branch_goes_through_a_veneer() {
    // A conditional branch cannot reach 64 KiB away; a veneer can.
    assert!(!LabelUse::Branch16.in_range(0, 0x10000));
    assert!(LabelUse::Branch16.supports_veneer());
    assert!(!LabelUse::Jump26.supports_veneer());

    let mut buffer = vec![0u8; 8];
    let (veneer_offset, veneer_kind) = LabelUse::Branch16.generate_veneer(&mut buffer, 8);
    assert_eq!(veneer_offset, 8);
    assert_eq!(veneer_kind, LabelUse::Jump26);
    assert_eq!(buffer.len(), 12);

    // Redirect the branch through the veneer, then point the veneer at
    // the far target: the chain ends at the intended label.
    LabelUse::Branch16.patch(&mut buffer, 0, veneer_offset);
    veneer_kind.patch(&mut buffer, veneer_offset, 0x10000);
    let b = read_word(&buffer, 0);
    assert_eq!(LabelUse::Branch16.decoded_target(b, 0), veneer_offset);
    let v = read_word(&buffer, veneer_offset as usize);
    assert_eq!(veneer_kind.decoded_target(v, veneer_offset), 0x10000);
}

#[test]
fn ranges_and_sizes_per_label_kind() {
    assert_eq!(LabelUse::Branch16.max_pos_range(), 0x7FFC);
    assert_eq!(LabelUse::Branch16.max_neg_range(), 0x8000);
    assert_eq!(LabelUse::Jump26.max_pos_range(), 0x1FF_FFFC);
    assert_eq!(LabelUse::Branch16.patch_size(), 4);
    assert_eq!(LabelUse::Branch16.veneer_size(), 4);
    assert_eq!(LabelUse::worst_case_veneer_size(), 4);
}

#[test]
fn trap_encodes_as_the_all_zero_word() {
    let mut sink = Vec::new();
    emit_inst(&Inst::Trap, &mut sink);
    assert_eq!(sink, vec![0, 0, 0, 0]);
}

#[test]
fn moves_and_alu_encode_deterministically() {
    let mut a = Vec::new();
    emit_inst(&Inst::Mov { rd: x(3), rm: x(4), ty: Type::I64 }, &mut a);
    let mut b = Vec::new();
    emit_inst(&Inst::Mov { rd: x(3), rm: x(4), ty: Type::I64 }, &mut b);
    assert_eq!(a, b);
    assert_eq!(a.len(), 4);
    assert_eq!(read_word(&a, 0), 0x0500_0000 | (3 << 8) | 4);

    let mut c = Vec::new();
    emit_inst(&Inst::Nop0, &mut c);
    assert_eq!(c.len(), 0);
}

#[test]
fn emit_state_carries_the_control_plane() {
    let fl = compute_frame_layout(CallConv::SystemV, &flags(), &Vec::new(), true, 0, 0, 0, 0);
    let state = EmitState::new(fl.clone(), cranelift_control::ControlPlane::default());
    assert_eq!(state.frame_layout(), &fl);
    let _plane = state.take_ctrl_plane();
    let info = EmitInfo::new(flags(), PowerFlags {});
    assert_eq!(info.shared_flag, flags());
}

#[test]
fn add_imm_folds_small_and_materializes_large() {
    let small = to_vec(&gen_add_imm(x(5), x(6), 100));
    assert_eq!(
        small,
        vec![Inst::AluRRImm { op: AluOp::Add, rd: x(5), rs: x(6), imm: 100 }]
    );
    let large = to_vec(&gen_add_imm(x(5), x(6), 1 << 20));
    assert_eq!(
        large,
        vec![
            Inst::LoadConst { rd: spilltmp_reg(), imm: 1 << 20 },
            Inst::AluRRR { op: AluOp::Add, rd: x(5), rs1: x(6), rs2: spilltmp_reg() },
        ]
    );
}

#[test]
fn probestack_calls_the_helper_with_the_frame_size() {
    let seq = to_vec(&gen_probestack(0x40000));
    assert_eq!(
        seq,
        vec![
            Inst::LoadConst { rd: x(10), imm: 0x40000 },
            Inst::Call { callee: LIBCALL_PROBESTACK, callee_conv: CallConv::SystemV },
        ]
    );
}

#[test]
fn stack_accesses_are_stack_pointer_relative() {
    assert_eq!(
        gen_load_stack(24, x(5), Type::I64),
        Inst::Load { rd: x(5), base: stack_reg(), offset: 24, ty: Type::I64 }
    );
    assert_eq!(
        gen_store_stack(8, x(6), Type::I64),
        Inst::Store { rs: x(6), base: stack_reg(), offset: 8, ty: Type::I64 }
    );
    assert_eq!(
        to_vec(&gen_call(3, CallConv::Fast)),
        vec![Inst::Call { callee: 3, callee_conv: CallConv::Fast }]
    );
}

#[test]
fn diagnostic_rendering_names_the_instruction() {
    let fl = compute_frame_layout(CallConv::SystemV, &flags(), &Vec::new(), true, 0, 0, 0, 0);
    let mut state = EmitState::new(fl, cranelift_control::ControlPlane::default());
    assert_eq!(Inst::Ret.print_with_state(&mut state), "ret");
    let add = Inst::AluRRImm { op: AluOp::Add, rd: x(5), rs: x(6), imm: 1 };
    assert_eq!(add.pretty_print_inst(&mut state), "addi");
    assert_eq!(
        Inst::Mov { rd: x(1), rm: x(2), ty: Type::I64 }.print_with_state(&mut state),
        "mv"
    );
}

#[test]
fn adjust_sp_encodes_its_amount_word() {
    let mut sink = Vec::new();
    emit_inst(&Inst::AdjustSp { amount: -32 }, &mut sink);
    assert_eq!(sink.len(), 8);
    assert_eq!(read_word(&sink, 0), 0x0800_0000);
    assert_eq!(read_word(&sink, 4), (-32i32) as u32);
}

#[test]
fn fixup_resolution_patches_veneers_or_fails() {
    // Within range: patched in place.
    let mut buffer = vec![0u8; 8];
    assert!(resolve_fixup(LabelUse::Branch16, &mut buffer, 0, 4).is_ok());
    assert_eq!(buffer.len(), 8);
    assert_eq!(LabelUse::Branch16.decoded_target(read_word(&buffer, 0), 0), 4);

    // Out of range with veneer support: the branch is redirected through
    // a fresh veneer at the old end of the buffer.
    let mut buffer = vec![0u8; 8];
    assert!(resolve_fixup(LabelUse::Branch16, &mut buffer, 0, 0x20000).is_ok());
    assert_eq!(buffer.len(), 12);
    assert_eq!(LabelUse::Branch16.decoded_target(read_word(&buffer, 0), 0), 8);
    assert_eq!(LabelUse::Jump26.decoded_target(read_word(&buffer, 8), 8), 0x20000);

    // Out of range without veneer support: a fatal range error, buffer
    // untouched.
    let mut buffer = vec![0u8; 8];
    let err = resolve_fixup(LabelUse::Jump26, &mut buffer, 0, 0x400_0000).unwrap_err();
    assert_eq!(err, CodegenError::EncodingRangeExceeded);
    assert_eq!(err.message(), "encoding range exceeded");
    assert_eq!(buffer, vec![0u8; 8]);
}

#[test]
fn full_width_constants_encode_in_three_words() {
    let mut sink = Vec::new();
    let imm: i64 = 0x1234_5678_9ABC_DEF0;
    emit_inst(&Inst::LoadConst { rd: x(5), imm }, &mut sink);
    assert_eq!(sink.len(), 12);
    assert_eq!(read_word(&sink, 4), 0x9ABC_DEF0);
    assert_eq!(read_word(&sink, 8), 0x1234_5678);
}
