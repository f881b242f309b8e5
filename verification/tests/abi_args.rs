use power64_backend::abi::{
    compute_arg_locs, ABIArg, ABIArgSlot, AbiParam, ArgsOrRets, ArgumentExtension,
    ArgumentPurpose, CallConv, Flags,
};
use power64_backend::regs::{Reg, RegClass};
use power64_backend::types::{CodegenError, Type, UnsupportedConstruct};

fn param(ty: Type) -> AbiParam {
    AbiParam {
        value_type: ty,
        purpose: ArgumentPurpose::Normal,
        extension: ArgumentExtension::NoExt,
    }
}

fn flags() -> Flags {
    Flags { enable_multi_ret_implicit_sret: false }
}

fn slots(arg: &ABIArg) -> &Vec<ABIArgSlot> {
    match arg {
        ABIArg::Slots { slots, .. } => slots,
    }
}

fn x(enc: u8) -> Reg {
    Reg::Phys { class: RegClass::Int, enc }
}

fn f(enc: u8) -> Reg {
    Reg::Phys { class: RegClass::Float, enc }
}

#[test]
fn two_ints_one_float_all_in_registers() {
    let params = vec![param(Type::I64), param(Type::I64), param(Type::F64)];
    let (args, stack, pos) =
        compute_arg_locs(CallConv::SystemV, &flags(), &params, ArgsOrRets::Args, false).unwrap();
    assert_eq!(args.len(), 3);
    assert!(matches!(
        slots(&args[0])[0],
        ABIArgSlot::Reg { reg, ty: Type::I64, .. } if reg == x(10)
    ));
    assert!(matches!(
        slots(&args[1])[0],
        ABIArgSlot::Reg { reg, ty: Type::I64, .. } if reg == x(11)
    ));
    assert!(matches!(
        slots(&args[2])[0],
        ABIArgSlot::Reg { reg, ty: Type::F64, .. } if reg == f(10)
    ));
    assert_eq!(stack, 0);
    assert!(pos.is_none());
}

#[test]
fn ninth_integer_param_goes_to_stack_offset_zero() {
    let params: Vec<AbiParam> = (0..9).map(|_| param(Type::I64)).collect();
    let (args, stack, _) =
        compute_arg_locs(CallConv::SystemV, &flags(), &params, ArgsOrRets::Args, false).unwrap();
    for (i, arg) in args.iter().take(8).enumerate() {
        assert!(matches!(
            slots(arg)[0],
            ABIArgSlot::Reg { reg, .. } if reg == x(10 + i as u8)
        ));
    }
    assert!(matches!(slots(&args[8])[0], ABIArgSlot::Stack { offset: 0, .. }));
    assert_eq!(stack, 16);
}

#[test]
fn struct_argument_is_rejected_not_reinterpreted() {
    let params = vec![AbiParam {
        value_type: Type::I64,
        purpose: ArgumentPurpose::StructArgument(16),
        extension: ArgumentExtension::NoExt,
    }];
    let err = compute_arg_locs(CallConv::SystemV, &flags(), &params, ArgsOrRets::Args, false)
        .unwrap_err();
    assert_eq!(err, CodegenError::Unsupported(UnsupportedConstruct::StructArgument));
    assert_eq!(err.message(), "unsupported construct");
}

#[test]
fn ret_area_pointer_consumes_first_integer_register() {
    let params = vec![param(Type::I64)];
    let (args, _, pos) =
        compute_arg_locs(CallConv::SystemV, &flags(), &params, ArgsOrRets::Args, true).unwrap();
    // The user parameter is shifted to x11; the out-of-band return-area
    // pointer argument sits in x10 at the returned index.
    assert!(matches!(
        slots(&args[0])[0],
        ABIArgSlot::Reg { reg, .. } if reg == x(11)
    ));
    assert_eq!(pos, Some(1));
    assert!(matches!(
        slots(&args[1])[0],
        ABIArgSlot::Reg { reg, ty: Type::I64, .. } if reg == x(10)
    ));
}

#[test]
fn too_many_returns_without_fallback_is_an_error() {
    let params = vec![param(Type::I64), param(Type::I64), param(Type::I64)];
    let err = compute_arg_locs(CallConv::SystemV, &flags(), &params, ArgsOrRets::Rets, false)
        .unwrap_err();
    assert_eq!(err, CodegenError::Unsupported(UnsupportedConstruct::TooManyReturnValues));
}

#[test]
fn returns_fall_back_to_stack_when_allowed() {
    let params = vec![param(Type::I64), param(Type::I64), param(Type::I64)];
    let allow = Flags { enable_multi_ret_implicit_sret: true };
    let (args, stack, _) =
        compute_arg_locs(CallConv::SystemV, &allow, &params, ArgsOrRets::Rets, false).unwrap();
    assert!(matches!(slots(&args[0])[0], ABIArgSlot::Reg { reg, .. } if reg == x(10)));
    assert!(matches!(slots(&args[1])[0], ABIArgSlot::Reg { reg, .. } if reg == x(11)));
    assert!(matches!(slots(&args[2])[0], ABIArgSlot::Stack { offset: 0, .. }));
    assert_eq!(stack, 16);
}

#[test]
fn winch_calling_convention_is_unsupported() {
    let params = vec![param(Type::I64)];
    let err = compute_arg_locs(CallConv::Winch, &flags(), &params, ArgsOrRets::Args, false)
        .unwrap_err();
    assert_eq!(err, CodegenError::Unsupported(UnsupportedConstruct::CallingConvention));
}

#[test]
fn f128_has_no_register_class() {
    let params = vec![param(Type::F128)];
    let err = compute_arg_locs(CallConv::SystemV, &flags(), &params, ArgsOrRets::Args, false)
        .unwrap_err();
    assert_eq!(
        err,
        CodegenError::Unsupported(UnsupportedConstruct::ValueType(Type::F128))
    );
}

#[test]
fn i128_takes_a_register_pair() {
    let params = vec![param(Type::I128)];
    let (args, _, _) =
        compute_arg_locs(CallConv::SystemV, &flags(), &params, ArgsOrRets::Args, false).unwrap();
    let s = slots(&args[0]);
    assert_eq!(s.len(), 2);
    assert!(matches!(s[0], ABIArgSlot::Reg { reg, ty: Type::I64, .. } if reg == x(10)));
    assert!(matches!(s[1], ABIArgSlot::Reg { reg, ty: Type::I64, .. } if reg == x(11)));
}

#[test]
fn stack_slots_are_aligned_to_their_size() {
    // Fill the eight integer registers, then one word-sized value and a
    // sixteen-byte vector: the vector slot must land on a 16-byte
    // boundary and the total must be a multiple of 16.
    let mut params: Vec<AbiParam> = (0..8).map(|_| param(Type::I64)).collect();
    params.push(param(Type::I32));
    params.push(param(Type::I8X16));
    let (args, stack, _) =
        compute_arg_locs(CallConv::SystemV, &flags(), &params, ArgsOrRets::Args, false).unwrap();
    assert!(matches!(slots(&args[8])[0], ABIArgSlot::Stack { offset: 0, .. }));
    assert!(matches!(slots(&args[9])[0], ABIArgSlot::Stack { offset: 16, .. }));
    assert_eq!(stack % 16, 0);
    assert_eq!(stack, 32);
}

#[test]
fn repeated_calls_yield_identical_assignments() {
    let params = vec![param(Type::I64), param(Type::F32), param(Type::I128)];
    let a = compute_arg_locs(CallConv::Fast, &flags(), &params, ArgsOrRets::Args, false).unwrap();
    let b = compute_arg_locs(CallConv::Fast, &flags(), &params, ArgsOrRets::Args, false).unwrap();
    assert_eq!(a, b);
}

#[test]
fn stack_area_beyond_the_limit_is_rejected() {
    // Vector parameters get no registers, so each consumes sixteen bytes
    // of stack; past 128 MiB the engine reports the implementation limit.
    let n = 128 * 1024 * 1024 / 16 + 2;
    let params: Vec<AbiParam> = (0..n).map(|_| param(Type::I8X16)).collect();
    let err = compute_arg_locs(CallConv::SystemV, &flags(), &params, ArgsOrRets::Args, false)
        .unwrap_err();
    assert_eq!(err, CodegenError::ImplLimitExceeded);
    assert_eq!(err.message(), "implementation limit exceeded");
}
