//! The power64 calling-convention engine: assignment of argument and
//! return-value locations (registers first, then stack), with the stack
//! layout invariants the rest of the backend relies on.

use vstd::prelude::*;
use vstd::arithmetic::div_mod::{lemma_fundamental_div_mod, lemma_mod_bound,
    lemma_mod_multiples_basic};
use vstd::arithmetic::mul::lemma_mul_is_commutative;
use crate::regs::{Reg, RegClass};
use crate::types::{CodegenError, CodegenResult, Type, UnsupportedConstruct, rc_for_type,
    spec_rc_for_type};

verus! {

/// A named ABI variant selectable per function or call site.  All
/// conventions this backend implements share one argument-assignment rule;
/// the `Winch` convention is not supported.
#[derive(Clone, Copy, Debug, PartialEq, Eq, Structural)]
pub enum CallConv {
    SystemV,
    Fast,
    Cold,
    Tail,
    Winch,
}

/// How a narrow value is widened when placed in a full-width register or
/// stack slot.
#[derive(Clone, Copy, Debug, PartialEq, Eq, Structural)]
pub enum ArgumentExtension {
    NoExt,
    Uext,
    Sext,
}

/// The role of one parameter or return value.
#[derive(Clone, Copy, Debug, PartialEq, Eq, Structural)]
pub enum ArgumentPurpose {
    /// An ordinary user-visible value.
    Normal,
    /// A struct passed by value, with its size in bytes.  This backend
    /// rejects such parameters: callers must pass an explicit pointer.
    StructArgument(u32),
    /// A pointer to a caller-allocated return area.
    StructReturn,
}

/// One function parameter or return value, as the IR layer declares it.
#[derive(Clone, Copy, Debug, PartialEq, Eq, Structural)]
pub struct AbiParam {
    pub value_type: Type,
    pub purpose: ArgumentPurpose,
    pub extension: ArgumentExtension,
}

/// Whether locations are being assigned to arguments or to return values.
/// Arguments may use the full register range; returns use a narrower one.
#[derive(Clone, Copy, Debug, PartialEq, Eq, Structural)]
pub enum ArgsOrRets {
    Args,
    Rets,
}

/// The cross-target configuration the engine reads.
#[derive(Clone, Copy, Debug, PartialEq, Eq, Structural)]
pub struct Flags {
    /// When return registers are exhausted, whether returns may fall back
    /// to an implicit return-area pointer instead of failing.
    pub enable_multi_ret_implicit_sret: bool,
}

/// The power64-specific configuration.  The target defines no feature
/// toggles yet.
#[derive(Clone, Copy, Debug, PartialEq, Eq, Structural)]
pub struct PowerFlags {}

/// One slot of an argument's location: a physical register or a stack
/// offset, with the element type held there and its extension mode.
#[derive(Clone, Copy, Debug, PartialEq, Eq, Structural)]
pub enum ABIArgSlot {
    Reg { reg: Reg, ty: Type, extension: ArgumentExtension },
    Stack { offset: i64, ty: Type, extension: ArgumentExtension },
}

/// Where one parameter or return value lives: an ordered list of slots,
/// contiguous in the conceptual value layout, tagged with the parameter's
/// purpose.
#[derive(Clone, Debug, PartialEq, Eq)]
pub enum ABIArg {
    Slots { slots: Vec<ABIArgSlot>, purpose: ArgumentPurpose },
}

/// The mathematical shape of an [`ABIArg`].
pub ghost struct AbiArgView {
    pub slots: Seq<ABIArgSlot>,
    pub purpose: ArgumentPurpose,
}

impl View for ABIArg {
    type V = AbiArgView;

    open spec fn view(&self) -> AbiArgView {
        match self {
            ABIArg::Slots { slots, purpose } => AbiArgView { slots: slots@, purpose: *purpose },
        }
    }
}

/// The machine word size, in bytes: every stack slot is at least this wide.
pub const WORD_SIZE_BYTES: u32 = 8;

/// Stack frames and argument areas are aligned to this power-of-two
/// boundary, in bytes.
pub const STACK_ALIGN_BYTES: u32 = 16;

/// Upper bound on the byte size of the stack-argument area; assignment
/// fails with an implementation-limit error beyond it.
pub const STACK_ARG_RET_SIZE_LIMIT: u32 = 128 * 1024 * 1024;

/// First integer argument/return register: x10.
pub const FIRST_ARG_X: u8 = 10;

/// First float argument/return register: f10.
pub const FIRST_ARG_F: u8 = 10;

/// `x` rounded up to the next multiple of `a`.
pub open spec fn spec_align_up(x: int, a: int) -> int {
    ((x + a - 1) / a) * a
}

/// Rounding up to a positive alignment stays within one alignment step and
/// lands on a multiple of it.
pub proof fn lemma_align_up(x: int, a: int)
    requires
        x >= 0,
        a > 0,
    ensures
        spec_align_up(x, a) % a == 0,
        x <= spec_align_up(x, a),
        spec_align_up(x, a) < x + a,
{
    lemma_fundamental_div_mod(x + a - 1, a);
    lemma_mod_bound(x + a - 1, a);
    lemma_mod_multiples_basic((x + a - 1) / a, a);
    lemma_mul_is_commutative((x + a - 1) / a, a);
}

/// `x` rounded up to the next multiple of `a`.
pub fn align_up_u32(x: u32, a: u32) -> (r: u32)
    requires
        a > 0,
        x + a <= u32::MAX,
    ensures
        r == spec_align_up(x as int, a as int),
        x <= r < x + a,
        r % a == 0,
{
    proof {
        lemma_align_up(x as int, a as int);
        lemma_fundamental_div_mod(x as int + a - 1, a as int);
    }
    (x + a - 1) / a * a
}

/// Last usable integer argument register encoding for the direction:
/// arguments may use x10..=x17, returns only x10..=x11.
pub open spec fn x_range_end(args_or_rets: ArgsOrRets) -> int {
    match args_or_rets {
        ArgsOrRets::Args => 17,
        ArgsOrRets::Rets => 11,
    }
}

/// Last usable float argument register encoding for the direction:
/// arguments may use f10..=f17, returns only f10..=f11.
pub open spec fn f_range_end(args_or_rets: ArgsOrRets) -> int {
    match args_or_rets {
        ArgsOrRets::Args => 17,
        ArgsOrRets::Rets => 11,
    }
}

/// The size in bytes of the stack slot holding a value of type `ty`: its
/// natural size, rounded up to the machine word size.
pub open spec fn spec_slot_size(ty: Type) -> int {
    if ty.spec_bits() / 8 < WORD_SIZE_BYTES as int {
        WORD_SIZE_BYTES as int
    } else {
        ty.spec_bits() / 8
    }
}

/// The running state of location assignment: the next free integer and
/// float argument registers, and the next free stack offset.
pub ghost struct ArgCursor {
    pub next_x: int,
    pub next_f: int,
    pub next_stack: int,
}

/// Assign a location to one register-sized component of class `rc` and
/// type `ty`: the next free register of its class if one is in range,
/// otherwise a stack slot aligned to the slot's own (word-rounded) size.
/// `None` means return registers were exhausted and the configuration
/// forbids the implicit return-area fallback.
pub open spec fn spec_assign_slot(
    rc: RegClass,
    ty: Type,
    extension: ArgumentExtension,
    args_or_rets: ArgsOrRets,
    sret_fallback: bool,
    cur: ArgCursor,
) -> Option<(ABIArgSlot, ArgCursor)> {
    if rc == RegClass::Int && cur.next_x <= x_range_end(args_or_rets) {
        Some(
            (
                ABIArgSlot::Reg {
                    reg: Reg::Phys { class: RegClass::Int, enc: cur.next_x as u8 },
                    ty,
                    extension,
                },
                ArgCursor { next_x: cur.next_x + 1, ..cur },
            ),
        )
    } else if rc == RegClass::Float && cur.next_f <= f_range_end(args_or_rets) {
        Some(
            (
                ABIArgSlot::Reg {
                    reg: Reg::Phys { class: RegClass::Float, enc: cur.next_f as u8 },
                    ty,
                    extension,
                },
                ArgCursor { next_f: cur.next_f + 1, ..cur },
            ),
        )
    } else if args_or_rets == ArgsOrRets::Rets && !sret_fallback {
        None
    } else {
        let size = spec_slot_size(ty);
        let offset = spec_align_up(cur.next_stack, size);
        Some(
            (
                ABIArgSlot::Stack { offset: offset as i64, ty, extension },
                ArgCursor { next_stack: offset + size, ..cur },
            ),
        )
    }
}

/// Assign locations to every register-sized component of one parameter,
/// in order.
pub open spec fn spec_assign_slots(
    pairs: Seq<(RegClass, Type)>,
    extension: ArgumentExtension,
    args_or_rets: ArgsOrRets,
    sret_fallback: bool,
    cur: ArgCursor,
) -> Option<(Seq<ABIArgSlot>, ArgCursor)>
    decreases pairs.len(),
{
    if pairs.len() == 0 {
        Some((Seq::empty(), cur))
    } else {
        match spec_assign_slot(pairs[0].0, pairs[0].1, extension, args_or_rets, sret_fallback,
            cur) {
            Option::None => Option::None,
            Some((slot, cur1)) => match spec_assign_slots(pairs.drop_first(), extension,
                args_or_rets, sret_fallback, cur1) {
                Option::None => Option::None,
                Some((rest, cur2)) => Some((seq![slot].add(rest), cur2)),
            },
        }
    }
}

/// Assign locations to a sequence of parameters, in declaration order.
/// Struct-by-value parameters are rejected; the stack-area size limit is
/// enforced before each parameter.
pub open spec fn spec_assign_params(
    params: Seq<AbiParam>,
    args_or_rets: ArgsOrRets,
    sret_fallback: bool,
    cur: ArgCursor,
) -> Result<(Seq<AbiArgView>, ArgCursor), CodegenError>
    decreases params.len(),
{
    if params.len() == 0 {
        Ok((Seq::empty(), cur))
    } else {
        let p = params[0];
        if p.purpose is StructArgument {
            Err(CodegenError::Unsupported(UnsupportedConstruct::StructArgument))
        } else if cur.next_stack > STACK_ARG_RET_SIZE_LIMIT as int {
            Err(CodegenError::ImplLimitExceeded)
        } else {
            match spec_rc_for_type(p.value_type) {
                Option::None => Err(
                    CodegenError::Unsupported(UnsupportedConstruct::ValueType(p.value_type)),
                ),
                Some(pairs) => match spec_assign_slots(pairs, p.extension, args_or_rets,
                    sret_fallback, cur) {
                    Option::None => Err(
                        CodegenError::Unsupported(UnsupportedConstruct::TooManyReturnValues),
                    ),
                    Some((slots, cur1)) => match spec_assign_params(params.drop_first(),
                        args_or_rets, sret_fallback, cur1) {
                        Err(e) => Err(e),
                        Ok((rest, cur2)) => Ok(
                            (
                                seq![AbiArgView { slots, purpose: p.purpose }].add(rest),
                                cur2,
                            ),
                        ),
                    },
                },
            }
        }
    }
}

/// The out-of-band argument holding the caller-supplied return-area
/// pointer: the first integer argument register, as a 64-bit value.
pub open spec fn spec_ret_area_ptr_arg() -> AbiArgView {
    AbiArgView {
        slots: seq![
            ABIArgSlot::Reg {
                reg: Reg::Phys { class: RegClass::Int, enc: FIRST_ARG_X },
                ty: Type::I64,
                extension: ArgumentExtension::NoExt,
            },
        ],
        purpose: ArgumentPurpose::Normal,
    }
}

/// The complete location assignment for one parameter or return list:
/// the per-parameter argument descriptions, the total stack-area size
/// (rounded up to the stack alignment), and, when a return-area pointer
/// was requested, the index of its out-of-band argument.
pub open spec fn spec_compute_arg_locs(
    call_conv: CallConv,
    flags: Flags,
    params: Seq<AbiParam>,
    args_or_rets: ArgsOrRets,
    add_ret_area_ptr: bool,
) -> Result<(Seq<AbiArgView>, int, Option<int>), CodegenError> {
    if call_conv is Winch {
        Err(CodegenError::Unsupported(UnsupportedConstruct::CallingConvention))
    } else {
        let cur0 = ArgCursor {
            next_x: FIRST_ARG_X as int + if add_ret_area_ptr {
                1int
            } else {
                0int
            },
            next_f: FIRST_ARG_F as int,
            next_stack: 0,
        };
        match spec_assign_params(params, args_or_rets, flags.enable_multi_ret_implicit_sret,
            cur0) {
            Err(e) => Err(e),
            Ok((args, cur)) => {
                let total = spec_align_up(cur.next_stack, STACK_ALIGN_BYTES as int);
                if add_ret_area_ptr {
                    Ok((args.push(spec_ret_area_ptr_arg()), total, Some(args.len() as int)))
                } else {
                    Ok((args, total, Option::None))
                }
            },
        }
    }
}

/// Assign locations to the register-sized components of one parameter:
/// registers while any of the matching class are free, then aligned stack
/// slots.  Returns the slots and the updated cursors, or the
/// too-many-return-values error exactly when [`spec_assign_slots`] yields
/// no assignment.
#[verifier::loop_isolation(false)]
fn assign_slots_for_param(
    pairs: &Vec<(RegClass, Type)>,
    extension: ArgumentExtension,
    args_or_rets: ArgsOrRets,
    sret_fallback: bool,
    x_end: u8,
    f_end: u8,
    next_x: u8,
    next_f: u8,
    next_stack: u32,
) -> (r: Result<(Vec<ABIArgSlot>, u8, u8, u32), CodegenError>)
    requires
        x_end == x_range_end(args_or_rets),
        f_end == f_range_end(args_or_rets),
        FIRST_ARG_X <= next_x <= x_end + 1,
        FIRST_ARG_F <= next_f <= f_end + 1,
        next_stack <= STACK_ARG_RET_SIZE_LIMIT,
        pairs@.len() <= 2,
        forall|k: int| 0 <= k < pairs@.len() ==> 8 <= spec_slot_size(#[trigger] pairs@[k].1)
            <= 16,
    ensures
        match spec_assign_slots(
            pairs@,
            extension,
            args_or_rets,
            sret_fallback,
            (ArgCursor {
                next_x: next_x as int,
                next_f: next_f as int,
                next_stack: next_stack as int,
            }),
        ) {
            Some((slots, curf)) => {
                &&& r matches Ok((v, nx, nf, ns))
                &&& v@ == slots
                &&& nx as int == curf.next_x
                &&& nf as int == curf.next_f
                &&& ns as int == curf.next_stack
                &&& next_x <= nx <= x_end + 1
                &&& next_f <= nf <= f_end + 1
                &&& next_stack <= ns <= next_stack + 62
            },
            Option::None => (r matches Err(e) && e == CodegenError::Unsupported(
                UnsupportedConstruct::TooManyReturnValues,
            )),
        },
{
    let mut nx = next_x;
    let mut nf = next_f;
    let mut ns = next_stack;
    let mut slots: Vec<ABIArgSlot> = Vec::new();
    let ghost cur0 = ArgCursor {
        next_x: next_x as int,
        next_f: next_f as int,
        next_stack: next_stack as int,
    };
    proof {
        assert(pairs@.skip(0) =~= pairs@);
        match spec_assign_slots(pairs@, extension, args_or_rets, sret_fallback, cur0) {
            Option::None => {},
            Some((rest, curf)) => {
                assert(slots@.add(rest) =~= rest);
            },
        }
    }
    let mut j: usize = 0;
    while j < pairs.len()
        invariant
            j <= pairs.len(),
            next_x <= nx <= x_end + 1,
            next_f <= nf <= f_end + 1,
            next_stack <= ns <= next_stack + 31 * j,
            spec_assign_slots(pairs@, extension, args_or_rets, sret_fallback, cur0) == (match
                spec_assign_slots(
                pairs@.skip(j as int),
                extension,
                args_or_rets,
                sret_fallback,
                (ArgCursor { next_x: nx as int, next_f: nf as int, next_stack: ns as int }),
            ) {
                Option::None => Option::None::<(Seq<ABIArgSlot>, ArgCursor)>,
                Some((rest, curf)) => Some((slots@.add(rest), curf)),
            }),
        decreases pairs.len() - j,
    {
        let ghost cur_b = ArgCursor { next_x: nx as int, next_f: nf as int, next_stack: ns as int };
        let ghost slots_before = slots@;
        proof {
            assert(pairs@.skip(j as int).len() > 0);
            assert(pairs@.skip(j as int)[0] == pairs@[j as int]);
            assert(pairs@.skip(j as int).drop_first() =~= pairs@.skip(j as int + 1));
        }
        let (rc, reg_ty) = pairs[j];
        if rc == RegClass::Int && nx <= x_end {
            slots.push(ABIArgSlot::Reg {
                reg: Reg::Phys { class: RegClass::Int, enc: nx },
                ty: reg_ty,
                extension,
            });
            nx = nx + 1;
        } else if rc == RegClass::Float && nf <= f_end {
            slots.push(ABIArgSlot::Reg {
                reg: Reg::Phys { class: RegClass::Float, enc: nf },
                ty: reg_ty,
                extension,
            });
            nf = nf + 1;
        } else {
            if matches!(args_or_rets, ArgsOrRets::Rets) && !sret_fallback {
                proof {
                    assert(spec_assign_slot(rc, reg_ty, extension, args_or_rets, sret_fallback,
                        cur_b) is None);
                    assert(spec_assign_slots(pairs@, extension, args_or_rets, sret_fallback,
                        cur0) is None);
                }
                return Err(CodegenError::Unsupported(UnsupportedConstruct::TooManyReturnValues));
            }
            let size_bytes = reg_ty.bits() / 8;
            let size = if size_bytes < WORD_SIZE_BYTES {
                WORD_SIZE_BYTES
            } else {
                size_bytes
            };
            assert(size == spec_slot_size(reg_ty));
            let offset = align_up_u32(ns, size);
            slots.push(ABIArgSlot::Stack {
                offset: offset as i64,
                ty: reg_ty,
                extension,
            });
            ns = offset + size;
        }
        proof {
            let cur_a = ArgCursor { next_x: nx as int, next_f: nf as int, next_stack: ns as int };
            let the_slot = slots@.last();
            assert(slots@ =~= slots_before.push(the_slot));
            assert(spec_assign_slot(pairs@[j as int].0, pairs@[j as int].1, extension,
                args_or_rets, sret_fallback, cur_b) == Some((the_slot, cur_a)));
            let res_next = spec_assign_slots(pairs@.skip(j as int + 1), extension, args_or_rets,
                sret_fallback, cur_a);
            match res_next {
                Option::None => {
                    assert(spec_assign_slots(pairs@.skip(j as int), extension, args_or_rets,
                        sret_fallback, cur_b) is None);
                },
                Some((rest, curf)) => {
                    assert(spec_assign_slots(pairs@.skip(j as int), extension, args_or_rets,
                        sret_fallback, cur_b) == Some((seq![the_slot].add(rest), curf)));
                    assert(slots_before.add(seq![the_slot].add(rest)) =~= slots@.add(rest));
                },
            }
        }
        j = j + 1;
    }
    proof {
        assert(pairs@.skip(pairs@.len() as int) =~= Seq::<(RegClass, Type)>::empty());
        assert(slots@.add(Seq::<ABIArgSlot>::empty()) =~= slots@);
    }
    Ok((slots, nx, nf, ns))
}

/// Assign argument or return-value locations for one signature under the
/// given calling convention: registers of the matching class while any are
/// in range, then aligned stack slots; a requested return-area pointer
/// consumes the first integer argument register before any user parameter
/// and its argument is appended out of band.  The result is exactly the
/// assignment [`spec_compute_arg_locs`] describes, and so is the same on
/// every call with the same inputs.
#[verifier::loop_isolation(false)]
#[verifier::rlimit(50)]
pub fn compute_arg_locs(
    call_conv: CallConv,
    flags: &Flags,
    params: &Vec<AbiParam>,
    args_or_rets: ArgsOrRets,
    add_ret_area_ptr: bool,
) -> (r: CodegenResult<(Vec<ABIArg>, u32, Option<usize>)>)
    requires
        add_ret_area_ptr ==> args_or_rets == ArgsOrRets::Args,
    ensures
        match spec_compute_arg_locs(call_conv, *flags, params@, args_or_rets, add_ret_area_ptr) {
            Ok((sargs, ssize, spos)) => {
                &&& r matches Ok((args, size, pos))
                &&& args@.map_values(|a: ABIArg| a@) == sargs
                &&& size == ssize
                &&& (match (pos, spos) {
                    (Some(p), Some(sp)) => p == sp,
                    (Option::None, Option::None) => true,
                    _ => false,
                })
            },
            Err(e) => (r matches Err(e2) && e2 == e),
        },
{
    if matches!(call_conv, CallConv::Winch) {
        return Err(CodegenError::Unsupported(UnsupportedConstruct::CallingConvention));
    }
    let x_end: u8 = match args_or_rets {
        ArgsOrRets::Args => 17,
        ArgsOrRets::Rets => 11,
    };
    let f_end: u8 = match args_or_rets {
        ArgsOrRets::Args => 17,
        ArgsOrRets::Rets => 11,
    };
    let mut next_x: u8 = if add_ret_area_ptr {
        FIRST_ARG_X + 1
    } else {
        FIRST_ARG_X
    };
    let mut next_f: u8 = FIRST_ARG_F;
    let mut next_stack: u32 = 0;
    let sret_fallback = flags.enable_multi_ret_implicit_sret;
    let ghost cur0 = ArgCursor {
        next_x: next_x as int,
        next_f: next_f as int,
        next_stack: next_stack as int,
    };
    let mut args: Vec<ABIArg> = Vec::new();

    proof {
        assert(params@.skip(0) =~= params@);
        match spec_assign_params(params@, args_or_rets, sret_fallback, cur0) {
            Err(_) => {},
            Ok((rest, curf)) => {
                assert(args@.map_values(|a: ABIArg| a@).add(rest) =~= rest);
            },
        }
    }
    let mut i: usize = 0;
    while i < params.len()
        invariant
            i <= params.len(),
            FIRST_ARG_X <= next_x <= x_end + 1,
            FIRST_ARG_F <= next_f <= f_end + 1,
            next_stack <= STACK_ARG_RET_SIZE_LIMIT + 62,
            spec_assign_params(params@, args_or_rets, sret_fallback, cur0) == (match
                spec_assign_params(
                params@.skip(i as int),
                args_or_rets,
                sret_fallback,
                (ArgCursor {
                    next_x: next_x as int,
                    next_f: next_f as int,
                    next_stack: next_stack as int,
                }),
            ) {
                Err(e) => Err(e),
                Ok((rest, curf)) => Ok((args@.map_values(|a: ABIArg| a@).add(rest), curf)),
            }),
        decreases params.len() - i,
    {
        let ghost cur_i = ArgCursor {
            next_x: next_x as int,
            next_f: next_f as int,
            next_stack: next_stack as int,
        };
        proof {
            assert(params@.skip(i as int).len() > 0);
            assert(params@.skip(i as int)[0] == params@[i as int]);
            assert(params@.skip(i as int).drop_first() =~= params@.skip(i as int + 1));
        }
        let p = params[i];
        if matches!(p.purpose, ArgumentPurpose::StructArgument(_)) {
            return Err(CodegenError::Unsupported(UnsupportedConstruct::StructArgument));
        }
        if next_stack > STACK_ARG_RET_SIZE_LIMIT {
            return Err(CodegenError::ImplLimitExceeded);
        }
        let pairs = match rc_for_type(p.value_type) {
            Ok(pairs) => pairs,
            Err(e) => {
                return Err(e);
            },
        };
        proof {
            assert(forall|k: int| 0 <= k < pairs@.len() ==> 8 <= spec_slot_size(
                #[trigger] pairs@[k].1) <= 16) by {
                lemma_rc_pair_slot_sizes(p.value_type);
            }
        }
        let (slots, nx2, nf2, ns2) = match assign_slots_for_param(&pairs, p.extension,
            args_or_rets, sret_fallback, x_end, f_end, next_x, next_f, next_stack) {
            Ok(t) => t,
            Err(e) => {
                return Err(e);
            },
        };
        next_x = nx2;
        next_f = nf2;
        next_stack = ns2;
        let ghost cur_n = ArgCursor {
            next_x: next_x as int,
            next_f: next_f as int,
            next_stack: next_stack as int,
        };
        let ghost slots_view = slots@;
        let ghost args_before = args@;
        args.push(ABIArg::Slots { slots, purpose: p.purpose });
        proof {
            let argview = AbiArgView { slots: slots_view, purpose: p.purpose };
            assert(args@.map_values(|a: ABIArg| a@) =~= args_before.map_values(
                |a: ABIArg| a@).push(argview));
            let res_next = spec_assign_params(params@.skip(i as int + 1), args_or_rets,
                sret_fallback, cur_n);
            match res_next {
                Err(_) => {
                    assert(spec_assign_params(params@.skip(i as int), args_or_rets,
                        sret_fallback, cur_i) == res_next);
                },
                Ok((rest2, curf)) => {
                    assert(spec_assign_params(params@.skip(i as int), args_or_rets,
                        sret_fallback, cur_i) == Ok::<_, CodegenError>((seq![argview].add(
                        rest2), curf)));
                    assert(args_before.map_values(|a: ABIArg| a@).add(seq![argview].add(rest2))
                        =~= args@.map_values(|a: ABIArg| a@).add(rest2));
                },
            }
        }
        i = i + 1;
    }
    proof {
        assert(params@.skip(params@.len() as int) =~= Seq::<AbiParam>::empty());
        assert(args@.map_values(|a: ABIArg| a@).add(Seq::<AbiArgView>::empty()) =~= args@.map_values(
            |a: ABIArg| a@));
    }
    let pos: Option<usize>;
    if add_ret_area_ptr {
        let ghost args_before = args@;
        let ret_slots: Vec<ABIArgSlot> = vec![
            ABIArgSlot::Reg {
                reg: Reg::Phys { class: RegClass::Int, enc: FIRST_ARG_X },
                ty: Type::I64,
                extension: ArgumentExtension::NoExt,
            },
        ];
        proof {
            assert(ret_slots@ =~= spec_ret_area_ptr_arg().slots);
        }
        args.push(ABIArg::Slots { slots: ret_slots, purpose: ArgumentPurpose::Normal });
        pos = Some(args.len() - 1);
        proof {
            assert(args@.map_values(|a: ABIArg| a@) =~= args_before.map_values(
                |a: ABIArg| a@).push(spec_ret_area_ptr_arg()));
        }
    } else {
        pos = Option::None;
    }
    let total = align_up_u32(next_stack, STACK_ALIGN_BYTES);
    Ok((args, total, pos))
}

/// Every per-register component a value type splits into occupies a stack
/// slot of 8 or 16 bytes.
pub proof fn lemma_rc_pair_slot_sizes(ty: Type)
    ensures
        spec_rc_for_type(ty) matches Some(pairs) ==> forall|k: int|
            0 <= k < pairs.len() ==> 8 <= spec_slot_size(#[trigger] pairs[k].1) <= 16,
{
}

/// One slot assignment never decreases the stack cursor, and any stack slot
/// it produces is aligned to its own size and within the new cursor.
proof fn lemma_assign_slot_aligned(
    rc: RegClass,
    ty: Type,
    extension: ArgumentExtension,
    args_or_rets: ArgsOrRets,
    sret_fallback: bool,
    cur: ArgCursor,
)
    requires
        0 <= cur.next_stack <= STACK_ARG_RET_SIZE_LIMIT + 31,
    ensures
        match spec_assign_slot(rc, ty, extension, args_or_rets, sret_fallback, cur) {
            Some((slot, curf)) => {
                &&& cur.next_stack <= curf.next_stack <= cur.next_stack + 31
                &&& (slot matches ABIArgSlot::Stack { offset, ty: sty, .. } ==> (offset as int)
                    % spec_slot_size(sty) == 0 && 0 <= offset)
            },
            Option::None => true,
        },
{
    if !(rc == RegClass::Int && cur.next_x <= x_range_end(args_or_rets)) && !(rc
        == RegClass::Float && cur.next_f <= f_range_end(args_or_rets)) && !(args_or_rets
        == ArgsOrRets::Rets && !sret_fallback) {
        lemma_slot_size_range(ty);
        lemma_align_up(cur.next_stack, spec_slot_size(ty));
    }
}

/// Every value type's word-rounded stack slot is 8 or 16 bytes wide.
proof fn lemma_slot_size_range(ty: Type)
    ensures
        8 <= spec_slot_size(ty) <= 16,
{
}

/// Slot assignment for one parameter keeps every stack slot aligned to its
/// own size, and never moves the stack cursor backwards.
proof fn lemma_assign_slots_aligned(
    pairs: Seq<(RegClass, Type)>,
    extension: ArgumentExtension,
    args_or_rets: ArgsOrRets,
    sret_fallback: bool,
    cur: ArgCursor,
)
    requires
        0 <= cur.next_stack,
        cur.next_stack + 31 * pairs.len() <= STACK_ARG_RET_SIZE_LIMIT + 62,
    ensures
        match spec_assign_slots(pairs, extension, args_or_rets, sret_fallback, cur) {
            Some((slots, curf)) => {
                &&& cur.next_stack <= curf.next_stack <= cur.next_stack + 31 * pairs.len()
                &&& forall|k: int| 0 <= k < slots.len() ==> ((#[trigger] slots[k]) matches
                    ABIArgSlot::Stack { offset, ty, .. } ==> (offset as int) % spec_slot_size(ty) == 0
                    && 0 <= offset)
            },
            Option::None => true,
        },
    decreases pairs.len(),
{
    if pairs.len() == 0 {
    } else {
        lemma_assign_slot_aligned(pairs[0].0, pairs[0].1, extension, args_or_rets,
            sret_fallback, cur);
        match spec_assign_slot(pairs[0].0, pairs[0].1, extension, args_or_rets, sret_fallback,
            cur) {
            Option::None => {},
            Some((slot, cur1)) => {
                lemma_assign_slots_aligned(pairs.drop_first(), extension, args_or_rets,
                    sret_fallback, cur1);
                match spec_assign_slots(pairs.drop_first(), extension, args_or_rets,
                    sret_fallback, cur1) {
                    Option::None => {},
                    Some((rest, _)) => {
                        let slots = seq![slot].add(rest);
                        assert forall|k: int| 0 <= k < slots.len() implies ((
                        #[trigger] slots[k]) matches ABIArgSlot::Stack { offset, ty, .. }
                            ==> (offset as int) % spec_slot_size(ty) == 0 && 0 <= offset) by {
                            if k > 0 {
                                assert(slots[k] == rest[k - 1]);
                            }
                        }
                    },
                }
            },
        }
    }
}

/// Location assignment for a parameter list keeps every stack slot aligned
/// to its own size, and never moves the stack cursor backwards.
proof fn lemma_assign_params_aligned(
    params: Seq<AbiParam>,
    args_or_rets: ArgsOrRets,
    sret_fallback: bool,
    cur: ArgCursor,
)
    requires
        cur.next_stack >= 0,
    ensures
        match spec_assign_params(params, args_or_rets, sret_fallback, cur) {
            Ok((args, curf)) => {
                &&& cur.next_stack <= curf.next_stack
                &&& forall|a: int, k: int|
                    0 <= a < args.len() && 0 <= k < args[a].slots.len() ==> ((
                    #[trigger] args[a].slots[k]) matches ABIArgSlot::Stack {
                        offset,
                        ty,
                        ..
                    } ==> (offset as int) % spec_slot_size(ty) == 0 && 0 <= offset)
            },
            Err(_) => true,
        },
    decreases params.len(),
{
    if params.len() == 0 {
    } else {
        let p = params[0];
        if p.purpose is StructArgument || cur.next_stack > STACK_ARG_RET_SIZE_LIMIT as int {
        } else {
            match spec_rc_for_type(p.value_type) {
                Option::None => {},
                Some(pairs) => {
                    lemma_assign_slots_aligned(pairs, p.extension, args_or_rets, sret_fallback,
                        cur);
                    match spec_assign_slots(pairs, p.extension, args_or_rets, sret_fallback,
                        cur) {
                        Option::None => {},
                        Some((slots, cur1)) => {
                            lemma_assign_params_aligned(params.drop_first(), args_or_rets,
                                sret_fallback, cur1);
                            match spec_assign_params(params.drop_first(), args_or_rets,
                                sret_fallback, cur1) {
                                Err(_) => {},
                                Ok((rest, _)) => {
                                    let argview = AbiArgView { slots, purpose: p.purpose };
                                    let args = seq![argview].add(rest);
                                    assert forall|a: int, k: int|
                                        0 <= a < args.len() && 0 <= k
                                        < args[a].slots.len() implies ((
                                    #[trigger] args[a].slots[k]) matches ABIArgSlot::Stack {
                                        offset,
                                        ty,
                                        ..
                                    } ==> (offset as int) % spec_slot_size(ty) == 0 && 0 <= offset) by {
                                        if a > 0 {
                                            assert(args[a] == rest[a - 1]);
                                        }
                                    }
                                },
                            }
                        },
                    }
                },
            }
        }
    }
}

/// Stack alignment invariant: in every successful location assignment,
/// each stack-resident slot's offset is a multiple of that slot's
/// (word-rounded) size, and the total stack-area size is a multiple of the
/// stack alignment.
pub proof fn lemma_stack_alignment(
    call_conv: CallConv,
    flags: Flags,
    params: Seq<AbiParam>,
    args_or_rets: ArgsOrRets,
    add_ret_area_ptr: bool,
)
    ensures
        match spec_compute_arg_locs(call_conv, flags, params, args_or_rets, add_ret_area_ptr) {
            Ok((args, total, _)) => {
                &&& total % (STACK_ALIGN_BYTES as int) == 0
                &&& 0 <= total
                &&& forall|a: int, k: int|
                    0 <= a < args.len() && 0 <= k < args[a].slots.len() ==> ((
                    #[trigger] args[a].slots[k]) matches ABIArgSlot::Stack {
                        offset,
                        ty,
                        ..
                    } ==> (offset as int) % spec_slot_size(ty) == 0 && 0 <= offset)
            },
            Err(_) => true,
        },
{
    if call_conv is Winch {
    } else {
        let cur0 = ArgCursor {
            next_x: FIRST_ARG_X as int + if add_ret_area_ptr {
                1int
            } else {
                0int
            },
            next_f: FIRST_ARG_F as int,
            next_stack: 0,
        };
        let sret_fallback = flags.enable_multi_ret_implicit_sret;
        lemma_assign_params_aligned(params, args_or_rets, sret_fallback, cur0);
        match spec_assign_params(params, args_or_rets, sret_fallback, cur0) {
            Err(_) => {},
            Ok((args, curf)) => {
                lemma_align_up(curf.next_stack, STACK_ALIGN_BYTES as int);
                if add_ret_area_ptr {
                    let args2 = args.push(spec_ret_area_ptr_arg());
                    assert forall|a: int, k: int|
                        0 <= a < args2.len() && 0 <= k < args2[a].slots.len() implies ((
                    #[trigger] args2[a].slots[k]) matches ABIArgSlot::Stack { offset, ty, .. }
                        ==> (offset as int) % spec_slot_size(ty) == 0 && 0 <= offset) by {
                        if a < args.len() {
                            assert(args2[a] == args[a]);
                        } else {
                            assert(args2[a] == spec_ret_area_ptr_arg());
                        }
                    }
                }
            },
        }
    }
}

/// Argument-location determinism: the location assignment is a function of
/// the calling convention, the configuration, the parameter list, the
/// direction, and the return-area request alone, so any two assignments
/// computed from the same inputs are identical.
pub proof fn lemma_arg_locs_deterministic(
    call_conv: CallConv,
    flags: Flags,
    params: Seq<AbiParam>,
    args_or_rets: ArgsOrRets,
    add_ret_area_ptr: bool,
    r1: Result<(Seq<AbiArgView>, int, Option<int>), CodegenError>,
    r2: Result<(Seq<AbiArgView>, int, Option<int>), CodegenError>,
)
    requires
        r1 == spec_compute_arg_locs(call_conv, flags, params, args_or_rets, add_ret_area_ptr),
        r2 == spec_compute_arg_locs(call_conv, flags, params, args_or_rets, add_ret_area_ptr),
    ensures
        r1 == r2,
{
}

} // verus!
