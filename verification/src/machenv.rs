//! The boundary to the external register allocator: the physical-register
//! sets handed to it (allocatable pools per class, call-clobbered set),
//! built in verified code over exact index-set contracts.

use vstd::prelude::*;
use crate::abi::{CallConv, Flags};
use crate::regs::{Reg, RegClass, is_allocatable, is_callee_saved, spec_is_callee_saved};

verus! {

#[verifier::external_type_specification]
#[verifier::external_body]
pub struct ExPRegSet(regalloc2::PRegSet);

#[verifier::external_type_specification]
#[verifier::external_body]
pub struct ExMachineEnv(regalloc2::MachineEnv);

/// The indices a physical-register set holds, in the allocator's unified
/// index space (class code times 64, plus hardware encoding).
pub uninterp spec fn preg_set_view(s: regalloc2::PRegSet) -> Set<int>;

/// The index of the register `(class, enc)` in the allocator's unified
/// index space.
pub open spec fn reg_index(class: RegClass, enc: u8) -> int {
    class.code() * 64 + enc
}

/// The indices in a machine environment's preferred pool for the class
/// with the given code.
pub uninterp spec fn env_preferred_view(env: regalloc2::MachineEnv, class_code: int) -> Set<
    int,
>;

/// The indices in a machine environment's non-preferred pool for the
/// class with the given code.
pub uninterp spec fn env_non_preferred_view(env: regalloc2::MachineEnv, class_code: int) -> Set<
    int,
>;

/// Relies on regalloc2::PRegSet::empty: a fresh set holds no register.
#[verifier::external_body]
pub fn preg_set_empty() -> (s: regalloc2::PRegSet)
    ensures
        preg_set_view(s) == Set::<int>::empty(),
{
    regalloc2::PRegSet::empty()
}

/// Relies on regalloc2::PRegSet::add and PReg::new: adding a register
/// sets exactly the bit of its index, `class * 64 + hw_enc`.
#[verifier::external_body]
pub fn preg_set_add(s: &mut regalloc2::PRegSet, class: RegClass, enc: u8)
    requires
        enc <= 63,
    ensures
        preg_set_view(*final(s)) == preg_set_view(*old(s)).insert(reg_index(class, enc)),
{
    let rc = match class {
        RegClass::Int => regalloc2::RegClass::Int,
        RegClass::Float => regalloc2::RegClass::Float,
        RegClass::Vector => regalloc2::RegClass::Vector,
    };
    s.add(regalloc2::PReg::new(enc as usize, rc))
}

/// Relies on regalloc2::PRegSet::contains and PReg::new: membership of
/// the register with index `class * 64 + hw_enc`.
#[verifier::external_body]
pub fn preg_set_contains(s: &regalloc2::PRegSet, class: RegClass, enc: u8) -> (r: bool)
    requires
        enc <= 63,
    ensures
        r == preg_set_view(*s).contains(reg_index(class, enc)),
{
    let rc = match class {
        RegClass::Int => regalloc2::RegClass::Int,
        RegClass::Float => regalloc2::RegClass::Float,
        RegClass::Vector => regalloc2::RegClass::Vector,
    };
    s.contains(regalloc2::PReg::new(enc as usize, rc))
}

/// Relies on regalloc2::MachineEnv being a plain record: packages the
/// per-class preferred and non-preferred allocatable sets, in class-code
/// order, with no dedicated scratch registers and no fixed stack slots.
#[verifier::external_body]
pub fn machine_env_new(
    pref_int: regalloc2::PRegSet,
    pref_float: regalloc2::PRegSet,
    pref_vector: regalloc2::PRegSet,
    npref_int: regalloc2::PRegSet,
    npref_float: regalloc2::PRegSet,
    npref_vector: regalloc2::PRegSet,
) -> (env: regalloc2::MachineEnv)
    ensures
        env_preferred_view(env, 0) == preg_set_view(pref_int),
        env_preferred_view(env, 1) == preg_set_view(pref_float),
        env_preferred_view(env, 2) == preg_set_view(pref_vector),
        env_non_preferred_view(env, 0) == preg_set_view(npref_int),
        env_non_preferred_view(env, 1) == preg_set_view(npref_float),
        env_non_preferred_view(env, 2) == preg_set_view(npref_vector),
{
    regalloc2::MachineEnv {
        preferred_regs_by_class: [pref_int, pref_float, pref_vector],
        non_preferred_regs_by_class: [npref_int, npref_float, npref_vector],
        scratch_by_class: [Option::None, Option::None, Option::None],
        fixed_stack_slots: Vec::new(),
    }
}

/// Whether the register `(class, enc)` belongs in the set selected by
/// `want_callee_saved`: allocatable, and callee-saved exactly when asked.
pub open spec fn spec_in_pool(class: RegClass, enc: u8, want_callee_saved: bool) -> bool {
    &&& is_allocatable(Reg::Phys { class, enc })
    &&& spec_is_callee_saved(Reg::Phys { class, enc }) == want_callee_saved
}

/// Add every allocatable register of one class with the requested
/// saved-ness to the set, leaving all other indices untouched.
#[verifier::loop_isolation(false)]
pub fn add_class_regs(s: &mut regalloc2::PRegSet, class: RegClass, want_callee_saved: bool)
    ensures
        forall|e: u8|
            e <= 63 ==> (preg_set_view(*final(s)).contains(#[trigger] reg_index(class, e))
                <==> (preg_set_view(*old(s)).contains(reg_index(class, e)) || spec_in_pool(
                class,
                e,
                want_callee_saved,
            ))),
        forall|i: int|
            !(class.code() * 64 <= i < class.code() * 64 + 64) ==> preg_set_view(
                *final(s),
            ).contains(i) == preg_set_view(*old(s)).contains(i),
{
    let mut enc: u8 = 0;
    while enc <= 63
        invariant
            enc <= 64,
            forall|e: u8|
                e < enc ==> (preg_set_view(*s).contains(#[trigger] reg_index(class, e)) <==> (
                preg_set_view(*old(s)).contains(reg_index(class, e)) || spec_in_pool(
                    class,
                    e,
                    want_callee_saved,
                ))),
            forall|e: u8|
                enc <= e <= 63 ==> preg_set_view(*s).contains(#[trigger] reg_index(class, e))
                    == preg_set_view(*old(s)).contains(reg_index(class, e)),
            forall|i: int|
                !(class.code() * 64 <= i < class.code() * 64 + 64) ==> preg_set_view(
                    *s,
                ).contains(i) == preg_set_view(*old(s)).contains(i),
        decreases 64 - enc,
    {
        let r = Reg::Phys { class, enc };
        let in_pool = match r {
            Reg::Phys { class: RegClass::Int, enc: e } => e != 0 && e != 1 && e != 2 && e != 8
                && e != 16,
            _ => true,
        } && (is_callee_saved(r) == want_callee_saved);
        if in_pool {
            preg_set_add(s, class, enc);
        }
        enc = enc + 1;
    }
}

/// The machine environment handed to the external allocator: per class,
/// the caller-saved allocatable registers are preferred (no save/restore
/// cost) and the callee-saved allocatable registers are the fallback.
/// No register with a fixed architectural role is in either pool.
pub fn get_machine_env(_flags: &Flags, _call_conv: CallConv) -> (env: regalloc2::MachineEnv)
    ensures
        forall|c: RegClass, e: u8|
            e <= 63 ==> (env_preferred_view(env, c.code()).contains(
                #[trigger] reg_index(c, e),
            ) <==> spec_in_pool(c, e, false)),
        forall|c: RegClass, e: u8|
            e <= 63 ==> (env_non_preferred_view(env, c.code()).contains(
                #[trigger] reg_index(c, e),
            ) <==> spec_in_pool(c, e, true)),
{
    let mut pref_int = preg_set_empty();
    add_class_regs(&mut pref_int, RegClass::Int, false);
    let mut pref_float = preg_set_empty();
    add_class_regs(&mut pref_float, RegClass::Float, false);
    let mut pref_vector = preg_set_empty();
    add_class_regs(&mut pref_vector, RegClass::Vector, false);
    let mut npref_int = preg_set_empty();
    add_class_regs(&mut npref_int, RegClass::Int, true);
    let mut npref_float = preg_set_empty();
    add_class_regs(&mut npref_float, RegClass::Float, true);
    let mut npref_vector = preg_set_empty();
    add_class_regs(&mut npref_vector, RegClass::Vector, true);
    let env = machine_env_new(pref_int, pref_float, pref_vector, npref_int, npref_float,
        npref_vector);
    proof {
        assert forall|c: RegClass, e: u8|
            e <= 63 implies (env_preferred_view(env, c.code()).contains(
            #[trigger] reg_index(c, e)) <==> spec_in_pool(c, e, false)) by {
            match c {
                RegClass::Int => {},
                RegClass::Float => {},
                RegClass::Vector => {},
            }
        }
        assert forall|c: RegClass, e: u8|
            e <= 63 implies (env_non_preferred_view(env, c.code()).contains(
            #[trigger] reg_index(c, e)) <==> spec_in_pool(c, e, true)) by {
            match c {
                RegClass::Int => {},
                RegClass::Float => {},
                RegClass::Vector => {},
            }
        }
    }
    env
}

/// The physical registers any call clobbers under the power64
/// conventions: exactly the caller-saved allocatable registers of every
/// class.
pub fn get_regs_clobbered_by_call(_call_conv_of_callee: CallConv) -> (s: regalloc2::PRegSet)
    ensures
        forall|c: RegClass, e: u8|
            e <= 63 ==> (preg_set_view(s).contains(#[trigger] reg_index(c, e))
                <==> spec_in_pool(c, e, false)),
{
    let mut s = preg_set_empty();
    add_class_regs(&mut s, RegClass::Int, false);
    add_class_regs(&mut s, RegClass::Float, false);
    add_class_regs(&mut s, RegClass::Vector, false);
    proof {
        assert forall|c: RegClass, e: u8|
            e <= 63 implies (preg_set_view(s).contains(#[trigger] reg_index(c, e))
            <==> spec_in_pool(c, e, false)) by {
            assert(RegClass::Int.code() == 0 && RegClass::Float.code() == 1
                && RegClass::Vector.code() == 2);
            match c {
                RegClass::Int => {},
                RegClass::Float => {},
                RegClass::Vector => {},
            }
        }
    }
    s
}

impl crate::inst::Inst {
    /// The physical registers this instruction clobbers when it is a
    /// call: exactly the caller-saved allocatable pool of the recorded
    /// callee convention, as [`get_regs_clobbered_by_call`] builds it.
    /// Nothing for any other instruction.
    pub fn call_clobbers(&self) -> (r: Option<regalloc2::PRegSet>)
        ensures
            match *self {
                crate::inst::Inst::Call { .. } => (r matches Some(s) && forall|
                    c: RegClass,
                    e: u8,
                |
                    e <= 63 ==> (preg_set_view(s).contains(#[trigger] reg_index(c, e))
                        <==> spec_in_pool(c, e, false))),
                _ => r is None,
            },
    {
        match self {
            crate::inst::Inst::Call { callee_conv, .. } => Some(
                get_regs_clobbered_by_call(*callee_conv),
            ),
            _ => Option::None,
        }
    }
}

} // verus!
