//! Value types the backend can place in registers, and the structured
//! errors the code-generation engine reports.

use vstd::prelude::*;
use crate::regs::RegClass;

verus! {

/// The semantic type of a value carried by a register or stack slot:
/// scalar integers, scalar floats, and the 128-bit vector shape.
#[derive(Clone, Copy, Debug, PartialEq, Eq, Structural)]
pub enum Type {
    I8,
    I16,
    I32,
    I64,
    I128,
    F16,
    F32,
    F64,
    F128,
    I8X16,
}

impl Type {
    /// The width of a value of this type, in bits.
    pub open spec fn spec_bits(self) -> int {
        match self {
            Type::I8 => 8,
            Type::I16 => 16,
            Type::I32 => 32,
            Type::I64 => 64,
            Type::I128 => 128,
            Type::F16 => 16,
            Type::F32 => 32,
            Type::F64 => 64,
            Type::F128 => 128,
            Type::I8X16 => 128,
        }
    }

    /// The width of a value of this type, in bits.
    pub fn bits(self) -> (r: u32)
        ensures
            r == self.spec_bits(),
    {
        match self {
            Type::I8 => 8,
            Type::I16 => 16,
            Type::I32 => 32,
            Type::I64 => 64,
            Type::I128 => 128,
            Type::F16 => 16,
            Type::F32 => 32,
            Type::F64 => 64,
            Type::F128 => 128,
            Type::I8X16 => 128,
        }
    }
}

/// An ABI shape or IR construct this backend does not implement.  Carried
/// inside [`CodegenError::Unsupported`] so the caller can identify the
/// offending construct.
#[derive(Clone, Copy, Debug, PartialEq, Eq, Structural)]
pub enum UnsupportedConstruct {
    /// A struct passed by aggregate copy; the ABI requires an explicit
    /// pointer argument instead.
    StructArgument,
    /// More return values than return registers, with the implicit
    /// return-area fallback disabled by configuration.
    TooManyReturnValues,
    /// A calling convention this backend does not implement.
    CallingConvention,
    /// A value type no register class of this target can hold.
    ValueType(Type),
}

/// An error surfaced by the code-generation engine.  Every failure is
/// explicit: the engine never substitutes a best-effort wrong result.
#[derive(Clone, Copy, Debug, PartialEq, Eq, Structural)]
pub enum CodegenError {
    /// A construct the backend does not support (recoverable at the
    /// driver level: only the offending function fails to compile).
    Unsupported(UnsupportedConstruct),
    /// An implementation limit (such as the bound on stack-argument area
    /// size) was exceeded.
    ImplLimitExceeded,
    /// A branch displacement exceeds the architecture's addressable range
    /// and no longer-reach sequence exists for that instruction form.
    EncodingRangeExceeded,
}

impl CodegenError {
    /// A short diagnostic description of the error.
    pub fn message(&self) -> (r: &'static str)
        ensures
            self is Unsupported ==> r@ == "unsupported construct"@,
            self is ImplLimitExceeded ==> r@ == "implementation limit exceeded"@,
            self is EncodingRangeExceeded ==> r@ == "encoding range exceeded"@,
    {
        match self {
            CodegenError::Unsupported(_) => "unsupported construct",
            CodegenError::ImplLimitExceeded => "implementation limit exceeded",
            CodegenError::EncodingRangeExceeded => "encoding range exceeded",
        }
    }
}

/// The result type of the code-generation engine.
pub type CodegenResult<T> = Result<T, CodegenError>;

/// The register classes and per-register types used to pass one value of
/// type `ty`: scalar integers up to 64 bits take one integer register,
/// 128-bit integers a pair of 64-bit integer registers, scalar floats up
/// to 64 bits one float register, and 128-bit vectors one vector register.
/// `F128` is not representable on this target.
pub open spec fn spec_rc_for_type(ty: Type) -> Option<Seq<(RegClass, Type)>> {
    match ty {
        Type::I8 => Some(seq![(RegClass::Int, Type::I8)]),
        Type::I16 => Some(seq![(RegClass::Int, Type::I16)]),
        Type::I32 => Some(seq![(RegClass::Int, Type::I32)]),
        Type::I64 => Some(seq![(RegClass::Int, Type::I64)]),
        Type::I128 => Some(seq![(RegClass::Int, Type::I64), (RegClass::Int, Type::I64)]),
        Type::F16 => Some(seq![(RegClass::Float, Type::F16)]),
        Type::F32 => Some(seq![(RegClass::Float, Type::F32)]),
        Type::F64 => Some(seq![(RegClass::Float, Type::F64)]),
        Type::F128 => None,
        Type::I8X16 => Some(seq![(RegClass::Vector, Type::I8X16)]),
    }
}

/// The register classes and per-register types used to pass one value of
/// type `ty` (see [`spec_rc_for_type`]); an unsupported-construct error for
/// a type no register class of this target can hold.
pub fn rc_for_type(ty: Type) -> (r: CodegenResult<Vec<(RegClass, Type)>>)
    ensures
        match r {
            Ok(pairs) => spec_rc_for_type(ty) == Some(pairs@),
            Err(e) => spec_rc_for_type(ty) is None && e == CodegenError::Unsupported(
                UnsupportedConstruct::ValueType(ty),
            ),
        },
{
    match ty {
        Type::I8 => Ok(vec![(RegClass::Int, Type::I8)]),
        Type::I16 => Ok(vec![(RegClass::Int, Type::I16)]),
        Type::I32 => Ok(vec![(RegClass::Int, Type::I32)]),
        Type::I64 => Ok(vec![(RegClass::Int, Type::I64)]),
        Type::I128 => Ok(vec![(RegClass::Int, Type::I64), (RegClass::Int, Type::I64)]),
        Type::F16 => Ok(vec![(RegClass::Float, Type::F16)]),
        Type::F32 => Ok(vec![(RegClass::Float, Type::F32)]),
        Type::F64 => Ok(vec![(RegClass::Float, Type::F64)]),
        Type::F128 => Err(CodegenError::Unsupported(UnsupportedConstruct::ValueType(ty))),
        Type::I8X16 => Ok(vec![(RegClass::Vector, Type::I8X16)]),
    }
}

/// The widest natural type of a register class, used when a generic
/// temporary of that class is needed.
pub fn canonical_type_for_rc(rc: RegClass) -> (r: Type)
    ensures
        rc == RegClass::Int ==> r == Type::I64,
        rc == RegClass::Float ==> r == Type::F64,
        rc == RegClass::Vector ==> r == Type::I8X16,
{
    match rc {
        RegClass::Int => Type::I64,
        RegClass::Float => Type::F64,
        RegClass::Vector => Type::I8X16,
    }
}

} // verus!
