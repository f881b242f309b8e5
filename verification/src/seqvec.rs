//! The instruction-sequence container the code-generation phases hand
//! around: a small-vector that stores short sequences (prologues,
//! epilogues, call sequences) inline, with the contracts its callers rely
//! on.

use vstd::prelude::*;
use crate::inst::Inst;

verus! {

/// An instruction sequence, stored inline up to sixteen entries.  The
/// small-vector sits in an opaque field; everything stated about the
/// container goes through [`inst_vec_view`] and the accessors below.
#[verifier::external_body]
pub struct InstVec {
    inner: smallvec::SmallVec<[Inst; 16]>,
}

/// The instructions an [`InstVec`] holds, in order.
pub uninterp spec fn inst_vec_view(v: InstVec) -> Seq<Inst>;

/// Relies on smallvec::SmallVec::new: a freshly created vector is empty.
#[verifier::external_body]
pub fn inst_vec_new() -> (v: InstVec)
    ensures
        inst_vec_view(v) == Seq::<Inst>::empty(),
{
    InstVec { inner: smallvec::SmallVec::new() }
}

/// Relies on smallvec::SmallVec::push: appends the value at the end,
/// keeping everything already stored.
#[verifier::external_body]
pub fn inst_vec_push(v: &mut InstVec, inst: Inst)
    ensures
        inst_vec_view(*final(v)) == inst_vec_view(*old(v)).push(inst),
{
    v.inner.push(inst)
}

/// Relies on smallvec::SmallVec::len: the number of stored elements.
#[verifier::external_body]
pub fn inst_vec_len(v: &InstVec) -> (n: usize)
    ensures
        n == inst_vec_view(*v).len(),
{
    v.inner.len()
}

/// Relies on smallvec's Index impl (through its slice deref): element `i`
/// of the stored sequence.
#[verifier::external_body]
pub fn inst_vec_get(v: &InstVec, i: usize) -> (r: Inst)
    requires
        i < inst_vec_view(*v).len(),
    ensures
        r == inst_vec_view(*v)[i as int],
{
    v.inner[i].clone()
}

} // verus!
