//! Label references and binary patching for power64 emission: the branch
//! forms, their displacement ranges, the in-place patch of an encoded
//! branch once its target's offset is known, and the longer-reach veneer
//! used when a conditional branch's range is exceeded.

use vstd::prelude::*;

verus! {

/// Instruction words are four bytes, and every branch target is aligned
/// to this boundary.
pub const LABEL_ALIGN: u32 = 4;

/// The forms a label reference can take, differing in encodable
/// displacement range, patched field, and veneer support.
#[derive(Clone, Copy, Debug, PartialEq, Eq, Structural)]
pub enum LabelUse {
    /// A conditional-branch word: a 14-bit signed word displacement held
    /// in the low 16 bits of the instruction.  Out-of-range uses can be
    /// repaired with a veneer.
    Branch16,
    /// A jump word: a 24-bit signed word displacement held in the low 24
    /// bits of the instruction.  No longer-reach form exists, so an
    /// out-of-range use is a fatal encoding error.
    Jump26,
}

/// `a + b` in 32-bit wrap-around arithmetic.
pub open spec fn spec_wrap_add(a: u32, b: u32) -> u32 {
    (a + b) as u32
}

/// The standard wrapping operations compute exactly the truncated sum
/// and difference.
pub proof fn lemma_wrap_ops(a: u32, b: u32)
    ensures
        vstd::wrapping::u32_specs::wrapping_sub(a, b) == spec_wrap_sub(a, b),
        vstd::wrapping::u32_specs::wrapping_add(a, b) == spec_wrap_add(a, b),
{
    assert((a - b + 0x1_0000_0000) as u32 == (a - b) as u32) by (bit_vector);
    assert((a + b - 0x1_0000_0000) as u32 == (a + b) as u32) by (bit_vector);
}

/// `a - b` in 32-bit wrap-around arithmetic.
pub open spec fn spec_wrap_sub(a: u32, b: u32) -> u32 {
    (a - b) as u32
}

/// The low 16 bits of a word, sign-extended to 32 bits.
pub open spec fn spec_sign_extend16(w: u32) -> u32 {
    if w & 0x8000 != 0 {
        (w & 0xFFFF) | 0xFFFF_0000
    } else {
        w & 0xFFFF
    }
}

/// The low 24 bits of a word, sign-extended to 32 bits.
pub open spec fn spec_sign_extend24(w: u32) -> u32 {
    if w & 0x80_0000 != 0 {
        (w & 0xFF_FFFF) | 0xFF00_0000
    } else {
        w & 0xFF_FFFF
    }
}

impl LabelUse {
    /// The largest forward displacement this form can encode.
    pub open spec fn spec_max_pos_range(self) -> u32 {
        match self {
            LabelUse::Branch16 => 0x7FFC,
            LabelUse::Jump26 => 0x1FF_FFFC,
        }
    }

    /// The largest backward displacement this form can encode.
    pub open spec fn spec_max_neg_range(self) -> u32 {
        match self {
            LabelUse::Branch16 => 0x8000,
            LabelUse::Jump26 => 0x200_0000,
        }
    }

    /// The largest forward displacement this form can encode.
    pub fn max_pos_range(self) -> (r: u32)
        ensures
            r == self.spec_max_pos_range(),
    {
        match self {
            LabelUse::Branch16 => 0x7FFC,
            LabelUse::Jump26 => 0x1FF_FFFC,
        }
    }

    /// The largest backward displacement this form can encode.
    pub fn max_neg_range(self) -> (r: u32)
        ensures
            r == self.spec_max_neg_range(),
    {
        match self {
            LabelUse::Branch16 => 0x8000,
            LabelUse::Jump26 => 0x200_0000,
        }
    }

    /// The bytes the patch rewrites: the whole instruction word.
    pub fn patch_size(self) -> (r: u32)
        ensures
            r == 4,
    {
        4
    }

    /// Whether an out-of-range use of this form can be repaired with a
    /// longer-reach veneer.
    pub fn supports_veneer(self) -> (r: bool)
        ensures
            r == (self is Branch16),
    {
        matches!(self, LabelUse::Branch16)
    }

    /// The byte size of this form's veneer: one jump word.
    pub fn veneer_size(self) -> (r: u32)
        ensures
            r == 4,
    {
        4
    }

    /// The largest veneer any form can need.
    pub fn worst_case_veneer_size() -> (r: u32)
        ensures
            r == 4,
    {
        4
    }

    /// Whether the displacement from `use_offset` to `label_offset` fits
    /// this form's encodable range.
    pub open spec fn spec_in_range(self, use_offset: u32, label_offset: u32) -> bool {
        let d = spec_wrap_sub(label_offset, use_offset);
        d <= self.spec_max_pos_range() || d >= spec_wrap_sub(0, self.spec_max_neg_range())
    }

    /// Whether the displacement from `use_offset` to `label_offset` fits
    /// this form's encodable range.
    pub fn in_range(self, use_offset: u32, label_offset: u32) -> (r: bool)
        ensures
            r == self.spec_in_range(use_offset, label_offset),
    {
        proof {
            lemma_wrap_ops(label_offset, use_offset);
            lemma_wrap_ops(0, self.spec_max_neg_range());
        }
        let d = label_offset.wrapping_sub(use_offset);
        d <= self.max_pos_range() || d >= 0u32.wrapping_sub(self.max_neg_range())
    }

    /// The instruction word after its displacement field is patched with
    /// word displacement `disp >> 2`.
    pub open spec fn spec_patched_word(self, word: u32, disp: u32) -> u32 {
        match self {
            LabelUse::Branch16 => (word & 0xFFFF_0000) | ((disp >> 2) & 0xFFFF),
            LabelUse::Jump26 => (word & 0xFF00_0000) | ((disp >> 2) & 0xFF_FFFF),
        }
    }

    /// The branch target a patched word transfers control to: the use
    /// site plus the sign-extended word displacement field.
    pub open spec fn spec_decoded_target(self, word: u32, use_offset: u32) -> u32 {
        match self {
            LabelUse::Branch16 => spec_wrap_add(use_offset, spec_sign_extend16(word) << 2),
            LabelUse::Jump26 => spec_wrap_add(use_offset, spec_sign_extend24(word) << 2),
        }
    }

    /// The branch target a patched word transfers control to.
    pub fn decoded_target(self, word: u32, use_offset: u32) -> (r: u32)
        ensures
            r == self.spec_decoded_target(word, use_offset),
    {
        match self {
            LabelUse::Branch16 => {
                let f = if word & 0x8000 != 0 {
                    (word & 0xFFFF) | 0xFFFF_0000
                } else {
                    word & 0xFFFF
                };
                proof {
                    lemma_wrap_ops(use_offset, f << 2);
                }
                use_offset.wrapping_add(f << 2)
            },
            LabelUse::Jump26 => {
                let f = if word & 0x80_0000 != 0 {
                    (word & 0xFF_FFFF) | 0xFF00_0000
                } else {
                    word & 0xFF_FFFF
                };
                proof {
                    lemma_wrap_ops(use_offset, f << 2);
                }
                use_offset.wrapping_add(f << 2)
            },
        }
    }
}

/// Label resolution soundness, direct case: patching an in-range,
/// aligned displacement into a branch word gives an encoding that decodes
/// back to exactly the intended target offset.
pub proof fn lemma_patch_decodes_back(
    kind: LabelUse,
    word: u32,
    use_offset: u32,
    label_offset: u32,
)
    requires
        use_offset % 4 == 0,
        label_offset % 4 == 0,
        kind.spec_in_range(use_offset, label_offset),
    ensures
        kind.spec_decoded_target(
            kind.spec_patched_word(word, spec_wrap_sub(label_offset, use_offset)),
            use_offset,
        ) == label_offset,
{
    let u = use_offset;
    let l = label_offset;
    let w = word;
    match kind {
        LabelUse::Branch16 => {
            assert({
                let d = (l - u) as u32;
                let pw = (w & 0xFFFF_0000) | ((d >> 2) & 0xFFFF);
                let f = if pw & 0x8000 != 0 {
                    (pw & 0xFFFF) | 0xFFFF_0000
                } else {
                    pw & 0xFFFF
                };
                (u + (f << 2)) as u32 == l
            }) by (bit_vector)
                requires
                    u % 4 == 0,
                    l % 4 == 0,
                    ((l - u) as u32) <= 0x7FFC || ((l - u) as u32) >= ((0 - 0x8000) as u32),
            ;
        },
        LabelUse::Jump26 => {
            assert({
                let d = (l - u) as u32;
                let pw = (w & 0xFF00_0000) | ((d >> 2) & 0xFF_FFFF);
                let f = if pw & 0x80_0000 != 0 {
                    (pw & 0xFF_FFFF) | 0xFF00_0000
                } else {
                    pw & 0xFF_FFFF
                };
                (u + (f << 2)) as u32 == l
            }) by (bit_vector)
                requires
                    u % 4 == 0,
                    l % 4 == 0,
                    ((l - u) as u32) <= 0x1FF_FFFC || ((l - u) as u32) >= ((0 - 0x200_0000)
                        as u32),
            ;
        },
    }
}

/// Label resolution soundness, veneer case: when an out-of-range
/// conditional branch is redirected through an in-range veneer jump, the
/// branch decodes to the veneer and the veneer decodes to the original
/// label, so the transfer chain ends at the same ultimate target.
pub proof fn lemma_veneer_preserves_target(
    branch_word: u32,
    veneer_word: u32,
    use_offset: u32,
    veneer_offset: u32,
    label_offset: u32,
)
    requires
        use_offset % 4 == 0,
        veneer_offset % 4 == 0,
        label_offset % 4 == 0,
        LabelUse::Branch16.spec_in_range(use_offset, veneer_offset),
        LabelUse::Jump26.spec_in_range(veneer_offset, label_offset),
    ensures
        ({
            let b = LabelUse::Branch16.spec_patched_word(
                branch_word,
                spec_wrap_sub(veneer_offset, use_offset),
            );
            let v = LabelUse::Jump26.spec_patched_word(
                veneer_word,
                spec_wrap_sub(label_offset, veneer_offset),
            );
            &&& LabelUse::Branch16.spec_decoded_target(b, use_offset) == veneer_offset
            &&& LabelUse::Jump26.spec_decoded_target(v, veneer_offset) == label_offset
        }),
{
    lemma_patch_decodes_back(LabelUse::Branch16, branch_word, use_offset, veneer_offset);
    lemma_patch_decodes_back(LabelUse::Jump26, veneer_word, veneer_offset, label_offset);
}

/// The word stored at byte offset `off`, little-endian.
pub open spec fn spec_word_at(bytes: Seq<u8>, off: int) -> u32
    recommends
        0 <= off,
        off + 4 <= bytes.len(),
{
    (bytes[off] as u32) | ((bytes[off + 1] as u32) << 8) | ((bytes[off + 2] as u32) << 16) | ((
    bytes[off + 3] as u32) << 24)
}

/// Read the word at byte offset `off`, little-endian.
pub fn read_word(buffer: &Vec<u8>, off: usize) -> (w: u32)
    requires
        off + 4 <= buffer@.len(),
    ensures
        w == spec_word_at(buffer@, off as int),
{
    let n = buffer.len();
    (buffer[off] as u32) | ((buffer[off + 1] as u32) << 8) | ((buffer[off + 2] as u32) << 16)
        | ((buffer[off + 3] as u32) << 24)
}

/// Overwrite the word at byte offset `off`, little-endian, leaving every
/// other byte as it was.
pub fn write_word(buffer: &mut Vec<u8>, off: usize, w: u32)
    requires
        off + 4 <= old(buffer)@.len(),
    ensures
        final(buffer)@.len() == old(buffer)@.len(),
        forall|a: int|
            0 <= a < old(buffer)@.len() && !(off <= a < off + 4) ==> final(buffer)@[a]
                == old(buffer)@[a],
        spec_word_at(final(buffer)@, off as int) == w,
{
    let n = buffer.len();
    buffer[off] = (w & 0xFF) as u8;
    buffer[off + 1] = ((w >> 8) & 0xFF) as u8;
    buffer[off + 2] = ((w >> 16) & 0xFF) as u8;
    buffer[off + 3] = ((w >> 24) & 0xFF) as u8;
    proof {
        let b0 = (w & 0xFF) as u8;
        let b1 = ((w >> 8) & 0xFF) as u8;
        let b2 = ((w >> 16) & 0xFF) as u8;
        let b3 = ((w >> 24) & 0xFF) as u8;
        assert((b0 as u32) | ((b1 as u32) << 8) | ((b2 as u32) << 16) | ((b3 as u32) << 24)
            == w) by (bit_vector)
            requires
                b0 == (w & 0xFF) as u8,
                b1 == ((w >> 8) & 0xFF) as u8,
                b2 == ((w >> 16) & 0xFF) as u8,
                b3 == ((w >> 24) & 0xFF) as u8,
        ;
    }
}

/// The instruction word a veneer starts from: the jump opcode with an
/// all-zero displacement field, to be patched toward the final target.
pub const VENEER_TEMPLATE_WORD: u32 = 0x1800_0000;

impl LabelUse {
    /// Patch the encoded branch at `use_offset` so it transfers control
    /// to `label_offset`: the displacement field is rewritten in place,
    /// and the patched word decodes back to exactly the intended target.
    pub fn patch(self, buffer: &mut Vec<u8>, use_offset: u32, label_offset: u32)
        requires
            use_offset % 4 == 0,
            label_offset % 4 == 0,
            use_offset + 4 <= old(buffer)@.len(),
            self.spec_in_range(use_offset, label_offset),
        ensures
            final(buffer)@.len() == old(buffer)@.len(),
            forall|a: int|
                0 <= a < old(buffer)@.len() && !(use_offset <= a < use_offset + 4)
                    ==> final(buffer)@[a] == old(buffer)@[a],
            spec_word_at(final(buffer)@, use_offset as int) == self.spec_patched_word(
                spec_word_at(old(buffer)@, use_offset as int),
                spec_wrap_sub(label_offset, use_offset),
            ),
            self.spec_decoded_target(
                spec_word_at(final(buffer)@, use_offset as int),
                use_offset,
            ) == label_offset,
    {
        proof {
            lemma_wrap_ops(label_offset, use_offset);
        }
        let word = read_word(buffer, use_offset as usize);
        let d = label_offset.wrapping_sub(use_offset);
        let patched = match self {
            LabelUse::Branch16 => (word & 0xFFFF_0000) | ((d >> 2) & 0xFFFF),
            LabelUse::Jump26 => (word & 0xFF00_0000) | ((d >> 2) & 0xFF_FFFF),
        };
        write_word(buffer, use_offset as usize, patched);
        proof {
            lemma_patch_decodes_back(self, word, use_offset, label_offset);
        }
    }

    /// Append this form's longer-reach veneer at the end of the buffer:
    /// one jump word, to be patched toward the final target as a
    /// [`LabelUse::Jump26`] use at the veneer's own offset.
    pub fn generate_veneer(self, buffer: &mut Vec<u8>, veneer_offset: u32) -> (r: (u32,
        LabelUse))
        requires
            self is Branch16,
            veneer_offset == old(buffer)@.len(),
            veneer_offset % 4 == 0,
            veneer_offset + 4 <= u32::MAX,
        ensures
            final(buffer)@.len() == old(buffer)@.len() + 4,
            forall|a: int|
                0 <= a < old(buffer)@.len() ==> final(buffer)@[a] == old(buffer)@[a],
            spec_word_at(final(buffer)@, veneer_offset as int) == VENEER_TEMPLATE_WORD,
            r == (veneer_offset, LabelUse::Jump26),
    {
        let ghost before = buffer@;
        buffer.push(0);
        buffer.push(0);
        buffer.push(0);
        buffer.push(0x18);
        proof {
            assert(buffer@[veneer_offset as int] == 0u8);
            assert(buffer@[veneer_offset as int + 1] == 0u8);
            assert(buffer@[veneer_offset as int + 2] == 0u8);
            assert(buffer@[veneer_offset as int + 3] == 0x18u8);
            assert((0u8 as u32) | ((0u8 as u32) << 8) | ((0u8 as u32) << 16) | ((0x18u8
                as u32) << 24) == 0x1800_0000) by (bit_vector);
        }
        (veneer_offset, LabelUse::Jump26)
    }
}

/// The numeric code of an ALU operation in the encoding.
pub open spec fn spec_alu_code(op: crate::inst::AluOp) -> u32 {
    match op {
        crate::inst::AluOp::Add => 0,
        crate::inst::AluOp::Sub => 1,
        crate::inst::AluOp::And => 2,
        crate::inst::AluOp::Or => 3,
        crate::inst::AluOp::Xor => 4,
    }
}

/// The numeric code of an ALU operation in the encoding.
pub fn alu_code(op: crate::inst::AluOp) -> (r: u32)
    ensures
        r == spec_alu_code(op),
{
    match op {
        crate::inst::AluOp::Add => 0,
        crate::inst::AluOp::Sub => 1,
        crate::inst::AluOp::And => 2,
        crate::inst::AluOp::Or => 3,
        crate::inst::AluOp::Xor => 4,
    }
}

/// The encoding field of a physical register: its index in the
/// allocator's unified index space (fits in eight bits).
pub open spec fn spec_reg_field(r: crate::regs::Reg) -> u32 {
    r.index() as u32
}

/// The encoding field of a physical register.
pub fn reg_field(r: crate::regs::Reg) -> (f: u32)
    requires
        r is Phys,
        r.wf(),
    ensures
        f == spec_reg_field(r),
        f < 256,
{
    match r {
        crate::regs::Reg::Phys { class, enc } => {
            let c: u32 = match class {
                crate::regs::RegClass::Int => 0,
                crate::regs::RegClass::Float => 1,
                crate::regs::RegClass::Vector => 2,
            };
            c * 64 + (enc as u32)
        },
        crate::regs::Reg::Virt { .. } => 0,
    }
}

/// The encoded words of one instruction.  Pseudo-instructions (the
/// argument/return markers, dummy uses and the zero-size no-op) encode to
/// nothing; branch words carry an all-zero displacement field until label
/// resolution patches them.
pub open spec fn spec_encode_words(i: crate::inst::Inst) -> Seq<u32> {
    match i {
        crate::inst::Inst::Nop0 => Seq::empty(),
        crate::inst::Inst::Nop4 => seq![0x0100_0000u32],
        crate::inst::Inst::AluRRR { op, rd, rs1, rs2 } => seq![
            0x0200_0000u32 | (spec_alu_code(op) << 16) | (spec_reg_field(rd) << 8)
                | spec_reg_field(rs1),
            spec_reg_field(rs2),
        ],
        crate::inst::Inst::AluRRImm { op, rd, rs, imm } => seq![
            0x0300_0000u32 | (spec_alu_code(op) << 16) | (spec_reg_field(rd) << 8)
                | spec_reg_field(rs),
            imm as u32,
        ],
        crate::inst::Inst::LoadConst { rd, imm } => seq![
            0x0400_0000u32 | (spec_reg_field(rd) << 8),
            imm as u32,
            (imm >> 32) as u32,
        ],
        crate::inst::Inst::Mov { rd, rm, .. } => seq![
            0x0500_0000u32 | (spec_reg_field(rd) << 8) | spec_reg_field(rm),
        ],
        crate::inst::Inst::Load { rd, base, offset, .. } => seq![
            0x0600_0000u32 | (spec_reg_field(rd) << 8) | spec_reg_field(base),
            offset as u32,
        ],
        crate::inst::Inst::Store { rs, base, offset, .. } => seq![
            0x0700_0000u32 | (spec_reg_field(rs) << 8) | spec_reg_field(base),
            offset as u32,
        ],
        crate::inst::Inst::AdjustSp { amount } => seq![0x0800_0000u32, amount as u32],
        crate::inst::Inst::Jump { .. } => seq![VENEER_TEMPLATE_WORD],
        crate::inst::Inst::CondBr { cond, .. } => seq![
            0x1900_0000u32 | (spec_reg_field(cond) << 16),
        ],
        crate::inst::Inst::Call { callee, .. } => seq![0x0900_0000u32, callee],
        crate::inst::Inst::ReturnCall { callee, .. } => seq![0x0A00_0000u32, callee],
        crate::inst::Inst::Ret => seq![0x0B00_0000u32],
        crate::inst::Inst::Trap => seq![0u32],
        crate::inst::Inst::StackProbe { offset } => seq![0x0C00_0000u32, offset as u32],
        _ => Seq::empty(),
    }
}

/// Whether every register operand of an instruction is a well-formed
/// physical register, as emission requires after allocation.
pub open spec fn spec_all_phys(i: crate::inst::Inst) -> bool {
    forall|k: int|
        0 <= k < crate::inst::spec_operands(i).len() ==> (
        #[trigger] crate::inst::spec_operands(i)[k]).reg is Phys && crate::inst::spec_operands(
            i,
        )[k].reg.wf()
}

/// Append one word to the code buffer, little-endian.
pub fn put_word(sink: &mut Vec<u8>, w: u32)
    ensures
        final(sink)@.len() == old(sink)@.len() + 4,
        forall|a: int| 0 <= a < old(sink)@.len() ==> final(sink)@[a] == old(sink)@[a],
        spec_word_at(final(sink)@, old(sink)@.len() as int) == w,
{
    sink.push((w & 0xFF) as u8);
    sink.push(((w >> 8) & 0xFF) as u8);
    sink.push(((w >> 16) & 0xFF) as u8);
    sink.push(((w >> 24) & 0xFF) as u8);
    proof {
        let b0 = (w & 0xFF) as u8;
        let b1 = ((w >> 8) & 0xFF) as u8;
        let b2 = ((w >> 16) & 0xFF) as u8;
        let b3 = ((w >> 24) & 0xFF) as u8;
        assert((b0 as u32) | ((b1 as u32) << 8) | ((b2 as u32) << 16) | ((b3 as u32) << 24)
            == w) by (bit_vector)
            requires
                b0 == (w & 0xFF) as u8,
                b1 == ((w >> 8) & 0xFF) as u8,
                b2 == ((w >> 16) & 0xFF) as u8,
                b3 == ((w >> 24) & 0xFF) as u8,
        ;
    }
}

/// Encode one instruction into the code buffer: exactly the words of
/// [`spec_encode_words`], appended little-endian in order.
pub fn emit_inst(i: &crate::inst::Inst, sink: &mut Vec<u8>)
    requires
        spec_all_phys(*i),
    ensures
        final(sink)@.len() == old(sink)@.len() + 4 * spec_encode_words(*i).len(),
        forall|a: int| 0 <= a < old(sink)@.len() ==> final(sink)@[a] == old(sink)@[a],
        forall|j: int|
            0 <= j < spec_encode_words(*i).len() ==> spec_word_at(
                final(sink)@,
                old(sink)@.len() + 4 * j,
            ) == spec_encode_words(*i)[j],
{
    match i {
        crate::inst::Inst::Nop0 => {},
        crate::inst::Inst::Nop4 => {
            put_word(sink, 0x0100_0000);
        },
        crate::inst::Inst::AluRRR { op, rd, rs1, rs2 } => {
            proof {
                assert(crate::inst::spec_operands(*i)[0].reg == *rs1);
                assert(crate::inst::spec_operands(*i)[1].reg == *rs2);
                assert(crate::inst::spec_operands(*i)[2].reg == *rd);
            }
            let w0 = 0x0200_0000 | (alu_code(*op) << 16) | (reg_field(*rd) << 8) | reg_field(
                *rs1);
            put_word(sink, w0);
            put_word(sink, reg_field(*rs2));
        },
        crate::inst::Inst::AluRRImm { op, rd, rs, imm } => {
            proof {
                assert(crate::inst::spec_operands(*i)[0].reg == *rs);
                assert(crate::inst::spec_operands(*i)[1].reg == *rd);
            }
            let w0 = 0x0300_0000 | (alu_code(*op) << 16) | (reg_field(*rd) << 8) | reg_field(
                *rs);
            put_word(sink, w0);
            put_word(sink, *imm as u32);
        },
        crate::inst::Inst::LoadConst { rd, imm } => {
            proof {
                assert(crate::inst::spec_operands(*i)[0].reg == *rd);
            }
            put_word(sink, 0x0400_0000 | (reg_field(*rd) << 8));
            put_word(sink, *imm as u32);
            put_word(sink, (*imm >> 32) as u32);
        },
        crate::inst::Inst::Mov { rd, rm, .. } => {
            proof {
                assert(crate::inst::spec_operands(*i)[0].reg == *rm);
                assert(crate::inst::spec_operands(*i)[1].reg == *rd);
            }
            put_word(sink, 0x0500_0000 | (reg_field(*rd) << 8) | reg_field(*rm));
        },
        crate::inst::Inst::Load { rd, base, offset, .. } => {
            proof {
                assert(crate::inst::spec_operands(*i)[0].reg == *base);
                assert(crate::inst::spec_operands(*i)[1].reg == *rd);
            }
            put_word(sink, 0x0600_0000 | (reg_field(*rd) << 8) | reg_field(*base));
            put_word(sink, *offset as u32);
        },
        crate::inst::Inst::Store { rs, base, offset, .. } => {
            proof {
                assert(crate::inst::spec_operands(*i)[0].reg == *rs);
                assert(crate::inst::spec_operands(*i)[1].reg == *base);
            }
            put_word(sink, 0x0700_0000 | (reg_field(*rs) << 8) | reg_field(*base));
            put_word(sink, *offset as u32);
        },
        crate::inst::Inst::AdjustSp { amount } => {
            put_word(sink, 0x0800_0000);
            put_word(sink, *amount as u32);
        },
        crate::inst::Inst::Jump { .. } => {
            put_word(sink, VENEER_TEMPLATE_WORD);
        },
        crate::inst::Inst::CondBr { cond, .. } => {
            proof {
                assert(crate::inst::spec_operands(*i)[0].reg == *cond);
            }
            put_word(sink, 0x1900_0000 | (reg_field(*cond) << 16));
        },
        crate::inst::Inst::Call { callee, .. } => {
            put_word(sink, 0x0900_0000);
            put_word(sink, *callee);
        },
        crate::inst::Inst::ReturnCall { callee, .. } => {
            put_word(sink, 0x0A00_0000);
            put_word(sink, *callee);
        },
        crate::inst::Inst::Ret => {
            put_word(sink, 0x0B00_0000);
        },
        crate::inst::Inst::Trap => {
            put_word(sink, 0);
        },
        crate::inst::Inst::StackProbe { offset } => {
            put_word(sink, 0x0C00_0000);
            put_word(sink, *offset as u32);
        },
        _ => {},
    }
}

#[verifier::external_type_specification]
#[verifier::external_body]
pub struct ExControlPlane(cranelift_control::ControlPlane);

/// The per-function configuration the emitter reads.
pub struct EmitInfo {
    pub shared_flag: crate::abi::Flags,
    pub isa_flags: crate::abi::PowerFlags,
}

impl EmitInfo {
    /// Package the shared and target-specific configuration for
    /// emission.
    pub fn new(shared_flag: crate::abi::Flags, isa_flags: crate::abi::PowerFlags) -> (r:
        EmitInfo)
        ensures
            r.shared_flag == shared_flag,
            r.isa_flags == isa_flags,
    {
        EmitInfo { shared_flag, isa_flags }
    }
}

/// State carried between emissions of a sequence of instructions: the
/// finalized frame layout and the chaos-testing control plane threaded
/// through from the compilation driver.
pub struct EmitState {
    pub frame_layout: crate::frame::FrameLayout,
    pub ctrl_plane: cranelift_control::ControlPlane,
}

impl EmitState {
    /// Start emission state from the callee's finalized frame layout,
    /// taking ownership of the control plane.
    pub fn new(
        frame_layout: crate::frame::FrameLayout,
        ctrl_plane: cranelift_control::ControlPlane,
    ) -> (r: EmitState)
        ensures
            r.frame_layout == frame_layout,
            r.ctrl_plane == ctrl_plane,
    {
        EmitState { frame_layout, ctrl_plane }
    }

    /// The finalized frame layout of the function being emitted.
    pub fn frame_layout(&self) -> (r: &crate::frame::FrameLayout)
        ensures
            *r == self.frame_layout,
    {
        &self.frame_layout
    }

    /// Hand the control plane back when emission is done.
    pub fn take_ctrl_plane(self) -> (r: cranelift_control::ControlPlane)
        ensures
            r == self.ctrl_plane,
    {
        self.ctrl_plane
    }
}

/// The mnemonic of an instruction, for diagnostic text rendering.
pub open spec fn spec_mnemonic(i: crate::inst::Inst) -> Seq<char> {
    match i {
        crate::inst::Inst::Nop0 => "nop0"@,
        crate::inst::Inst::Nop4 => "nop"@,
        crate::inst::Inst::AluRRR { op, .. } => spec_alu_mnemonic(op),
        crate::inst::Inst::AluRRImm { op, .. } => spec_alu_imm_mnemonic(op),
        crate::inst::Inst::LoadConst { .. } => "li"@,
        crate::inst::Inst::Mov { .. } => "mv"@,
        crate::inst::Inst::Load { .. } => "ld"@,
        crate::inst::Inst::Store { .. } => "sd"@,
        crate::inst::Inst::AdjustSp { .. } => "adjust_sp"@,
        crate::inst::Inst::Jump { .. } => "j"@,
        crate::inst::Inst::CondBr { .. } => "cond_br"@,
        crate::inst::Inst::Call { .. } => "call"@,
        crate::inst::Inst::ReturnCall { .. } => "return_call"@,
        crate::inst::Inst::Ret => "ret"@,
        crate::inst::Inst::Trap => "trap"@,
        crate::inst::Inst::Args { .. } => "args"@,
        crate::inst::Inst::Rets { .. } => "rets"@,
        crate::inst::Inst::DummyUse { .. } => "dummy_use"@,
        crate::inst::Inst::StackProbe { .. } => "stack_probe"@,
    }
}

/// The mnemonic of a register-form ALU operation.
pub open spec fn spec_alu_mnemonic(op: crate::inst::AluOp) -> Seq<char> {
    match op {
        crate::inst::AluOp::Add => "add"@,
        crate::inst::AluOp::Sub => "sub"@,
        crate::inst::AluOp::And => "and"@,
        crate::inst::AluOp::Or => "or"@,
        crate::inst::AluOp::Xor => "xor"@,
    }
}

/// The mnemonic of an immediate-form ALU operation.
pub open spec fn spec_alu_imm_mnemonic(op: crate::inst::AluOp) -> Seq<char> {
    match op {
        crate::inst::AluOp::Add => "addi"@,
        crate::inst::AluOp::Sub => "subi"@,
        crate::inst::AluOp::And => "andi"@,
        crate::inst::AluOp::Or => "ori"@,
        crate::inst::AluOp::Xor => "xori"@,
    }
}

/// The mnemonic of a register-form ALU operation.
fn alu_mnemonic(op: crate::inst::AluOp) -> (r: &'static str)
    ensures
        r@ == spec_alu_mnemonic(op),
{
    match op {
        crate::inst::AluOp::Add => "add",
        crate::inst::AluOp::Sub => "sub",
        crate::inst::AluOp::And => "and",
        crate::inst::AluOp::Or => "or",
        crate::inst::AluOp::Xor => "xor",
    }
}

/// The mnemonic of an immediate-form ALU operation.
fn alu_imm_mnemonic(op: crate::inst::AluOp) -> (r: &'static str)
    ensures
        r@ == spec_alu_imm_mnemonic(op),
{
    match op {
        crate::inst::AluOp::Add => "addi",
        crate::inst::AluOp::Sub => "subi",
        crate::inst::AluOp::And => "andi",
        crate::inst::AluOp::Or => "ori",
        crate::inst::AluOp::Xor => "xori",
    }
}

/// The mnemonic of an instruction, for diagnostic text rendering.
fn mnemonic(i: &crate::inst::Inst) -> (r: &'static str)
    ensures
        r@ == spec_mnemonic(*i),
{
    match i {
        crate::inst::Inst::Nop0 => "nop0",
        crate::inst::Inst::Nop4 => "nop",
        crate::inst::Inst::AluRRR { op, .. } => alu_mnemonic(*op),
        crate::inst::Inst::AluRRImm { op, .. } => alu_imm_mnemonic(*op),
        crate::inst::Inst::LoadConst { .. } => "li",
        crate::inst::Inst::Mov { .. } => "mv",
        crate::inst::Inst::Load { .. } => "ld",
        crate::inst::Inst::Store { .. } => "sd",
        crate::inst::Inst::AdjustSp { .. } => "adjust_sp",
        crate::inst::Inst::Jump { .. } => "j",
        crate::inst::Inst::CondBr { .. } => "cond_br",
        crate::inst::Inst::Call { .. } => "call",
        crate::inst::Inst::ReturnCall { .. } => "return_call",
        crate::inst::Inst::Ret => "ret",
        crate::inst::Inst::Trap => "trap",
        crate::inst::Inst::Args { .. } => "args",
        crate::inst::Inst::Rets { .. } => "rets",
        crate::inst::Inst::DummyUse { .. } => "dummy_use",
        crate::inst::Inst::StackProbe { .. } => "stack_probe",
    }
}

impl crate::inst::Inst {
    /// Render this instruction's mnemonic for diagnostics.  The text is
    /// for debugging, not a stable machine-readable format.
    pub fn print_with_state(&self, _state: &mut EmitState) -> (r: String)
        ensures
            r@ == spec_mnemonic(*self),
    {
        let m = mnemonic(self);
        m.to_string()
    }

    /// Render this instruction for diagnostics (see
    /// [`Inst::print_with_state`]).
    pub fn pretty_print_inst(&self, state: &mut EmitState) -> (r: String)
        ensures
            r@ == spec_mnemonic(*self),
    {
        self.print_with_state(state)
    }
}

/// Resolve one recorded label use once the label's final offset is known:
/// patch the displacement in place when it is within the form's range;
/// when it is not and the form supports one, append a veneer at the end
/// of the buffer and redirect the branch through it; otherwise fail with
/// the range error, leaving the buffer untouched.  On success the use
/// site transfers control to the label, directly or through the veneer.
pub fn resolve_fixup(
    kind: LabelUse,
    buffer: &mut Vec<u8>,
    use_offset: u32,
    label_offset: u32,
) -> (r: Result<(), crate::types::CodegenError>)
    requires
        use_offset % 4 == 0,
        label_offset % 4 == 0,
        use_offset + 4 <= old(buffer)@.len(),
        old(buffer)@.len() % 4 == 0,
        old(buffer)@.len() + 4 <= u32::MAX,
    ensures
        match r {
            Ok(_) => {
                let direct = kind.spec_in_range(use_offset, label_offset);
                &&& (r matches Ok(_)) == (direct || (kind is Branch16 && kind.spec_in_range(
                    use_offset,
                    old(buffer)@.len() as u32,
                ) && LabelUse::Jump26.spec_in_range(old(buffer)@.len() as u32, label_offset)))
                &&& (direct ==> {
                    &&& final(buffer)@.len() == old(buffer)@.len()
                    &&& kind.spec_decoded_target(
                        spec_word_at(final(buffer)@, use_offset as int),
                        use_offset,
                    ) == label_offset
                })
                &&& (!direct ==> {
                    let v = old(buffer)@.len() as u32;
                    &&& final(buffer)@.len() == old(buffer)@.len() + 4
                    &&& kind.spec_decoded_target(
                        spec_word_at(final(buffer)@, use_offset as int),
                        use_offset,
                    ) == v
                    &&& LabelUse::Jump26.spec_decoded_target(
                        spec_word_at(final(buffer)@, v as int),
                        v,
                    ) == label_offset
                })
            },
            Err(e) => {
                &&& e == crate::types::CodegenError::EncodingRangeExceeded
                &&& final(buffer)@ == old(buffer)@
                &&& !kind.spec_in_range(use_offset, label_offset)
            },
        },
{
    if kind.in_range(use_offset, label_offset) {
        kind.patch(buffer, use_offset, label_offset);
        return Ok(());
    }
    if !kind.supports_veneer() {
        return Err(crate::types::CodegenError::EncodingRangeExceeded);
    }
    let veneer_offset = buffer.len() as u32;
    if !kind.in_range(use_offset, veneer_offset) || !LabelUse::Jump26.in_range(
        veneer_offset,
        label_offset,
    ) {
        return Err(crate::types::CodegenError::EncodingRangeExceeded);
    }
    let ghost before = buffer@;
    let (v, veneer_kind) = kind.generate_veneer(buffer, veneer_offset);
    kind.patch(buffer, use_offset, v);
    proof {
        assert(spec_word_at(buffer@, use_offset as int) == kind.spec_patched_word(
            spec_word_at(before, use_offset as int),
            spec_wrap_sub(v, use_offset),
        ));
    }
    let ghost mid = buffer@;
    veneer_kind.patch(buffer, v, label_offset);
    proof {
        assert(spec_word_at(buffer@, use_offset as int) == spec_word_at(
            mid,
            use_offset as int,
        ));
        lemma_patch_decodes_back(kind, spec_word_at(before, use_offset as int), use_offset, v);
    }
    Ok(())
}

} // verus!
