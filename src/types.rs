//! The decoded instruction and the decoder from 32-bit words.
use crate::bits::{bits, field, sign_extend, signed};
use crate::opcodes::{lookup, RVFormat, RVOpcode};
use vstd::arithmetic::power2::{lemma2_to64, pow2};
use vstd::prelude::*;

verus! {

/// A decoded instruction word: one variant per encoding format, and one for a word whose
/// major opcode the registry does not know.
#[allow(inconsistent_fields)]
#[derive(Clone, Copy, Debug, PartialEq, Eq, Structural)]
pub enum RVType {
    /// Register-register instruction.
    R { opcode: RVOpcode, rd: u8, func3: u8, rs1: u8, rs2: u8, func7: u8 },
    /// Register-immediate instruction; `imm` is bits 31..20, sign-extended.
    I { opcode: RVOpcode, rd: u8, func3: u8, rs1: u8, imm: i32 },
    /// Store; `imm` is the 12-bit offset from bits 31..25 and 11..7, sign-extended.
    S { opcode: RVOpcode, func3: u8, rs1: u8, rs2: u8, imm: i32 },
    /// Conditional branch; `imm` is the 13-bit even offset, sign-extended.
    B { opcode: RVOpcode, func3: u8, rs1: u8, rs2: u8, imm: i32 },
    /// Upper immediate; `imm` holds bits 31..12 of the word with its low 12 bits zero.
    U { opcode: RVOpcode, rd: u8, imm: u32 },
    /// Jump; `imm` is the 21-bit even offset, sign-extended.
    J { opcode: RVOpcode, rd: u8, imm: i32 },
    /// A word whose major opcode has no entry in the registry, kept as it was.
    Unknown { word: u32 },
}

/// The I-format immediate: bits 31..20, sign-extended.
pub open spec fn imm_i(w: u32) -> int {
    signed(bits(w, 31, 20), 12)
}

/// The S-format immediate: bits 31..25 above bits 11..7, sign-extended from 12 bits.
pub open spec fn imm_s(w: u32) -> int {
    signed(bits(w, 31, 25) * 0x20 + bits(w, 11, 7), 12)
}

/// The B-format immediate: offset bit 12 from bit 31, bit 11 from bit 7, bits 10..5 from
/// bits 30..25 and bits 4..1 from bits 11..8, with bit 0 zero; sign-extended from 13 bits.
pub open spec fn imm_b(w: u32) -> int {
    let raw = bits(w, 31, 31) * 0x1000 + bits(w, 7, 7) * 0x800 + bits(w, 30, 25) * 0x20
        + bits(w, 11, 8) * 2;
    signed(raw, 13)
}

/// The U-format immediate: bits 31..12 in place, bits 11..0 zero.
pub open spec fn imm_u(w: u32) -> nat {
    bits(w, 31, 12) * 0x1000
}

/// The J-format immediate: offset bit 20 from bit 31, bits 19..12 in place, bit 11 from
/// bit 20 and bits 10..1 from bits 30..21, with bit 0 zero; sign-extended from 21 bits.
pub open spec fn imm_j(w: u32) -> int {
    let raw = bits(w, 31, 31) * 0x10_0000 + bits(w, 19, 12) * 0x1000 + bits(w, 20, 20) * 0x800
        + bits(w, 30, 21) * 2;
    signed(raw, 21)
}

/// The fields of `w` laid out in the format of `opcode`.
pub open spec fn decoded_as(opcode: RVOpcode, w: u32) -> RVType {
    let rd = bits(w, 11, 7) as u8;
    let func3 = bits(w, 14, 12) as u8;
    let rs1 = bits(w, 19, 15) as u8;
    let rs2 = bits(w, 24, 20) as u8;
    match opcode.format() {
        RVFormat::R => RVType::R { opcode, rd, func3, rs1, rs2, func7: bits(w, 31, 25) as u8 },
        RVFormat::I => RVType::I { opcode, rd, func3, rs1, imm: imm_i(w) as i32 },
        RVFormat::S => RVType::S { opcode, func3, rs1, rs2, imm: imm_s(w) as i32 },
        RVFormat::B => RVType::B { opcode, func3, rs1, rs2, imm: imm_b(w) as i32 },
        RVFormat::U => RVType::U { opcode, rd, imm: imm_u(w) as u32 },
        RVFormat::J => RVType::J { opcode, rd, imm: imm_j(w) as i32 },
    }
}

/// What the word `w` decodes to: its low 7 bits select the operation in the registry, and
/// that operation's format says where the other fields lie.
pub open spec fn decoded(w: u32) -> RVType {
    match lookup(bits(w, 6, 0)) {
        Some(opcode) => decoded_as(opcode, w),
        None => RVType::Unknown { word: w },
    }
}

impl RVType {
    /// Decodes one instruction word. Every word decodes: one whose major opcode is not in
    /// the registry gives `Unknown` with the word.
    pub fn decode(instr: u32) -> (r: RVType)
        ensures
            r == decoded(instr),
    {
        proof {
            lemma2_to64();
        }
        let code = field(instr, 6, 0);
        let opcode = match RVOpcode::from_bits(code as u8) {
            Some(opcode) => opcode,
            None => {
                return RVType::Unknown { word: instr };
            },
        };
        let rd = field(instr, 11, 7) as u8;
        let func3 = field(instr, 14, 12) as u8;
        let rs1 = field(instr, 19, 15) as u8;
        let rs2 = field(instr, 24, 20) as u8;
        let sign = field(instr, 31, 31);
        match opcode.format() {
            RVFormat::R => {
                let func7 = field(instr, 31, 25) as u8;
                RVType::R { opcode, rd, func3, rs1, rs2, func7 }
            },
            RVFormat::I => {
                let imm = sign_extend(field(instr, 31, 20), 12);
                RVType::I { opcode, rd, func3, rs1, imm }
            },
            RVFormat::S => {
                let raw = field(instr, 31, 25) * 0x20 + field(instr, 11, 7);
                let imm = sign_extend(raw, 12);
                RVType::S { opcode, func3, rs1, rs2, imm }
            },
            RVFormat::B => {
                let raw = sign * 0x1000 + field(instr, 7, 7) * 0x800 + field(instr, 30, 25) * 0x20
                    + field(instr, 11, 8) * 2;
                let imm = sign_extend(raw, 13);
                RVType::B { opcode, func3, rs1, rs2, imm }
            },
            RVFormat::U => {
                let imm = field(instr, 31, 12) * 0x1000;
                RVType::U { opcode, rd, imm }
            },
            RVFormat::J => {
                let raw = sign * 0x10_0000 + field(instr, 19, 12) * 0x1000
                    + field(instr, 20, 20) * 0x800 + field(instr, 30, 21) * 2;
                let imm = sign_extend(raw, 21);
                RVType::J { opcode, rd, imm }
            },
        }
    }
}

/// Every register index of a decoded instruction is in 0..=31, every `func3` in 0..=7 and
/// every `func7` in 0..=127: each is a field of five, three or seven bits.
pub proof fn lemma_register_fields_in_range(w: u32)
    ensures
        match decoded(w) {
            RVType::R { rd, func3, rs1, rs2, func7, .. } => rd < 32 && func3 < 8 && rs1 < 32
                && rs2 < 32 && func7 < 128,
            RVType::I { rd, func3, rs1, .. } => rd < 32 && func3 < 8 && rs1 < 32,
            RVType::S { func3, rs1, rs2, .. } => func3 < 8 && rs1 < 32 && rs2 < 32,
            RVType::B { func3, rs1, rs2, .. } => func3 < 8 && rs1 < 32 && rs2 < 32,
            RVType::U { rd, .. } => rd < 32,
            RVType::J { rd, .. } => rd < 32,
            RVType::Unknown { .. } => true,
        },
{
    lemma2_to64();
    lemma_bits_bound(w, 11, 7);
    lemma_bits_bound(w, 14, 12);
    lemma_bits_bound(w, 19, 15);
    lemma_bits_bound(w, 24, 20);
    lemma_bits_bound(w, 31, 25);
}

/// Each immediate is its format's field taken exactly, within its format's range, and it is
/// negative exactly when bit 31 of the word is set. Branch and jump offsets are even, and the
/// upper immediate has its low 12 bits clear.
pub proof fn lemma_immediates(w: u32)
    ensures
        match decoded(w) {
            RVType::I { imm, .. } => imm == imm_i(w) && -0x800 <= imm < 0x800 && (imm < 0
                <==> bits(w, 31, 31) == 1),
            RVType::S { imm, .. } => imm == imm_s(w) && -0x800 <= imm < 0x800 && (imm < 0
                <==> bits(w, 31, 31) == 1),
            RVType::B { imm, .. } => imm == imm_b(w) && -0x1000 <= imm < 0x1000 && imm % 2 == 0
                && (imm < 0 <==> bits(w, 31, 31) == 1),
            RVType::U { imm, .. } => imm == imm_u(w) && imm % 0x1000 == 0,
            RVType::J { imm, .. } => imm == imm_j(w) && -0x10_0000 <= imm < 0x10_0000 && imm
                % 2 == 0 && (imm < 0 <==> bits(w, 31, 31) == 1),
            _ => true,
        },
{
    lemma2_to64();
    lemma_bits_bound(w, 31, 31);
    lemma_bits_bound(w, 31, 20);
    lemma_bits_bound(w, 31, 25);
    lemma_bits_bound(w, 11, 7);
    lemma_bits_bound(w, 30, 25);
    lemma_bits_bound(w, 11, 8);
    lemma_bits_bound(w, 7, 7);
    lemma_bits_bound(w, 31, 12);
    lemma_bits_bound(w, 19, 12);
    lemma_bits_bound(w, 20, 20);
    lemma_bits_bound(w, 30, 21);
    lemma_top_bits(w);
}

/// A word decodes to `Unknown`, carrying the word itself, exactly when the registry has no
/// entry for its low 7 bits; otherwise it decodes in the format of the entry it has.
pub proof fn lemma_unknown_opcode(w: u32)
    ensures
        decoded(w) is Unknown <==> lookup(bits(w, 6, 0)) is None,
        lookup(bits(w, 6, 0)) is None ==> decoded(w) == (RVType::Unknown { word: w }),
        lookup(bits(w, 6, 0)) matches Some(opcode) ==> decoded(w) == decoded_as(opcode, w),
{
}

/// Decoding is a function of the word alone: equal words decode to equal instructions,
/// whenever and however often they are decoded.
pub proof fn lemma_decode_deterministic(a: u32, b: u32)
    requires
        a == b,
    ensures
        decoded(a) == decoded(b),
{
}

/// A field of `hi + 1 - lo` bits is below two to that power.
proof fn lemma_bits_bound(w: u32, hi: nat, lo: nat)
    requires
        lo <= hi < 32,
    ensures
        bits(w, hi, lo) < pow2((hi + 1 - lo) as nat),
{
    vstd::arithmetic::power2::lemma_pow2_pos((hi + 1 - lo) as nat);
}

/// The fields from bit 31 down to bit 20 and to bit 25 have bit 31 of the word as their top bit.
proof fn lemma_top_bits(w: u32)
    ensures
        bits(w, 31, 20) >= 0x800 <==> bits(w, 31, 31) == 1,
        bits(w, 31, 25) >= 0x40 <==> bits(w, 31, 31) == 1,
{
    lemma2_to64();
    assert((w / 0x10_0000) % 0x1000 >= 0x800 <==> (w / 0x8000_0000) % 2 == 1) by (bit_vector);
    assert((w / 0x200_0000) % 0x80 >= 0x40 <==> (w / 0x8000_0000) % 2 == 1) by (bit_vector);
}

} // verus!
