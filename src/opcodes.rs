//! The opcode registry: which 7-bit major opcode names which operation, in which format.
use crate::types::{decoded, RVType};
use crate::bits::bits;
use vstd::arithmetic::power2::{lemma2_to64, pow2};
use vstd::prelude::*;

verus! {

/// The six encoding formats of the base instruction set.
#[derive(Clone, Copy, Debug, PartialEq, Eq, Structural)]
pub enum RVFormat {
    /// Register-register: rd, func3, rs1, rs2, func7.
    R,
    /// Register-immediate: rd, func3, rs1 and a 12-bit signed immediate.
    I,
    /// Store: func3, rs1, rs2 and a 12-bit signed offset split in two.
    S,
    /// Branch: func3, rs1, rs2 and a 13-bit signed even offset.
    B,
    /// Upper immediate: rd and the upper 20 bits of a 32-bit value.
    U,
    /// Jump: rd and a 21-bit signed even offset.
    J,
}

/// The operations known to the registry, one per major opcode of the base instruction set.
/// The `func3` and `func7` fields of a decoded instruction select among the operations that
/// share a major opcode.
#[derive(Clone, Copy, Debug, PartialEq, Eq, Structural)]
pub enum RVOpcode {
    /// Loads (`LB`, `LH`, `LW`, `LBU`, `LHU`).
    LOAD,
    /// Memory ordering (`FENCE`).
    FENCE,
    /// Integer register-immediate operations (`ADDI`, `SLTI`, `XORI`, `SLLI`, ...).
    ADDI,
    /// Add upper immediate to the program counter.
    AUIPC,
    /// Stores (`SB`, `SH`, `SW`).
    STORE,
    /// Integer register-register operations (`ADD`, `SUB`, `SLL`, `AND`, ...).
    OP,
    /// Load upper immediate.
    LUI,
    /// Conditional branches (`BEQ`, `BNE`, `BLT`, `BGE`, `BLTU`, `BGEU`).
    BRANCH,
    /// Jump and link register.
    JALR,
    /// Jump and link.
    JAL,
    /// Environment calls and breakpoints (`ECALL`, `EBREAK`).
    SYSTEM,
}

impl RVOpcode {
    /// The registry's table: the 7-bit major opcode of each operation.
    pub open spec fn spec_code(&self) -> u8 {
        match self {
            RVOpcode::LOAD => 0x03,
            RVOpcode::FENCE => 0x0f,
            RVOpcode::ADDI => 0x13,
            RVOpcode::AUIPC => 0x17,
            RVOpcode::STORE => 0x23,
            RVOpcode::OP => 0x33,
            RVOpcode::LUI => 0x37,
            RVOpcode::BRANCH => 0x63,
            RVOpcode::JALR => 0x67,
            RVOpcode::JAL => 0x6f,
            RVOpcode::SYSTEM => 0x73,
        }
    }

    /// The registry's table: the encoding format of each operation.
    pub open spec fn spec_format(&self) -> RVFormat {
        match self {
            RVOpcode::OP => RVFormat::R,
            RVOpcode::LOAD | RVOpcode::FENCE | RVOpcode::ADDI | RVOpcode::JALR
            | RVOpcode::SYSTEM => RVFormat::I,
            RVOpcode::STORE => RVFormat::S,
            RVOpcode::BRANCH => RVFormat::B,
            RVOpcode::LUI | RVOpcode::AUIPC => RVFormat::U,
            RVOpcode::JAL => RVFormat::J,
        }
    }

    /// The 7-bit major opcode of this operation.
    #[verifier::when_used_as_spec(spec_code)]
    pub fn code(&self) -> (r: u8)
        ensures
            r == self.spec_code(),
            r < 128,
    {
        match self {
            RVOpcode::LOAD => 0x03,
            RVOpcode::FENCE => 0x0f,
            RVOpcode::ADDI => 0x13,
            RVOpcode::AUIPC => 0x17,
            RVOpcode::STORE => 0x23,
            RVOpcode::OP => 0x33,
            RVOpcode::LUI => 0x37,
            RVOpcode::BRANCH => 0x63,
            RVOpcode::JALR => 0x67,
            RVOpcode::JAL => 0x6f,
            RVOpcode::SYSTEM => 0x73,
        }
    }

    /// The encoding format of this operation.
    #[verifier::when_used_as_spec(spec_format)]
    pub fn format(&self) -> (r: RVFormat)
        ensures
            r == self.spec_format(),
    {
        match self {
            RVOpcode::OP => RVFormat::R,
            RVOpcode::LOAD | RVOpcode::FENCE | RVOpcode::ADDI | RVOpcode::JALR
            | RVOpcode::SYSTEM => RVFormat::I,
            RVOpcode::STORE => RVFormat::S,
            RVOpcode::BRANCH => RVFormat::B,
            RVOpcode::LUI | RVOpcode::AUIPC => RVFormat::U,
            RVOpcode::JAL => RVFormat::J,
        }
    }

    /// The instruction of this operation with every other field and the immediate zero: what
    /// the word holding nothing but this operation's major opcode decodes to.
    pub fn default_type(&self) -> (r: RVType)
        ensures
            r == decoded(self.code() as u32),
    {
        proof {
            lemma2_to64();
            lemma_lookup_code(*self);
            let w = self.code() as u32;
            assert(w < 128);
            assert(bits(w, 6, 0) == (w as nat / 1) % 128);
            vstd::arithmetic::div_mod::lemma_small_mod(w as nat, 128);
            assert(bits(w, 6, 0) == self.code());
            assert forall|hi: nat, lo: nat| 7 <= lo <= hi < 32 implies bits(w, hi, lo) == 0 by {
                if lo > 7 {
                    vstd::arithmetic::power2::lemma_pow2_strictly_increases(7, lo);
                }
                vstd::arithmetic::div_mod::lemma_basic_div(w as int, pow2(lo) as int);
                vstd::arithmetic::power2::lemma_pow2_pos((hi + 1 - lo) as nat);
                vstd::arithmetic::div_mod::lemma_small_mod(0, pow2((hi + 1 - lo) as nat));
            }
        }
        let opcode = *self;
        match self.format() {
            RVFormat::R => RVType::R { opcode, rd: 0, func3: 0, rs1: 0, rs2: 0, func7: 0 },
            RVFormat::I => RVType::I { opcode, rd: 0, func3: 0, rs1: 0, imm: 0 },
            RVFormat::S => RVType::S { opcode, func3: 0, rs1: 0, rs2: 0, imm: 0 },
            RVFormat::B => RVType::B { opcode, func3: 0, rs1: 0, rs2: 0, imm: 0 },
            RVFormat::U => RVType::U { opcode, rd: 0, imm: 0 },
            RVFormat::J => RVType::J { opcode, rd: 0, imm: 0 },
        }
    }

    /// Looks up the operation whose major opcode is `bits`; `None` where the registry has none.
    pub fn from_bits(bits: u8) -> (r: Option<RVOpcode>)
        ensures
            r == lookup(bits as nat),
    {
        let r = match bits {
            0x03 => Some(RVOpcode::LOAD),
            0x0f => Some(RVOpcode::FENCE),
            0x13 => Some(RVOpcode::ADDI),
            0x17 => Some(RVOpcode::AUIPC),
            0x23 => Some(RVOpcode::STORE),
            0x33 => Some(RVOpcode::OP),
            0x37 => Some(RVOpcode::LUI),
            0x63 => Some(RVOpcode::BRANCH),
            0x67 => Some(RVOpcode::JALR),
            0x6f => Some(RVOpcode::JAL),
            0x73 => Some(RVOpcode::SYSTEM),
            _ => None,
        };
        proof {
            match r {
                Some(op) => lemma_lookup_code(op),
                None => {},
            }
        }
        r
    }
}

/// The operation registered under major opcode `c`, if there is one.
pub open spec fn lookup(c: nat) -> Option<RVOpcode> {
    if exists|op: RVOpcode| op.code() == c {
        Some(choose|op: RVOpcode| op.code() == c)
    } else {
        None
    }
}

/// No two operations share a major opcode.
pub proof fn lemma_code_injective(a: RVOpcode, b: RVOpcode)
    ensures
        a.code() == b.code() ==> a == b,
{
}

/// Looking up an operation's own major opcode finds that operation.
pub proof fn lemma_lookup_code(op: RVOpcode)
    ensures
        lookup(op.code() as nat) == Some(op),
{
    let c = op.code() as nat;
    assert(exists|o: RVOpcode| o.code() == c);
    let found = choose|o: RVOpcode| o.code() == c;
    lemma_code_injective(found, op);
}

/// Resolves the low 7 bits of an instruction word to its operation and that operation's
/// format; `None` where the registry has no entry.
pub fn classify(bits7: u8) -> (r: Option<(RVOpcode, RVFormat)>)
    ensures
        r == match lookup(bits7 as nat) {
            Some(op) => Some((op, op.format())),
            None => None,
        },
{
    match RVOpcode::from_bits(bits7) {
        Some(op) => Some((op, op.format())),
        None => None,
    }
}

} // verus!
