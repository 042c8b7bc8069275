use rvdecode::bits::{field, sign_extend};
use rvdecode::opcodes::{classify, RVFormat, RVOpcode};
use rvdecode::types::RVType;

const ALL: [RVOpcode; 11] = [
    RVOpcode::LOAD,
    RVOpcode::FENCE,
    RVOpcode::ADDI,
    RVOpcode::AUIPC,
    RVOpcode::STORE,
    RVOpcode::OP,
    RVOpcode::LUI,
    RVOpcode::BRANCH,
    RVOpcode::JALR,
    RVOpcode::JAL,
    RVOpcode::SYSTEM,
];

#[test]
fn classify_known_opcodes() {
    assert_eq!(classify(0x13), Some((RVOpcode::ADDI, RVFormat::I)));
    assert_eq!(classify(0x33), Some((RVOpcode::OP, RVFormat::R)));
    assert_eq!(classify(0x23), Some((RVOpcode::STORE, RVFormat::S)));
    assert_eq!(classify(0x63), Some((RVOpcode::BRANCH, RVFormat::B)));
    assert_eq!(classify(0x37), Some((RVOpcode::LUI, RVFormat::U)));
    assert_eq!(classify(0x6f), Some((RVOpcode::JAL, RVFormat::J)));
}

#[test]
fn classify_unassigned_opcodes() {
    assert_eq!(classify(0x00), None);
    assert_eq!(classify(0x7f), None);
    assert_eq!(classify(0x14), None);
    assert_eq!(classify(0x93), None);
}

#[test]
fn registry_round_trips() {
    let mut known = 0;
    for b in 0u8..=255 {
        match RVOpcode::from_bits(b) {
            Some(op) => {
                known += 1;
                assert_eq!(op.code(), b);
            }
            None => assert!(ALL.iter().all(|op| op.code() != b)),
        }
    }
    assert_eq!(known, ALL.len());
    for op in ALL {
        assert_eq!(RVOpcode::from_bits(op.code()), Some(op));
        assert!(op.code() < 128);
    }
}

#[test]
fn default_type_is_the_bare_opcode_decoded() {
    assert_eq!(
        RVOpcode::ADDI.default_type(),
        RVType::I { opcode: RVOpcode::ADDI, rd: 0, func3: 0, rs1: 0, imm: 0 }
    );
    assert_eq!(RVOpcode::JAL.default_type(), RVType::J { opcode: RVOpcode::JAL, rd: 0, imm: 0 });
    for op in ALL {
        assert_eq!(op.default_type(), RVType::decode(op.code() as u32));
    }
}

#[test]
fn format_table() {
    assert_eq!(RVOpcode::OP.format(), RVFormat::R);
    assert_eq!(RVOpcode::LOAD.format(), RVFormat::I);
    assert_eq!(RVOpcode::FENCE.format(), RVFormat::I);
    assert_eq!(RVOpcode::JALR.format(), RVFormat::I);
    assert_eq!(RVOpcode::SYSTEM.format(), RVFormat::I);
    assert_eq!(RVOpcode::STORE.format(), RVFormat::S);
    assert_eq!(RVOpcode::BRANCH.format(), RVFormat::B);
    assert_eq!(RVOpcode::AUIPC.format(), RVFormat::U);
}

#[test]
fn field_extraction() {
    assert_eq!(field(0x0000_00f0, 7, 4), 0xf);
    assert_eq!(field(0xfff3_0293, 31, 20), 0xfff);
    assert_eq!(field(0xfff3_0293, 19, 15), 6);
    assert_eq!(field(0x8000_0000, 31, 31), 1);
    assert_eq!(field(0x7fff_ffff, 31, 31), 0);
}

#[test]
fn sign_extension() {
    assert_eq!(sign_extend(0xfff, 12), -1);
    assert_eq!(sign_extend(0x7ff, 12), 2047);
    assert_eq!(sign_extend(0x800, 12), -2048);
    assert_eq!(sign_extend(0x1000, 13), -4096);
    assert_eq!(sign_extend(0x10, 13), 16);
    assert_eq!(sign_extend(0x1f_fff8, 21), -8);
}
