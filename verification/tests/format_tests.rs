use riscv_emulator::instruction_formats::DecodeError;
use riscv_emulator::instruction_formats::InstructionFormatB;
use riscv_emulator::instruction_formats::InstructionFormatI;
use riscv_emulator::instruction_formats::InstructionFormatJ;
use riscv_emulator::instruction_formats::InstructionFormatR;
use riscv_emulator::instruction_formats::InstructionFormatS;
use riscv_emulator::instruction_formats::InstructionFormatU;

/// Folds a most-significant-first bit slice into a 32-bit word.
fn bits_to_u32(bits: &[u8]) -> u32 {
    bits.iter().fold(0, |acc, &bit| (acc << 1) | (bit as u32))
}

#[test]
fn should_be_able_to_construct_r_instruction() {
    // funct7   rs2     rs1     funct3  rd      opcode
    // 0000000  00011   00010   000     00001   0110011
    let opcode: [u8; 7] = [0, 1, 1, 0, 0, 1, 1];
    let rd: [u8; 5] = [0, 0, 0, 0, 1];
    let func3: [u8; 3] = [0, 0, 0];
    let rs1: [u8; 5] = [0, 0, 0, 1, 0];
    let rs2: [u8; 5] = [0, 0, 0, 1, 1];
    let funct7: [u8; 7] = [0, 0, 0, 0, 0, 0, 0];

    let mut bits = Vec::with_capacity(32);
    bits.extend_from_slice(&funct7);
    bits.extend_from_slice(&rs2);
    bits.extend_from_slice(&rs1);
    bits.extend_from_slice(&func3);
    bits.extend_from_slice(&rd);
    bits.extend_from_slice(&opcode);

    let bits_as_u32 = bits_to_u32(&bits);
    let bits_as_little_endian = bits_as_u32.to_le_bytes();
    let instruction_format_r =
        InstructionFormatR::parse_instruction_from_bytes(&bits_as_little_endian).unwrap();

    assert_eq!(instruction_format_r.opcode, 0b0110011);
    assert_eq!(instruction_format_r.rd, 0b00001);
    assert_eq!(instruction_format_r.funct3, 0b000);
    assert_eq!(instruction_format_r.rs1, 0b00010);
    assert_eq!(instruction_format_r.rs2, 0b00011);
    assert_eq!(instruction_format_r.funct7, 0b0000000);
}

#[test]
fn should_be_able_to_construct_i_instruction() {
    // imm          rs1     funct3  rd      opcode
    // 000000000001 00010   000     00001   0110011
    let opcode: [u8; 7] = [0, 1, 1, 0, 0, 1, 1];
    let rd: [u8; 5] = [0, 0, 0, 0, 1];
    let func3: [u8; 3] = [0, 0, 0];
    let rs1: [u8; 5] = [0, 0, 0, 1, 0];
    let imm: [u8; 12] = [0, 0, 0, 0, 0, 0, 0, 0, 0, 0, 0, 1];

    let mut bits = Vec::with_capacity(32);
    bits.extend_from_slice(&imm);
    bits.extend_from_slice(&rs1);
    bits.extend_from_slice(&func3);
    bits.extend_from_slice(&rd);
    bits.extend_from_slice(&opcode);

    let bits_as_u32 = bits_to_u32(&bits);
    let bits_as_little_endian = bits_as_u32.to_le_bytes();
    let instruction_format_i =
        InstructionFormatI::parse_instruction_from_bytes(&bits_as_little_endian).unwrap();

    assert_eq!(instruction_format_i.opcode, 0b0110011);
    assert_eq!(instruction_format_i.rd, 0b00001);
    assert_eq!(instruction_format_i.funct3, 0b000);
    assert_eq!(instruction_format_i.rs1, 0b00010);
    assert_eq!(instruction_format_i.imm, 0b000000000001);
}

#[test]
fn should_be_able_to_construct_s_instruction() {
    // S-type instruction fields order:
    // imm[11:5]   rs2      rs1     funct3    imm[4:0]    opcode
    let imm_5_to_11: [u8; 7] = [0, 0, 0, 0, 0, 0, 0];
    let rs2: [u8; 5] = [0, 0, 0, 1, 1]; // 00011 -> r3
    let rs1: [u8; 5] = [0, 0, 0, 1, 0]; // 00010 -> r2
    let func3: [u8; 3] = [0, 0, 0];
    let imm_0_to_4: [u8; 5] = [0, 0, 0, 1, 0]; // 00010 -> immediate low: 2
    let opcode: [u8; 7] = [0, 1, 0, 0, 0, 1, 1]; // 0100011 (store)

    let mut bits = Vec::with_capacity(32);
    bits.extend_from_slice(&imm_5_to_11);
    bits.extend_from_slice(&rs2);
    bits.extend_from_slice(&rs1);
    bits.extend_from_slice(&func3);
    bits.extend_from_slice(&imm_0_to_4);
    bits.extend_from_slice(&opcode);

    let bits_as_u32 = bits_to_u32(&bits);
    let bits_as_little_endian = bits_as_u32.to_le_bytes();
    let instruction_format_s =
        InstructionFormatS::parse_instruction_from_bytes(&bits_as_little_endian).unwrap();

    assert_eq!(instruction_format_s.opcode, 0b0100011);
    assert_eq!(instruction_format_s.imm_0_to_4, 0b00010);
    assert_eq!(instruction_format_s.func3, 0b000);
    assert_eq!(instruction_format_s.rs1, 0b00010);
    assert_eq!(instruction_format_s.rs2, 0b00011);
    assert_eq!(instruction_format_s.imm_5_to_11, 0b0000000);
}

#[test]
fn should_be_able_to_construct_b_instruction() {
    let sign_imm_5_to_11: [u8; 1] = [0];
    let imm_5_to_11: [u8; 6] = [0, 0, 0, 0, 1, 1];
    let rs2: [u8; 5] = [0, 0, 0, 1, 1];
    let rs1: [u8; 5] = [0, 0, 0, 1, 0];
    let func3: [u8; 3] = [0, 0, 0];
    let imm_0_to_4: [u8; 4] = [0, 0, 1, 0];
    let sign_imm_0_to_4: [u8; 1] = [0];
    let opcode: [u8; 7] = [1, 1, 0, 0, 0, 1, 1];

    let mut bits = Vec::with_capacity(32);
    bits.extend_from_slice(&sign_imm_5_to_11);
    bits.extend_from_slice(&imm_5_to_11);
    bits.extend_from_slice(&rs2);
    bits.extend_from_slice(&rs1);
    bits.extend_from_slice(&func3);
    bits.extend_from_slice(&imm_0_to_4);
    bits.extend_from_slice(&sign_imm_0_to_4);
    bits.extend_from_slice(&opcode);

    let bits_as_u32 = bits_to_u32(&bits);
    let bits_as_little_endian = bits_as_u32.to_le_bytes();
    let instruction_format_b =
        InstructionFormatB::parse_instruction_from_bytes(&bits_as_little_endian).unwrap();

    assert_eq!(instruction_format_b.sign_imm_5_to_11, 0000); // imm[12]
    assert_eq!(instruction_format_b.imm_5_to_11, 0b0000_0011); // imm[10:5] = 3
    assert_eq!(instruction_format_b.rs2, 0b0000_0011); // 3
    assert_eq!(instruction_format_b.rs1, 0b0000_0010); // 2
    assert_eq!(instruction_format_b.func3, 0b0000);
    assert_eq!(instruction_format_b.imm_0_to_4, 0b0010); // 2
    assert_eq!(instruction_format_b.sign_imm_0_to_4, 0000); // imm[11]
    assert_eq!(instruction_format_b.opcode, 0b0110_0011); // 0x63
}

#[test]
fn should_be_able_to_construct_u_instruction() {
    // U-type instruction fields order:
    // [imm (20 bits)] + [rd (5 bits)] + [opcode (7 bits)]
    //
    // For this test:
    // imm (20 bits) = 00000000000000000001 (just value 1)
    // rd (5 bits) = 00001  (register x1, value 1)
    // opcode (7 bits) = 0010111 (0x17, one of the U-type opcodes)
    let imm: [u8; 20] = [0, 0, 0, 0, 0, 0, 0, 0, 0, 0, 0, 0, 0, 0, 0, 0, 0, 0, 0, 1];
    let rd: [u8; 5] = [0, 0, 0, 0, 1];
    let opcode: [u8; 7] = [0, 0, 1, 0, 1, 1, 1]; // binary 0010111 equals 0x17

    let mut bits = Vec::with_capacity(32);
    bits.extend_from_slice(&imm); // bits 12-31
    bits.extend_from_slice(&rd); // bits 7-11
    bits.extend_from_slice(&opcode); // bits 0-6

    let bits_as_u32 = bits_to_u32(&bits);
    let bits_as_little_endian = bits_as_u32.to_le_bytes();

    let instruction_format_u =
        InstructionFormatU::parse_instruction_from_bytes(&bits_as_little_endian).unwrap();

    assert_eq!(instruction_format_u.imm, 0b00000001);
    assert_eq!(instruction_format_u.rd, 0b00001);
    assert_eq!(instruction_format_u.opcode, 0b0010111);
}

#[test]
fn should_be_able_to_construct_j_instruction() {
    let sign_imm_21_30: [u8; 1] = [0];
    let imm_21_30: [u8; 10] = [0, 0, 0, 0, 1, 0, 1, 0, 1, 0];
    let sign_imm_12_19: [u8; 1] = [1];
    let imm_12_19: [u8; 8] = [1, 0, 1, 0, 1, 0, 1, 0];
    let rd: [u8; 5] = [0, 0, 1, 0, 1];
    let opcode: [u8; 7] = [1, 1, 0, 1, 1, 1, 1];

    let mut bits = Vec::with_capacity(32);
    bits.extend_from_slice(&sign_imm_21_30);
    bits.extend_from_slice(&imm_21_30);
    bits.extend_from_slice(&sign_imm_12_19);
    bits.extend_from_slice(&imm_12_19);
    bits.extend_from_slice(&rd);
    bits.extend_from_slice(&opcode);

    assert_eq!(bits.len(), 32);

    let bits_as_u32 = bits_to_u32(&bits);
    let bits_as_little_endian = bits_as_u32.to_le_bytes();
    let instruction_format_j =
        InstructionFormatJ::parse_instruction_from_bytes(&bits_as_little_endian).unwrap();

    assert_eq!(instruction_format_j.sign_imm_21_30, 0);
    assert_eq!(instruction_format_j.imm_21_30, 0b0000101010);
    assert_eq!(instruction_format_j.sign_imm_12_19, 1);
    assert_eq!(instruction_format_j.imm_12_19, 0b10101010);
    assert_eq!(instruction_format_j.rd, 0b00101);
    assert_eq!(instruction_format_j.opcode, 0b1101111);
}

#[test]
fn parse_rejects_buffers_that_are_not_4_bytes() {
    let short: [u8; 3] = [0x33, 0x00, 0x00];
    let long: [u8; 5] = [0x33, 0x00, 0x00, 0x00, 0x00];
    assert_eq!(
        InstructionFormatR::parse_instruction_from_bytes(&short),
        Err(DecodeError::InvalidEncoding)
    );
    assert_eq!(
        InstructionFormatI::parse_instruction_from_bytes(&long),
        Err(DecodeError::InvalidEncoding)
    );
    assert_eq!(
        InstructionFormatB::parse_instruction_from_bytes(&[]),
        Err(DecodeError::InvalidEncoding)
    );
}

#[test]
fn i_format_immediate_is_sign_extended() {
    // imm = 111111111111 (all ones) is -1 once sign-extended from 12 bits
    let word: u32 = (0xfffu32 << 20) | (0b00010 << 15) | (0b00001 << 7) | 0b0010011;
    let parsed = InstructionFormatI::parse_instruction_from_bytes(&word.to_le_bytes()).unwrap();
    assert_eq!(parsed.imm, -1);
    assert_eq!(parsed.rs1, 0b00010);
    assert_eq!(parsed.rd, 0b00001);
}

#[test]
fn u_format_immediate_keeps_all_20_bits() {
    // a 20-bit immediate whose high bits matter: 0x7ffff stays 0x7ffff
    let word: u32 = (0x7ffffu32 << 12) | (0b00001 << 7) | 0b0110111;
    let parsed = InstructionFormatU::parse_instruction_from_bytes(&word.to_le_bytes()).unwrap();
    assert_eq!(parsed.imm, 0x7ffff);
    // and the sign bit (bit 19) makes it negative: 0x80000 is -0x80000
    let word_negative: u32 = (0x80000u32 << 12) | (0b00001 << 7) | 0b0110111;
    let parsed_negative =
        InstructionFormatU::parse_instruction_from_bytes(&word_negative.to_le_bytes()).unwrap();
    assert_eq!(parsed_negative.imm, -0x80000);
}
