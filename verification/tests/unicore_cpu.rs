//! The self-contained core and its value model: sign extension, decode,
//! memory, registers, and a small program run to completion.

use rsim::isa::States;
use rsim::unicore::cpu::Core;
use rsim::unicore::ir::IR;
use rsim::unicore::mem_ctl::MemCtl;
use rsim::unicore::mmio_driver::NullMmio;
use rsim::unicore::regfile::RegFile;
use rsim::word::{sign_extend, Byte, Word};

#[test]
pub fn test_sign_extend() {
    let val = -128 << 8;
    assert_eq!(
        Word::from(-128i32 as u32),
        sign_extend(((val as i32) >> 8) as u32, 8)
    );
}

#[test]
fn ir_decodes_addi() {
    let mut ir = IR::default();
    // addi x1, x0, 5
    ir.write(Word::from(0x0050_0093u32));
    assert_eq!(ir.opcode, Byte::from(0x13u8));
    assert_eq!(ir.rd, Byte::from(1u8));
    assert_eq!(ir.rs1, Byte::from(0u8));
    assert_eq!(ir.funct3, Byte::from(0u8));
    assert_eq!(ir.i_imm, Word::from(5u32));
}

#[test]
fn ir_decodes_negative_immediates() {
    let mut ir = IR::default();
    // addi x1, x0, -1
    ir.write(Word::from(0xfff0_0093u32));
    assert_eq!(ir.i_imm, Word::from(0xffff_ffffu32));
    // sw x2, -4(x1): S-format immediate -4
    ir.write(Word::from(0xfe20_ae23u32));
    assert_eq!(ir.s_imm, Word::from(0xffff_fffcu32));
}

#[test]
fn regfile_zero_register_stays_zero() {
    let mut rf = RegFile::default();
    rf.write(Byte::from(0u8), Word::from(7u32));
    assert_eq!(rf.read(Byte::from(0u8)), Word::from(0u32));
    rf.write(Byte::from(3u8), Word::from(7u32));
    assert_eq!(rf.read(Byte::from(3u8)), Word::from(7u32));
    assert_eq!(rf.read(Byte::unknown()), Word::unknown());
}

#[test]
fn mem_ctl_masked_read_write() {
    let mut mem: MemCtl<NullMmio> = MemCtl::default();
    let addr = Word::from(0x4000_0000u32);
    mem.write(&addr, Word::from(0xddcc_bbaau32), Byte::from(0x0fu8));
    assert_eq!(
        mem.read(&addr, Byte::from(0x0fu8)),
        Word::from(0xddcc_bbaau32)
    );
    // A half-word read of the low lanes leaves the upper lanes unknown.
    let half = mem.read(&addr, Byte::from(0x03u8));
    assert_eq!(half.get_byte(0), Some(0xaa));
    assert_eq!(half.get_byte(1), Some(0xbb));
    assert_eq!(half.get_byte(2), None);
    assert_eq!(half.get_byte(3), None);
    // Latency: a request counts down one tick at a time.
    assert!(mem.is_resp());
    mem.req_access();
    assert!(!mem.is_resp());
    mem.tick();
    assert!(!mem.is_resp());
    mem.tick();
    assert!(mem.is_resp());
    mem.tick();
    assert!(mem.is_resp());
}

#[test]
fn unicore_runs_small_program() {
    let mut core: Core<NullMmio> = Core::default();
    // addi x1, x0, 5 ; addi x2, x1, 7 ; the halt marker instruction.
    let program: Vec<u8> = vec![
        0x93, 0x00, 0x50, 0x00, // addi x1, x0, 5
        0x13, 0x81, 0x70, 0x00, // addi x2, x1, 7
        0x13, 0x20, 0x00, 0xf0, // halt marker
    ];
    core.load_bin(&program, Word::from(0x4000_0000u32));
    let mut guard = 0;
    while !core.should_halt() {
        core.next_cycle();
        guard += 1;
        assert!(guard < 1000, "program did not halt");
    }
    assert_eq!(core.state, States::Imm);
    assert_eq!(core.regfile.read(Byte::from(1u8)), Word::from(5u32));
    assert_eq!(core.regfile.read(Byte::from(2u8)), Word::from(12u32));
    assert_eq!(core.pc, Word::from(0x4000_000cu32));
}
