//! Tests of the execution pipeline: delay-slot visibility, branch timing,
//! and the unified exception path, each driven through whole clock steps.

use shiranuhi::bios::Bios;
use shiranuhi::bus::Bus;
use shiranuhi::cpu::{Cpu, RESET_VECTOR};

const BIOS_SIZE: usize = 512 * 1024;
const INIT_PATTERN: u32 = 0xDEADBEEF;

fn boot_image(words: &[u32]) -> Vec<u8> {
    let mut data = vec![0u8; BIOS_SIZE];
    for (i, w) in words.iter().enumerate() {
        data[4 * i] = (w & 0xFF) as u8;
        data[4 * i + 1] = ((w >> 8) & 0xFF) as u8;
        data[4 * i + 2] = ((w >> 16) & 0xFF) as u8;
        data[4 * i + 3] = ((w >> 24) & 0xFF) as u8;
    }
    data
}

fn boot_cpu(words: &[u32]) -> Cpu {
    let bios = Bios::new(boot_image(words)).unwrap();
    Cpu::new(Bus::new(bios))
}

#[test]
fn reset_state() {
    let cpu = boot_cpu(&[0]);
    assert_eq!(cpu.pc(), RESET_VECTOR);
    assert_eq!(cpu.pc_predictor(), RESET_VECTOR + 4);
    assert_eq!(cpu.reg(0), 0);
    // Every other register starts at the deliberate non-zero pattern.
    for r in 1..32 {
        assert_eq!(cpu.reg(r), INIT_PATTERN);
    }
    assert_eq!(cpu.cop0().load(12), Some(0));
    assert_eq!(cpu.cop0().load(13), Some(0));
}

#[test]
fn first_word_of_the_image_executes_first() {
    // The boot image opens with a LUI: after construction and one step,
    // register 8 holds the immediate shifted into the upper half and the
    // program counter has advanced to the reset vector plus 4.
    let mut cpu = boot_cpu(&[0x3C080013]);
    cpu.clock();
    assert_eq!(cpu.reg(8), 0x00130000);
    assert_eq!(cpu.pc(), RESET_VECTOR + 4);
}

#[test]
fn writes_to_register_zero_are_no_ops() {
    // ADDIU r0, r0, 0x7FFF and LUI r0, 0x1234 both target index 0.
    let mut cpu = boot_cpu(&[0x24007FFF, 0x3C001234]);
    cpu.clock();
    assert_eq!(cpu.reg(0), 0);
    cpu.clock();
    assert_eq!(cpu.reg(0), 0);
}

#[test]
fn load_result_is_invisible_to_the_next_instruction_only() {
    // LW r9, 0(r0); ADDU r10, r9, r0; ADDU r11, r9, r0.
    // The instruction right after the load still sees the old r9; the one
    // after that sees the loaded value.
    let bios = Bios::new(boot_image(&[0x8C090000, 0x01205021, 0x01205821])).unwrap();
    let mut bus = Bus::new(bios);
    bus.store32(0, 0xCAFEBABE);
    let mut cpu = Cpu::new(bus);
    cpu.clock();
    // The load's own step ends with r9 still untouched.
    assert_eq!(cpu.reg(9), INIT_PATTERN);
    cpu.clock();
    // The following instruction read the old value; the load has now
    // committed.
    assert_eq!(cpu.reg(10), INIT_PATTERN);
    assert_eq!(cpu.reg(9), 0xCAFEBABE);
    cpu.clock();
    assert_eq!(cpu.reg(11), 0xCAFEBABE);
}

#[test]
fn sync_write_cancels_a_pending_delayed_write() {
    // LW r9, 0(r0); ORI r9, r0, 0x1234; SLL r0 (nop).
    // The synchronous write lands while the load is still pending, so the
    // load is cancelled and the final value is the synchronous one.
    let bios = Bios::new(boot_image(&[0x8C090000, 0x34091234, 0x00000000])).unwrap();
    let mut bus = Bus::new(bios);
    bus.store32(0, 0xCAFEBABE);
    let mut cpu = Cpu::new(bus);
    cpu.clock();
    cpu.clock();
    assert_eq!(cpu.reg(9), 0x1234);
    cpu.clock();
    assert_eq!(cpu.reg(9), 0x1234);
}

#[test]
fn branch_not_taken_still_sets_the_delay_flag() {
    // BNE r0, r0, +4 is never taken: predicted-next stays at current+4,
    // exactly as for a non-branch, but the bookkeeping flag rises.
    let mut cpu = boot_cpu(&[0x14000004]);
    cpu.clock();
    assert_eq!(cpu.pc(), RESET_VECTOR + 4);
    assert_eq!(cpu.pc_predictor(), RESET_VECTOR + 8);
    assert!(cpu.branch_delay_flag());
    assert!(!cpu.branch_taken_flag());
}

#[test]
fn taken_branch_redirects_after_the_delay_slot() {
    // BEQ r0, r0, +4; LUI r8, 5 (delay slot); then the target holds
    // LUI r9, 7. Target = branch address + (4 << 2) = reset + 0x10.
    let mut cpu = boot_cpu(&[0x10000004, 0x3C080005, 0, 0, 0x3C090007]);
    cpu.clock();
    assert!(cpu.branch_delay_flag());
    assert!(cpu.branch_taken_flag());
    assert_eq!(cpu.pc(), RESET_VECTOR + 4);
    assert_eq!(cpu.pc_predictor(), RESET_VECTOR + 0x10);
    cpu.clock();
    // The delay slot executed.
    assert_eq!(cpu.reg(8), 0x00050000);
    assert_eq!(cpu.pc(), RESET_VECTOR + 0x10);
    cpu.clock();
    assert_eq!(cpu.reg(9), 0x00070000);
}

#[test]
fn jump_and_link_stores_the_address_after_the_delay_slot() {
    // JAL to reset+0x10: field 0x3F00004 under the reset segment.
    let mut cpu = boot_cpu(&[0x0FF00004, 0, 0, 0, 0x3C090007]);
    cpu.clock();
    assert_eq!(cpu.reg(31), RESET_VECTOR + 8);
    assert_eq!(cpu.pc_predictor(), RESET_VECTOR + 0x10);
    cpu.clock();
    cpu.clock();
    assert_eq!(cpu.reg(9), 0x00070000);
}

#[test]
fn jump_register_redirects_to_the_register_value() {
    // LUI r1, 0xBFC0; ORI r1, r1, 0x0014; JR r1; nop; nop; target LUI r9.
    let mut cpu = boot_cpu(&[
        0x3C01BFC0, 0x34210014, 0x00200008, 0, 0, 0x3C090007,
    ]);
    cpu.clock();
    cpu.clock();
    cpu.clock();
    assert_eq!(cpu.pc_predictor(), 0xBFC00014);
    cpu.clock();
    cpu.clock();
    assert_eq!(cpu.reg(9), 0x00070000);
}

#[test]
fn sign_based_branches_link_unconditionally() {
    // BGEZAL r0, +4 is taken (zero is non-negative) and links.
    let mut cpu = boot_cpu(&[0x04110004]);
    cpu.clock();
    assert_eq!(cpu.reg(31), RESET_VECTOR + 8);
    assert!(cpu.branch_taken_flag());
    assert_eq!(cpu.pc_predictor(), RESET_VECTOR + 0x10);
}

#[test]
fn bltz_takes_only_negative_values() {
    // ADDIU r1, r0, -1; BLTZ r1, +4.
    let mut cpu = boot_cpu(&[0x2401FFFF, 0x04200004]);
    cpu.clock();
    assert_eq!(cpu.reg(1), 0xFFFFFFFF);
    cpu.clock();
    assert!(cpu.branch_taken_flag());
    // Target = branch address + 0x10.
    assert_eq!(cpu.pc_predictor(), RESET_VECTOR + 4 + 0x10);
}

#[test]
fn alu_immediates_and_comparisons() {
    // ORI r1, r0, 0x00FF; ANDI r2, r1, 0x0F0F; XORI r3, r1, 0xFFFF;
    // SLTI r4, r1, -1 (signed: 255 < -1 is false);
    // SLTIU r5, r1, 0xFFFF (unsigned against sign-extended immediate).
    let mut cpu = boot_cpu(&[
        0x340100FF, 0x30220F0F, 0x3823FFFF, 0x2824FFFF, 0x2C25FFFF,
    ]);
    cpu.clock();
    assert_eq!(cpu.reg(1), 0xFF);
    cpu.clock();
    assert_eq!(cpu.reg(2), 0x0F);
    cpu.clock();
    assert_eq!(cpu.reg(3), 0xFF00);
    cpu.clock();
    assert_eq!(cpu.reg(4), 0);
    cpu.clock();
    // 0xFF < 0xFFFFFFFF unsigned.
    assert_eq!(cpu.reg(5), 1);
}

#[test]
fn shifts_and_register_alu() {
    // ADDIU r1, r0, -8 (0xFFFFFFF8); SRA r2, r1, 2 keeps the sign;
    // SRL r3, r1, 28 shifts in zeros; SLL r4, r1, 4;
    // SLT r5, r1, r0 (signed: -8 < 0); SLTU r6, r1, r0 (unsigned: false);
    // NOR r7, r0, r0 (all ones).
    let mut cpu = boot_cpu(&[
        0x2401FFF8,
        (1 << 16) | (2 << 11) | (2 << 6) | 0x03,
        (1 << 16) | (3 << 11) | (28 << 6) | 0x02,
        (1 << 16) | (4 << 11) | (4 << 6) | 0x00,
        (1 << 21) | (5 << 11) | 0x2A,
        (1 << 21) | (6 << 11) | 0x2B,
        (7 << 11) | 0x27,
    ]);
    cpu.clock();
    cpu.clock();
    assert_eq!(cpu.reg(2), 0xFFFFFFFE);
    cpu.clock();
    assert_eq!(cpu.reg(3), 0xF);
    cpu.clock();
    assert_eq!(cpu.reg(4), 0xFFFFFF80);
    cpu.clock();
    assert_eq!(cpu.reg(5), 1);
    cpu.clock();
    assert_eq!(cpu.reg(6), 0);
    cpu.clock();
    assert_eq!(cpu.reg(7), 0xFFFFFFFF);
}

#[test]
fn ram_round_trip_through_the_pipeline() {
    // ORI r1, r0, 0x5678; SW r1, 8(r0); LW r9, 8(r0); nop; nop.
    let mut cpu = boot_cpu(&[0x34015678, 0xAC010008, 0x8C090008, 0, 0]);
    for _ in 0..5 {
        cpu.clock();
    }
    assert_eq!(cpu.reg(9), 0x5678);
    assert_eq!(cpu.bus().load32(8), Ok(0x5678));
}

#[test]
fn byte_and_half_stores_and_sign_extending_loads() {
    // ADDIU r1, r0, -2 (0xFFFFFFFE); SB r1, 0(r0); SH r1, 4(r0);
    // LB r9, 0(r0); LBU r10, 0(r0); LH r11, 4(r0); LHU r12, 4(r0); nops.
    let mut cpu = boot_cpu(&[
        0x2401FFFE,
        0xA0010000,
        0xA4010004,
        0x80090000,
        0x900A0000,
        0x840B0004,
        0x940C0004,
        0,
        0,
    ]);
    for _ in 0..9 {
        cpu.clock();
    }
    assert_eq!(cpu.reg(9), 0xFFFFFFFE);
    assert_eq!(cpu.reg(10), 0xFE);
    assert_eq!(cpu.reg(11), 0xFFFFFFFE);
    assert_eq!(cpu.reg(12), 0xFFFE);
}

#[test]
fn reserved_instruction_raises_through_the_exception_path() {
    let mut cpu = boot_cpu(&[0xFFFFFFFF]);
    cpu.clock();
    // Cause carries the reserved-instruction code; execution redirected to
    // the general exception vector (boot-vector bit starts at zero).
    assert_eq!(cpu.cop0().cause().exception_code(), 0x0A);
    assert_eq!(cpu.pc(), 0x80000080);
    assert_eq!(cpu.pc_predictor(), 0x80000084);
}

#[test]
fn syscall_and_break_raise_their_codes() {
    let mut cpu = boot_cpu(&[0x0000000C]);
    cpu.clock();
    assert_eq!(cpu.cop0().cause().exception_code(), 0x08);
    assert_eq!(cpu.pc(), 0x80000080);
    let mut cpu2 = boot_cpu(&[0x0000000D]);
    cpu2.clock();
    assert_eq!(cpu2.cop0().cause().exception_code(), 0x09);
}

#[test]
fn trapping_add_overflow_leaves_the_target_unwritten() {
    // LUI r1, 0x7FFF; ORI r1, r1, 0xFFFF; ADDI r2, r1, 1 overflows.
    let mut cpu = boot_cpu(&[0x3C017FFF, 0x3421FFFF, 0x20220001]);
    cpu.clock();
    cpu.clock();
    assert_eq!(cpu.reg(1), 0x7FFFFFFF);
    cpu.clock();
    assert_eq!(cpu.cop0().cause().exception_code(), 0x0C);
    assert_eq!(cpu.reg(2), INIT_PATTERN);
    assert_eq!(cpu.pc(), 0x80000080);
}

#[test]
fn non_trapping_add_wraps_silently() {
    // LUI r1, 0x7FFF; ORI r1, r1, 0xFFFF; ADDIU r2, r1, 1 wraps.
    let mut cpu = boot_cpu(&[0x3C017FFF, 0x3421FFFF, 0x24220001]);
    cpu.clock();
    cpu.clock();
    cpu.clock();
    assert_eq!(cpu.reg(2), 0x80000000);
    assert_eq!(cpu.cop0().cause().exception_code(), 0);
}

#[test]
fn disabled_coprocessor_raises_unusable_with_its_number() {
    let mut cpu = boot_cpu(&[0x48000000]);
    cpu.clock();
    assert_eq!(cpu.cop0().cause().exception_code(), 0x0B);
    assert_eq!(cpu.cop0().cause().coprocessor_number(), 2);
    assert_eq!(cpu.pc(), 0x80000080);
}

#[test]
fn misaligned_accesses_raise_address_errors() {
    // LW r9, 2(r0) is misaligned.
    let mut cpu = boot_cpu(&[0x8C090002]);
    cpu.clock();
    assert_eq!(cpu.cop0().cause().exception_code(), 0x04);
    // SW r1, 2(r0) is misaligned.
    let mut cpu2 = boot_cpu(&[0xAC010002]);
    cpu2.clock();
    assert_eq!(cpu2.cop0().cause().exception_code(), 0x05);
}

#[test]
fn unmapped_load_faults_and_unmapped_store_does_not() {
    // LUI r1, 0x1F90 (unmapped); SW r1, 0(r1); LUI r8, 5; LW r9, 0(r1).
    let mut cpu = boot_cpu(&[0x3C011F90, 0xAC210000, 0x3C080005, 0x8C290000]);
    cpu.clock();
    cpu.clock();
    // The unmapped store was discarded and did not halt stepping.
    assert_eq!(cpu.cop0().cause().exception_code(), 0);
    cpu.clock();
    assert_eq!(cpu.reg(8), 0x00050000);
    cpu.clock();
    // The unmapped load is a hard fault.
    assert_eq!(cpu.cop0().cause().exception_code(), 0x04);
    assert_eq!(cpu.pc(), 0x80000080);
}

#[test]
fn exception_in_a_delay_slot_is_reported_as_such() {
    // BEQ r0, r0, +4 taken; the delay slot holds BREAK.
    let mut cpu = boot_cpu(&[0x10000004, 0x0000000D]);
    cpu.clock();
    cpu.clock();
    let cause = cpu.cop0().cause();
    assert_eq!(cause.exception_code(), 0x09);
    assert!(cause.branch_delay());
    assert!(cause.branch_taken());
}

#[test]
fn exception_pushes_the_status_stack_and_rfe_pops_it() {
    // ORI r1, r0, 1 (interrupt enable); MTC0 r1, status; SYSCALL.
    let bios = Bios::new(boot_image(&[0x34010001, 0x40816000, 0x0000000C])).unwrap();
    let mut bus = Bus::new(bios);
    // The general exception vector 0x80000080 translates into RAM: place
    // the handler there through the bus before construction.
    bus.store32(0x80, 0x42000010); // RFE
    bus.store32(0x84, 0);
    let mut cpu = Cpu::new(bus);
    cpu.clock();
    cpu.clock();
    assert_eq!(cpu.cop0().load(12), Some(1));
    cpu.clock();
    // Entry pushed the stack: current pair cleared, previous holds the
    // enabled bit.
    assert_eq!(cpu.cop0().load(12), Some(0b000100));
    assert_eq!(cpu.pc(), 0x80000080);
    cpu.clock();
    // RFE pops: the enabled bit returns to the current pair.
    assert_eq!(cpu.cop0().load(12), Some(1));
}

#[test]
fn boot_vector_bit_selects_the_rom_vector() {
    // LUI r1, 0x0040 (bit 22); MTC0 r1, status; BREAK.
    let mut cpu = boot_cpu(&[0x3C010040, 0x40816000, 0x0000000D]);
    cpu.clock();
    cpu.clock();
    cpu.clock();
    assert_eq!(cpu.pc(), 0xBFC00180);
    assert_eq!(cpu.cop0().cause().exception_code(), 0x09);
}

#[test]
fn isolated_cache_swallows_stores() {
    // LUI r1, 0x0001 (isolate-cache bit 16); MTC0 r1, status;
    // ORI r2, r0, 0x55; SW r2, 0x100(r0).
    let mut cpu = boot_cpu(&[0x3C010001, 0x40816000, 0x34020055, 0xAC020100]);
    for _ in 0..4 {
        cpu.clock();
    }
    // RAM still holds the init pattern: the store never reached the bus.
    assert_eq!(cpu.bus().load32(0x100), Ok(0xCFCFCFCF));
    assert_eq!(cpu.cop0().cause().exception_code(), 0);
}

#[test]
fn mfc0_honors_the_load_delay() {
    // ORI r1, r0, 1; MTC0 r1, status; MFC0 r3, status; ADDU r4, r3, r0;
    // ADDU r5, r3, r0.
    let mut cpu = boot_cpu(&[
        0x34010001,
        0x40816000,
        0x40036000,
        (3 << 21) | (4 << 11) | 0x21,
        (3 << 21) | (5 << 11) | 0x21,
    ]);
    for _ in 0..4 {
        cpu.clock();
    }
    // The instruction right after MFC0 still saw the old r3.
    assert_eq!(cpu.reg(4), INIT_PATTERN);
    cpu.clock();
    assert_eq!(cpu.reg(5), 1);
    assert_eq!(cpu.reg(3), 1);
}

#[test]
fn mfc0_of_an_unmodeled_register_faults() {
    // MFC0 r3, register 5.
    let mut cpu = boot_cpu(&[0x40032800]);
    cpu.clock();
    assert_eq!(cpu.cop0().cause().exception_code(), 0x0A);
}

#[test]
fn mtc0_cause_write_touches_only_software_bits() {
    // ORI r1, r0, 0x0300; MTC0 r1, cause (register 13).
    let mut cpu = boot_cpu(&[0x34010300, 0x40816800]);
    cpu.clock();
    cpu.clock();
    assert_eq!(cpu.cop0().cause().interrupt_pending(), 0x3);
    // The exception-code field was not disturbed.
    assert_eq!(cpu.cop0().cause().exception_code(), 0);
}

#[test]
fn misaligned_fetch_raises_an_address_error() {
    // LUI r1, 0xBFC0; ORI r1, r1, 3; JR r1; nop; then the misaligned
    // fetch faults.
    let mut cpu = boot_cpu(&[0x3C01BFC0, 0x34210003, 0x00200008, 0, 0]);
    for _ in 0..5 {
        cpu.clock();
    }
    assert_eq!(cpu.cop0().cause().exception_code(), 0x04);
    assert_eq!(cpu.pc(), 0x80000080);
}

#[test]
fn trapping_register_add_overflows() {
    // LUI r1, 0x7FFF; ORI r1, r1, 0xFFFF; ORI r2, r0, 1; ADD r3, r1, r2.
    let mut cpu = boot_cpu(&[
        0x3C017FFF,
        0x3421FFFF,
        0x34020001,
        (1 << 21) | (2 << 16) | (3 << 11) | 0x20,
    ]);
    for _ in 0..4 {
        cpu.clock();
    }
    assert_eq!(cpu.cop0().cause().exception_code(), 0x0C);
    assert_eq!(cpu.reg(3), INIT_PATTERN);
}

#[test]
fn register_add_without_overflow_writes_the_sum() {
    // ORI r1, r0, 0x1234; ORI r2, r0, 0x4321; ADD r3, r1, r2.
    let mut cpu = boot_cpu(&[
        0x34011234,
        0x34024321,
        (1 << 21) | (2 << 16) | (3 << 11) | 0x20,
    ]);
    for _ in 0..3 {
        cpu.clock();
    }
    assert_eq!(cpu.reg(3), 0x5555);
    assert_eq!(cpu.cop0().cause().exception_code(), 0);
}

#[test]
fn trapping_subtract_overflows() {
    // LUI r1, 0x8000; ORI r2, r0, 1; SUB r3, r1, r2 overflows past the
    // most negative value.
    let mut cpu = boot_cpu(&[
        0x3C018000,
        0x34020001,
        (1 << 21) | (2 << 16) | (3 << 11) | 0x22,
    ]);
    for _ in 0..3 {
        cpu.clock();
    }
    assert_eq!(cpu.cop0().cause().exception_code(), 0x0C);
    assert_eq!(cpu.reg(3), INIT_PATTERN);
}

#[test]
fn non_trapping_subtract_wraps_silently() {
    // LUI r1, 0x8000; ORI r2, r0, 1; SUBU r3, r1, r2.
    let mut cpu = boot_cpu(&[
        0x3C018000,
        0x34020001,
        (1 << 21) | (2 << 16) | (3 << 11) | 0x23,
    ]);
    for _ in 0..3 {
        cpu.clock();
    }
    assert_eq!(cpu.reg(3), 0x7FFFFFFF);
    assert_eq!(cpu.cop0().cause().exception_code(), 0);
}

#[test]
fn register_logic_ops() {
    // ORI r1, r0, 0xF0F0; ORI r2, r0, 0x0FF0; AND, OR, XOR into r3..r5.
    let mut cpu = boot_cpu(&[
        0x3401F0F0,
        0x34020FF0,
        (1 << 21) | (2 << 16) | (3 << 11) | 0x24,
        (1 << 21) | (2 << 16) | (4 << 11) | 0x25,
        (1 << 21) | (2 << 16) | (5 << 11) | 0x26,
    ]);
    for _ in 0..5 {
        cpu.clock();
    }
    assert_eq!(cpu.reg(3), 0x00F0);
    assert_eq!(cpu.reg(4), 0xFFF0);
    assert_eq!(cpu.reg(5), 0xFF00);
}

#[test]
fn variable_shifts_use_the_low_bits_of_rs() {
    // ORI r1, r0, 4; ADDIU r2, r0, -16; SLLV r3, r2, r1; SRLV r4, r2, r1;
    // SRAV r5, r2, r1.
    let mut cpu = boot_cpu(&[
        0x34010004,
        0x2402FFF0,
        (1 << 21) | (2 << 16) | (3 << 11) | 0x04,
        (1 << 21) | (2 << 16) | (4 << 11) | 0x06,
        (1 << 21) | (2 << 16) | (5 << 11) | 0x07,
    ]);
    for _ in 0..5 {
        cpu.clock();
    }
    assert_eq!(cpu.reg(3), 0xFFFFFF00);
    assert_eq!(cpu.reg(4), 0x0FFFFFFF);
    assert_eq!(cpu.reg(5), 0xFFFFFFFF);
}

#[test]
fn jalr_links_into_its_destination_register() {
    // LUI r1, 0xBFC0; ORI r1, r1, 0x14; JALR r2, r1.
    let mut cpu = boot_cpu(&[
        0x3C01BFC0,
        0x34210014,
        (1 << 21) | (2 << 11) | 0x09,
    ]);
    cpu.clock();
    cpu.clock();
    cpu.clock();
    // The link value is the address after the delay slot.
    assert_eq!(cpu.reg(2), 0xBFC00010);
    assert_eq!(cpu.pc_predictor(), 0xBFC00014);
}

#[test]
fn blez_and_bgtz_test_the_sign_and_zero() {
    // ORI r1, r0, 1; BLEZ r1 (not taken); BGTZ r1 (taken).
    let mut cpu = boot_cpu(&[
        0x34010001,
        (0x06 << 26) | (1 << 21) | 4,
        (0x07 << 26) | (1 << 21) | 4,
    ]);
    cpu.clock();
    cpu.clock();
    assert!(cpu.branch_delay_flag());
    assert!(!cpu.branch_taken_flag());
    assert_eq!(cpu.pc_predictor(), RESET_VECTOR + 0xC);
    cpu.clock();
    assert!(cpu.branch_taken_flag());
    // Target = the branch's own address plus 0x10.
    assert_eq!(cpu.pc_predictor(), RESET_VECTOR + 8 + 0x10);
}
