//! Unit tests for the core components and concrete instances of the
//! library's laws: register-file round trips, CSR privilege gating, the
//! packed status word, the division edge cases, the reservation
//! protocol, branch-target arithmetic, and misaligned word accesses.

use riscv_emu::bus::Bus;
use riscv_emu::csr::ControlAndStatus;
use riscv_emu::exception::{Exception, PrivilegeLevel, Trap};
use riscv_emu::interpreter::Interpreter;
use riscv_emu::mmu::Mmu;
use riscv_emu::mstatus::MStatus;
use riscv_emu::riscv_core::{
    BInstruction, BOp, IInstruction, IOp, InstructionType, RInstruction, ROp, RVCore,
};
use riscv_emu::uart_16550::Uart16550;

// --- register file (writes land, register zero stays zero) ---

#[test]
fn regfile_write_then_read() {
    let mut core = RVCore::new();
    for r in 1..32u32 {
        core.write_reg(r, r * 1000 + 7);
    }
    for r in 1..32u32 {
        assert_eq!(core.read_reg(r), r * 1000 + 7);
    }
}

#[test]
fn regfile_zero_register_ignores_writes() {
    let mut core = RVCore::new();
    core.write_reg(0, 0xDEADBEEF);
    assert_eq!(core.read_reg(0), 0);
    core.write_reg(1, 5);
    assert_eq!(core.read_reg(2), 0);
}

// --- CSR bank (privilege gate, read-only gate, masks, counter) ---

#[test]
fn csr_write_below_privilege_fails() {
    let mut csr = ControlAndStatus::new(0);
    // mscratch demands Machine privilege.
    assert_eq!(
        csr.write_csr(0x340, PrivilegeLevel::User, 1),
        Err(Exception::IllegalInstruction(0))
    );
    assert_eq!(
        csr.write_csr(0x340, PrivilegeLevel::Supervisor, 1),
        Err(Exception::IllegalInstruction(0))
    );
    assert_eq!(csr.write_csr(0x340, PrivilegeLevel::Machine, 7), Ok(()));
    assert_eq!(csr.read_csr(0x340, PrivilegeLevel::Machine), Ok(7));
}

#[test]
fn csr_read_below_privilege_fails() {
    let csr = ControlAndStatus::new(0);
    assert_eq!(
        csr.read_csr(0x340, PrivilegeLevel::User),
        Err(Exception::IllegalInstruction(0))
    );
}

#[test]
fn csr_read_only_register_rejects_writes() {
    let mut csr = ControlAndStatus::new(0);
    // mhartid sits in the read-only index range.
    assert_eq!(
        csr.write_csr(0xF14, PrivilegeLevel::Machine, 1),
        Err(Exception::IllegalInstruction(0))
    );
}

#[test]
fn csr_trigger_select_reads_all_ones() {
    let csr = ControlAndStatus::new(0);
    assert_eq!(csr.read_csr(0x7A0, PrivilegeLevel::Machine), Ok(u32::MAX));
}

#[test]
fn csr_mepc_write_clears_low_bits() {
    let mut csr = ControlAndStatus::new(0);
    assert_eq!(csr.write_csr(0x341, PrivilegeLevel::Machine, 0x80000003), Ok(()));
    assert_eq!(csr.read_csr(0x341, PrivilegeLevel::Machine), Ok(0x80000000));
}

#[test]
fn csr_retire_counter_increments_and_respects_loads() {
    let mut csr = ControlAndStatus::new(0);
    csr.increment_minstret();
    csr.increment_minstret();
    assert_eq!(csr.read_csr_unchecked(0xB02), 2);
    // An explicit write suppresses exactly one increment.
    assert_eq!(csr.write_csr(0xB02, PrivilegeLevel::Machine, 0xFFFFFFFF), Ok(()));
    csr.increment_minstret();
    assert_eq!(csr.read_csr_unchecked(0xB02), 0xFFFFFFFF);
    csr.increment_minstret();
    assert_eq!(csr.read_csr_unchecked(0xB02), 0);
    assert_eq!(csr.read_csr_unchecked(0xB82), 1);
}

#[test]
fn csr_supervisor_status_is_masked_view() {
    let mut csr = ControlAndStatus::new(0);
    assert_eq!(csr.write_csr(0x300, PrivilegeLevel::Machine, 0xFFFFFFFF), Ok(()));
    assert_eq!(csr.read_csr(0x300, PrivilegeLevel::Machine), Ok(0xFFFFFFFF));
    assert_eq!(csr.read_csr(0x100, PrivilegeLevel::Machine), Ok(0x818DE762));
}

// --- mstatus round trips ---

#[test]
fn mstatus_bool_fields_roundtrip() {
    let mut m = MStatus(0);
    m.set_mie(true);
    assert!(m.get_mie());
    m.set_spie(true);
    m.set_mpie(true);
    m.set_mprv(true);
    m.set_sum(true);
    m.set_mxr(true);
    m.set_tvm(true);
    m.set_tw(true);
    m.set_tsr(true);
    m.set_spelp(true);
    m.set_sdt(true);
    m.set_sd(true);
    m.set_sie(true);
    m.set_ube(true);
    m.set_spp(true);
    assert!(m.get_mie() && m.get_spie() && m.get_mpie() && m.get_mprv());
    assert!(m.get_sum() && m.get_mxr() && m.get_tvm() && m.get_tw() && m.get_tsr());
    assert!(m.get_spelp() && m.get_sdt() && m.get_sd() && m.get_sie() && m.get_ube());
    assert!(m.get_spp());
    m.set_mie(false);
    assert!(!m.get_mie());
    // Clearing one field left its neighbours alone.
    assert!(m.get_sie() && m.get_spie());
}

#[test]
fn mstatus_two_bit_fields_roundtrip() {
    let mut m = MStatus(0);
    m.set_mpp(0b11);
    m.set_vs(0b10);
    m.set_fs(0b01);
    m.set_xs(0b11);
    assert_eq!(m.get_mpp(), 0b11);
    assert_eq!(m.get_vs(), 0b10);
    assert_eq!(m.get_fs(), 0b01);
    assert_eq!(m.get_xs(), 0b11);
    m.set_mpp(0b00);
    assert_eq!(m.get_mpp(), 0);
    assert_eq!(m.get_vs(), 0b10);
    // Width masking: writing a wider value keeps only two bits.
    m.set_mpp(0b111);
    assert_eq!(m.get_mpp(), 0b11);
}

// --- division edge cases on the handlers themselves ---

fn r_instr(op: ROp) -> RInstruction {
    RInstruction::new(1, 2, 3, op)
}

fn run_r(op: ROp, a: u32, b: u32) -> u32 {
    let mut core = RVCore::new();
    core.write_reg(1, a);
    core.write_reg(2, b);
    let i = r_instr(op);
    i.execute(&mut core).unwrap();
    core.read_reg(3)
}

#[test]
fn division_by_zero_yields_fixed_results() {
    assert_eq!(run_r(ROp::Div, 42, 0), 0xFFFFFFFF);
    assert_eq!(run_r(ROp::Divu, 42, 0), 0xFFFFFFFF);
    assert_eq!(run_r(ROp::Rem, 42, 0), 42);
    assert_eq!(run_r(ROp::Remu, 42, 0), 42);
}

#[test]
fn division_overflow_wraps() {
    assert_eq!(run_r(ROp::Div, 0x80000000, 0xFFFFFFFF), 0x80000000);
    assert_eq!(run_r(ROp::Rem, 0x80000000, 0xFFFFFFFF), 0);
}

#[test]
fn division_truncates_toward_zero() {
    assert_eq!(run_r(ROp::Div, 0xFFFFFFEC, 3), 0xFFFFFFFA);  // -20 / 3 == -6
    assert_eq!(run_r(ROp::Div, 20, 0xFFFFFFFD), 0xFFFFFFFA);  // 20 / -3 == -6
    assert_eq!(run_r(ROp::Rem, 0xFFFFFFEC, 3), 0xFFFFFFFE);  // -20 % 3 == -2
    assert_eq!(run_r(ROp::Rem, 20, 0xFFFFFFFD), 2);  // 20 % -3 == 2
}

#[test]
fn multiply_high_words() {
    assert_eq!(run_r(ROp::Mul, 0xFFFFFFFD, 5), 0xFFFFFFF1);
    assert_eq!(run_r(ROp::Mulh, 0x80000000, 0x80000000), 0x40000000);
    assert_eq!(run_r(ROp::Mulhu, 0xFFFFFFFF, 0xFFFFFFFF), 0xFFFFFFFE);
    assert_eq!(run_r(ROp::Mulhsu, 0xFFFFFFFF, 0xFFFFFFFF), 0xFFFFFFFF);
}

// --- misaligned word access on both memory interfaces ---

#[test]
fn bus_misaligned_word_access_faults() {
    let mut bus = Bus::new();
    for a in [0x80000001usize, 0x80000002, 0x80000003] {
        assert_eq!(bus.read_word(a), Err(Exception::LoadAddressMisaligned));
        assert_eq!(bus.write_word(a, 0xABCD), Err(Exception::StoreAmoAddressMisaligned));
    }
    // Nothing was partially stored.
    assert_eq!(bus.read_word(0x80000000), Ok(0));
    assert_eq!(bus.read_word(0x80000004), Ok(0));
}

#[test]
fn mmu_misaligned_word_access_faults() {
    let mut mmu = Mmu::new();
    assert_eq!(mmu.read_word(0x80000002), Err(Exception::LoadAddressMisaligned));
    assert_eq!(mmu.write_word(0x80000002, 1), Err(Exception::StoreAmoAddressMisaligned));
    assert_eq!(mmu.read_word(0x80000000), Ok(0));
    assert_eq!(mmu.write_word(0x80000004, 0xCAFE), Ok(()));
    assert_eq!(mmu.read_word(0x80000004), Ok(0xCAFE));
}

#[test]
fn bus_out_of_range_access_faults() {
    let mut bus = Bus::new();
    assert_eq!(bus.read_byte(0x00000000), Err(Exception::LoadAccessFault));
    assert_eq!(bus.write_byte(0x00000000, 1), Err(Exception::StoreAmoAccessFault));
    // ROM reads work, ROM writes fault.
    assert_eq!(bus.read_byte(0x1000), Ok(0));
    assert_eq!(bus.write_byte(0x1000, 1), Err(Exception::StoreAmoAccessFault));
}

// --- reservations ---

#[test]
fn store_invalidates_matching_reservation() {
    let mut bus = Bus::new();
    bus.reserve_address(0, 0x80000100);
    assert!(bus.is_address_reserved(0, 0x80000100));
    assert!(!bus.is_address_reserved(0, 0x80000104));
    bus.write_byte(0x80000100, 9).unwrap();
    assert!(!bus.is_address_reserved(0, 0x80000100));
}

#[test]
fn store_elsewhere_keeps_reservation() {
    let mut bus = Bus::new();
    bus.reserve_address(0, 0x80000100);
    bus.write_byte(0x80000104, 9).unwrap();
    assert!(bus.is_address_reserved(0, 0x80000100));
    bus.invalidate_reserved_address(0);
    assert!(!bus.is_address_reserved(0, 0x80000100));
}

// --- branch target arithmetic (net effect with the run loop's +4) ---

#[test]
fn branch_taken_lands_on_target_after_advance() {
    let mut core = RVCore::new();
    core.pc = 0x80000000;
    let i = BInstruction::new(1, 2, 8, BOp::Beq);
    i.execute(&mut core).unwrap();
    // The run loop then adds one instruction width.
    assert_eq!(core.pc.wrapping_add(4), 0x80000008);
}

#[test]
fn branch_not_taken_advances_normally() {
    let mut core = RVCore::new();
    core.pc = 0x80000000;
    core.write_reg(1, 1);
    let i = BInstruction::new(1, 2, 8, BOp::Beq);
    i.execute(&mut core).unwrap();
    assert_eq!(core.pc.wrapping_add(4), 0x80000004);
}

// --- decoder ---

#[test]
fn decode_recognises_known_words() {
    let mut core = RVCore::new();
    // addi x0, x0, 0
    match core.decode(0x00000013) {
        Some(InstructionType::I(i)) => {
            assert_eq!(i.op, IOp::Addi);
            assert_eq!(i.rd, 0);
            assert_eq!(i.rs1, 0);
            assert_eq!(i.imm, 0);
        },
        _ => panic!("addi did not decode"),
    }
    // ecall / ebreak / mret
    assert!(matches!(core.decode(0x00000073), Some(InstructionType::I(i)) if i.op == IOp::Ecall));
    assert!(matches!(core.decode(0x00100073), Some(InstructionType::I(i)) if i.op == IOp::Ebreak));
    assert!(matches!(core.decode(0x30200073), Some(InstructionType::I(i)) if i.op == IOp::Mret));
}

#[test]
fn decode_rejects_unknown_words() {
    let mut core = RVCore::new();
    assert!(core.decode(0x00000000).is_none());
    assert!(core.decode(0xFFFFFFFF).is_none());
    // A fence encoding with a nonzero minor opcode is not implemented.
    assert!(core.decode(0x0000100F).is_none());
}

#[test]
fn decode_sign_extends_immediates() {
    let mut core = RVCore::new();
    // addi x1, x0, -1
    match core.decode(0xFFF00093) {
        Some(InstructionType::I(i)) => assert_eq!(i.imm, 0xFFFFFFFF),
        _ => panic!("addi did not decode"),
    }
}

// --- trap engine ---

#[test]
fn trap_direct_mode_redirects_to_base() {
    let mut core = RVCore::new();
    core.control_and_status.write_csr_unchecked(0x305, 0x80000100);
    core.pc = 0x80000008;
    let t = Exception::Breakpoint.trap(&mut core);
    assert_eq!(t, Trap::Requested);
    assert_eq!(core.pc, 0x80000100);
    assert_eq!(core.control_and_status.read_csr_unchecked(0x342), 3);
    assert_eq!(core.control_and_status.read_csr_unchecked(0x341), 0x80000008);
    assert_eq!(core.control_and_status.read_csr_unchecked(0x343), 0);
    assert_eq!(core.privilege_level, PrivilegeLevel::Machine);
}

#[test]
fn trap_vectored_mode_offsets_by_cause() {
    let mut core = RVCore::new();
    core.control_and_status.write_csr_unchecked(0x305, 0x80000101);
    Exception::Breakpoint.trap(&mut core);
    assert_eq!(core.pc, 0x80000100 + 4 * 3);
}

#[test]
fn trap_saves_interrupt_enable() {
    let mut core = RVCore::new();
    let ms = core.control_and_status.get_mstatus_mut_ref(PrivilegeLevel::Machine);
    ms.set_mie(true);
    Exception::Breakpoint.trap(&mut core);
    let ms = core.control_and_status.get_mstatus_ref(PrivilegeLevel::Machine).unwrap();
    assert!(!ms.get_mie());
    assert!(ms.get_mpie());
    assert_eq!(ms.get_mpp(), 3);
}

#[test]
fn environment_call_cause_tracks_privilege() {
    let mut core = RVCore::new();
    let mut bus = Bus::new();
    let i = IInstruction::new(0, 0, 0, IOp::Ecall);
    assert_eq!(i.execute(&mut bus, &mut core), Err(Exception::EnviromentCallFromMMode));
    core.privilege_level = PrivilegeLevel::User;
    assert_eq!(i.execute(&mut bus, &mut core), Err(Exception::EnviromentCallFromUMode));
    core.privilege_level = PrivilegeLevel::Supervisor;
    assert_eq!(i.execute(&mut bus, &mut core), Err(Exception::EnviromentCallFromSMode));
}

#[test]
fn mret_restores_saved_privilege() {
    let mut core = RVCore::new();
    let mut bus = Bus::new();
    core.control_and_status.write_csr_unchecked(0x341, 0x80000040);
    let ms = core.control_and_status.get_mstatus_mut_ref(PrivilegeLevel::Machine);
    ms.set_mpp(0);  // return to User
    ms.set_mpie(true);
    let i = IInstruction::new(0, 0x302, 0, IOp::Mret);
    i.execute(&mut bus, &mut core).unwrap();
    assert_eq!(core.privilege_level, PrivilegeLevel::User);
    assert_eq!(core.pc.wrapping_add(4), 0x80000040);
    let ms = core.control_and_status.get_mstatus_ref(PrivilegeLevel::Machine).unwrap();
    assert!(ms.get_mie());
    assert!(ms.get_mpie());
    assert_eq!(ms.get_mpp(), 0);
    assert!(!ms.get_mprv());
}

#[test]
fn exception_cause_codes_match_the_specification() {
    assert_eq!(Exception::InstructionAddressMisaligned.get_cause(), 0);
    assert_eq!(Exception::InstructionAccessFault.get_cause(), 1);
    assert_eq!(Exception::IllegalInstruction(0xABCD).get_cause(), 2);
    assert_eq!(Exception::Breakpoint.get_cause(), 3);
    assert_eq!(Exception::LoadAddressMisaligned.get_cause(), 4);
    assert_eq!(Exception::LoadAccessFault.get_cause(), 5);
    assert_eq!(Exception::StoreAmoAddressMisaligned.get_cause(), 6);
    assert_eq!(Exception::StoreAmoAccessFault.get_cause(), 7);
    assert_eq!(Exception::EnviromentCallFromUMode.get_cause(), 8);
    assert_eq!(Exception::EnviromentCallFromSMode.get_cause(), 9);
    assert_eq!(Exception::EnviromentCallFromMMode.get_cause(), 11);
    assert_eq!(Exception::InstructionPageFault.get_cause(), 12);
    assert_eq!(Exception::LoadPageFault.get_cause(), 13);
    assert_eq!(Exception::StoreAmoPageFault.get_cause(), 15);
    assert_eq!(Exception::DoubleTrap.get_cause(), 16);
    assert_eq!(Exception::SoftwareCheck.get_cause(), 18);
    assert_eq!(Exception::HardwareError.get_cause(), 19);
}

// --- UART model ---

#[test]
fn uart_write_buffers_output() {
    let mut bus = Bus::new();
    bus.write_byte(0x10000000, b'h').unwrap();
    bus.write_byte(0x10000000, b'i').unwrap();
    assert_eq!(bus.uart.take_output(), vec![b'h', b'i']);
    assert_eq!(bus.uart.take_output(), Vec::<u8>::new());
}

#[test]
fn uart_input_roundtrip() {
    let mut u = Uart16550::new();
    assert!(!u.has_interrupt());
    assert!(u.push_input(b'x'));
    assert!(u.has_interrupt());
    // Data ready: a second byte is refused until the first is read.
    assert!(!u.push_input(b'y'));
    assert_eq!(u.read(5) & 1, 1);
    assert_eq!(u.read(0), b'x');
    // Reading the holding register cleared the data-ready bit.
    assert_eq!(u.read(5) & 1, 0);
    assert!(u.push_input(b'y'));
}

// --- loader ---

#[test]
fn loader_places_data_records() {
    let mut it = Interpreter::new();
    // One data record: the word 1 at offset 0x1000.
    it.load_hex_text(":0410000001000000EB\n:00000001FF\n");
    assert_eq!(it.read_test_result(0x80001000), 1);
}

#[test]
fn loader_ignores_trailing_garbage() {
    let mut it = Interpreter::new();
    it.load_hex_text(":0410000002000000EA\n:00000001FF\nnot a record\n");
    assert_eq!(it.read_test_result(0x80001000), 2);
}

#[test]
fn corrupted_image_does_not_pass() {
    // An image that never writes the completion word must not read as 1.
    let mut it = Interpreter::new();
    it.load_hex_text(":0400000013000000E9\n:00000001FF\n");
    it.run();
    assert_ne!(it.read_test_result(0x80001000), 1);
}

#[test]
fn fetch_from_unmapped_memory_faults() {
    let mut it = Interpreter::new();
    it.core.pc = 0x00000000;
    assert_eq!(it.fetch(), Err(Exception::InstructionAccessFault));
}

#[test]
fn fetch_from_misaligned_counter_is_misalignment_fault() {
    // A program counter that is not a multiple of four raises the
    // instruction-address-misaligned fault (cause 0), not the access
    // fault, before any byte is read.
    let mut it = Interpreter::new();
    it.core.pc = 0x80000002;
    assert_eq!(it.fetch(), Err(Exception::InstructionAddressMisaligned));
    assert_eq!(Exception::InstructionAddressMisaligned.get_cause(), 0);
}

#[test]
fn store_to_uart_transmits() {
    let mut core = RVCore::new();
    let mut bus = Bus::new();
    core.write_reg(1, 0x10000000);
    core.write_reg(2, b'A' as u32);
    let i = riscv_emu::riscv_core::SInstruction::new(1, 2, 0, riscv_emu::riscv_core::SOp::Sb);
    i.execute(&mut bus, &mut core).unwrap();
    assert_eq!(bus.uart.take_output(), vec![b'A']);
}

#[test]
fn load_from_uart_reads_line_status() {
    let mut core = RVCore::new();
    let mut bus = Bus::new();
    core.write_reg(1, 0x10000000);
    let i = IInstruction::new(1, 5, 3, IOp::Lbu);
    i.execute(&mut bus, &mut core).unwrap();
    // At reset the line-status register advertises an empty transmitter.
    assert_eq!(core.read_reg(3), 0x20);
}

#[test]
fn hardwired_zero_register_after_program_write() {
    // Register zero stays zero even when a program names it as a
    // destination: addi x0, x0, 7 then checked through the register file.
    let mut core = RVCore::new();
    let mut bus = Bus::new();
    let i = IInstruction::new(0, 7, 0, IOp::Addi);
    i.execute(&mut bus, &mut core).unwrap();
    assert_eq!(core.read_reg(0), 0);
}
