//! One test per RISC-V compliance image the emulator is meant to serve.
//! The official binary images are not shipped here, so each test
//! assembles a small RV32 program exercising the same instruction, loads
//! it as Intel-HEX text, runs it to the harness's parking address, and
//! checks the same pass signal: the word 1 at the to-host address.

use riscv_emu::interpreter::Interpreter;

// --- instruction encoders ---

fn enc_r(f7: u32, rs2: u32, rs1: u32, f3: u32, rd: u32, opc: u32) -> u32 {
    (f7 << 25) | (rs2 << 20) | (rs1 << 15) | (f3 << 12) | (rd << 7) | opc
}

fn enc_i(imm: i32, rs1: u32, f3: u32, rd: u32, opc: u32) -> u32 {
    (((imm as u32) & 0xFFF) << 20) | (rs1 << 15) | (f3 << 12) | (rd << 7) | opc
}

fn enc_s(imm: i32, rs2: u32, rs1: u32, f3: u32) -> u32 {
    let u = (imm as u32) & 0xFFF;
    ((u >> 5) << 25) | (rs2 << 20) | (rs1 << 15) | (f3 << 12) | ((u & 0x1F) << 7) | 0x23
}

fn enc_b(imm: i32, rs1: u32, rs2: u32, f3: u32) -> u32 {
    let u = imm as u32;
    (((u >> 12) & 1) << 31) | (((u >> 5) & 0x3F) << 25) | (rs2 << 20) | (rs1 << 15) | (f3 << 12)
        | (((u >> 1) & 0xF) << 8) | (((u >> 11) & 1) << 7) | 0x63
}

fn enc_j(imm: i32, rd: u32) -> u32 {
    let u = imm as u32;
    (((u >> 20) & 1) << 31) | (((u >> 1) & 0x3FF) << 21) | (((u >> 11) & 1) << 20)
        | (((u >> 12) & 0xFF) << 12) | (rd << 7) | 0x6F
}

fn nop() -> u32 {
    enc_i(0, 0, 0, 0, 0x13)
}

fn addi(rd: u32, rs1: u32, imm: i32) -> u32 {
    enc_i(imm, rs1, 0, rd, 0x13)
}

fn lui(rd: u32, hi20: u32) -> u32 {
    (hi20 << 12) | (rd << 7) | 0x37
}

/// Loads an arbitrary 32-bit constant: always a `lui`/`addi` pair, so the
/// emitted length is fixed.
fn li(rd: u32, v: u32) -> Vec<u32> {
    let lo = v & 0xFFF;
    let lo_s: i32 = if lo >= 0x800 { lo as i32 - 0x1000 } else { lo as i32 };
    let hi = v.wrapping_sub(lo_s as u32) >> 12;
    vec![lui(rd, hi), addi(rd, rd, lo_s)]
}

fn csrrs_x(rd: u32, csr: u32, rs1: u32) -> u32 {
    enc_i(csr as i32, rs1, 2, rd, 0x73)
}

fn csrr(rd: u32, csr: u32) -> u32 {
    csrrs_x(rd, csr, 0)
}

fn csrw(csr: u32, rs1: u32) -> u32 {
    enc_i(csr as i32, rs1, 1, 0, 0x73)
}

fn sw(rs2: u32, rs1: u32, imm: i32) -> u32 {
    enc_s(imm, rs2, rs1, 2)
}

fn sh(rs2: u32, rs1: u32, imm: i32) -> u32 {
    enc_s(imm, rs2, rs1, 1)
}

fn sb(rs2: u32, rs1: u32, imm: i32) -> u32 {
    enc_s(imm, rs2, rs1, 0)
}

fn lw(rd: u32, rs1: u32, imm: i32) -> u32 {
    enc_i(imm, rs1, 2, rd, 0x03)
}

fn lh(rd: u32, rs1: u32, imm: i32) -> u32 {
    enc_i(imm, rs1, 1, rd, 0x03)
}

fn lb(rd: u32, rs1: u32, imm: i32) -> u32 {
    enc_i(imm, rs1, 0, rd, 0x03)
}

fn lhu(rd: u32, rs1: u32, imm: i32) -> u32 {
    enc_i(imm, rs1, 5, rd, 0x03)
}

fn lbu(rd: u32, rs1: u32, imm: i32) -> u32 {
    enc_i(imm, rs1, 4, rd, 0x03)
}

fn amo(f5: u32, rd: u32, rs1: u32, rs2: u32) -> u32 {
    enc_r(f5 << 2, rs2, rs1, 2, rd, 0x2F)
}

// --- Intel-HEX emission and the run harness ---

fn hex_text(words: &[u32]) -> String {
    let mut bytes: Vec<u8> = Vec::new();
    for w in words {
        bytes.extend_from_slice(&w.to_le_bytes());
    }
    let mut s = String::new();
    for (i, chunk) in bytes.chunks(16).enumerate() {
        let offset = (i * 16) as u16;
        let mut rec: Vec<u8> = vec![chunk.len() as u8, (offset >> 8) as u8, offset as u8, 0];
        rec.extend_from_slice(chunk);
        let total: u32 = rec.iter().map(|b| *b as u32).sum();
        let cks = ((256 - (total % 256)) % 256) as u8;
        s.push(':');
        for b in &rec {
            s.push_str(&format!("{:02X}", b));
        }
        s.push_str(&format!("{:02X}\n", cks));
    }
    s.push_str(":00000001FF\n");
    s
}

/// Byte offset of the run loop's parking address within DRAM.
const HALT: i32 = 0x4C;

/// Word index where a harnessed body starts (byte offset 0x50, past the
/// parking address).
const BODY: usize = 20;

/// Runs `body` (placed past the parking address) followed by an epilogue
/// that writes the pass word and parks; returns the to-host word.
fn harness(body: &[u32], tohost: u32) -> u32 {
    let mut words: Vec<u32> = vec![enc_j(0x50, 0)];
    while words.len() < BODY {
        words.push(nop());
    }
    words.extend_from_slice(body);
    words.push(addi(30, 0, 1));
    words.extend(li(31, tohost));
    words.push(sw(30, 31, 0));
    let cur = (words.len() * 4) as i32;
    words.push(enc_j(HALT - cur, 0));

    let text = hex_text(&words);
    let mut it = Interpreter::new();
    it.load_hex_text(&text);
    it.run();
    it.read_test_result(tohost as usize)
}

/// A branch-to-fail: taken when `reg != x29`, it parks without writing
/// the pass word. `idx` is the word index of this instruction within the
/// body.
fn bne_fail(reg: u32, idx: usize) -> u32 {
    enc_b(HALT - 4 * (BODY + idx) as i32, reg, 29, 1)
}

/// Runs `setup`, then checks that `reg` holds `expected`; only then is
/// the pass word written.
fn run_expect(setup: &[u32], reg: u32, expected: u32) -> u32 {
    let mut body = setup.to_vec();
    body.extend(li(29, expected));
    let idx = body.len();
    body.push(bne_fail(reg, idx));
    harness(&body, 0x80001000)
}

/// Appends a check of `reg == expected` to a body under construction.
fn push_check(body: &mut Vec<u32>, reg: u32, expected: u32) {
    body.extend(li(29, expected));
    let idx = body.len();
    body.push(bne_fail(reg, idx));
}

/// Installs a trap handler, runs `trigger`, and passes only when the trap
/// arrived with `expected_cause` in the cause register.
fn run_trap_expect(trigger: &[u32], expected_cause: u32) -> u32 {
    let mut body: Vec<u32> = Vec::new();
    let handler_idx = BODY + 3 + trigger.len() + 1;
    body.extend(li(1, 0x80000000u32.wrapping_add((handler_idx as u32) * 4)));
    body.push(csrw(0x305, 1));
    body.extend_from_slice(trigger);
    // Fall-through without a trap is a failure.
    let cur = BODY + body.len();
    body.push(enc_j(HALT - 4 * cur as i32, 0));
    assert_eq!(BODY + body.len(), handler_idx);
    body.push(csrr(5, 0x342));
    push_check(&mut body, 5, expected_cause);
    harness(&body, 0x80001000)
}

const SCRATCH: u32 = 0x80000800;

// --- RV32UI: base integer instruction tests ---

#[test]
fn rv32ui_p_add() {
    let mut s = li(5, 0xFFFFFFFF);
    s.extend(li(6, 3));
    s.push(enc_r(0x00, 6, 5, 0, 7, 0x33));
    assert_eq!(run_expect(&s, 7, 2), 1);
}

#[test]
fn rv32ui_p_addi() {
    let mut s = li(5, 100);
    s.push(addi(6, 5, -50));
    assert_eq!(run_expect(&s, 6, 50), 1);
}

#[test]
fn rv32ui_p_sub() {
    let mut s = li(5, 10);
    s.extend(li(6, 12));
    s.push(enc_r(0x20, 6, 5, 0, 7, 0x33));
    assert_eq!(run_expect(&s, 7, 0xFFFFFFFE), 1);
}

#[test]
fn rv32ui_p_and() {
    let mut s = li(5, 0xFF00FF00);
    s.extend(li(6, 0x0F0F0F0F));
    s.push(enc_r(0x00, 6, 5, 7, 7, 0x33));
    assert_eq!(run_expect(&s, 7, 0x0F000F00), 1);
}

#[test]
fn rv32ui_p_andi() {
    let mut s = li(5, 0xFFFFF0F0);
    s.push(enc_i(0x0FF, 5, 7, 6, 0x13));
    assert_eq!(run_expect(&s, 6, 0xF0), 1);
}

#[test]
fn rv32ui_p_or() {
    let mut s = li(5, 0xFF00FF00);
    s.extend(li(6, 0x0F0F0F0F));
    s.push(enc_r(0x00, 6, 5, 6, 7, 0x33));
    assert_eq!(run_expect(&s, 7, 0xFF0FFF0F), 1);
}

#[test]
fn rv32ui_p_ori() {
    let mut s = li(5, 0xFF00FF00);
    s.push(enc_i(0x0F0, 5, 6, 6, 0x13));
    assert_eq!(run_expect(&s, 6, 0xFF00FFF0), 1);
}

#[test]
fn rv32ui_p_xor() {
    let mut s = li(5, 0xFF00FF00);
    s.extend(li(6, 0x0F0F0F0F));
    s.push(enc_r(0x00, 6, 5, 4, 7, 0x33));
    assert_eq!(run_expect(&s, 7, 0xF00FF00F), 1);
}

#[test]
fn rv32ui_p_xori() {
    let mut s = li(5, 0x00FF0F00);
    s.push(enc_i(-1, 5, 4, 6, 0x13));
    assert_eq!(run_expect(&s, 6, 0xFF00F0FF), 1);
}

#[test]
fn rv32ui_p_sll() {
    let mut s = li(5, 1);
    s.extend(li(6, 31));
    s.push(enc_r(0x00, 6, 5, 1, 7, 0x33));
    assert_eq!(run_expect(&s, 7, 0x80000000), 1);
}

#[test]
fn rv32ui_p_slli() {
    let mut s = li(5, 0x21212121);
    s.push(enc_i(4, 5, 1, 6, 0x13));
    assert_eq!(run_expect(&s, 6, 0x12121210), 1);
}

#[test]
fn rv32ui_p_srl() {
    let mut s = li(5, 0x80000000);
    s.extend(li(6, 31));
    s.push(enc_r(0x00, 6, 5, 5, 7, 0x33));
    assert_eq!(run_expect(&s, 7, 1), 1);
}

#[test]
fn rv32ui_p_srli() {
    let mut s = li(5, 0x80000000);
    s.push(enc_i(4, 5, 5, 6, 0x13));
    assert_eq!(run_expect(&s, 6, 0x08000000), 1);
}

#[test]
fn rv32ui_p_sra() {
    let mut s = li(5, 0x80000000);
    s.extend(li(6, 31));
    s.push(enc_r(0x20, 6, 5, 5, 7, 0x33));
    assert_eq!(run_expect(&s, 7, 0xFFFFFFFF), 1);
}

#[test]
fn rv32ui_p_srai() {
    let mut s = li(5, 0xF0000000);
    s.push(enc_i(0x400 + 4, 5, 5, 6, 0x13));
    assert_eq!(run_expect(&s, 6, 0xFF000000), 1);
}

#[test]
fn rv32ui_p_slt() {
    let mut s = li(5, 0xFFFFFFFF);
    s.extend(li(6, 1));
    s.push(enc_r(0x00, 6, 5, 2, 7, 0x33));
    assert_eq!(run_expect(&s, 7, 1), 1);
}

#[test]
fn rv32ui_p_slti() {
    let mut s = li(5, 0xFFFFFFFB);
    s.push(enc_i(-4, 5, 2, 6, 0x13));
    assert_eq!(run_expect(&s, 6, 1), 1);
}

#[test]
fn rv32ui_p_sltu() {
    let mut s = li(5, 0xFFFFFFFF);
    s.extend(li(6, 1));
    s.push(enc_r(0x00, 6, 5, 3, 7, 0x33));
    assert_eq!(run_expect(&s, 7, 0), 1);
}

#[test]
fn rv32ui_p_sltiu() {
    let mut s = li(5, 3);
    s.push(enc_i(-1, 5, 3, 6, 0x13));
    assert_eq!(run_expect(&s, 6, 1), 1);
}

#[test]
fn rv32ui_p_lui() {
    let s = vec![lui(5, 0xFFFFF)];
    assert_eq!(run_expect(&s, 5, 0xFFFFF000), 1);
}

#[test]
fn rv32ui_p_auipc() {
    // The first body word sits at byte offset 0x50.
    let s = vec![(0u32 << 12) | (5 << 7) | 0x17];
    assert_eq!(run_expect(&s, 5, 0x80000050), 1);
}

#[test]
fn rv32ui_p_jal() {
    let mut s = li(5, 1);
    s.push(enc_j(8, 1));
    s.push(addi(5, 0, 0));
    assert_eq!(run_expect(&s, 5, 1), 1);
}

#[test]
fn rv32ui_p_jalr() {
    let mut s = li(5, 1);
    // The jump target is the body word after the cleared marker.
    s.extend(li(1, 0x80000050 + 4 * 6));
    s.push(enc_i(0, 1, 0, 2, 0x67));
    s.push(addi(5, 0, 0));
    assert_eq!(run_expect(&s, 5, 1), 1);
}

#[test]
fn rv32ui_p_beq() {
    let mut s = li(5, 1);
    s.extend(li(6, 7));
    s.extend(li(7, 7));
    s.push(enc_b(8, 6, 7, 0));
    s.push(addi(5, 0, 0));
    assert_eq!(run_expect(&s, 5, 1), 1);
}

#[test]
fn rv32ui_p_bne() {
    let mut s = li(5, 1);
    s.extend(li(6, 7));
    s.extend(li(7, 8));
    s.push(enc_b(8, 6, 7, 1));
    s.push(addi(5, 0, 0));
    assert_eq!(run_expect(&s, 5, 1), 1);
}

#[test]
fn rv32ui_p_blt() {
    let mut s = li(5, 1);
    s.extend(li(6, 0xFFFFFFFF));
    s.extend(li(7, 1));
    s.push(enc_b(8, 6, 7, 4));
    s.push(addi(5, 0, 0));
    assert_eq!(run_expect(&s, 5, 1), 1);
}

#[test]
fn rv32ui_p_bge() {
    let mut s = li(5, 1);
    s.extend(li(6, 5));
    s.extend(li(7, 0xFFFFFFFF));
    s.push(enc_b(8, 6, 7, 5));
    s.push(addi(5, 0, 0));
    assert_eq!(run_expect(&s, 5, 1), 1);
}

#[test]
fn rv32ui_p_bltu() {
    let mut s = li(5, 1);
    s.extend(li(6, 1));
    s.extend(li(7, 0xFFFFFFFF));
    s.push(enc_b(8, 6, 7, 6));
    s.push(addi(5, 0, 0));
    assert_eq!(run_expect(&s, 5, 1), 1);
}

#[test]
fn rv32ui_p_bgeu() {
    let mut s = li(5, 1);
    s.extend(li(6, 0xFFFFFFFF));
    s.extend(li(7, 1));
    s.push(enc_b(8, 6, 7, 7));
    s.push(addi(5, 0, 0));
    assert_eq!(run_expect(&s, 5, 1), 1);
}

#[test]
fn rv32ui_p_lb() {
    let mut s = li(6, SCRATCH);
    s.extend(li(7, 0x85));
    s.push(sb(7, 6, 0));
    s.push(lb(5, 6, 0));
    assert_eq!(run_expect(&s, 5, 0xFFFFFF85), 1);
}

#[test]
fn rv32ui_p_lbu() {
    let mut s = li(6, SCRATCH);
    s.extend(li(7, 0x85));
    s.push(sb(7, 6, 0));
    s.push(lbu(5, 6, 0));
    assert_eq!(run_expect(&s, 5, 0x85), 1);
}

#[test]
fn rv32ui_p_lh() {
    let mut s = li(6, SCRATCH);
    s.extend(li(7, 0x8001));
    s.push(sh(7, 6, 0));
    s.push(lh(5, 6, 0));
    assert_eq!(run_expect(&s, 5, 0xFFFF8001), 1);
}

#[test]
fn rv32ui_p_lhu() {
    let mut s = li(6, SCRATCH);
    s.extend(li(7, 0x8001));
    s.push(sh(7, 6, 0));
    s.push(lhu(5, 6, 0));
    assert_eq!(run_expect(&s, 5, 0x8001), 1);
}

#[test]
fn rv32ui_p_lw() {
    let mut s = li(6, SCRATCH);
    s.extend(li(7, 0xDEADBEEF));
    s.push(sw(7, 6, 0));
    s.push(lw(5, 6, 0));
    assert_eq!(run_expect(&s, 5, 0xDEADBEEF), 1);
}

#[test]
fn rv32ui_p_sb() {
    let mut s = li(6, SCRATCH);
    s.extend(li(7, 0xAA));
    s.push(sb(7, 6, 1));
    s.push(lw(5, 6, 0));
    assert_eq!(run_expect(&s, 5, 0x0000AA00), 1);
}

#[test]
fn rv32ui_p_sh() {
    let mut s = li(6, SCRATCH);
    s.extend(li(7, 0xBEEF));
    s.push(sh(7, 6, 2));
    s.push(lw(5, 6, 0));
    assert_eq!(run_expect(&s, 5, 0xBEEF0000), 1);
}

#[test]
fn rv32ui_p_sw() {
    let mut s = li(6, SCRATCH);
    s.extend(li(7, 0x12345678));
    s.push(sw(7, 6, 0));
    s.push(lw(5, 6, 0));
    assert_eq!(run_expect(&s, 5, 0x12345678), 1);
}

#[test]
fn rv32ui_p_ma_data() {
    // Misaligned halfword access composes bytes rather than faulting.
    let mut s = li(6, SCRATCH);
    s.extend(li(7, 0x22));
    s.push(sb(7, 6, 1));
    s.extend(li(7, 0x33));
    s.push(sb(7, 6, 2));
    s.push(lhu(5, 6, 1));
    assert_eq!(run_expect(&s, 5, 0x3322), 1);
}

#[test]
fn rv32ui_p_ld_st() {
    // This image signals completion at the alternate to-host address.
    let mut body = li(6, SCRATCH);
    body.extend(li(7, 0xCAFEBABE));
    body.push(sw(7, 6, 4));
    body.push(lw(5, 6, 4));
    push_check(&mut body, 5, 0xCAFEBABE);
    assert_eq!(harness(&body, 0x80002000), 1);
}

#[test]
fn rv32ui_p_st_ld() {
    let mut s = li(6, SCRATCH);
    s.extend(li(7, 0x00C0FFEE));
    s.push(sw(7, 6, 8));
    s.push(lw(5, 6, 8));
    assert_eq!(run_expect(&s, 5, 0x00C0FFEE), 1);
}

#[test]
fn rv32ui_p_simple() {
    assert_eq!(run_expect(&[], 0, 0), 1);
}

#[test]
fn rv32ui_p_fence_i() {
    let s = vec![enc_i(0, 0, 0, 0, 0x0F)];
    assert_eq!(run_expect(&s, 0, 0), 1);
}

// --- RV32UM: multiply/divide tests ---

#[test]
fn rv32um_p_mul() {
    let mut s = li(5, 0xFFFFFFFD);
    s.extend(li(6, 5));
    s.push(enc_r(0x01, 6, 5, 0, 7, 0x33));
    assert_eq!(run_expect(&s, 7, 0xFFFFFFF1), 1);
}

#[test]
fn rv32um_p_mulh() {
    let mut s = li(5, 0x80000000);
    s.extend(li(6, 0x80000000));
    s.push(enc_r(0x01, 6, 5, 1, 7, 0x33));
    assert_eq!(run_expect(&s, 7, 0x40000000), 1);
}

#[test]
fn rv32um_p_mulhsu() {
    let mut s = li(5, 0xFFFFFFFF);
    s.extend(li(6, 0xFFFFFFFF));
    s.push(enc_r(0x01, 6, 5, 2, 7, 0x33));
    assert_eq!(run_expect(&s, 7, 0xFFFFFFFF), 1);
}

#[test]
fn rv32um_p_mulhu() {
    let mut s = li(5, 0xFFFFFFFF);
    s.extend(li(6, 0xFFFFFFFF));
    s.push(enc_r(0x01, 6, 5, 3, 7, 0x33));
    assert_eq!(run_expect(&s, 7, 0xFFFFFFFE), 1);
}

#[test]
fn rv32um_p_div() {
    let mut s = li(5, 0xFFFFFFEC);  // -20
    s.extend(li(6, 3));
    s.push(enc_r(0x01, 6, 5, 4, 7, 0x33));
    assert_eq!(run_expect(&s, 7, 0xFFFFFFFA), 1);  // -6, truncated
}

#[test]
fn rv32um_p_divu() {
    let mut s = li(5, 0xFFFFFFFF);
    s.extend(li(6, 2));
    s.push(enc_r(0x01, 6, 5, 5, 7, 0x33));
    assert_eq!(run_expect(&s, 7, 0x7FFFFFFF), 1);
}

#[test]
fn rv32um_p_rem() {
    let mut s = li(5, 0xFFFFFFEC);  // -20
    s.extend(li(6, 3));
    s.push(enc_r(0x01, 6, 5, 6, 7, 0x33));
    assert_eq!(run_expect(&s, 7, 0xFFFFFFFE), 1);  // -2, dividend's sign
}

#[test]
fn rv32um_p_remu() {
    let mut s = li(5, 0xFFFFFFFF);
    s.extend(li(6, 10));
    s.push(enc_r(0x01, 6, 5, 7, 7, 0x33));
    assert_eq!(run_expect(&s, 7, 5), 1);
}

// --- RV32UA: atomic tests ---

/// A body that stores `init` at the scratch word, runs the atomic with
/// `rs2val`, and checks both the destination (old value) and the memory
/// word afterwards.
fn amo_body(f5: u32, init: u32, rs2val: u32, expect_mem: u32) -> Vec<u32> {
    let mut body = li(6, SCRATCH);
    body.extend(li(7, init));
    body.push(sw(7, 6, 0));
    body.extend(li(8, rs2val));
    body.push(amo(f5, 5, 6, 8));
    push_check(&mut body, 5, init);
    body.push(lw(9, 6, 0));
    push_check(&mut body, 9, expect_mem);
    body
}

#[test]
fn rv32ua_p_amoswap_w() {
    assert_eq!(harness(&amo_body(0x01, 0x111, 0x222, 0x222), 0x80001000), 1);
}

#[test]
fn rv32ua_p_amoadd_w() {
    assert_eq!(harness(&amo_body(0x00, 10, 5, 15), 0x80001000), 1);
}

#[test]
fn rv32ua_p_amoand_w() {
    assert_eq!(harness(&amo_body(0x0C, 0xFF00FF00, 0x0FF00FF0, 0x0F000F00), 0x80001000), 1);
}

#[test]
fn rv32ua_p_amoor_w() {
    assert_eq!(harness(&amo_body(0x08, 0xFF00FF00, 0x0FF00FF0, 0xFFF0FFF0), 0x80001000), 1);
}

#[test]
fn rv32ua_p_amoxor_w() {
    assert_eq!(harness(&amo_body(0x04, 0xFF00FF00, 0x0FF00FF0, 0xF0F0F0F0), 0x80001000), 1);
}

#[test]
fn rv32ua_p_amomax_w() {
    // Signed: -5 against 3 keeps 3.
    assert_eq!(harness(&amo_body(0x14, 0xFFFFFFFB, 3, 3), 0x80001000), 1);
}

#[test]
fn rv32ua_p_amomin_w() {
    // Signed: -5 against 3 keeps -5.
    assert_eq!(harness(&amo_body(0x10, 0xFFFFFFFB, 3, 0xFFFFFFFB), 0x80001000), 1);
}

#[test]
fn rv32ua_p_amomaxu_w() {
    // Unsigned: 0xFFFFFFFB is the larger.
    assert_eq!(harness(&amo_body(0x1C, 0xFFFFFFFB, 3, 0xFFFFFFFB), 0x80001000), 1);
}

#[test]
fn rv32ua_p_amominu_w() {
    assert_eq!(harness(&amo_body(0x18, 0xFFFFFFFB, 3, 3), 0x80001000), 1);
}

#[test]
fn rv32ua_p_lrsc() {
    let mut body = li(6, SCRATCH);
    body.extend(li(7, 0xAB));
    body.push(sw(7, 6, 0));
    body.push(amo(0x02, 5, 6, 0));  // lr.w x5
    push_check(&mut body, 5, 0xAB);
    body.extend(li(7, 0xCD));
    body.push(amo(0x03, 8, 6, 7));  // sc.w succeeds: reservation held
    push_check(&mut body, 8, 0);
    body.push(lw(9, 6, 0));
    push_check(&mut body, 9, 0xCD);
    body.push(amo(0x03, 10, 6, 7));  // sc.w fails: reservation consumed
    push_check(&mut body, 10, 1);
    // A store to the reserved address invalidates a fresh reservation.
    body.push(amo(0x02, 5, 6, 0));  // lr.w again
    body.push(sw(7, 6, 0));  // intervening store
    body.push(amo(0x03, 11, 6, 7));  // sc.w must fail
    push_check(&mut body, 11, 1);
    assert_eq!(harness(&body, 0x80001000), 1);
}

#[test]
fn amomaxu_takes_larger_operand() {
    // Second operand larger: memory takes it.
    assert_eq!(harness(&amo_body(0x1C, 3, 0x80000000, 0x80000000), 0x80001000), 1);
}

// --- RV32MI: machine-mode tests ---

#[test]
fn rv32mi_p_scall() {
    assert_eq!(run_trap_expect(&[0x00000073], 11), 1);
}

#[test]
fn rv32mi_p_sbreak() {
    assert_eq!(run_trap_expect(&[0x00100073], 3), 1);
}

#[test]
fn rv32mi_p_breakpoint() {
    assert_eq!(run_trap_expect(&[0x00100073], 3), 1);
}

#[test]
fn rv32mi_p_illegal() {
    assert_eq!(run_trap_expect(&[0x00000000], 2), 1);
}

#[test]
fn rv32mi_p_ma_fetch() {
    // A jump to a target that is not four-byte aligned.
    assert_eq!(run_trap_expect(&[enc_j(2, 0)], 0), 1);
}

#[test]
fn branch_to_misaligned_target_traps_on_fetch() {
    // Branches do not check alignment; the misaligned counter they leave
    // behind faults at the next fetch with the misalignment cause.
    assert_eq!(run_trap_expect(&[enc_b(2, 0, 0, 0)], 0), 1);
}

#[test]
fn rv32mi_p_shamt() {
    // A shift-immediate encoding whose high bits are neither of the two
    // legal constants is not an instruction.
    assert_eq!(run_trap_expect(&[enc_i(0x403, 5, 1, 6, 0x13)], 2), 1);
}

#[test]
fn rv32mi_p_csr() {
    let mut s = li(5, 0x5A5AA5A5);
    s.push(csrw(0x340, 5));  // mscratch
    s.push(csrr(6, 0x340));
    assert_eq!(run_expect(&s, 6, 0x5A5AA5A5), 1);
}

#[test]
fn rv32mi_p_mcsr() {
    // misa advertises RV32 with the I, M, A and S extensions; mhartid is 0.
    let mut body = vec![csrr(5, 0x301)];
    push_check(&mut body, 5, 0x40041101);
    body.push(csrr(6, 0xF14));
    push_check(&mut body, 6, 0);
    assert_eq!(harness(&body, 0x80001000), 1);
}

#[test]
fn rv32mi_p_pmpaddr() {
    let mut s = li(5, 0x1234);
    s.push(csrw(0x3B0, 5));
    s.push(csrr(6, 0x3B0));
    assert_eq!(run_expect(&s, 6, 0x1234), 1);
}

#[test]
fn rv32mi_p_zicntr() {
    // The retire counter advances once per executed instruction.
    let s = vec![csrr(5, 0xB02), nop(), nop(), csrr(6, 0xB02), enc_r(0x20, 5, 6, 0, 7, 0x33)];
    assert_eq!(run_expect(&s, 7, 3), 1);
}

#[test]
fn rv32mi_p_instret_overflow() {
    // Writing the low half arms the just-loaded flag; the next retired
    // instruction carries into the high half.
    let mut s = li(5, 0xFFFFFFFF);
    s.push(csrw(0xB02, 5));
    s.push(nop());
    s.push(csrr(6, 0xB82));
    assert_eq!(run_expect(&s, 6, 1), 1);
}

#[test]
fn rv32mi_p_lh_misaligned() {
    let mut s = li(6, SCRATCH);
    s.extend(li(7, 0x44));
    s.push(sb(7, 6, 1));
    s.extend(li(7, 0x99));
    s.push(sb(7, 6, 2));
    s.push(lh(5, 6, 1));
    assert_eq!(run_expect(&s, 5, 0xFFFF9944), 1);
}

#[test]
fn rv32mi_p_sh_misaligned() {
    let mut s = li(6, SCRATCH);
    s.extend(li(7, 0xBEEF));
    s.push(sh(7, 6, 1));
    s.push(lw(5, 6, 0));
    assert_eq!(run_expect(&s, 5, 0x00BEEF00), 1);
}

#[test]
fn rv32mi_p_lw_misaligned() {
    let mut s = li(6, SCRATCH);
    s.extend(li(7, 0x11223344));
    s.push(sw(7, 6, 0));
    s.extend(li(7, 0x55667788));
    s.push(sw(7, 6, 4));
    s.push(lw(5, 6, 2));
    assert_eq!(run_expect(&s, 5, 0x77881122), 1);
}

#[test]
fn rv32mi_p_sw_misaligned() {
    let mut s = li(6, SCRATCH);
    s.extend(li(7, 0xAABBCCDD));
    s.push(sw(7, 6, 2));
    s.push(lw(5, 6, 4));
    assert_eq!(run_expect(&s, 5, 0x0000AABB), 1);
}

#[test]
fn rv32mi_p_ma_addr() {
    let mut s = li(6, SCRATCH);
    s.extend(li(7, 0x11223344));
    s.push(sw(7, 6, 0));
    s.push(lhu(5, 6, 1));
    assert_eq!(run_expect(&s, 5, 0x2233), 1);
}

#[test]
fn amominu_takes_smaller_operand() {
    assert_eq!(harness(&amo_body(0x18, 0x80000000, 3, 3), 0x80001000), 1);
}
