use td4::cpu::Cpu;
use td4::error::CpuError;
use td4::opcode::Opcode;
use td4::opcode::encode;

/// A program whose word at address `i` is just `i`, so a later `fetch`
/// reveals where the program counter landed.
fn marked_cpu() -> Cpu {
    let mut cpu = Cpu::new();
    let markers: Vec<u8> = (0u8..16u8).collect();
    cpu.load(markers);
    cpu
}

const ALL_OPCODES: [Opcode; 12] = [
    Opcode::AddA,
    Opcode::AddB,
    Opcode::MovA,
    Opcode::MovB,
    Opcode::MovAB,
    Opcode::MovBA,
    Opcode::Jmp,
    Opcode::Jnc,
    Opcode::InA,
    Opcode::InB,
    Opcode::OutB,
    Opcode::OutIm,
];

#[test]
fn decode_names_all_twelve_opcodes() {
    let cpu = Cpu::new();
    assert_eq!(cpu.decode(0x05), Ok((Opcode::AddA, 5)));
    assert_eq!(cpu.decode(0x55), Ok((Opcode::AddB, 5)));
    assert_eq!(cpu.decode(0x3a), Ok((Opcode::MovA, 0xa)));
    assert_eq!(cpu.decode(0x7a), Ok((Opcode::MovB, 0xa)));
    assert_eq!(cpu.decode(0x10), Ok((Opcode::MovAB, 0)));
    assert_eq!(cpu.decode(0x40), Ok((Opcode::MovBA, 0)));
    assert_eq!(cpu.decode(0xf7), Ok((Opcode::Jmp, 7)));
    assert_eq!(cpu.decode(0xe7), Ok((Opcode::Jnc, 7)));
    assert_eq!(cpu.decode(0x20), Ok((Opcode::InA, 0)));
    assert_eq!(cpu.decode(0x60), Ok((Opcode::InB, 0)));
    assert_eq!(cpu.decode(0x90), Ok((Opcode::OutB, 0)));
    assert_eq!(cpu.decode(0xb6), Ok((Opcode::OutIm, 6)));
}

#[test]
fn decode_rejects_the_four_undefined_patterns() {
    let cpu = Cpu::new();
    for low in 0u8..16u8 {
        assert_eq!(cpu.decode(0x80 + low), Err(CpuError::UndefinedOpcode));
        assert_eq!(cpu.decode(0xa0 + low), Err(CpuError::UndefinedOpcode));
        assert_eq!(cpu.decode(0xc0 + low), Err(CpuError::UndefinedOpcode));
        assert_eq!(cpu.decode(0xd0 + low), Err(CpuError::UndefinedOpcode));
    }
}

#[test]
fn decode_forces_operand_zero_for_port_opcodes() {
    let cpu = Cpu::new();
    for low in 0u8..16u8 {
        assert_eq!(cpu.decode(0x20 + low), Ok((Opcode::InA, 0)));
        assert_eq!(cpu.decode(0x60 + low), Ok((Opcode::InB, 0)));
        assert_eq!(cpu.decode(0x90 + low), Ok((Opcode::OutB, 0)));
    }
}

#[test]
fn encode_then_decode_round_trips() {
    let cpu = Cpu::new();
    for &opcode in ALL_OPCODES.iter() {
        for operand in 0u8..16u8 {
            let word = encode(opcode, operand);
            let expected = match opcode {
                Opcode::InA | Opcode::InB | Opcode::OutB => 0,
                _ => operand,
            };
            assert_eq!(cpu.decode(word), Ok((opcode, expected)));
        }
    }
}

#[test]
fn fetch_on_empty_program_is_a_fault() {
    let cpu = Cpu::new();
    assert_eq!(cpu.fetch(), Err(CpuError::AddressOutOfRange));
}

#[test]
fn fetch_past_loaded_length_is_a_fault() {
    let mut cpu = Cpu::new();
    cpu.load(vec![0x30]);
    assert_eq!(cpu.fetch(), Ok(0x30));
    cpu.execute(Opcode::MovA, 0);
    assert_eq!(cpu.fetch(), Err(CpuError::AddressOutOfRange));
}

#[test]
fn load_replaces_the_program() {
    let mut cpu = Cpu::new();
    cpu.load(vec![0x11, 0x22]);
    cpu.load(vec![0x33]);
    assert_eq!(cpu.fetch(), Ok(0x33));
}

#[test]
fn add_a_truncates_and_overflow_shows_in_carry() {
    // Register A is observed through MovAB then OutB; the carry through Jnc.
    let mut cpu = marked_cpu();
    cpu.execute(Opcode::AddA, 9);
    cpu.execute(Opcode::AddA, 9);
    // 9 + 9 = 18: register A holds 2, carry is set.
    cpu.execute(Opcode::MovAB, 0);
    cpu.execute(Opcode::OutB, 0);
    assert_eq!(cpu.output(), 2);
}

#[test]
fn add_a_without_overflow_leaves_carry_clear() {
    let mut cpu = marked_cpu();
    cpu.execute(Opcode::AddA, 7);
    cpu.execute(Opcode::AddA, 8);
    // 7 + 8 = 15: no overflow, so a Jnc must branch.
    cpu.execute(Opcode::Jnc, 11);
    assert_eq!(cpu.fetch(), Ok(11));
    cpu.execute(Opcode::MovAB, 0);
    cpu.execute(Opcode::OutB, 0);
    assert_eq!(cpu.output(), 15);
}

#[test]
fn add_b_truncates_and_overflow_shows_in_carry() {
    let mut cpu = marked_cpu();
    cpu.execute(Opcode::AddB, 15);
    cpu.execute(Opcode::AddB, 4);
    // 15 + 4 = 19: register B holds 3 and carry is set.
    cpu.execute(Opcode::OutB, 0);
    assert_eq!(cpu.output(), 3);
    // OutB cleared the carry again, so this Jnc must branch.
    cpu.execute(Opcode::Jnc, 12);
    assert_eq!(cpu.fetch(), Ok(12));
}

#[test]
fn mov_opcodes_transfer_and_clear_carry() {
    let mut cpu = marked_cpu();
    cpu.execute(Opcode::MovA, 12);
    cpu.execute(Opcode::MovAB, 0);
    cpu.execute(Opcode::OutB, 0);
    assert_eq!(cpu.output(), 12);
    cpu.execute(Opcode::MovB, 5);
    cpu.execute(Opcode::OutB, 0);
    assert_eq!(cpu.output(), 5);
    cpu.execute(Opcode::MovBA, 0);
    cpu.execute(Opcode::MovAB, 0);
    cpu.execute(Opcode::OutB, 0);
    assert_eq!(cpu.output(), 5);
    // MovA after an overflow clears carry: Jnc then branches.
    cpu.execute(Opcode::AddA, 15);
    cpu.execute(Opcode::AddA, 15);
    cpu.execute(Opcode::MovA, 1);
    cpu.execute(Opcode::Jnc, 13);
    assert_eq!(cpu.fetch(), Ok(13));
}

#[test]
fn in_opcodes_load_the_input_latch() {
    // The CPU's input latch starts at zero and the driver never wrote it, so
    // InA must overwrite register A with zero.
    let mut cpu = marked_cpu();
    cpu.execute(Opcode::MovA, 9);
    cpu.execute(Opcode::InA, 0);
    cpu.execute(Opcode::MovAB, 0);
    cpu.execute(Opcode::OutB, 0);
    assert_eq!(cpu.output(), 0);
    cpu.execute(Opcode::MovB, 9);
    cpu.execute(Opcode::InB, 0);
    cpu.execute(Opcode::OutB, 0);
    assert_eq!(cpu.output(), 0);
}

#[test]
fn out_im_writes_operand_to_output() {
    let mut cpu = Cpu::new();
    cpu.load(vec![0x90]);
    cpu.execute(Opcode::OutIm, 14);
    assert_eq!(cpu.output(), 14);
}

#[test]
fn jmp_sets_pc_exactly_without_increment() {
    let mut cpu = marked_cpu();
    cpu.execute(Opcode::Jmp, 7);
    assert_eq!(cpu.fetch(), Ok(7));
    // Jumping to the current address must not advance past it.
    cpu.execute(Opcode::Jmp, 7);
    assert_eq!(cpu.fetch(), Ok(7));
    cpu.execute(Opcode::Jmp, 0);
    assert_eq!(cpu.fetch(), Ok(0));
}

#[test]
fn pc_advances_by_one_for_non_jump_opcodes() {
    let non_jumps = [
        Opcode::AddA,
        Opcode::AddB,
        Opcode::MovA,
        Opcode::MovB,
        Opcode::MovAB,
        Opcode::MovBA,
        Opcode::InA,
        Opcode::InB,
        Opcode::OutB,
        Opcode::OutIm,
    ];
    for &opcode in non_jumps.iter() {
        let mut cpu = marked_cpu();
        cpu.execute(opcode, 3);
        assert_eq!(cpu.fetch(), Ok(1));
    }
}

#[test]
fn pc_increment_wraps_at_the_4_bit_boundary() {
    let mut cpu = marked_cpu();
    cpu.execute(Opcode::Jmp, 15);
    cpu.execute(Opcode::MovA, 0);
    assert_eq!(cpu.fetch(), Ok(0));
}

#[test]
fn one_cycle_of_out_im_shows_on_the_port() {
    // Loading 0b1011_0011 (OutIm with operand 3) and running one full
    // fetch-decode-execute cycle must leave 0b0011 on the output port.
    let mut cpu = Cpu::new();
    cpu.load(vec![0b1011_0011]);
    let word = cpu.fetch().expect("address in range");
    let (opcode, operand) = cpu.decode(word).expect("defined opcode");
    assert_eq!(opcode, Opcode::OutIm);
    cpu.execute(opcode, operand);
    assert_eq!(cpu.output(), 0b0011);
}

#[test]
fn jnc_cycles_decide_independently() {
    // Two Jnc executions in a row: the first sees carry set and must stay
    // put; the second sees the carry it cleared and must branch.
    let mut cpu = marked_cpu();
    cpu.execute(Opcode::AddA, 15);
    cpu.execute(Opcode::AddA, 1);
    assert_eq!(cpu.fetch(), Ok(2));
    cpu.execute(Opcode::Jnc, 9);
    // Carry was set: the program counter is left exactly as fetch left it.
    assert_eq!(cpu.fetch(), Ok(2));
    cpu.execute(Opcode::Jnc, 9);
    // Carry was cleared by the previous Jnc: this one branches.
    assert_eq!(cpu.fetch(), Ok(9));
}

#[test]
fn driver_loop_runs_a_program_end_to_end() {
    // OutIm 1; OutIm 7; MovB 4; OutB; Jmp 0 — after four cycles the output
    // latch has followed 1, 7, 7, 4, and the jump restarts the program.
    let mut cpu = Cpu::new();
    cpu.load(vec![0xb1, 0xb7, 0x74, 0x90, 0xf0]);
    let mut seen: Vec<u8> = Vec::new();
    for _ in 0..5 {
        let word = cpu.fetch().expect("address in range");
        let (opcode, operand) = cpu.decode(word).expect("defined opcode");
        cpu.execute(opcode, operand);
        seen.push(cpu.output());
    }
    assert_eq!(seen, vec![1, 7, 7, 4, 4]);
    assert_eq!(cpu.fetch(), Ok(0xb1));
}
