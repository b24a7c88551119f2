use sim8086::cpu::{check_parity, check_sign, ExecError, Flag, CPU};
use sim8086::driver::Step;
use sim8086::fields::DecodeError;
use sim8086::model::{
    Add, Cmp, EABase, Instruction, Jump, JumpType, Loc, Mov, Reg, RegIndex, Region, Sub, EAC,
};

fn word(register: Reg) -> Loc {
    Loc::Reg(RegIndex { region: Region::Xtended, register })
}

fn mem(base: EABase, displacement: Option<i16>) -> Loc {
    Loc::EAC(EAC { base, displacement })
}

fn set(cpu: &mut CPU, register: Reg, value: u16) {
    cpu.set_dest(word(register), value).unwrap();
}

fn get(cpu: &CPU, register: Reg) -> u16 {
    cpu.get_src(word(register)).unwrap()
}

/// The flags as (P, Z, S, C).
fn flags(cpu: &CPU) -> (bool, bool, bool, bool) {
    (
        cpu.get_flag(Flag::Parity),
        cpu.get_flag(Flag::Zero),
        cpu.get_flag(Flag::Sign),
        cpu.get_flag(Flag::Carry),
    )
}

/// The flags that the integer result of an operation predicts.
fn predicted(result: i32) -> (bool, bool, bool, bool) {
    let reduced = result.rem_euclid(65536) as u16;
    let mut ones = 0;
    for bit in 0..8 {
        if reduced & (1 << bit) != 0 {
            ones += 1;
        }
    }
    (ones % 2 == 0, reduced == 0, reduced & 0x8000 != 0, !(0..65536).contains(&result))
}

fn run(cpu: &mut CPU, image: &[u8]) -> usize {
    let mut steps = 0;
    loop {
        match cpu.step(image) {
            Step::Halted => return steps,
            Step::Executed(_) => steps += 1,
            other => panic!("{:?}", other),
        }
        assert!(steps < 100_000);
    }
}

#[test]
fn new_machine_is_zeroed() {
    let cpu = CPU::new();
    assert!(cpu.registers.iter().all(|r| *r == 0));
    assert!(cpu.flags.iter().all(|f| !*f));
    assert!(cpu.memory.iter().all(|b| *b == 0));
    assert_eq!(cpu.memory.len(), 65536);
    assert_eq!(cpu.registers.len(), Reg::num());
    assert_eq!(cpu.flags.len(), Flag::num());
    assert_eq!(cpu.ip(), 0);
}

#[test]
fn flag_letters_and_slots() {
    assert_eq!(Flag::Parity.format(), 'P');
    assert_eq!(Flag::Zero.format(), 'Z');
    assert_eq!(Flag::Sign.format(), 'S');
    assert_eq!(Flag::Carry.format(), 'C');
    assert_eq!(Flag::num(), 4);
    let mut slots = vec![
        Flag::Parity.index(),
        Flag::Zero.index(),
        Flag::Carry.index(),
        Flag::Sign.index(),
    ];
    slots.sort();
    assert_eq!(slots, vec![0, 1, 2, 3]);
}

#[test]
fn flags_are_set_one_by_one() {
    let mut cpu = CPU::new();
    cpu.set_flag(Flag::Sign, true);
    assert_eq!(flags(&cpu), (false, false, true, false));
    cpu.set_flag(Flag::Parity, true);
    cpu.set_flag(Flag::Sign, false);
    assert_eq!(flags(&cpu), (true, false, false, false));
}

#[test]
fn parity_counts_the_low_byte_only() {
    assert!(check_parity(0));
    assert!(!check_parity(1));
    assert!(check_parity(3));
    assert!(!check_parity(7));
    assert!(check_parity(0xFF));
    assert!(!check_parity(0x80));
    assert!(check_parity(0x0100));
    assert!(!check_parity(0xFF01));
    for n in 0..=65535u16 {
        assert_eq!(check_parity(n), (n & 0xff).count_ones() % 2 == 0);
    }
}

#[test]
fn sign_is_the_highest_bit() {
    assert!(!check_sign(0));
    assert!(!check_sign(0x7FFF));
    assert!(check_sign(0x8000));
    assert!(check_sign(0xFFFF));
}

#[test]
fn immediates_as_sources() {
    let cpu = CPU::new();
    assert_eq!(cpu.get_src(Loc::Imm8(0xFF)), Ok(0x00FF));
    assert_eq!(cpu.get_src(Loc::Imm16(0xFFF6)), Ok(0xFFF6));
}

#[test]
fn regions_share_the_register() {
    let mut cpu = CPU::new();
    let al = Loc::Reg(RegIndex { region: Region::Low, register: Reg::A });
    let ah = Loc::Reg(RegIndex { region: Region::High, register: Reg::A });
    cpu.set_dest(al, 0x1234).unwrap();
    assert_eq!(cpu.get_src(ah), Ok(0x1234));
    assert_eq!(get(&cpu, Reg::A), 0x1234);
}

#[test]
fn memory_words_are_little_endian() {
    let mut cpu = CPU::new();
    cpu.set_dest(mem(EABase::DirectAddr(1000), None), 0xABCD).unwrap();
    assert_eq!(cpu.memory[1000], 0xCD);
    assert_eq!(cpu.memory[1001], 0xAB);
    assert_eq!(cpu.get_src(mem(EABase::DirectAddr(1000), None)), Ok(0xABCD));
    assert_eq!(cpu.get_src(mem(EABase::DirectAddr(1001), None)), Ok(0x00AB));
    assert_eq!(cpu.get_src(mem(EABase::DirectAddr(999), None)), Ok(0xCD00));
}

#[test]
fn base_values() {
    let mut cpu = CPU::new();
    set(&mut cpu, Reg::B, 0x1000);
    set(&mut cpu, Reg::BP, 0x2000);
    set(&mut cpu, Reg::SI, 0x0300);
    set(&mut cpu, Reg::DI, 0x0040);
    assert_eq!(cpu.get_offset(EABase::DirectAddr(77)), 77);
    assert_eq!(cpu.get_offset(EABase::Bx), 0x1000);
    assert_eq!(cpu.get_offset(EABase::Bp), 0x2000);
    assert_eq!(cpu.get_offset(EABase::Si), 0x0300);
    assert_eq!(cpu.get_offset(EABase::Di), 0x0040);
    assert_eq!(cpu.get_offset(EABase::BxSi), 0x1300);
    assert_eq!(cpu.get_offset(EABase::BxDi), 0x1040);
    assert_eq!(cpu.get_offset(EABase::BpSi), 0x2300);
    assert_eq!(cpu.get_offset(EABase::BpDi), 0x2040);
}

#[test]
fn base_sums_wrap() {
    let mut cpu = CPU::new();
    set(&mut cpu, Reg::BP, 0xFFFF);
    set(&mut cpu, Reg::SI, 0x0003);
    assert_eq!(cpu.get_offset(EABase::BpSi), 0x0002);
    set(&mut cpu, Reg::B, 0x8000);
    set(&mut cpu, Reg::DI, 0x8000);
    assert_eq!(cpu.get_offset(EABase::BxDi), 0);
}

#[test]
fn displacement_moves_the_address() {
    let mut cpu = CPU::new();
    set(&mut cpu, Reg::B, 100);
    cpu.set_dest(mem(EABase::Bx, Some(-4)), 0x0102).unwrap();
    assert_eq!(cpu.memory[96], 0x02);
    assert_eq!(cpu.memory[97], 0x01);
    cpu.set_dest(mem(EABase::Bx, Some(4)), 0x0304).unwrap();
    assert_eq!(cpu.get_src(mem(EABase::DirectAddr(104), None)), Ok(0x0304));
}

#[test]
fn last_word_of_memory() {
    let mut cpu = CPU::new();
    assert_eq!(cpu.set_dest(mem(EABase::DirectAddr(65534), None), 0xBEEF), Ok(()));
    assert_eq!(cpu.memory[65534], 0xEF);
    assert_eq!(cpu.memory[65535], 0xBE);
    assert_eq!(cpu.get_src(mem(EABase::DirectAddr(65534), None)), Ok(0xBEEF));
}

#[test]
fn words_outside_memory() {
    let mut cpu = CPU::new();
    assert_eq!(cpu.get_src(mem(EABase::DirectAddr(65535), None)), Err(ExecError::OutOfBounds));
    assert_eq!(cpu.get_src(mem(EABase::Bx, Some(-1))), Err(ExecError::OutOfBounds));
    assert_eq!(
        cpu.set_dest(mem(EABase::DirectAddr(65535), None), 1),
        Err(ExecError::OutOfBounds)
    );
    set(&mut cpu, Reg::SI, 0xFFF0);
    assert_eq!(cpu.get_src(mem(EABase::Si, Some(0x10))), Err(ExecError::OutOfBounds));
    assert_eq!(cpu.get_src(mem(EABase::Si, Some(0x0E))), Ok(0));
    assert!(cpu.memory.iter().all(|b| *b == 0));
}

#[test]
fn failed_instruction_changes_nothing() {
    let mut cpu = CPU::new();
    set(&mut cpu, Reg::A, 5);
    cpu.set_flag(Flag::Carry, true);
    let bad = mem(EABase::DirectAddr(65535), None);
    let before = (cpu.registers, cpu.flags);
    assert_eq!(
        cpu.exec(Instruction::Add(Add { src: word(Reg::A), dst: bad })),
        Err(ExecError::OutOfBounds)
    );
    assert_eq!(
        cpu.exec(Instruction::Sub(Sub { src: bad, dst: word(Reg::A) })),
        Err(ExecError::OutOfBounds)
    );
    assert_eq!(
        cpu.exec(Instruction::Mov(Mov { src: word(Reg::A), dst: bad })),
        Err(ExecError::OutOfBounds)
    );
    assert_eq!(
        cpu.exec(Instruction::Cmp(Cmp { src: word(Reg::A), dst: bad })),
        Err(ExecError::OutOfBounds)
    );
    assert_eq!((cpu.registers, cpu.flags), before);
    assert!(cpu.memory.iter().all(|b| *b == 0));
}

#[test]
fn mov_touches_no_flag() {
    let mut cpu = CPU::new();
    cpu.set_flag(Flag::Zero, true);
    cpu.set_flag(Flag::Sign, true);
    assert_eq!(
        cpu.exec(Instruction::Mov(Mov { src: Loc::Imm16(0), dst: word(Reg::D) })),
        Ok(0)
    );
    assert_eq!(flags(&cpu), (false, true, true, false));
    assert_eq!(
        cpu.exec(Instruction::Mov(Mov { src: Loc::Imm16(77), dst: mem(EABase::Bx, Some(10)) })),
        Ok(0)
    );
    assert_eq!(cpu.get_src(mem(EABase::DirectAddr(10), None)), Ok(77));
    assert_eq!(flags(&cpu), (false, true, true, false));
}

#[test]
fn add_sets_the_predicted_flags() {
    let cases: [(u16, u16); 8] = [
        (1, 2),
        (0xFFFF, 1),
        (0x7FFF, 1),
        (0x8000, 0x8000),
        (0, 0),
        (0x00FF, 0x0001),
        (0xFFFF, 0xFFFF),
        (0x1234, 0x4321),
    ];
    for (d, s) in cases {
        let mut cpu = CPU::new();
        set(&mut cpu, Reg::A, d);
        set(&mut cpu, Reg::B, s);
        assert_eq!(
            cpu.exec(Instruction::Add(Add { src: word(Reg::B), dst: word(Reg::A) })),
            Ok(0)
        );
        assert_eq!(get(&cpu, Reg::A), d.wrapping_add(s));
        assert_eq!(get(&cpu, Reg::B), s);
        assert_eq!(flags(&cpu), predicted(d as i32 + s as i32));
    }
}

#[test]
fn add_exact_flags() {
    let mut cpu = CPU::new();
    set(&mut cpu, Reg::A, 0xFFFF);
    cpu.exec(Instruction::Add(Add { src: Loc::Imm8(1), dst: word(Reg::A) })).unwrap();
    assert_eq!(get(&cpu, Reg::A), 0);
    assert_eq!(flags(&cpu), (true, true, false, true));
    cpu.exec(Instruction::Add(Add { src: Loc::Imm16(0x8001), dst: word(Reg::A) })).unwrap();
    assert_eq!(get(&cpu, Reg::A), 0x8001);
    assert_eq!(flags(&cpu), (false, false, true, false));
}

#[test]
fn sub_sets_the_predicted_flags() {
    let cases: [(u16, u16); 7] =
        [(5, 3), (3, 5), (0, 1), (0x8000, 1), (7, 7), (0xFFFF, 0xFFFF), (0, 0xFFFF)];
    for (d, s) in cases {
        let mut cpu = CPU::new();
        set(&mut cpu, Reg::C, d);
        set(&mut cpu, Reg::D, s);
        assert_eq!(
            cpu.exec(Instruction::Sub(Sub { src: word(Reg::D), dst: word(Reg::C) })),
            Ok(0)
        );
        assert_eq!(get(&cpu, Reg::C), d.wrapping_sub(s));
        assert_eq!(flags(&cpu), predicted(d as i32 - s as i32));
    }
}

#[test]
fn sub_exact_flags() {
    let mut cpu = CPU::new();
    cpu.exec(Instruction::Sub(Sub { src: Loc::Imm8(1), dst: word(Reg::A) })).unwrap();
    assert_eq!(get(&cpu, Reg::A), 0xFFFF);
    assert_eq!(flags(&cpu), (true, false, true, true));
}

#[test]
fn cmp_is_a_subtraction_that_keeps_nothing() {
    let cases: [(u16, u16); 5] = [(5, 3), (3, 5), (7, 7), (0, 0x8000), (0x8000, 0)];
    for (d, s) in cases {
        let mut cpu = CPU::new();
        set(&mut cpu, Reg::C, d);
        set(&mut cpu, Reg::D, s);
        let before = cpu.registers;
        assert_eq!(
            cpu.exec(Instruction::Cmp(Cmp { src: word(Reg::D), dst: word(Reg::C) })),
            Ok(0)
        );
        assert_eq!(cpu.registers, before);
        assert_eq!(flags(&cpu), predicted(d as i32 - s as i32));
    }
    let mut cpu = CPU::new();
    set(&mut cpu, Reg::C, 3);
    cpu.exec(Instruction::Cmp(Cmp { src: Loc::Imm8(5), dst: word(Reg::C) })).unwrap();
    // 3 - 5 borrows and is negative
    assert_eq!(flags(&cpu), (false, false, true, true));
}

#[test]
fn arithmetic_on_memory() {
    let mut cpu = CPU::new();
    let cell = mem(EABase::DirectAddr(200), None);
    cpu.set_dest(cell, 0x00FF).unwrap();
    cpu.exec(Instruction::Add(Add { src: Loc::Imm8(1), dst: cell })).unwrap();
    assert_eq!(cpu.get_src(cell), Ok(0x0100));
    assert_eq!(cpu.memory[200], 0x00);
    assert_eq!(cpu.memory[201], 0x01);
    assert_eq!(flags(&cpu), (true, false, false, false));
}

fn taken(cpu: &mut CPU, typ: JumpType) -> Result<bool, ExecError> {
    cpu.exec(Instruction::Jump(Jump { typ, offset: -7 })).map(|offset| match offset {
        -7 => true,
        0 => false,
        other => panic!("{}", other),
    })
}

#[test]
fn flag_jumps_follow_the_table() {
    for bits in 0..16u8 {
        let (p, z, s, c) = (bits & 1 != 0, bits & 2 != 0, bits & 4 != 0, bits & 8 != 0);
        let mut cpu = CPU::new();
        cpu.set_flag(Flag::Parity, p);
        cpu.set_flag(Flag::Zero, z);
        cpu.set_flag(Flag::Sign, s);
        cpu.set_flag(Flag::Carry, c);
        assert_eq!(taken(&mut cpu, JumpType::Jb), Ok(c));
        assert_eq!(taken(&mut cpu, JumpType::Jnb), Ok(!c));
        assert_eq!(taken(&mut cpu, JumpType::Je), Ok(z));
        assert_eq!(taken(&mut cpu, JumpType::Jnz), Ok(!z));
        assert_eq!(taken(&mut cpu, JumpType::Jbe), Ok(c || z));
        assert_eq!(taken(&mut cpu, JumpType::Ja), Ok(!c && !z));
        assert_eq!(taken(&mut cpu, JumpType::Js), Ok(s));
        assert_eq!(taken(&mut cpu, JumpType::Jns), Ok(!s));
        assert_eq!(taken(&mut cpu, JumpType::Jp), Ok(p));
        assert_eq!(taken(&mut cpu, JumpType::Jnp), Ok(!p));
        assert_eq!(flags(&cpu), (p, z, s, c));
        assert!(cpu.registers.iter().all(|r| *r == 0));
    }
}

#[test]
fn overflow_jumps_are_not_implemented() {
    let mut cpu = CPU::new();
    for typ in [
        JumpType::Jo,
        JumpType::Jno,
        JumpType::Jl,
        JumpType::Jnl,
        JumpType::Jle,
        JumpType::Jg,
    ] {
        assert_eq!(taken(&mut cpu, typ), Err(ExecError::NotImplemented));
    }
    assert!(cpu.registers.iter().all(|r| *r == 0));
}

#[test]
fn loops_count_cx_down() {
    let mut cpu = CPU::new();
    set(&mut cpu, Reg::C, 2);
    assert_eq!(taken(&mut cpu, JumpType::Loop), Ok(true));
    assert_eq!(get(&cpu, Reg::C), 1);
    assert_eq!(taken(&mut cpu, JumpType::Loop), Ok(false));
    assert_eq!(get(&cpu, Reg::C), 0);
    assert_eq!(taken(&mut cpu, JumpType::Loop), Ok(true));
    assert_eq!(get(&cpu, Reg::C), 0xFFFF);
    assert_eq!(flags(&cpu), (false, false, false, false));
}

#[test]
fn conditional_loops() {
    let mut cpu = CPU::new();
    set(&mut cpu, Reg::C, 5);
    assert_eq!(taken(&mut cpu, JumpType::Loopnz), Ok(true));
    assert_eq!(taken(&mut cpu, JumpType::Loopz), Ok(false));
    assert_eq!(get(&cpu, Reg::C), 3);
    cpu.set_flag(Flag::Zero, true);
    assert_eq!(taken(&mut cpu, JumpType::Loopnz), Ok(false));
    assert_eq!(taken(&mut cpu, JumpType::Loopz), Ok(true));
    assert_eq!(get(&cpu, Reg::C), 1);
    assert_eq!(taken(&mut cpu, JumpType::Loopz), Ok(false));
    assert_eq!(get(&cpu, Reg::C), 0);
}

#[test]
fn jcxz_tests_cx_and_keeps_it() {
    let mut cpu = CPU::new();
    assert_eq!(taken(&mut cpu, JumpType::Jcxz), Ok(true));
    set(&mut cpu, Reg::C, 1);
    assert_eq!(taken(&mut cpu, JumpType::Jcxz), Ok(false));
    assert_eq!(get(&cpu, Reg::C), 1);
}

#[test]
fn instruction_pointer_access() {
    let mut cpu = CPU::new();
    cpu.set_ip(0x1234);
    assert_eq!(cpu.ip(), 0x1234);
    assert_eq!(get(&cpu, Reg::IP), 0x1234);
    assert_eq!(cpu.registers[Reg::IP.index()], 0x1234);
}

#[test]
fn advance_adds_length_and_offset() {
    let mut cpu = CPU::new();
    cpu.set_ip(100);
    cpu.advance(3, 0);
    assert_eq!(cpu.ip(), 103);
    cpu.advance(2, -12);
    assert_eq!(cpu.ip(), 93);
    cpu.advance(2, 127);
    assert_eq!(cpu.ip(), 222);
}

#[test]
fn advance_wraps_at_16_bits() {
    let mut cpu = CPU::new();
    cpu.set_ip(0xFFFE);
    cpu.advance(3, 0);
    assert_eq!(cpu.ip(), 1);
    cpu.set_ip(0);
    cpu.advance(2, -16);
    assert_eq!(cpu.ip(), 65522);
    cpu.set_ip(0xFFFF);
    cpu.advance(65536 + 65535, 127);
    assert_eq!(cpu.ip(), 0xFFFFu16.wrapping_add(65535).wrapping_add(127));
}

#[test]
fn simulation_of_three_instructions() {
    let image = [0xB8u8, 0x01, 0x00, 0xBB, 0x02, 0x00, 0x01, 0xD8];
    let mut cpu = CPU::new();
    assert_eq!(run(&mut cpu, &image), 3);
    assert_eq!(get(&cpu, Reg::A), 3);
    assert_eq!(get(&cpu, Reg::B), 2);
    assert_eq!(cpu.ip(), 8);
    // the sum 3 has two bits set, an even number: parity is the one flag set
    assert_eq!(flags(&cpu), (true, false, false, false));
    for register in [Reg::C, Reg::D, Reg::SP, Reg::BP, Reg::SI, Reg::DI] {
        assert_eq!(get(&cpu, register), 0);
    }
}

#[test]
fn step_by_step() {
    let image = [0xB8u8, 0x01, 0x00, 0x01, 0xD8];
    let mut cpu = CPU::new();
    assert_eq!(
        cpu.step(&image),
        Step::Executed(Instruction::Mov(Mov { src: Loc::Imm16(1), dst: word(Reg::A) }))
    );
    assert_eq!(cpu.ip(), 3);
    assert_eq!(
        cpu.step(&image),
        Step::Executed(Instruction::Add(Add { src: word(Reg::B), dst: word(Reg::A) }))
    );
    assert_eq!(cpu.ip(), 5);
    assert_eq!(cpu.step(&image), Step::Halted);
    assert_eq!(cpu.ip(), 5);
}

#[test]
fn taken_jump_moves_the_pointer_back() {
    // mov cx, 3; sub cx, 1; jnz to the sub
    let image = [0xB9u8, 0x03, 0x00, 0x83, 0xE9, 0x01, 0x75, 0xFB];
    let mut cpu = CPU::new();
    cpu.step(&image);
    cpu.step(&image);
    assert_eq!(cpu.ip(), 6);
    assert_eq!(
        cpu.step(&image),
        Step::Executed(Instruction::Jump(Jump { typ: JumpType::Jnz, offset: -5 }))
    );
    assert_eq!(cpu.ip(), 3);
    let mut cpu = CPU::new();
    assert_eq!(run(&mut cpu, &image), 1 + 3 * 2);
    assert_eq!(get(&cpu, Reg::C), 0);
    assert_eq!(cpu.ip(), 8);
    assert_eq!(flags(&cpu), (true, true, false, false));
}

#[test]
fn jump_that_is_not_taken_moves_past_it() {
    let image = [0x74u8, 0x10, 0x75, 0x00];
    let mut cpu = CPU::new();
    cpu.step(&image);
    assert_eq!(cpu.ip(), 2);
    cpu.step(&image);
    assert_eq!(cpu.ip(), 4);
}

#[test]
fn loop_instruction_in_a_program() {
    // mov cx, 4; add ax, 2; loop to the add
    let image = [0xB9u8, 0x04, 0x00, 0x05, 0x02, 0x00, 0xE2, 0xFB];
    let mut cpu = CPU::new();
    run(&mut cpu, &image);
    assert_eq!(get(&cpu, Reg::A), 8);
    assert_eq!(get(&cpu, Reg::C), 0);
    assert_eq!(cpu.ip(), 8);
}

#[test]
fn program_with_memory() {
    // mov bx, 1000; mov word [bx + 4], 500; mov dx, [bx + 4]; add dx, [1004]
    let image = [
        0xBBu8, 0xE8, 0x03, 0xC7, 0x47, 0x04, 0xF4, 0x01, 0x8B, 0x57, 0x04, 0x03, 0x16, 0xEC,
        0x03,
    ];
    let mut cpu = CPU::new();
    assert_eq!(run(&mut cpu, &image), 4);
    assert_eq!(get(&cpu, Reg::D), 1000);
    assert_eq!(cpu.memory[1004], 0xF4);
    assert_eq!(cpu.memory[1005], 0x01);
    assert_eq!(cpu.ip(), 15);
}

#[test]
fn step_reports_what_it_cannot_decode() {
    let image = [0xB8u8, 0x01, 0x00, 0xFF];
    let mut cpu = CPU::new();
    cpu.step(&image);
    let registers = cpu.registers;
    assert_eq!(cpu.step(&image), Step::Undecodable(DecodeError::UnknownOpcode(0xFF)));
    assert_eq!(cpu.registers, registers);
    let image = [0xB8u8, 0x01];
    let mut cpu = CPU::new();
    assert_eq!(cpu.step(&image), Step::Undecodable(DecodeError::UnexpectedEnd));
    assert_eq!(cpu.ip(), 0);
}

#[test]
fn step_reports_what_it_cannot_execute() {
    let image = [0x70u8, 0x02];
    let mut cpu = CPU::new();
    assert_eq!(
        cpu.step(&image),
        Step::Failed(
            Instruction::Jump(Jump { typ: JumpType::Jo, offset: 2 }),
            ExecError::NotImplemented
        )
    );
    assert_eq!(cpu.ip(), 0);
    // mov ax, [65535]
    let image = [0xA1u8, 0xFF, 0xFF];
    let mut cpu = CPU::new();
    assert_eq!(
        cpu.step(&image),
        Step::Failed(
            Instruction::Mov(Mov { src: mem(EABase::DirectAddr(65535), None), dst: word(Reg::A) }),
            ExecError::OutOfBounds
        )
    );
    assert_eq!(cpu.ip(), 0);
}

#[test]
fn empty_image_halts_at_once() {
    let mut cpu = CPU::new();
    assert_eq!(cpu.step(&[]), Step::Halted);
    assert_eq!(cpu.ip(), 0);
}
