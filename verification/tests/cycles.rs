use sim8086::cycles::{estimate_8086, estimate_8086_eac};
use sim8086::driver::decode_first_at;
use sim8086::model::{
    Add, Cmp, EABase, Instruction, Jump, JumpType, Loc, Mov, Reg, RegIndex, Region, Sub, EAC,
};

fn word(register: Reg) -> Loc {
    Loc::Reg(RegIndex { region: Region::Xtended, register })
}

fn mem(base: EABase, displacement: Option<i16>) -> Loc {
    Loc::EAC(EAC { base, displacement })
}

fn mov(dst: Loc, src: Loc) -> Option<usize> {
    estimate_8086(&Instruction::Mov(Mov { src, dst }))
}

#[test]
fn address_cycles() {
    assert_eq!(estimate_8086_eac(EAC::new(EABase::DirectAddr(1000), None)), 6);
    for base in [EABase::Bx, EABase::Bp, EABase::Si, EABase::Di] {
        assert_eq!(estimate_8086_eac(EAC::new(base, None)), 5);
        assert_eq!(estimate_8086_eac(EAC::new(base, Some(0))), 5);
        assert_eq!(estimate_8086_eac(EAC::new(base, Some(1))), 9);
        assert_eq!(estimate_8086_eac(EAC::new(base, Some(-1))), 9);
    }
    for base in [EABase::BpDi, EABase::BxSi] {
        assert_eq!(estimate_8086_eac(EAC::new(base, None)), 7);
        assert_eq!(estimate_8086_eac(EAC::new(base, Some(0))), 11);
        assert_eq!(estimate_8086_eac(EAC::new(base, Some(300))), 11);
    }
    for base in [EABase::BpSi, EABase::BxDi] {
        assert_eq!(estimate_8086_eac(EAC::new(base, None)), 8);
        assert_eq!(estimate_8086_eac(EAC::new(base, Some(0))), 12);
        assert_eq!(estimate_8086_eac(EAC::new(base, Some(-300))), 12);
    }
}

#[test]
fn mov_cycles() {
    assert_eq!(mov(word(Reg::B), word(Reg::A)), Some(2));
    assert_eq!(mov(word(Reg::A), word(Reg::B)), Some(2));
    assert_eq!(mov(word(Reg::B), Loc::Imm16(5)), Some(4));
    assert_eq!(mov(word(Reg::A), Loc::Imm8(5)), Some(4));
    assert_eq!(mov(word(Reg::B), mem(EABase::Bx, None)), Some(8 + 5));
    assert_eq!(mov(word(Reg::C), mem(EABase::BpSi, Some(8))), Some(8 + 12));
    assert_eq!(mov(mem(EABase::Bx, None), word(Reg::B)), Some(9 + 5));
    assert_eq!(mov(mem(EABase::DirectAddr(1), None), word(Reg::D)), Some(9 + 6));
    assert_eq!(mov(mem(EABase::Di, Some(3)), Loc::Imm8(1)), Some(10 + 9));
    assert_eq!(mov(mem(EABase::BxSi, None), Loc::Imm16(1)), Some(10 + 7));
}

#[test]
fn mov_between_accumulator_and_memory() {
    let al = Loc::Reg(RegIndex { region: Region::Low, register: Reg::A });
    assert_eq!(mov(word(Reg::A), mem(EABase::DirectAddr(1), None)), Some(10));
    assert_eq!(mov(mem(EABase::DirectAddr(1), None), word(Reg::A)), Some(10));
    assert_eq!(mov(al, mem(EABase::BpDi, Some(9))), Some(10));
    assert_eq!(mov(mem(EABase::Bx, None), al), Some(10));
}

#[test]
fn arithmetic_cycles() {
    let shapes = [
        (word(Reg::A), word(Reg::B), 3),
        (word(Reg::A), mem(EABase::Bx, None), 9 + 5),
        (word(Reg::A), mem(EABase::DirectAddr(9), None), 9 + 6),
        (mem(EABase::Bx, Some(2)), word(Reg::A), 16 + 9),
        (mem(EABase::BpDi, None), word(Reg::C), 16 + 7),
        (word(Reg::A), Loc::Imm8(1), 4),
        (word(Reg::SI), Loc::Imm16(1), 4),
        (mem(EABase::BxDi, Some(1)), Loc::Imm8(1), 17 + 12),
        (mem(EABase::Si, None), Loc::Imm16(1), 17 + 5),
    ];
    for (dst, src, cycles) in shapes {
        assert_eq!(estimate_8086(&Instruction::Add(Add { src, dst })), Some(cycles));
        assert_eq!(estimate_8086(&Instruction::Sub(Sub { src, dst })), Some(cycles));
        assert_eq!(estimate_8086(&Instruction::Cmp(Cmp { src, dst })), Some(cycles));
    }
}

#[test]
fn shapes_without_an_estimate() {
    let a = mem(EABase::Bx, None);
    let b = mem(EABase::Si, Some(2));
    assert_eq!(mov(a, b), None);
    assert_eq!(estimate_8086(&Instruction::Add(Add { src: a, dst: b })), None);
    assert_eq!(estimate_8086(&Instruction::Sub(Sub { src: a, dst: b })), None);
    assert_eq!(estimate_8086(&Instruction::Cmp(Cmp { src: a, dst: b })), None);
    assert_eq!(
        estimate_8086(&Instruction::Jump(Jump { typ: JumpType::Jnz, offset: 0 })),
        None
    );
}

#[test]
fn estimates_of_decoded_instructions() {
    let estimate = |bytes: &[u8]| estimate_8086(&decode_first_at(bytes, 0).unwrap().0);
    // mov bx, [1000]
    assert_eq!(estimate(&[0x8B, 0x1E, 0xE8, 0x03]), Some(14));
    // mov bp, [bp]: the zero displacement costs nothing
    assert_eq!(estimate(&[0x8B, 0x6E, 0x00]), Some(13));
    // add cx, [bx + 2]
    assert_eq!(estimate(&[0x03, 0x4F, 0x02]), Some(18));
    // add [bp + si + 1000], dx
    assert_eq!(estimate(&[0x01, 0x92, 0xE8, 0x03]), Some(28));
    // add si, 2
    assert_eq!(estimate(&[0x83, 0xC6, 0x02]), Some(4));
    // jnz
    assert_eq!(estimate(&[0x75, 0xF4]), None);
}
