use x86enc::codegen::Codegen;
use x86enc::errors::EncodeError;
use x86enc::immediate::Immediate;
use x86enc::instruction_table::{query_instruction, Kind, OpType};
use x86enc::memory::{Memory, Scale};
use x86enc::operand::Operand;
use x86enc::register::{GPReg32, GPReg8, Register, Segment};
use x86enc::utils::emit_modrm_byte;

fn reg32(r: GPReg32) -> Operand {
    Operand::Register(Register::GPR32(r))
}

#[test]
fn table_lookup_for_mov_is_deterministic() {
    let first = query_instruction(
        Kind::Mov,
        Some(OpType::ModRm16_32),
        Some(OpType::Reg16_32),
    )
    .unwrap();
    let second = query_instruction(
        Kind::Mov,
        Some(OpType::ModRm16_32),
        Some(OpType::Reg16_32),
    )
    .unwrap();
    assert_eq!(first.op, vec![0x89]);
    assert_eq!(second.op, vec![0x89]);
}

#[test]
fn table_lookup_misses_unregistered_signatures() {
    assert!(query_instruction(Kind::Mov, Some(OpType::Reg8), Some(OpType::Reg8)).is_none());
    assert!(query_instruction(Kind::Mov, Some(OpType::NoOperand), None).is_none());
}

#[test]
fn table_lookup_with_wildcards_returns_the_first_row() {
    let info = query_instruction(Kind::Mov, None, None).unwrap();
    assert_eq!(info.op, vec![0x89]);
}

#[test]
fn mov_base_index_scale_displacement_end_to_end() {
    let mut codegen = Codegen::new();
    let result = codegen.mov(
        Operand::Memory(Memory::BaseIndexScaleDisplacement(
            Register::GPR32(GPReg32::EDI),
            Register::GPR32(GPReg32::ESI),
            Scale::X4,
            Immediate::U32(0x12345678),
        )),
        reg32(GPReg32::EBP),
    );
    assert!(result.is_ok());
    assert_eq!(
        codegen.get_bytes(),
        &[0x89, 0xAC, 0xB7, 0x78, 0x56, 0x34, 0x12]
    );
}

#[test]
fn mov_register_to_register() {
    let mut codegen = Codegen::new();
    // mov eax, ebx: opcode 0x89, mod = 0b11, reg = EBX, rm = EAX
    assert!(codegen.mov(reg32(GPReg32::EAX), reg32(GPReg32::EBX)).is_ok());
    assert_eq!(codegen.get_bytes(), &[0x89, 0xD8]);
}

#[test]
fn mov_absolute_address() {
    let mut codegen = Codegen::new();
    let result = codegen.mov(
        Operand::Memory(Memory::Immediate(Immediate::U32(0x0040_3000))),
        reg32(GPReg32::ECX),
    );
    assert!(result.is_ok());
    assert_eq!(codegen.get_bytes(), &[0x89, 0x0D, 0x00, 0x30, 0x40, 0x00]);
}

#[test]
fn mov_register_displacement() {
    let mut codegen = Codegen::new();
    let result = codegen.mov(
        Operand::Memory(Memory::RegisterDisplacement(
            Register::GPR32(GPReg32::EBX),
            Immediate::U32(0x10),
        )),
        reg32(GPReg32::EAX),
    );
    assert!(result.is_ok());
    assert_eq!(codegen.get_bytes(), &[0x89, 0x83, 0x10, 0x00, 0x00, 0x00]);
}

#[test]
fn mov_base_index() {
    let mut codegen = Codegen::new();
    let result = codegen.mov(
        Operand::Memory(Memory::BaseIndex(
            Register::GPR32(GPReg32::EAX),
            Register::GPR32(GPReg32::ECX),
        )),
        reg32(GPReg32::EDX),
    );
    assert!(result.is_ok());
    assert_eq!(codegen.get_bytes(), &[0x89, 0x14, 0x08]);
}

#[test]
fn instructions_accumulate_in_call_order() {
    let mut codegen = Codegen::new();
    assert!(codegen.mov(reg32(GPReg32::EAX), reg32(GPReg32::EBX)).is_ok());
    assert!(codegen.mov(reg32(GPReg32::ECX), reg32(GPReg32::EDX)).is_ok());
    // mov ecx, edx: mod = 0b11, reg = EDX (0b010), rm = ECX (0b001)
    assert_eq!(codegen.get_bytes(), &[0x89, 0xD8, 0x89, 0xD1]);
}

#[test]
fn emit_bytes_appends_raw_bytes() {
    let mut codegen = Codegen::new();
    codegen.emit_bytes(&[0xEB, 0xFE, 0xC3]);
    assert_eq!(codegen.get_bytes(), &[0xEB, 0xFE, 0xC3]);
}

#[test]
fn memory_second_operand_is_invalid_roles() {
    let shapes = [
        Memory::Register(Register::GPR32(GPReg32::EAX)),
        Memory::Immediate(Immediate::U32(0)),
        Memory::BaseIndex(
            Register::GPR32(GPReg32::EAX),
            Register::GPR32(GPReg32::ECX),
        ),
    ];
    for shape in shapes {
        let mut codegen = Codegen::new();
        // register/memory and memory/memory pairings must both fail
        let from_register = codegen.mov(reg32(GPReg32::EAX), Operand::Memory(shape));
        assert_eq!(from_register, Err(EncodeError::InvalidOperandRoles));
        let from_memory = codegen.mov(
            Operand::Memory(Memory::Register(Register::GPR32(GPReg32::EBX))),
            Operand::Memory(shape),
        );
        assert_eq!(from_memory, Err(EncodeError::InvalidOperandRoles));
        assert_eq!(codegen.get_bytes(), &[] as &[u8]);
    }
}

#[test]
fn mismatched_row_shapes_are_not_found() {
    let mut codegen = Codegen::new();
    let result = codegen.encode(
        Kind::Mov,
        Operand::Register(Register::GPR8(GPReg8::AL)),
        Operand::Register(Register::GPR8(GPReg8::CL)),
    );
    assert_eq!(result, Err(EncodeError::InstructionNotFound));
}

#[test]
fn segment_registers_are_unsupported() {
    let mut codegen = Codegen::new();
    let seg = Operand::Register(Register::SegR(Segment::CS));
    assert_eq!(
        codegen.mov(reg32(GPReg32::EAX), seg),
        Err(EncodeError::UnsupportedRegisterClass)
    );
    assert_eq!(
        codegen.mov(seg, reg32(GPReg32::EAX)),
        Err(EncodeError::UnsupportedRegisterClass)
    );
    assert_eq!(
        codegen.mov(
            Operand::Memory(Memory::BaseIndex(
                Register::SegR(Segment::DS),
                Register::GPR32(GPReg32::ECX),
            )),
            reg32(GPReg32::EAX),
        ),
        Err(EncodeError::UnsupportedRegisterClass)
    );
}

#[test]
fn escape_code_collisions_are_conflicts() {
    // EBP register-indirect collides with the disp32 escape
    let mut codegen = Codegen::new();
    assert_eq!(
        codegen.mov(
            Operand::Memory(Memory::Register(Register::GPR32(GPReg32::EBP))),
            reg32(GPReg32::EAX),
        ),
        Err(EncodeError::AddressingModeConflict)
    );
    // ESP register-indirect collides with the SIB escape
    assert_eq!(
        codegen.mov(
            Operand::Memory(Memory::Register(Register::GPR32(GPReg32::ESP))),
            reg32(GPReg32::EAX),
        ),
        Err(EncodeError::AddressingModeConflict)
    );
    // ESP cannot be an index
    assert_eq!(
        codegen.mov(
            Operand::Memory(Memory::BaseIndexScale(
                Register::GPR32(GPReg32::EAX),
                Register::GPR32(GPReg32::ESP),
                Scale::X2,
            )),
            reg32(GPReg32::EAX),
        ),
        Err(EncodeError::AddressingModeConflict)
    );
    // EBP cannot be a base under mod 0b00
    assert_eq!(
        codegen.mov(
            Operand::Memory(Memory::BaseIndex(
                Register::GPR32(GPReg32::EBP),
                Register::GPR32(GPReg32::ECX),
            )),
            reg32(GPReg32::EAX),
        ),
        Err(EncodeError::AddressingModeConflict)
    );
    // a scaled index without a base demands a disp32 the shape cannot carry
    assert_eq!(
        codegen.mov(
            Operand::Memory(Memory::IndexScale(Register::GPR32(GPReg32::ESI), Scale::X8)),
            reg32(GPReg32::EAX),
        ),
        Err(EncodeError::AddressingModeConflict)
    );
    // failures leave the buffer untouched
    assert_eq!(codegen.get_bytes(), &[] as &[u8]);
}

#[test]
fn ebp_base_is_legal_with_a_displacement() {
    let mut codegen = Codegen::new();
    let result = codegen.mov(
        Operand::Memory(Memory::BaseIndexScaleDisplacement(
            Register::GPR32(GPReg32::EBP),
            Register::GPR32(GPReg32::ECX),
            Scale::X2,
            Immediate::U32(4),
        )),
        reg32(GPReg32::EAX),
    );
    assert!(result.is_ok());
    // modrm 0b10_000_100, sib 0b01_001_101, disp32 = 4
    assert_eq!(codegen.get_bytes(), &[0x89, 0x84, 0x4D, 0x04, 0x00, 0x00, 0x00]);
}

#[test]
fn displacements_are_sized_to_the_immediate() {
    let mut buffer: Vec<u8> = Vec::new();
    let result = emit_modrm_byte(
        Operand::Memory(Memory::RegisterDisplacement(
            Register::GPR32(GPReg32::ESI),
            Immediate::U8(0x7F),
        )),
        reg32(GPReg32::EAX),
        &mut buffer,
    );
    assert!(result.is_ok());
    // modrm 0b10_000_110, then a single displacement byte
    assert_eq!(buffer, vec![0x86, 0x7F]);

    let mut wide: Vec<u8> = Vec::new();
    let result = emit_modrm_byte(
        Operand::Memory(Memory::RegisterDisplacement(
            Register::GPR32(GPReg32::ESI),
            Immediate::U16(0x1234),
        )),
        reg32(GPReg32::EAX),
        &mut wide,
    );
    assert!(result.is_ok());
    assert_eq!(wide, vec![0x86, 0x34, 0x12]);
}

#[test]
fn narrow_absolute_addresses_are_zero_extended() {
    let mut codegen = Codegen::new();
    let result = codegen.mov(
        Operand::Memory(Memory::Immediate(Immediate::U8(0x12))),
        reg32(GPReg32::ECX),
    );
    assert!(result.is_ok());
    assert_eq!(codegen.get_bytes(), &[0x89, 0x0D, 0x12, 0x00, 0x00, 0x00]);
}
