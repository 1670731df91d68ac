//! The addressing resolver: turns an operand pair into the ModRM byte and
//! any trailing SIB/displacement bytes, and appends them to a byte buffer.
//!
//! The resolver never silently produces a different addressing mode than the
//! one the caller described: where a requested shape's base or index
//! register collides with a ModRM/SIB escape code, the combination is
//! rejected with `AddressingModeConflict` instead of emitting a displacement
//! out of thin air.

use vstd::prelude::*;

use crate::errors::EncodeError;
use crate::immediate::{le32_bytes, Immediate};
use crate::memory::{Memory, Scale};
use crate::modrm;
use crate::modrm::modrm_value;
use crate::operand::Operand;
use crate::register::{gp_ordinal, GPReg32, Register};
use crate::sib;
use crate::sib::sib_value;

verus! {

/// The two-bit SIB scale pattern of a multiplier.
pub open spec fn scale_bits(scale: Scale) -> u8 {
    match scale {
        Scale::X2 => 1,
        Scale::X4 => 2,
        Scale::X8 => 3,
    }
}

/// Converts an addressing-expression multiplier into the SIB scale field.
pub fn scale_to_sib(scale: Scale) -> (r: sib::Scale)
    ensures
        r.code_spec() == scale_bits(scale),
{
    match scale {
        Scale::X2 => sib::Scale::Scale2,
        Scale::X4 => sib::Scale::Scale4,
        Scale::X8 => sib::Scale::Scale8,
    }
}

/// Whether a register may appear as a SIB index: it must be a 32-bit
/// general-purpose register.
pub open spec fn can_index(r: Register) -> bool {
    r is GPR32
}

/// Whether a register collides with the "no index" escape when used as an
/// index: ESP's bit pattern is that escape, so ESP cannot be an index.
pub open spec fn index_escape_collision(r: Register) -> bool {
    r == Register::GPR32(GPReg32::ESP)
}

/// Whether a register collides with the mod-specific base escape when used
/// as a SIB base under `mod = 0b00`: EBP's bit pattern there means "no base,
/// disp32 follows", so EBP cannot be such a base.
pub open spec fn base_escape_collision(r: Register) -> bool {
    r == Register::GPR32(GPReg32::EBP)
}

/// The bytes a register-direct operand pair resolves to: one ModRM byte with
/// `mod = 0b11`. Segment registers have no ModRM encoding.
pub open spec fn reg_reg_bytes(rm: Register, register: Register) -> Result<Seq<u8>, EncodeError> {
    if rm is SegR {
        Err(EncodeError::UnsupportedRegisterClass)
    } else if register is SegR {
        Err(EncodeError::UnsupportedRegisterClass)
    } else {
        Ok(seq![modrm_value(3, gp_ordinal(register), gp_ordinal(rm))])
    }
}

/// The bytes a memory operand paired with a register operand resolves to:
/// the ModRM byte, then any SIB byte, then any displacement or absolute
/// address, little-endian.
pub open spec fn mem_reg_bytes(m: Memory, register: Register) -> Result<Seq<u8>, EncodeError> {
    match m {
        Memory::Register(r) => if r is SegR || register is SegR {
            Err(EncodeError::UnsupportedRegisterClass)
        } else if gp_ordinal(r) == 4 || gp_ordinal(r) == 5 {
            // the register-indirect patterns 0b100 and 0b101 under
            // `mod = 0b00` are the SIB and disp32 escapes
            Err(EncodeError::AddressingModeConflict)
        } else {
            Ok(seq![modrm_value(0, gp_ordinal(register), gp_ordinal(r))])
        },
        Memory::Immediate(imm) => if register is SegR {
            Err(EncodeError::UnsupportedRegisterClass)
        } else {
            Ok(seq![modrm_value(0, gp_ordinal(register), 5)] + le32_bytes(imm.value_spec()))
        },
        Memory::RegisterDisplacement(r, d) => if r is SegR || register is SegR {
            Err(EncodeError::UnsupportedRegisterClass)
        } else if gp_ordinal(r) == 4 {
            // 0b100 under a memory `mod` is the SIB escape
            Err(EncodeError::AddressingModeConflict)
        } else {
            Ok(seq![modrm_value(2, gp_ordinal(register), gp_ordinal(r))] + d.le_bytes())
        },
        Memory::BaseIndex(base, index) => if !can_index(index) || !(base is GPR32) || register
            is SegR {
            Err(EncodeError::UnsupportedRegisterClass)
        } else if index_escape_collision(index) || base_escape_collision(base) {
            Err(EncodeError::AddressingModeConflict)
        } else {
            Ok(
                seq![
                    modrm_value(0, gp_ordinal(register), 4),
                    sib_value(0, gp_ordinal(index), gp_ordinal(base)),
                ],
            )
        },
        Memory::IndexScale(index, _scale) => if !can_index(index) || register is SegR {
            Err(EncodeError::UnsupportedRegisterClass)
        } else {
            // a SIB byte without a base architecturally demands a trailing
            // disp32 that this shape does not carry
            Err(EncodeError::AddressingModeConflict)
        },
        Memory::BaseIndexScale(base, index, scale) => if !can_index(index) || !(base is GPR32)
            || register is SegR {
            Err(EncodeError::UnsupportedRegisterClass)
        } else if index_escape_collision(index) || base_escape_collision(base) {
            Err(EncodeError::AddressingModeConflict)
        } else {
            Ok(
                seq![
                    modrm_value(0, gp_ordinal(register), 4),
                    sib_value(scale_bits(scale), gp_ordinal(index), gp_ordinal(base)),
                ],
            )
        },
        Memory::BaseIndexScaleDisplacement(base, index, scale, d) => if !can_index(index) || !(base
            is GPR32) || register is SegR {
            Err(EncodeError::UnsupportedRegisterClass)
        } else if index_escape_collision(index) {
            Err(EncodeError::AddressingModeConflict)
        } else {
            // EBP is a legal base here: under `mod = 0b10` the base escape
            // pattern names EBP itself
            Ok(
                seq![
                    modrm_value(2, gp_ordinal(register), 4),
                    sib_value(scale_bits(scale), gp_ordinal(index), gp_ordinal(base)),
                ] + d.le_bytes(),
            )
        },
    }
}

/// The bytes an operand pair resolves to. The second operand always maps to
/// the ModRM `reg` field, so it must be a register; the first maps to `rm`,
/// possibly with SIB and displacement bytes.
pub open spec fn modrm_bytes(operand1: Operand, operand2: Operand) -> Result<Seq<u8>, EncodeError> {
    match operand2 {
        Operand::Memory(_) => Err(EncodeError::InvalidOperandRoles),
        Operand::Register(r2) => match operand1 {
            Operand::Register(r1) => reg_reg_bytes(r1, r2),
            Operand::Memory(m) => mem_reg_bytes(m, r2),
        },
    }
}

/// Checks the operand-role invariant: the second operand must be a register.
pub fn validate_operands(operand1: Operand, operand2: Operand) -> (r: Result<(), EncodeError>)
    ensures
        r is Ok <==> !(operand2 is Memory),
        r matches Err(e) ==> e == EncodeError::InvalidOperandRoles,
{
    match operand1 {
        Operand::Register(_) => match operand2 {
            Operand::Register(_) => Ok(()),
            Operand::Memory(_) => Err(EncodeError::InvalidOperandRoles),
        },
        Operand::Memory(_) => match operand2 {
            Operand::Register(_) => Ok(()),
            Operand::Memory(_) => Err(EncodeError::InvalidOperandRoles),
        },
    }
}

/// Appends an immediate's little-endian bytes, sized to its width.
pub fn emit_immediate(immediate: Immediate, buffer: &mut Vec<u8>)
    ensures
        final(buffer)@ == old(buffer)@ + immediate.le_bytes(),
{
    match immediate {
        Immediate::U8(imm) => {
            buffer.push(imm);
            proof {
                assert(final(buffer)@ =~= old(buffer)@ + immediate.le_bytes());
            }
        },
        Immediate::U16(imm) => {
            buffer.push((imm & 0xff) as u8);
            buffer.push(((imm >> 8u16) & 0xff) as u8);
            proof {
                assert(final(buffer)@ =~= old(buffer)@ + immediate.le_bytes());
            }
        },
        Immediate::U32(imm) => {
            emit_le32(imm, buffer);
        },
    }
}

/// Appends the four little-endian bytes of a 32-bit value.
pub fn emit_le32(value: u32, buffer: &mut Vec<u8>)
    ensures
        final(buffer)@ == old(buffer)@ + le32_bytes(value),
{
    buffer.push((value & 0xff) as u8);
    buffer.push(((value >> 8u32) & 0xff) as u8);
    buffer.push(((value >> 16u32) & 0xff) as u8);
    buffer.push(((value >> 24u32) & 0xff) as u8);
    proof {
        assert(final(buffer)@ =~= old(buffer)@ + le32_bytes(value));
    }
}

/// Appends the ModRM byte for a register-direct pair (`mod = 0b11`).
pub fn emit_modrm_reg_reg(rm: Register, register: Register, buffer: &mut Vec<u8>) -> (r: Result<
    (),
    EncodeError,
>)
    ensures
        match r {
            Ok(_) => reg_reg_bytes(rm, register) matches Ok(bytes) && final(buffer)@ == old(buffer)@ + bytes,
            Err(e) => reg_reg_bytes(rm, register) == Err::<Seq<u8>, EncodeError>(e) && final(buffer)@ == old(buffer)@,
        },
{
    let rm_field = match modrm::register_to_rm(rm) {
        Ok(v) => v,
        Err(e) => return Err(e),
    };
    let reg_field = match modrm::register_to_reg(register) {
        Ok(v) => v,
        Err(e) => return Err(e),
    };
    buffer.push(modrm::gen_modrm(modrm::Mod::Reg, rm_field, reg_field));
    proof {
        assert(final(buffer)@ =~= old(buffer)@ + reg_reg_bytes(rm, register).unwrap());
    }
    Ok(())
}

/// Appends the ModRM byte and any SIB/displacement bytes for a memory
/// operand paired with a register operand.
pub fn emit_modrm_mem_reg(rm: Memory, register: Register, buffer: &mut Vec<u8>) -> (r: Result<
    (),
    EncodeError,
>)
    ensures
        match r {
            Ok(_) => mem_reg_bytes(rm, register) matches Ok(bytes) && final(buffer)@ == old(buffer)@ + bytes,
            Err(e) => mem_reg_bytes(rm, register) == Err::<Seq<u8>, EncodeError>(e) && final(buffer)@ == old(buffer)@,
        },
{
    match rm {
        Memory::Register(reg) => {
            let rm_field = match modrm::register_to_rm(reg) {
                Ok(v) => v,
                Err(e) => return Err(e),
            };
            let reg_field = match modrm::register_to_reg(register) {
                Ok(v) => v,
                Err(e) => return Err(e),
            };
            let rm_code = rm_field.code();
            if rm_code == 4 || rm_code == 5 {
                return Err(EncodeError::AddressingModeConflict);
            }
            buffer.push(modrm::gen_modrm(modrm::Mod::NoDisp, rm_field, reg_field));
            proof {
                assert(final(buffer)@ =~= old(buffer)@ + mem_reg_bytes(rm, register).unwrap());
            }
            Ok(())
        },
        Memory::Immediate(imm) => {
            let reg_field = match modrm::register_to_reg(register) {
                Ok(v) => v,
                Err(e) => return Err(e),
            };
            buffer.push(modrm::gen_modrm(modrm::Mod::NoDisp, modrm::Rm::SPEC_DISP32, reg_field));
            emit_le32(imm.value(), buffer);
            proof {
                assert(final(buffer)@ =~= old(buffer)@ + mem_reg_bytes(rm, register).unwrap());
            }
            Ok(())
        },
        Memory::RegisterDisplacement(reg, disp) => {
            let rm_field = match modrm::register_to_rm(reg) {
                Ok(v) => v,
                Err(e) => return Err(e),
            };
            let reg_field = match modrm::register_to_reg(register) {
                Ok(v) => v,
                Err(e) => return Err(e),
            };
            if rm_field.code() == 4 {
                return Err(EncodeError::AddressingModeConflict);
            }
            buffer.push(modrm::gen_modrm(modrm::Mod::Disp32, rm_field, reg_field));
            emit_immediate(disp, buffer);
            proof {
                assert(final(buffer)@ =~= old(buffer)@ + mem_reg_bytes(rm, register).unwrap());
            }
            Ok(())
        },
        Memory::BaseIndex(base, index) => {
            let index_field = match sib::register_to_index(index) {
                Ok(v) => v,
                Err(e) => return Err(e),
            };
            let base_field = match sib::register_to_base(base) {
                Ok(v) => v,
                Err(e) => return Err(e),
            };
            let reg_field = match modrm::register_to_reg(register) {
                Ok(v) => v,
                Err(e) => return Err(e),
            };
            if matches!(index_field, sib::Index::NoIndex) {
                return Err(EncodeError::AddressingModeConflict);
            }
            if matches!(base_field, sib::Base::ModSpecific) {
                return Err(EncodeError::AddressingModeConflict);
            }
            buffer.push(modrm::gen_modrm(modrm::Mod::NoDisp, modrm::Rm::SPEC_SIB, reg_field));
            buffer.push(sib::gen_sib(sib::Scale::NoScale, index_field, base_field));
            proof {
                assert(final(buffer)@ =~= old(buffer)@ + mem_reg_bytes(rm, register).unwrap());
            }
            Ok(())
        },
        Memory::IndexScale(index, _scale) => {
            let _index_field = match sib::register_to_index(index) {
                Ok(v) => v,
                Err(e) => return Err(e),
            };
            let _reg_field = match modrm::register_to_reg(register) {
                Ok(v) => v,
                Err(e) => return Err(e),
            };
            // a SIB byte with the "no base" escape demands a trailing disp32
            // that this shape does not carry
            Err(EncodeError::AddressingModeConflict)
        },
        Memory::BaseIndexScale(base, index, scale) => {
            let index_field = match sib::register_to_index(index) {
                Ok(v) => v,
                Err(e) => return Err(e),
            };
            let base_field = match sib::register_to_base(base) {
                Ok(v) => v,
                Err(e) => return Err(e),
            };
            let reg_field = match modrm::register_to_reg(register) {
                Ok(v) => v,
                Err(e) => return Err(e),
            };
            if matches!(index_field, sib::Index::NoIndex) {
                return Err(EncodeError::AddressingModeConflict);
            }
            if matches!(base_field, sib::Base::ModSpecific) {
                return Err(EncodeError::AddressingModeConflict);
            }
            buffer.push(modrm::gen_modrm(modrm::Mod::NoDisp, modrm::Rm::SPEC_SIB, reg_field));
            buffer.push(sib::gen_sib(scale_to_sib(scale), index_field, base_field));
            proof {
                assert(final(buffer)@ =~= old(buffer)@ + mem_reg_bytes(rm, register).unwrap());
            }
            Ok(())
        },
        Memory::BaseIndexScaleDisplacement(base, index, scale, disp) => {
            let index_field = match sib::register_to_index(index) {
                Ok(v) => v,
                Err(e) => return Err(e),
            };
            let base_field = match sib::register_to_base(base) {
                Ok(v) => v,
                Err(e) => return Err(e),
            };
            let reg_field = match modrm::register_to_reg(register) {
                Ok(v) => v,
                Err(e) => return Err(e),
            };
            if matches!(index_field, sib::Index::NoIndex) {
                return Err(EncodeError::AddressingModeConflict);
            }
            buffer.push(modrm::gen_modrm(modrm::Mod::Disp32, modrm::Rm::SPEC_SIB, reg_field));
            buffer.push(sib::gen_sib(scale_to_sib(scale), index_field, base_field));
            emit_immediate(disp, buffer);
            proof {
                assert(final(buffer)@ =~= old(buffer)@ + mem_reg_bytes(rm, register).unwrap());
            }
            Ok(())
        },
    }
}

/// Appends the addressing bytes for an operand pair: the ModRM byte, then
/// any SIB byte and displacement. The buffer is untouched when the pair is
/// rejected.
pub fn emit_modrm_byte(operand1: Operand, operand2: Operand, buffer: &mut Vec<u8>) -> (r: Result<
    (),
    EncodeError,
>)
    ensures
        match r {
            Ok(_) => modrm_bytes(operand1, operand2) matches Ok(bytes) && final(buffer)@ == old(buffer)@ + bytes,
            Err(e) => modrm_bytes(operand1, operand2) == Err::<Seq<u8>, EncodeError>(e) && final(buffer)@ == old(buffer)@,
        },
{
    match validate_operands(operand1, operand2) {
        Ok(_) => {},
        Err(e) => return Err(e),
    }
    match operand1 {
        Operand::Register(register) => {
            let reg2 = match operand2 {
                Operand::Register(reg) => reg,
                Operand::Memory(_) => {
                    return Err(EncodeError::InvalidOperandRoles);
                },
            };
            emit_modrm_reg_reg(register, reg2, buffer)
        },
        Operand::Memory(memory) => {
            let reg2 = match operand2 {
                Operand::Register(reg) => reg,
                Operand::Memory(_) => {
                    return Err(EncodeError::InvalidOperandRoles);
                },
            };
            emit_modrm_mem_reg(memory, reg2, buffer)
        },
    }
}

} // verus!
