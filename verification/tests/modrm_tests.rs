use x86enc::modrm::{gen_modrm, register_to_reg, register_to_rm, Mod, Reg, Rm};
use x86enc::register::{GPReg16, GPReg32, GPReg8, Register, Segment};

#[test]
fn test_modrm() {
    let result = gen_modrm(Mod::NoDisp, Rm::EDI, Reg::AL);

    assert_eq!(0x07, result);
}

#[test]
fn modrm_test_modrm() {
    let result = gen_modrm(Mod::NoDisp, Rm::EDI, Reg::AL);

    assert_eq!(0x07, result);
}

#[test]
fn modrm_register_direct_mode() {
    // mod = 0b11, reg = EBX (0b011), rm = EAX (0b000)
    assert_eq!(0xD8, gen_modrm(Mod::Reg, Rm::EAX, Reg::EBX));
    // mod = 0b10, reg = EBP (0b101), rm = SIB escape (0b100)
    assert_eq!(0xAC, gen_modrm(Mod::Disp32, Rm::SPEC_SIB, Reg::EBP));
}

#[test]
fn reg_and_rm_roles_share_the_ordinal() {
    let registers = [
        Register::GPR8(GPReg8::AL),
        Register::GPR8(GPReg8::BH),
        Register::GPR16(GPReg16::AX),
        Register::GPR16(GPReg16::DI),
        Register::GPR32(GPReg32::EAX),
        Register::GPR32(GPReg32::ECX),
        Register::GPR32(GPReg32::EDX),
        Register::GPR32(GPReg32::EBX),
        Register::GPR32(GPReg32::ESP),
        Register::GPR32(GPReg32::EBP),
        Register::GPR32(GPReg32::ESI),
        Register::GPR32(GPReg32::EDI),
    ];
    for register in registers {
        let rm = register_to_rm(register).unwrap();
        let reg = register_to_reg(register).unwrap();
        assert_eq!(rm.code(), reg.code());
    }
}

#[test]
fn segment_registers_have_no_modrm_role() {
    let cs = Register::SegR(Segment::CS);
    assert!(register_to_rm(cs).is_err());
    assert!(register_to_reg(cs).is_err());
}
