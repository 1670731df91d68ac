use x86enc::register::{GPReg32, Register, Segment};
use x86enc::sib::{gen_sib, register_to_base, register_to_index, Base, Index, Scale};

#[test]
fn test_sib() {
    let result = gen_sib(Scale::Scale4, Index::NoIndex, Base::ECX);

    assert_eq!(0xA1, result);
}

#[test]
fn sib_test_sib() {
    let result = gen_sib(Scale::Scale4, Index::NoIndex, Base::ECX);

    assert_eq!(0xA1, result);
}

#[test]
fn sib_scale_index_base_packing() {
    // scale = x4 (0b10), index = ESI (0b110), base = EDI (0b111)
    assert_eq!(0xB7, gen_sib(Scale::Scale4, Index::ESI, Base::EDI));
    // scale = none, index = ECX, base = EAX
    assert_eq!(0x08, gen_sib(Scale::NoScale, Index::ECX, Base::EAX));
}

#[test]
fn esp_converts_to_the_no_index_escape() {
    let esp = Register::GPR32(GPReg32::ESP);
    assert_eq!(register_to_index(esp).unwrap().code(), Index::NoIndex.code());
}

#[test]
fn ebp_converts_to_the_mod_specific_base() {
    let ebp = Register::GPR32(GPReg32::EBP);
    assert_eq!(register_to_base(ebp).unwrap().code(), Base::ModSpecific.code());
}

#[test]
fn only_gpr32_can_index_or_base() {
    let ds = Register::SegR(Segment::DS);
    assert!(register_to_index(ds).is_err());
    assert!(register_to_base(ds).is_err());
}
