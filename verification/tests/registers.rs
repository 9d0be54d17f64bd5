use gb_core::cpu::registers::Registers;

#[test]
fn test_initial_pc_is_0100() {
    let r = Registers::new();
    assert_eq!(r.pc, 0x0100);
}

#[test]
fn test_initial_sp_is_fffe() {
    let r = Registers::new();
    assert_eq!(r.sp, 0xFFFE);
}

#[test]
fn test_af_pair_round_trip() {
    let mut r = Registers::new();
    r.set_af(0x1230);
    assert_eq!(r.a, 0x12);
    assert_eq!(r.f, 0x30); // 0x30 & 0xF0 = 0x30 — lower nibble is zero
    assert_eq!(r.af(), 0x1230);
}

#[test]
fn test_f_lower_nibble_always_zero() {
    let mut r = Registers::new();
    r.set_af(0x00FF); // try to set lower nibble of F
    assert_eq!(r.f & 0x0F, 0x00, "Lower nibble of F must always be zero");
}

#[test]
fn test_bc_pair_round_trip() {
    let mut r = Registers::new();
    r.set_bc(0xABCD);
    assert_eq!(r.b, 0xAB);
    assert_eq!(r.c, 0xCD);
    assert_eq!(r.bc(), 0xABCD);
}

#[test]
fn test_de_pair_round_trip() {
    let mut r = Registers::new();
    r.set_de(0x1234);
    assert_eq!(r.de(), 0x1234);
}

#[test]
fn test_hl_pair_round_trip() {
    let mut r = Registers::new();
    r.set_hl(0xBEEF);
    assert_eq!(r.h, 0xBE);
    assert_eq!(r.l, 0xEF);
    assert_eq!(r.hl(), 0xBEEF);
}

#[test]
fn test_flag_z_set_and_clear() {
    let mut r = Registers::new();
    r.set_flag_z(true);
    assert!(r.flag_z());
    r.set_flag_z(false);
    assert!(!r.flag_z());
}

#[test]
fn test_flag_n_set_and_clear() {
    let mut r = Registers::new();
    r.set_flag_n(true);
    assert!(r.flag_n());
    r.set_flag_n(false);
    assert!(!r.flag_n());
}

#[test]
fn test_flag_h_set_and_clear() {
    let mut r = Registers::new();
    r.set_flag_h(true);
    assert!(r.flag_h());
    r.set_flag_h(false);
    assert!(!r.flag_h());
}

#[test]
fn test_flag_c_set_and_clear() {
    let mut r = Registers::new();
    r.set_flag_c(true);
    assert!(r.flag_c());
    r.set_flag_c(false);
    assert!(!r.flag_c());
}

#[test]
fn test_flags_do_not_bleed_into_each_other() {
    let mut r = Registers::new();
    r.f = 0x00;
    r.set_flag_z(true);
    r.set_flag_c(true);
    assert!(r.flag_z());
    assert!(!r.flag_n());
    assert!(!r.flag_h());
    assert!(r.flag_c());
}

#[test]
fn test_flag_set_never_corrupts_lower_nibble() {
    let mut r = Registers::new();
    r.set_flag_z(true);
    r.set_flag_n(true);
    r.set_flag_h(true);
    r.set_flag_c(true);
    assert_eq!(r.f & 0x0F, 0x00, "Lower nibble of F must remain zero");
}
