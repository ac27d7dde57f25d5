use lib::clocks::{
    enable_usb_clock, frequency_count_result, init_xosc, pll_sys, pll_sys_params, pll_usb, pll_usb_params,
    set_ref_clock_to_rosc, set_sys_clock_to_ref, switch_sys_clock_to_xosc, test_clock_khz, ClockToTest, PllConfig,
    PllParams,
};
use lib::common::{BusWrite, RegCondition, RegStep};

#[test]
fn pll_params_accepts_valid_settings() {
    let p = PllParams::new(1, 125, 5, 2).expect("valid");
    assert_eq!(p.settings(), PllConfig { refdiv: 1, fbdiv: 125, post_div1: 5, post_div2: 2 });
    assert_eq!(p.f_out_post_div_hz(), 150_000_000);
    assert_eq!(p.pdiv(), 5 << 16 | 2 << 12);
}

#[test]
fn pll_params_rejects_feedback_divider_out_of_range() {
    assert!(PllParams::new(1, 15, 5, 2).is_none());
    assert!(PllParams::new(1, 321, 5, 2).is_none());
}

#[test]
fn pll_params_rejects_low_reference() {
    // 12 MHz / 3 = 4 MHz is below the 5 MHz minimum.
    assert!(PllParams::new(3, 300, 5, 2).is_none());
}

#[test]
fn pll_params_rejects_vco_out_of_range() {
    // 12 MHz * 50 = 600 MHz is below the VCO minimum; 12 MHz * 140 = 1.68 GHz above it.
    assert!(PllParams::new(1, 50, 5, 2).is_none());
    assert!(PllParams::new(1, 140, 5, 2).is_none());
    assert!(PllParams::new(1, 133, 5, 2).is_some());
}

#[test]
fn pll_params_rejects_post_dividers_out_of_range() {
    assert!(PllParams::new(1, 125, 0, 2).is_none());
    assert!(PllParams::new(1, 125, 5, 8).is_none());
    assert!(PllParams::new(1, 125, 7, 7).is_some());
}

#[test]
fn pll_params_accepts_slower_reference() {
    // refdiv 2: 6 MHz reference; fbdiv 125 gives 750 MHz VCO, whose sixteenth is 46.9 MHz.
    assert!(PllParams::new(2, 125, 1, 1).is_some());
}

#[test]
fn from_vco_rounds_feedback_divider_down() {
    let p = PllParams::from_vco(1, 1_500_000_000, 5, 2).unwrap();
    assert_eq!(p.settings().fbdiv, 125);
    let q = PllParams::from_vco(1, 1_511_999_999, 5, 2).unwrap();
    assert_eq!(q.settings().fbdiv, 125);
    assert!(PllParams::from_vco(1, 100_000_000, 5, 2).is_none());
}

#[test]
fn board_pll_settings() {
    assert_eq!(pll_sys_params().settings(), PllConfig { refdiv: 1, fbdiv: 125, post_div1: 5, post_div2: 2 });
    assert_eq!(pll_usb_params().settings(), PllConfig { refdiv: 1, fbdiv: 100, post_div1: 5, post_div2: 5 });
    assert_eq!(pll_usb_params().f_out_post_div_hz(), 48_000_000);
}

#[test]
fn pll_registers() {
    assert_eq!(pll_sys().base(), 0x4005_0000);
    assert_eq!(pll_usb().base(), 0x4005_8000);
    assert_eq!(pll_sys().cs().addr(), 0x4005_0000);
    assert_eq!(pll_sys().pwr().addr(), 0x4005_0004);
    assert_eq!(pll_sys().fbdiv_int().addr(), 0x4005_0008);
    assert_eq!(pll_sys().prim().addr(), 0x4005_000C);
    assert_eq!(pll_usb().intr().addr(), 0x4005_8010);
    assert_eq!(pll_usb().inte().addr(), 0x4005_8014);
    assert_eq!(pll_usb().intf().addr(), 0x4005_8018);
    assert_eq!(pll_usb().ints().addr(), 0x4005_801C);
}

#[test]
fn pll_is_configured_checks_lock_and_dividers() {
    let params = pll_sys_params();
    let cs_locked = 0x8000_0000 | 1;
    let prim = 5 << 16 | 2 << 12;
    assert!(pll_sys().is_configured(params, cs_locked, 125, prim));
    assert!(!pll_sys().is_configured(params, 1, 125, prim));
    assert!(!pll_sys().is_configured(params, cs_locked, 100, prim));
    assert!(!pll_sys().is_configured(params, cs_locked, 125, 5 << 16 | 5 << 12));
    assert!(pll_sys().is_configured(params, cs_locked | 0x100, 0x1000 | 125, prim | 0x7));
}

#[test]
fn pll_setup_program() {
    let p = pll_usb().setup(pll_usb_params(), 0, 0, 0);
    assert_eq!(
        p,
        vec![
            RegStep::Write(BusWrite { addr: 0x4002_2000, value: 1 << 15 }),
            RegStep::Write(BusWrite { addr: 0x4002_3000, value: 1 << 15 }),
            RegStep::WaitUntil(RegCondition { addr: 0x4002_0008, mask: 1 << 15, expected: 0, negate: true }),
            RegStep::Write(BusWrite { addr: 0x4005_8000, value: 1 }),
            RegStep::Write(BusWrite { addr: 0x4005_8008, value: 100 }),
            RegStep::Write(BusWrite { addr: 0x4005_b004, value: 0b10_0001 }),
            RegStep::WaitUntil(RegCondition { addr: 0x4005_8000, mask: 1 << 31, expected: 0, negate: true }),
            RegStep::Write(BusWrite { addr: 0x4005_800C, value: 5 << 16 | 5 << 12 }),
            RegStep::Write(BusWrite { addr: 0x4005_b004, value: 1 << 3 }),
        ]
    );
}

#[test]
fn pll_setup_skips_a_configured_pll() {
    let params = pll_usb_params();
    let locked = 0x8000_0000 | 1;
    let prim = 5 << 16 | 5 << 12;
    assert!(pll_usb().setup(params, locked, 100, prim).is_empty());
    assert!(pll_usb().setup(params, locked | 0x40, 0x3000 | 100, prim | 0x10).is_empty());
    // Not locked, or locked with other dividers: the whole program.
    assert_eq!(pll_usb().setup(params, 1, 100, prim).len(), 9);
    assert_eq!(pll_usb().setup(params, locked, 125, prim).len(), 9);
    assert_eq!(pll_usb().setup(params, locked, 100, 5 << 16 | 2 << 12).len(), 9);
}

#[test]
fn pll_setup_program_leaves_a_configured_pll() {
    // The values the bring-up program writes, read back once the PLL has locked.
    let params = pll_sys_params();
    let p = pll_sys().setup(params, 0, 0, 0);
    let written = |i: usize| match p[i] {
        RegStep::Write(w) => w.value,
        _ => panic!("step {} is no write", i),
    };
    let cs = written(3) | 0x8000_0000;
    assert!(pll_sys().is_configured(params, cs, written(4), written(7)));
    assert!(pll_sys().setup(params, cs, written(4), written(7)).is_empty());
}

#[test]
fn pll_params_refuse_zero_input_divider_outside_feedback_range() {
    assert_eq!(PllParams::new(0, 10, 5, 2), None);
    assert_eq!(PllParams::new(0, 400, 5, 2), None);
}

#[test]
fn init_xosc_program() {
    assert_eq!(
        init_xosc(),
        vec![
            RegStep::Write(BusWrite { addr: 0x4004_800C, value: 0x11A }),
            RegStep::Write(BusWrite { addr: 0x4004_8000, value: 0xFAB_AA0 }),
            RegStep::WaitUntil(RegCondition { addr: 0x4004_8004, mask: 1 << 31, expected: 0, negate: true }),
        ]
    );
}

#[test]
fn switch_sys_clock_program() {
    let p = switch_sys_clock_to_xosc();
    assert_eq!(p.len(), 11);
    assert_eq!(p[0], RegStep::Expect(RegCondition { addr: 0x4001_0038, mask: 0xFFFF_FFFF, expected: 1, negate: false }));
    assert_eq!(p[2], RegStep::ConfigurePll(pll_sys(), pll_sys_params()));
    assert_eq!(p[4], RegStep::Write(BusWrite { addr: 0x4001_2030, value: 2 }));
    assert_eq!(p[5], RegStep::WaitUntil(RegCondition { addr: 0x4001_0038, mask: 0xF, expected: 4, negate: false }));
    assert_eq!(p[8], RegStep::CopyMasked { from: 0x4001_003C, mask: 0b111 << 5, to: 0x4001_203C });
    assert_eq!(p[10], RegStep::WaitUntil(RegCondition { addr: 0x4001_0044, mask: 0b11, expected: 2, negate: false }));
}

#[test]
fn enable_usb_clock_program() {
    let p = enable_usb_clock();
    assert_eq!(
        p,
        vec![
            RegStep::ConfigurePll(pll_usb(), pll_usb_params()),
            RegStep::Expect(RegCondition { addr: 0x4001_0060, mask: 1 << 28 | 0b111 << 5, expected: 0, negate: false }),
            RegStep::Write(BusWrite { addr: 0x4001_2060, value: 1 << 11 }),
            RegStep::WaitUntil(RegCondition { addr: 0x4001_0060, mask: 1 << 28, expected: 0, negate: true }),
        ]
    );
}

#[test]
fn clock_fallback_programs() {
    assert_eq!(set_ref_clock_to_rosc()[0], RegStep::Write(BusWrite { addr: 0x4001_3030, value: 1 }));
    assert_eq!(set_sys_clock_to_ref()[0], RegStep::Write(BusWrite { addr: 0x4001_303C, value: 0b111 }));
    assert_eq!(
        set_sys_clock_to_ref()[1],
        RegStep::WaitUntil(RegCondition { addr: 0x4001_0044, mask: 0xFFFF_FFFF, expected: 1, negate: false })
    );
}

#[test]
fn wait_conditions() {
    let c = RegCondition { addr: 0, mask: 0xF, expected: 4, negate: false };
    assert!(c.holds(0x14));
    assert!(!c.holds(0x13));
    let n = RegCondition { addr: 0, mask: 1 << 31, expected: 0, negate: true };
    assert!(n.holds(0x8000_0000));
    assert!(!n.holds(0x7FFF_FFFF));
}

#[test]
fn frequency_counter() {
    let p = test_clock_khz(ClockToTest::Usb);
    assert_eq!(p[1], RegStep::Write(BusWrite { addr: 0x4001_008C, value: 12_000 }));
    assert_eq!(p[2], RegStep::Write(BusWrite { addr: 0x4001_00A0, value: 0xB }));
    assert_eq!(ClockToTest::PllSys.source(), 1);
    assert_eq!(ClockToTest::Xosc.source(), 5);
    let (done, ok) = frequency_count_result((48_000 << 5) | 3, 0x11);
    assert_eq!(done, BusWrite { addr: 0x4001_00A0, value: 0 });
    assert_eq!(ok, Ok((48_000, 3)));
    let (_, err) = frequency_count_result(123, 0x10);
    assert_eq!(err, Err(0x10));
}
