use lib::board::{fast_blink, blink_partial_value, blink_value};
use lib::common::{BusWrite, RegStep};
use lib::timer::ticks;
use lib::timer::timer::{timer0, timer1, Alarm, TooFarInTheFuture};
use lib::trap::{
    blink_trap_cause_once, classify_external_interrupt, classify_trap, external_interrupt_consistent, init_traps,
    unexpected_interrupt_report, ExternalInterrupt, TrapAction,
};

#[test]
fn set_alarm_targets_now_plus_delay() {
    let p = timer0().set_alarm(Alarm::Alarm2, 1_000, 10).unwrap();
    assert_eq!(
        p,
        vec![
            RegStep::Write(BusWrite { addr: 0x400B_3044, value: 4 }),
            RegStep::Write(BusWrite { addr: 0x400B_0018, value: 1_010 }),
        ]
    );
}

#[test]
fn set_alarm_wraps_the_low_word() {
    let p = timer0().set_alarm(Alarm::Alarm0, 0xFFFF_FFFF, 2).unwrap();
    assert_eq!(p[1], RegStep::Write(BusWrite { addr: 0x400B_0010, value: 1 }));
}

#[test]
fn set_alarm_refuses_delays_of_2_pow_32_micros() {
    assert_eq!(timer0().set_alarm(Alarm::Alarm3, 1 << 32, 0), Err(TooFarInTheFuture));
    assert!(timer0().set_alarm(Alarm::Alarm3, (1 << 32) - 1, 0).is_ok());
}

#[test]
fn alarm_registers_and_bits() {
    assert_eq!(timer0().alarm(Alarm::Alarm0).addr(), 0x400B_0010);
    assert_eq!(timer0().alarm(Alarm::Alarm3).addr(), 0x400B_001C);
    assert_eq!(Alarm::Alarm2.index(), 2);
    assert_eq!(Alarm::Alarm3.bit(), 8);
    assert_eq!(timer0().clear_alarm_event(Alarm::Alarm1), BusWrite { addr: 0x400B_003C, value: 2 });
    assert_eq!(timer0().armed().addr(), 0x400B_0020);
    assert_eq!(timer0().raw_low().addr(), 0x400B_0028);
    assert_eq!(timer0().raw_high().addr(), 0x400B_0024);
    assert_eq!(timer0().ints().addr(), 0x400B_0048);
}

#[test]
fn enable_alarms_selects_alarm_interrupt_window() {
    let p0 = timer0().enable_alarms();
    assert_eq!(p0[0], RegStep::CsrClear { csr: 0xBE2, value: 0x000E_0000 });
    assert_eq!(p0[1], RegStep::CsrSet { csr: 0xBE0, value: 0x000E_0000 });
    assert_eq!(p0[2], RegStep::Write(BusWrite { addr: 0x400B_3044, value: 0xF }));
    assert_eq!(p0[3], RegStep::Write(BusWrite { addr: 0x400B_2040, value: 0xF }));
    let p1 = timer1().enable_alarms();
    assert_eq!(p1[0], RegStep::CsrClear { csr: 0xBE2, value: 0x00E0_0000 });
}

#[test]
fn timer_reset_program() {
    let p = timer1().reset();
    assert_eq!(p[0], RegStep::Write(BusWrite { addr: 0x4002_2000, value: 1 << 24 }));
    assert_eq!(p[1], RegStep::Write(BusWrite { addr: 0x4002_3000, value: 1 << 24 }));
}

#[test]
fn time_words_roundtrip() {
    let t = timer0();
    let val = 0x0123_4567_89AB_CDEF_u64;
    let (low, high) = t.write_time(val);
    assert_eq!(low, BusWrite { addr: 0x400B_0004, value: 0x89AB_CDEF });
    assert_eq!(high, BusWrite { addr: 0x400B_0000, value: 0x0123_4567 });
    assert_eq!(t.read_time(low.value, high.value), val);
}

#[test]
fn tick_generator_enable() {
    let p = ticks::timer0().enable(12);
    assert_eq!(
        p,
        vec![
            RegStep::Write(BusWrite { addr: 0x4010_B018, value: 1 }),
            RegStep::Write(BusWrite { addr: 0x4010_801C, value: 12 }),
            RegStep::Write(BusWrite { addr: 0x4010_A018, value: 1 }),
        ]
    );
    assert_eq!(ticks::riscv().count().addr(), 0x4010_8044);
    assert_eq!(ticks::proc0().ctrl().addr(), 0x4010_8000);
    assert_eq!(ticks::watchdog().cycles().addr(), 0x4010_8034);
}

#[test]
fn trap_causes() {
    assert_eq!(classify_trap(0x2), TrapAction::ReportOnce);
    assert_eq!(classify_trap(0xB), TrapAction::ReportOnce);
    assert_eq!(classify_trap(0x9), TrapAction::ReportForever);
    assert_eq!(classify_trap(0x8000_0007), TrapAction::ReportOnce);
    assert_eq!(classify_trap(0x8000_000B), TrapAction::ExternalInterrupts);
    assert_eq!(classify_trap(0x8000_0001), TrapAction::ReportForever);
}

#[test]
fn external_interrupts() {
    assert_eq!(classify_external_interrupt(0x8000_0000), ExternalInterrupt::NoneLeft);
    assert_eq!(classify_external_interrupt(1 << 2), ExternalInterrupt::Timer(1));
    assert_eq!(classify_external_interrupt(14 << 2), ExternalInterrupt::Usb);
    assert_eq!(classify_external_interrupt(20 << 2), ExternalInterrupt::Unexpected);
    assert!(external_interrupt_consistent(14 << 4, 14 << 2, 1 << 11));
    assert!(!external_interrupt_consistent(13 << 4, 14 << 2, 1 << 11));
    assert!(!external_interrupt_consistent(14 << 4, 14 << 2, 0));
}

#[test]
fn trap_report_pattern() {
    let p = blink_trap_cause_once(0x8000_0002, 0x10);
    let mut expected = fast_blink(20);
    expected.extend(blink_partial_value(1, 1));
    expected.extend(fast_blink(5));
    expected.extend(blink_partial_value(2, 8));
    expected.extend(fast_blink(5));
    expected.extend(blink_value(0x10));
    assert_eq!(p, expected);
    let mut unexpected = fast_blink(40);
    unexpected.extend(blink_partial_value(20 << 2, 6));
    assert_eq!(unexpected_interrupt_report(20 << 2), unexpected);
}

#[test]
fn init_traps_program() {
    assert_eq!(
        init_traps(0x2000_0100),
        vec![
            RegStep::CsrWrite { csr: 0x305, value: 0x2000_0100 },
            RegStep::CsrSet { csr: 0x300, value: 0x8 },
            RegStep::CsrSet { csr: 0x304, value: 0x800 },
        ]
    );
}
