use lib::bits::extract_bits;
use lib::board::{
    blink_0, blink_1, blink_partial_value, blink_value, delay_cycles, enable_timer, fast_blink, idle_blink,
    init_alarms, timer_trap_handler, LedStep,
};
use lib::common::{copy_const, AliasedRegister, BusWrite, RegStep};

#[test]
fn extract_bits_reads_a_middle_field() {
    assert_eq!(extract_bits(0xF0, 4..=7), 0xF);
    assert_eq!(extract_bits(0b1011, 1..=2), 0b01);
    assert_eq!(extract_bits(0x1234_5678, 8..=15), 0x56);
}

#[test]
fn extract_bits_reaches_bit_31() {
    assert_eq!(extract_bits(0xDEAD_BEEF, 0..=31), 0xDEAD_BEEF);
    assert_eq!(extract_bits(0x8000_0000, 31..=31), 1);
    assert_eq!(extract_bits(0xDEAD_BEEF, 16..=31), 0xDEAD);
}

#[test]
fn extract_bits_single_low_bit() {
    assert_eq!(extract_bits(0b10, 0..=0), 0);
    assert_eq!(extract_bits(0b11, 0..=0), 1);
}

#[test]
fn copy_const_replaces_only_the_range() {
    let mut dst = [1u8, 2, 3, 4, 5, 6];
    copy_const(&mut dst, 2..5, &[9, 8, 7]);
    assert_eq!(dst, [1, 2, 9, 8, 7, 6]);
    let mut empty_range = [1u8, 2];
    copy_const(&mut empty_range, 1..1, &[]);
    assert_eq!(empty_range, [1, 2]);
}

#[test]
fn aliased_register_aliases() {
    let r = AliasedRegister::from_addr(0x4001_0030);
    assert_eq!(r.write(5), BusWrite { addr: 0x4001_0030, value: 5 });
    assert_eq!(r.xor(5), BusWrite { addr: 0x4001_1030, value: 5 });
    assert_eq!(r.set(5), BusWrite { addr: 0x4001_2030, value: 5 });
    assert_eq!(r.clear(5), BusWrite { addr: 0x4001_3030, value: 5 });
    assert_eq!(r.offset(2).addr(), 0x4001_0038);
    assert_eq!(r.offset_bytes(0x10).addr(), 0x4001_0040);
    assert_eq!(AliasedRegister::from_addr(usize::MAX).offset_bytes(1).addr(), 0);
}

#[test]
fn delay_cycles_scale_and_wrap() {
    assert_eq!(delay_cycles(10), 30 << 20);
    assert_eq!(delay_cycles(1), 3 << 20);
    // 3 * 2000 = 6000 = 0x1770; shifted by 20 bits the top bits are dropped.
    assert_eq!(delay_cycles(2000), 0x7700_0000);
}

#[test]
fn blink_patterns() {
    assert_eq!(
        blink_0(),
        vec![
            LedStep::Clear,
            LedStep::Delay(12),
            LedStep::Delay(4),
            LedStep::Toggle,
            LedStep::Delay(4),
            LedStep::Toggle,
            LedStep::Delay(8)
        ]
    );
    let one = blink_1();
    assert_eq!(one.len(), 10);
    assert_eq!(one.iter().filter(|s| **s == LedStep::Toggle).count(), 4);
    assert_eq!(
        fast_blink(2),
        vec![
            LedStep::Toggle,
            LedStep::Delay(1),
            LedStep::Toggle,
            LedStep::Delay(1),
            LedStep::Toggle,
            LedStep::Delay(1),
            LedStep::Toggle,
            LedStep::Delay(1)
        ]
    );
    assert_eq!(fast_blink(0), vec![]);
    assert_eq!(idle_blink(), vec![LedStep::Toggle, LedStep::Delay(10)]);
}

#[test]
fn blink_partial_value_is_lsb_first() {
    let mut expected = blink_0();
    expected.extend(blink_1());
    assert_eq!(blink_partial_value(0b10, 2), expected);
    assert_eq!(blink_partial_value(0xFF, 0), vec![]);
    assert_eq!(blink_value(0).len(), 32 * 7);
    assert_eq!(blink_value(usize::MAX).len(), 32 * 10);
}

#[test]
fn init_alarms_program() {
    let p = init_alarms();
    assert_eq!(p.len(), 3 + 3 + 4);
    assert_eq!(p[1], RegStep::Write(BusWrite { addr: 0x4010_8000 + 0x18 + 4, value: 12 }));
    assert_eq!(p[6], RegStep::CsrClear { csr: 0xBE2, value: 0x000E_0000 });
}

#[test]
fn enable_timer_arms_alarm_one_second_later() {
    let p = enable_timer(5);
    assert_eq!(
        p,
        vec![
            RegStep::Write(BusWrite { addr: 0x400B_0000 + 0x44 + 0x3000, value: 2 }),
            RegStep::Write(BusWrite { addr: 0x400B_0000 + 0x14, value: 1_000_005 }),
        ]
    );
    let wrapped = enable_timer(u32::MAX);
    assert_eq!(wrapped[1], RegStep::Write(BusWrite { addr: 0x400B_0014, value: 999_999 }));
}

#[test]
fn timer_trap_handler_acknowledges_and_rearms() {
    let p = timer_trap_handler(1, 100);
    assert_eq!(p[0], RegStep::Write(BusWrite { addr: 0x400B_0000 + 0x3C, value: 2 }));
    assert_eq!(p[2], RegStep::Write(BusWrite { addr: 0x400B_0014, value: 1_000_100 }));
    assert_eq!(p.len(), 3);
}
