//! Board-level routines: the LED blink patterns that report numbers, busy-wait
//! lengths, and the timer set-up the firmware runs.
use vstd::arithmetic::power2::pow2;
use vstd::prelude::*;

use crate::clocks::XOSC_HZ;
use crate::common::{BusWrite, RegStep, CLEAR_ALIAS_OFFSET};
use crate::resets::reset_steps;
use crate::timer::ticks;
use crate::timer::timer::{alarm_irq_select, timer0, Alarm, INTR, TIMER0_BASE, TIMER0_FIRST_IRQ, TIMER0_RESET_MASK};

verus! {

/// One step of driving the LED.
#[derive(Copy, Clone, PartialEq, Eq, Debug)]
pub enum LedStep {
    /// Turn the LED off.
    Clear,
    /// Flip the LED.
    Toggle,
    /// Busy-wait for `delay_cycles(units)` iterations.
    Delay(u32),
}

/// The pattern for a 0 bit: off, a pause, two short flashes' worth of toggles, a pause.
pub open spec fn blink_0_steps() -> Seq<LedStep> {
    seq![
        LedStep::Clear,
        LedStep::Delay(12),
        LedStep::Delay(4),
        LedStep::Toggle,
        LedStep::Delay(4),
        LedStep::Toggle,
        LedStep::Delay(8),
    ]
}

/// The pattern for a 1 bit: off, a pause, four toggles.
pub open spec fn blink_1_steps() -> Seq<LedStep> {
    seq![
        LedStep::Clear,
        LedStep::Delay(12),
        LedStep::Delay(4),
        LedStep::Toggle,
        LedStep::Delay(4),
        LedStep::Toggle,
        LedStep::Delay(4),
        LedStep::Toggle,
        LedStep::Delay(4),
        LedStep::Toggle,
    ]
}

/// The pattern for one bit.
pub open spec fn led_bit(bit: bool) -> Seq<LedStep> {
    if bit {
        blink_1_steps()
    } else {
        blink_0_steps()
    }
}

/// The pattern for the lowest `n` bits of `val`, least significant first.
pub open spec fn led_bits(val: nat, n: nat) -> Seq<LedStep>
    decreases n,
{
    if n == 0 {
        seq![]
    } else {
        led_bits(val, (n - 1) as nat) + led_bit((val / pow2((n - 1) as nat)) % 2 == 1)
    }
}

/// `2 * count` toggles, each followed by the shortest pause.
pub open spec fn fast_blink_steps(count: nat) -> Seq<LedStep> {
    Seq::new(4 * count, |i: int| if i % 2 == 0 { LedStep::Toggle } else { LedStep::Delay(1) })
}

/// The pattern for a 0 bit.
pub fn blink_0() -> (p: Vec<LedStep>)
    ensures
        p@ == blink_0_steps(),
{
    let mut p: Vec<LedStep> = Vec::new();
    p.push(LedStep::Clear);
    p.push(LedStep::Delay(12));
    let mut i: usize = 0;
    while i < 2
        invariant
            i <= 2,
            p@ == seq![LedStep::Clear, LedStep::Delay(12)] + Seq::new(
                2 * i as nat,
                |k: int| if k % 2 == 0 { LedStep::Delay(4) } else { LedStep::Toggle },
            ),
        decreases 2 - i,
    {
        p.push(LedStep::Delay(4));
        p.push(LedStep::Toggle);
        assert(p@ =~= seq![LedStep::Clear, LedStep::Delay(12)] + Seq::new(
            2 * (i + 1) as nat,
            |k: int| if k % 2 == 0 { LedStep::Delay(4) } else { LedStep::Toggle },
        ));
        i += 1;
    }
    p.push(LedStep::Delay(8));
    assert(p@ =~= blink_0_steps());
    p
}

/// The pattern for a 1 bit.
pub fn blink_1() -> (p: Vec<LedStep>)
    ensures
        p@ == blink_1_steps(),
{
    let mut p: Vec<LedStep> = Vec::new();
    p.push(LedStep::Clear);
    p.push(LedStep::Delay(12));
    let mut i: usize = 0;
    while i < 4
        invariant
            i <= 4,
            p@ == seq![LedStep::Clear, LedStep::Delay(12)] + Seq::new(
                2 * i as nat,
                |k: int| if k % 2 == 0 { LedStep::Delay(4) } else { LedStep::Toggle },
            ),
        decreases 4 - i,
    {
        p.push(LedStep::Delay(4));
        p.push(LedStep::Toggle);
        assert(p@ =~= seq![LedStep::Clear, LedStep::Delay(12)] + Seq::new(
            2 * (i + 1) as nat,
            |k: int| if k % 2 == 0 { LedStep::Delay(4) } else { LedStep::Toggle },
        ));
        i += 1;
    }
    assert(p@ =~= blink_1_steps());
    p
}

/// The pattern for the lowest `num_bits` bits of `val`, least significant first.
pub fn blink_partial_value(val: usize, num_bits: u32) -> (p: Vec<LedStep>)
    ensures
        p@ == led_bits(val as nat, num_bits as nat),
{
    let mut p: Vec<LedStep> = Vec::new();
    let mut rest = val;
    let mut i: u32 = 0;
    proof {
        vstd::arithmetic::power2::lemma2_to64();
    }
    while i < num_bits
        invariant
            i <= num_bits,
            rest as int == val as int / pow2(i as nat) as int,
            p@ == led_bits(val as nat, i as nat),
        decreases num_bits - i,
    {
        proof {
            vstd::arithmetic::power2::lemma_pow2_pos(i as nat);
            vstd::arithmetic::power2::lemma_pow2_unfold((i + 1) as nat);
            vstd::arithmetic::div_mod::lemma_div_denominator(val as int, pow2(i as nat) as int, 2int);
        }
        let bit = rest % 2;
        let mut pattern = if bit == 1 {
            blink_1()
        } else {
            blink_0()
        };
        p.append(&mut pattern);
        rest = rest / 2;
        i += 1;
    }
    p
}

/// The pattern for all 32 bits of `val`, least significant first.
pub fn blink_value(val: usize) -> (p: Vec<LedStep>)
    ensures
        p@ == led_bits(val as nat, 32),
{
    blink_partial_value(val, 32)
}

/// `2 * count` toggles, each followed by the shortest pause.
pub fn fast_blink(count: usize) -> (p: Vec<LedStep>)
    requires
        4 * count <= usize::MAX,
    ensures
        p@ == fast_blink_steps(count as nat),
{
    let mut p: Vec<LedStep> = Vec::new();
    let mut i: usize = 0;
    while i < 2 * count
        invariant
            4 * count <= usize::MAX,
            i <= 2 * count,
            p@ == Seq::new(2 * i as nat, |k: int| if k % 2 == 0 { LedStep::Toggle } else { LedStep::Delay(1) }),
        decreases 2 * count - i,
    {
        p.push(LedStep::Toggle);
        p.push(LedStep::Delay(1));
        assert(p@ =~= Seq::new(
            2 * (i + 1) as nat,
            |k: int| if k % 2 == 0 { LedStep::Toggle } else { LedStep::Delay(1) },
        ));
        i += 1;
    }
    p
}

/// Number of busy-wait iterations for `units` delay units: `3 * units * 2^20`,
/// kept to 32 bits.
pub fn delay_cycles(units: u32) -> (n: u32)
    requires
        3 * units <= u32::MAX,
    ensures
        n as int == (3 * units * 0x10_0000) % 0x1_0000_0000,
{
    let scaled = units * 3;
    assert(scaled << 20u32 == (scaled as int * 0x10_0000) % 0x1_0000_0000) by (bit_vector);
    scaled << 20
}

/// Reference cycles per microsecond tick.
pub const TICK_CYCLES_PER_MICROSECOND: u32 = 12;

/// Starts timer 0's tick generator at one tick per microsecond, resets timer 0 and
/// enables its alarm interrupts.
pub fn init_alarms() -> (p: Vec<RegStep>)
    ensures
        p@ == seq![
            RegStep::Write(BusWrite { addr: (ticks::TICKS_BASE + ticks::TIMER0_OFFSET + CLEAR_ALIAS_OFFSET) as usize, value: ticks::TICK_ENABLE }),
            RegStep::Write(BusWrite { addr: (ticks::TICKS_BASE + ticks::TIMER0_OFFSET + ticks::TICK_CYCLES) as usize, value: TICK_CYCLES_PER_MICROSECOND }),
            RegStep::Write(BusWrite { addr: (ticks::TICKS_BASE + ticks::TIMER0_OFFSET + crate::common::SET_ALIAS_OFFSET) as usize, value: ticks::TICK_ENABLE }),
        ] + reset_steps(TIMER0_RESET_MASK) + seq![
            RegStep::CsrClear { csr: crate::trap::RVCSR_MEIFA, value: alarm_irq_select(TIMER0_FIRST_IRQ) as usize },
            RegStep::CsrSet { csr: crate::trap::RVCSR_MEIEA, value: alarm_irq_select(TIMER0_FIRST_IRQ) as usize },
            RegStep::Write(BusWrite { addr: (TIMER0_BASE + crate::timer::timer::INTF + CLEAR_ALIAS_OFFSET) as usize, value: 0b1111 }),
            RegStep::Write(BusWrite { addr: (TIMER0_BASE + crate::timer::timer::INTE + crate::common::SET_ALIAS_OFFSET) as usize, value: 0b1111 }),
        ],
{
    let mhz = XOSC_HZ / 1_000_000;
    let mut p = ticks::timer0().enable(mhz);
    let mut reset = timer0().reset();
    p.append(&mut reset);
    let mut alarms = timer0().enable_alarms();
    p.append(&mut alarms);
    p
}

/// One second, in microseconds.
pub const ALARM_PERIOD_MICROS: u32 = 1_000_000;

/// Arms timer 0's alarm 1 to fire one second after `now_lower`, the value read
/// from the timer's raw low time register.
pub fn enable_timer(now_lower: u32) -> (p: Vec<RegStep>)
    ensures
        p@ == seq![
            RegStep::Write(BusWrite { addr: (TIMER0_BASE + crate::timer::timer::INTF + CLEAR_ALIAS_OFFSET) as usize, value: 2 }),
            RegStep::Write(BusWrite {
                addr: (TIMER0_BASE + crate::timer::timer::ALARM1) as usize,
                value: ((now_lower + ALARM_PERIOD_MICROS) % 0x1_0000_0000) as u32,
            }),
        ],
{
    proof {
        vstd::arithmetic::power2::lemma2_to64();
    }
    timer0().set_alarm(Alarm::Alarm1, ALARM_PERIOD_MICROS as u128, now_lower).unwrap()
}

/// Serves timer 0's alarm interrupt `alarm` (only alarm 1 is armed): acknowledges
/// it and arms the alarm again one second after `now_lower`.
pub fn timer_trap_handler(alarm: usize, now_lower: u32) -> (p: Vec<RegStep>)
    requires
        alarm == 1,
    ensures
        p@ == seq![
            RegStep::Write(BusWrite { addr: (TIMER0_BASE + INTR) as usize, value: 2 }),
            RegStep::Write(BusWrite { addr: (TIMER0_BASE + crate::timer::timer::INTF + CLEAR_ALIAS_OFFSET) as usize, value: 2 }),
            RegStep::Write(BusWrite {
                addr: (TIMER0_BASE + crate::timer::timer::ALARM1) as usize,
                value: ((now_lower + ALARM_PERIOD_MICROS) % 0x1_0000_0000) as u32,
            }),
        ],
{
    proof {
        vstd::arithmetic::power2::lemma2_to64();
    }
    let mut p: Vec<RegStep> = Vec::new();
    p.push(RegStep::Write(timer0().clear_alarm_event(Alarm::Alarm1)));
    let mut rearm = enable_timer(now_lower);
    p.append(&mut rearm);
    p
}

/// One turn of the idle loop: flip the LED, then wait ten units.
pub fn idle_blink() -> (p: Vec<LedStep>)
    ensures
        p@ == seq![LedStep::Toggle, LedStep::Delay(10)],
{
    let mut p: Vec<LedStep> = Vec::new();
    p.push(LedStep::Toggle);
    p.push(LedStep::Delay(10));
    p
}

} // verus!
