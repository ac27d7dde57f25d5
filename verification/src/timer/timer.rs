//! The microsecond timers and their four alarms.
use vstd::prelude::*;

use crate::common::{AliasedRegister, BusWrite, RegStep, CLEAR_ALIAS_OFFSET, SET_ALIAS_OFFSET};
use crate::resets::{reset_blocks, reset_steps};
use crate::trap::{RVCSR_MEIEA, RVCSR_MEIFA};

verus! {

/// Offsets of a timer's registers from its base address.
pub const TIMEHW: usize = 0x00;
pub const TIMELW: usize = 0x04;
pub const TIMEHR: usize = 0x08;
pub const TIMELR: usize = 0x0C;
pub const ALARM0: usize = 0x10;
pub const ALARM1: usize = 0x14;
pub const ALARM2: usize = 0x18;
pub const ALARM3: usize = 0x1C;
pub const ARMED: usize = 0x20;
pub const TIMERAWH: usize = 0x24;
pub const TIMERAWL: usize = 0x28;
pub const DBGPAUSE: usize = 0x2C;
pub const PAUSE: usize = 0x30;
pub const LOCKED: usize = 0x34;
pub const SOURCE: usize = 0x38;
pub const INTR: usize = 0x3C;
pub const INTE: usize = 0x40;
pub const INTF: usize = 0x44;
pub const INTS: usize = 0x48;

/// Base addresses, first interrupt numbers and reset masks of the two timers.
pub const TIMER0_BASE: usize = 0x400B_0000;
pub const TIMER1_BASE: usize = 0x400B_0000;
pub const TIMER0_FIRST_IRQ: u32 = 0;
pub const TIMER1_FIRST_IRQ: u32 = 4;
pub const TIMER0_RESET_MASK: u32 = 1 << 23;
pub const TIMER1_RESET_MASK: u32 = 1 << 24;

/// One of a timer's four alarms.
#[derive(Copy, Clone, PartialEq, Eq, Debug)]
pub enum Alarm {
    Alarm0,
    Alarm1,
    Alarm2,
    Alarm3,
}

impl Alarm {
    /// The alarm's number.
    pub open spec fn spec_index(self) -> u32 {
        match self {
            Alarm::Alarm0 => 0,
            Alarm::Alarm1 => 1,
            Alarm::Alarm2 => 2,
            Alarm::Alarm3 => 3,
        }
    }

    /// The alarm's number, 0 to 3.
    pub fn index(self) -> (i: u32)
        ensures
            i == self.spec_index(),
    {
        match self {
            Alarm::Alarm0 => 0,
            Alarm::Alarm1 => 1,
            Alarm::Alarm2 => 2,
            Alarm::Alarm3 => 3,
        }
    }

    /// The alarm's bit in the interrupt registers.
    pub fn bit(self) -> (b: u32)
        ensures
            b as int == vstd::arithmetic::power2::pow2(self.spec_index() as nat),
    {
        proof {
            vstd::arithmetic::power2::lemma2_to64();
        }
        match self {
            Alarm::Alarm0 => 1,
            Alarm::Alarm1 => 2,
            Alarm::Alarm2 => 4,
            Alarm::Alarm3 => 8,
        }
    }
}

/// A delay that does not fit the alarm's 32-bit microsecond compare register.
#[derive(Copy, Clone, PartialEq, Eq, Debug)]
pub struct TooFarInTheFuture;

/// A timer: its register block, its first interrupt number and its reset mask.
#[derive(Copy, Clone, PartialEq, Eq, Debug)]
pub struct Timer {
    base: AliasedRegister,
    first_irq_num: u32,
    reset_mask: u32,
}

/// The interrupt-array window select for a timer's alarms: the low bits hold the
/// 16-interrupt window, the upper half masks alarms 1 to 3 within the window.
pub open spec fn alarm_irq_select(first_irq_num: u32) -> int {
    0b1110 * vstd::arithmetic::power2::pow2((first_irq_num % 16) as nat) * 0x10000 + first_irq_num / 16
}

impl Timer {
    #[verifier::type_invariant]
    spec fn is_known_timer(self) -> bool {
        ||| self.base@ == TIMER0_BASE && self.first_irq_num == TIMER0_FIRST_IRQ && self.reset_mask == TIMER0_RESET_MASK
        ||| self.base@ == TIMER1_BASE && self.first_irq_num == TIMER1_FIRST_IRQ && self.reset_mask == TIMER1_RESET_MASK
    }

    /// Base address of the timer's registers.
    pub closed spec fn spec_base(self) -> usize {
        self.base@
    }

    /// Number of the timer's first interrupt (that of alarm 0).
    pub closed spec fn spec_first_irq_num(self) -> u32 {
        self.first_irq_num
    }

    /// The timer's bits in the reset controller.
    pub closed spec fn spec_reset_mask(self) -> u32 {
        self.reset_mask
    }

    fn new(base: AliasedRegister, first_irq_num: u32, reset_mask: u32) -> (t: Self)
        requires
            (base@ == TIMER0_BASE && first_irq_num == TIMER0_FIRST_IRQ && reset_mask == TIMER0_RESET_MASK)
            || (base@ == TIMER1_BASE && first_irq_num == TIMER1_FIRST_IRQ && reset_mask == TIMER1_RESET_MASK),
        ensures
            t.spec_base() == base@,
            t.spec_first_irq_num() == first_irq_num,
            t.spec_reset_mask() == reset_mask,
    {
        Timer { base, first_irq_num, reset_mask }
    }

    fn register_at(self, offset: usize) -> (r: AliasedRegister)
        requires
            offset <= INTS,
        ensures
            r@ == self.spec_base() + offset,
    {
        proof {
            use_type_invariant(&self);
        }
        self.base.offset_bytes(offset)
    }

    /// High word of the time, for writing.
    pub fn high_write(self) -> (r: AliasedRegister)
        ensures
            r@ == self.spec_base() + TIMEHW,
    {
        self.register_at(TIMEHW)
    }

    /// Low word of the time, for writing.
    pub fn low_write(self) -> (r: AliasedRegister)
        ensures
            r@ == self.spec_base() + TIMELW,
    {
        self.register_at(TIMELW)
    }

    /// High word of the time, latched by the last read of the low word.
    pub fn high_read(self) -> (r: AliasedRegister)
        ensures
            r@ == self.spec_base() + TIMEHR,
    {
        self.register_at(TIMEHR)
    }

    /// Low word of the time; reading it latches the high word.
    pub fn low_read(self) -> (r: AliasedRegister)
        ensures
            r@ == self.spec_base() + TIMELR,
    {
        self.register_at(TIMELR)
    }

    /// Raw high word of the time.
    pub fn raw_high(self) -> (r: AliasedRegister)
        ensures
            r@ == self.spec_base() + TIMERAWH,
    {
        self.register_at(TIMERAWH)
    }

    /// Debug pause control.
    pub fn debug_pause(self) -> (r: AliasedRegister)
        ensures
            r@ == self.spec_base() + DBGPAUSE,
    {
        self.register_at(DBGPAUSE)
    }

    /// Pause control.
    pub fn pause(self) -> (r: AliasedRegister)
        ensures
            r@ == self.spec_base() + PAUSE,
    {
        self.register_at(PAUSE)
    }

    /// Write lock.
    pub fn locked(self) -> (r: AliasedRegister)
        ensures
            r@ == self.spec_base() + LOCKED,
    {
        self.register_at(LOCKED)
    }

    /// Tick source selection.
    pub fn source(self) -> (r: AliasedRegister)
        ensures
            r@ == self.spec_base() + SOURCE,
    {
        self.register_at(SOURCE)
    }

    /// Interrupt status register.
    pub fn ints(self) -> (r: AliasedRegister)
        ensures
            r@ == self.spec_base() + INTS,
    {
        self.register_at(INTS)
    }

    /// Sets the time to `val`: the low word, then the high word (which commits both).
    /// Not safe against a concurrent writer.
    pub fn write_time(self, val: u64) -> (w: (BusWrite, BusWrite))
        ensures
            w.0 == (BusWrite { addr: (self.spec_base() + TIMELW) as usize, value: (val % 0x1_0000_0000) as u32 }),
            w.1 == (BusWrite { addr: (self.spec_base() + TIMEHW) as usize, value: (val / 0x1_0000_0000) as u32 }),
    {
        let low = (val & 0xFFFF_FFFF) as u32;
        let high = (val >> 32) as u32;
        assert(val & 0xFFFF_FFFF == val % 0x1_0000_0000 && val >> 32u64 == val / 0x1_0000_0000) by (bit_vector);
        (self.low_write().write(low), self.high_write().write(high))
    }

    /// The time from the low word and the high word latched by reading it.
    pub fn read_time(self, low: u32, high: u32) -> (t: u64)
        ensures
            t == high as int * 0x1_0000_0000 + low,
    {
        assert(((high as u64) << 32u64) | (low as u64) == high as int * 0x1_0000_0000 + low) by (bit_vector);
        ((high as u64) << 32) | (low as u64)
    }

    /// Register holding which alarms are armed.
    pub fn armed(self) -> (r: AliasedRegister)
        ensures
            r@ == self.spec_base() + ARMED,
    {
        self.register_at(ARMED)
    }

    /// Raw low word of the time, read without latching.
    pub fn raw_low(self) -> (r: AliasedRegister)
        ensures
            r@ == self.spec_base() + TIMERAWL,
    {
        self.register_at(TIMERAWL)
    }

    /// Raw interrupt register.
    pub fn intr(self) -> (r: AliasedRegister)
        ensures
            r@ == self.spec_base() + INTR,
    {
        self.register_at(INTR)
    }

    /// Interrupt enable register.
    pub fn inte(self) -> (r: AliasedRegister)
        ensures
            r@ == self.spec_base() + INTE,
    {
        self.register_at(INTE)
    }

    /// Interrupt force register.
    pub fn intf(self) -> (r: AliasedRegister)
        ensures
            r@ == self.spec_base() + INTF,
    {
        self.register_at(INTF)
    }

    /// The compare register of `alarm`.
    pub fn alarm(self, alarm: Alarm) -> (r: AliasedRegister)
        ensures
            r@ == self.spec_base() + ALARM0 + 4 * alarm.spec_index(),
    {
        match alarm {
            Alarm::Alarm0 => self.register_at(ALARM0),
            Alarm::Alarm1 => self.register_at(ALARM1),
            Alarm::Alarm2 => self.register_at(ALARM2),
            Alarm::Alarm3 => self.register_at(ALARM3),
        }
    }

    /// Pulses the timer's reset and waits until it is done.
    pub fn reset(self) -> (p: Vec<RegStep>)
        ensures
            p@ == reset_steps(self.spec_reset_mask()),
    {
        reset_blocks(self.reset_mask)
    }

    /// Interrupt-array steps: drop forced alarm interrupts, then enable them.
    fn enable_alarm_interrupts(self) -> (p: Vec<RegStep>)
        ensures
            p@ == seq![
                RegStep::CsrClear { csr: RVCSR_MEIFA, value: alarm_irq_select(self.spec_first_irq_num()) as usize },
                RegStep::CsrSet { csr: RVCSR_MEIEA, value: alarm_irq_select(self.spec_first_irq_num()) as usize },
            ],
    {
        proof {
            use_type_invariant(&self);
            vstd::arithmetic::power2::lemma2_to64();
        }
        let window = (self.first_irq_num / 16) as usize;
        let shift = (self.first_irq_num % 16) as usize;
        assert(0b1110usize << shift == 0b1110 * (if shift == 0 { 1usize } else { 16usize }))
            by (bit_vector)
            requires
                shift == 0 || shift == 4,
        ;
        let mask: usize = 0b1110 << shift;
        assert(mask << 16usize == mask * 0x10000) by (bit_vector)
            requires
                mask <= 0xE0,
        ;
        let select = (mask << 16) + window;
        let mut p: Vec<RegStep> = Vec::new();
        p.push(RegStep::CsrClear { csr: RVCSR_MEIFA, value: select });
        p.push(RegStep::CsrSet { csr: RVCSR_MEIEA, value: select });
        p
    }

    /// Enables the alarm interrupts in the interrupt array, drops forced alarm
    /// interrupts and enables all four alarm interrupts in the timer.
    pub fn enable_alarms(self) -> (p: Vec<RegStep>)
        ensures
            p@ == seq![
                RegStep::CsrClear { csr: RVCSR_MEIFA, value: alarm_irq_select(self.spec_first_irq_num()) as usize },
                RegStep::CsrSet { csr: RVCSR_MEIEA, value: alarm_irq_select(self.spec_first_irq_num()) as usize },
                RegStep::Write(BusWrite { addr: (self.spec_base() + INTF + CLEAR_ALIAS_OFFSET) as usize, value: 0b1111 }),
                RegStep::Write(BusWrite { addr: (self.spec_base() + INTE + SET_ALIAS_OFFSET) as usize, value: 0b1111 }),
            ],
    {
        proof {
            use_type_invariant(&self);
        }
        let mut p = self.enable_alarm_interrupts();
        p.push(RegStep::Write(self.intf().clear(0b1111)));
        p.push(RegStep::Write(self.inte().set(0b1111)));
        p
    }

    /// Arms `alarm` to fire `micros` microseconds after `now_lower`, the value read
    /// from the raw low time register: the alarm's forced interrupt is dropped and its
    /// compare register gets `now_lower + micros` modulo 2^32. A delay of 2^32
    /// microseconds or more is refused.
    pub fn set_alarm(self, alarm: Alarm, micros: u128, now_lower: u32) -> (r: Result<Vec<RegStep>, TooFarInTheFuture>)
        ensures
            r is Err <==> micros > u32::MAX,
            r matches Ok(p) ==> p@ == seq![
                RegStep::Write(BusWrite {
                    addr: (self.spec_base() + INTF + CLEAR_ALIAS_OFFSET) as usize,
                    value: vstd::arithmetic::power2::pow2(alarm.spec_index() as nat) as u32,
                }),
                RegStep::Write(BusWrite {
                    addr: (self.spec_base() + ALARM0 + 4 * alarm.spec_index()) as usize,
                    value: ((now_lower + micros) % 0x1_0000_0000) as u32,
                }),
            ],
    {
        proof {
            use_type_invariant(&self);
        }
        if micros as u32 as u128 != micros {
            return Err(TooFarInTheFuture);
        }
        let target_diff = micros as u32;
        let target = now_lower.wrapping_add(target_diff);
        let mut p: Vec<RegStep> = Vec::new();
        p.push(RegStep::Write(self.intf().clear(alarm.bit())));
        p.push(RegStep::Write(self.alarm(alarm).write(target)));
        Ok(p)
    }

    /// Acknowledges the interrupt of `alarm`: its bit in the raw interrupt register,
    /// which clears on a write of 1.
    pub fn clear_alarm_event(self, alarm: Alarm) -> (w: BusWrite)
        ensures
            w == (BusWrite {
                addr: (self.spec_base() + INTR) as usize,
                value: vstd::arithmetic::power2::pow2(alarm.spec_index() as nat) as u32,
            }),
    {
        self.intr().write(alarm.bit())
    }
}

/// Timer 0.
pub fn timer0() -> (t: Timer)
    ensures
        t.spec_base() == TIMER0_BASE,
        t.spec_first_irq_num() == TIMER0_FIRST_IRQ,
        t.spec_reset_mask() == TIMER0_RESET_MASK,
{
    Timer::new(AliasedRegister::from_addr(TIMER0_BASE), TIMER0_FIRST_IRQ, TIMER0_RESET_MASK)
}

/// Timer 1.
pub fn timer1() -> (t: Timer)
    ensures
        t.spec_base() == TIMER1_BASE,
        t.spec_first_irq_num() == TIMER1_FIRST_IRQ,
        t.spec_reset_mask() == TIMER1_RESET_MASK,
{
    Timer::new(AliasedRegister::from_addr(TIMER1_BASE), TIMER1_FIRST_IRQ, TIMER1_RESET_MASK)
}

/// Reading back the two words that setting the time writes gives the time.
pub proof fn lemma_time_roundtrip(val: u64)
    ensures
        ((val / 0x1_0000_0000) as u32) as int * 0x1_0000_0000 + ((val % 0x1_0000_0000) as u32) as int == val,
{
}

} // verus!
