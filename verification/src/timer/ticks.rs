//! Tick generators: each divides the reference clock down to one tick per microsecond.
use vstd::prelude::*;

use crate::common::{AliasedRegister, BusWrite, RegStep, CLEAR_ALIAS_OFFSET, SET_ALIAS_OFFSET};

verus! {

/// Base address of the tick generators.
pub const TICKS_BASE: usize = 0x4010_8000;
/// Offsets of the tick generators from [`TICKS_BASE`].
pub const PROC0_OFFSET: usize = 0x00;
pub const PROC1_OFFSET: usize = 0x0C;
pub const TIMER0_OFFSET: usize = 0x18;
pub const TIMER1_OFFSET: usize = 0x24;
pub const WATCHDOG_OFFSET: usize = 0x30;
pub const RISCV_OFFSET: usize = 0x3C;

/// Offsets of a tick generator's control, cycle-count and count registers.
pub const TICK_CTRL: usize = 0x0;
pub const TICK_CYCLES: usize = 0x4;
pub const TICK_COUNT: usize = 0x8;

/// Enable bit of a tick generator's control register.
pub const TICK_ENABLE: u32 = 1 << 0;
/// Field of the cycle-count register: reference clock cycles per tick.
pub const MHZ_MASK: u32 = 0x1FF;

/// A tick generator: a block of three registers (control, cycles, count).
#[derive(Copy, Clone, PartialEq, Eq, Debug)]
pub struct TickGenerator {
    base: AliasedRegister,
}

impl TickGenerator {
    #[verifier::type_invariant]
    spec fn is_tick_block(self) -> bool {
        TICKS_BASE <= self.base@ <= TICKS_BASE + RISCV_OFFSET
    }

    /// Base address of the generator's registers.
    pub closed spec fn spec_base(self) -> usize {
        self.base@
    }

    fn new(offset: usize) -> (t: Self)
        requires
            offset <= RISCV_OFFSET,
        ensures
            t.spec_base() == TICKS_BASE + offset,
    {
        TickGenerator { base: AliasedRegister::from_addr(TICKS_BASE + offset) }
    }

    fn register_at(self, offset: usize) -> (r: AliasedRegister)
        requires
            offset <= TICK_COUNT,
        ensures
            r@ == self.spec_base() + offset,
    {
        proof {
            use_type_invariant(&self);
        }
        self.base.offset_bytes(offset)
    }

    /// Control register.
    pub fn ctrl(self) -> (r: AliasedRegister)
        ensures
            r@ == self.spec_base() + TICK_CTRL,
    {
        self.register_at(TICK_CTRL)
    }

    /// Cycles-per-tick register.
    pub fn cycles(self) -> (r: AliasedRegister)
        ensures
            r@ == self.spec_base() + TICK_CYCLES,
    {
        self.register_at(TICK_CYCLES)
    }

    /// Count register, which the generator's current count is read from.
    pub fn count(self) -> (r: AliasedRegister)
        ensures
            r@ == self.spec_base() + TICK_COUNT,
    {
        self.register_at(TICK_COUNT)
    }

    /// Stops the generator, sets the number of reference cycles per tick to
    /// `clk_ref_mhz` and starts it again.
    pub fn enable(self, clk_ref_mhz: u32) -> (p: Vec<RegStep>)
        requires
            clk_ref_mhz <= MHZ_MASK,
        ensures
            p@ == seq![
                RegStep::Write(BusWrite { addr: (self.spec_base() + TICK_CTRL + CLEAR_ALIAS_OFFSET) as usize, value: TICK_ENABLE }),
                RegStep::Write(BusWrite { addr: (self.spec_base() + TICK_CYCLES) as usize, value: clk_ref_mhz }),
                RegStep::Write(BusWrite { addr: (self.spec_base() + TICK_CTRL + SET_ALIAS_OFFSET) as usize, value: TICK_ENABLE }),
            ],
    {
        proof {
            use_type_invariant(&self);
        }
        assert(clk_ref_mhz & 0x1FF == clk_ref_mhz) by (bit_vector)
            requires
                clk_ref_mhz <= 0x1FF,
        ;
        let mut p: Vec<RegStep> = Vec::new();
        p.push(RegStep::Write(self.ctrl().clear(TICK_ENABLE)));
        p.push(RegStep::Write(self.cycles().write(clk_ref_mhz & MHZ_MASK)));
        p.push(RegStep::Write(self.ctrl().set(TICK_ENABLE)));
        p
    }
}

/// Tick generator of processor 0.
pub fn proc0() -> (t: TickGenerator)
    ensures
        t.spec_base() == TICKS_BASE + PROC0_OFFSET,
{
    TickGenerator::new(PROC0_OFFSET)
}

/// Tick generator of processor 1.
pub fn proc1() -> (t: TickGenerator)
    ensures
        t.spec_base() == TICKS_BASE + PROC1_OFFSET,
{
    TickGenerator::new(PROC1_OFFSET)
}

/// Tick generator of timer 0.
pub fn timer0() -> (t: TickGenerator)
    ensures
        t.spec_base() == TICKS_BASE + TIMER0_OFFSET,
{
    TickGenerator::new(TIMER0_OFFSET)
}

/// Tick generator of timer 1.
pub fn timer1() -> (t: TickGenerator)
    ensures
        t.spec_base() == TICKS_BASE + TIMER1_OFFSET,
{
    TickGenerator::new(TIMER1_OFFSET)
}

/// Tick generator of the watchdog.
pub fn watchdog() -> (t: TickGenerator)
    ensures
        t.spec_base() == TICKS_BASE + WATCHDOG_OFFSET,
{
    TickGenerator::new(WATCHDOG_OFFSET)
}

/// Tick generator of the RISC-V platform timer.
pub fn riscv() -> (t: TickGenerator)
    ensures
        t.spec_base() == TICKS_BASE + RISCV_OFFSET,
{
    TickGenerator::new(RISCV_OFFSET)
}

} // verus!
