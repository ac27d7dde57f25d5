//! The reset controller: taking a block out of reset.
use vstd::prelude::*;

use crate::common::{AliasedRegister, BusWrite, RegCondition, RegStep, CLEAR_ALIAS_OFFSET, SET_ALIAS_OFFSET};

verus! {

/// Base address of the reset controller.
pub const RESETS_BASE: usize = 0x4002_0000;
/// Reset control: a set bit holds the matching block in reset.
pub const RESETS_RESET: usize = RESETS_BASE;
/// Watchdog select.
pub const RESETS_WDSEL: usize = RESETS_BASE + 4;
/// Reset done: a set bit means the matching block has left reset.
pub const RESETS_RESET_DONE: usize = RESETS_BASE + 8;

/// Pulses the reset of the blocks in `mask` and waits until one of them reports done.
pub open spec fn reset_steps(mask: u32) -> Seq<RegStep> {
    seq![
        RegStep::Write(BusWrite { addr: (RESETS_RESET + SET_ALIAS_OFFSET) as usize, value: mask }),
        RegStep::Write(BusWrite { addr: (RESETS_RESET + CLEAR_ALIAS_OFFSET) as usize, value: mask }),
        RegStep::WaitUntil(RegCondition { addr: RESETS_RESET_DONE, mask, expected: 0, negate: true }),
    ]
}

/// The program that asserts and releases the reset of the blocks in `mask`, then
/// polls the reset-done register until `done & mask != 0`.
pub fn reset_blocks(mask: u32) -> (p: Vec<RegStep>)
    ensures
        p@ == reset_steps(mask),
{
    let reset = AliasedRegister::from_addr(RESETS_RESET);
    let done = AliasedRegister::from_addr(RESETS_RESET_DONE);
    let mut p: Vec<RegStep> = Vec::new();
    p.push(RegStep::Write(reset.set(mask)));
    p.push(RegStep::Write(reset.clear(mask)));
    p.push(RegStep::WaitUntil(RegCondition::masked_ne(done, mask, 0)));
    p
}

} // verus!
