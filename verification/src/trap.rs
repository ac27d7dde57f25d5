//! Machine trap handling: classifying trap causes and external interrupts.
use vstd::prelude::*;

use crate::board::{fast_blink_steps, led_bits, LedStep};
use crate::common::RegStep;

verus! {

/// Machine CSR numbers.
pub const RVCSR_MSTATUS: u32 = 0x300;
pub const RVCSR_MIE: u32 = 0x304;
pub const RVCSR_MTVEC: u32 = 0x305;
pub const RVCSR_MEPC: u32 = 0x341;
pub const RVCSR_MCAUSE: u32 = 0x342;
pub const RVCSR_MEINEXT: u32 = 0xBE4;
pub const RVCSR_MEICONTEXT: u32 = 0xBE5;
/// External interrupt force array.
pub const RVCSR_MEIFA: u32 = 0xBE2;
/// External interrupt enable array.
pub const RVCSR_MEIEA: u32 = 0xBE0;

/// Machine interrupt enable bit of `mstatus`, and external interrupt enable bit of `mie`.
pub const RVCSR_MSTATUS_MIE: usize = 0x8;
pub const RVCSR_MIE_MEIE: usize = 0x800;

/// Points machine traps at the handler at address `handler`, enables machine
/// interrupts, and enables external interrupts.
pub fn init_traps(handler: usize) -> (p: Vec<RegStep>)
    ensures
        p@ == seq![
            RegStep::CsrWrite { csr: RVCSR_MTVEC, value: handler },
            RegStep::CsrSet { csr: RVCSR_MSTATUS, value: RVCSR_MSTATUS_MIE },
            RegStep::CsrSet { csr: RVCSR_MIE, value: RVCSR_MIE_MEIE },
        ],
{
    let mut p: Vec<RegStep> = Vec::new();
    p.push(RegStep::CsrWrite { csr: RVCSR_MTVEC, value: handler });
    p.push(RegStep::CsrSet { csr: RVCSR_MSTATUS, value: RVCSR_MSTATUS_MIE });
    p.push(RegStep::CsrSet { csr: RVCSR_MIE, value: RVCSR_MIE_MEIE });
    p
}

/// What the trap handler does for a trap cause.
#[derive(Copy, Clone, PartialEq, Eq, Debug)]
pub enum TrapAction {
    /// Serve the pending external interrupts, then return.
    ExternalInterrupts,
    /// Blink the cause and the trapping address once, then return.
    ReportOnce,
    /// Blink the cause and the trapping address forever.
    ReportForever,
}

/// Cause code bit that marks an interrupt.
pub const MCAUSE_INTERRUPT: usize = 0x8000_0000;

/// The action for trap cause `cause`: exceptions 1 to 8 and 11, and the software
/// and timer interrupts, are reported once; the external interrupt is served; any
/// other cause is reported forever.
pub open spec fn spec_trap_action(cause: usize) -> TrapAction {
    if (1 <= cause <= 8) || cause == 0xB || cause == 0x8000_0003 || cause == 0x8000_0007 {
        TrapAction::ReportOnce
    } else if cause == 0x8000_000B {
        TrapAction::ExternalInterrupts
    } else {
        TrapAction::ReportForever
    }
}

/// What each trap is answered with: the exceptions 1 to 8 (access faults, illegal
/// instruction, breakpoint, misaligned loads and stores) and 11 (environment call),
/// and the software and timer interrupts, are reported once and the handler
/// returns; the external interrupt is served; only the causes outside these are
/// reported forever.
pub proof fn lemma_trap_actions(cause: usize)
    ensures
        (1 <= cause <= 8 || cause == 0xB) ==> spec_trap_action(cause) == TrapAction::ReportOnce,
        (cause == MCAUSE_INTERRUPT + 3 || cause == MCAUSE_INTERRUPT + 7) ==> spec_trap_action(cause)
            == TrapAction::ReportOnce,
        spec_trap_action(cause) == TrapAction::ExternalInterrupts <==> cause == MCAUSE_INTERRUPT + 11,
        spec_trap_action(cause) == TrapAction::ReportForever <==> !(1 <= cause <= 8 || cause == 0xB || cause
            == MCAUSE_INTERRUPT + 3 || cause == MCAUSE_INTERRUPT + 7 || cause == MCAUSE_INTERRUPT + 11),
{
}

/// The action for trap cause `cause`. Cause 0 (instruction misalignment) cannot
/// occur on this core.
pub fn classify_trap(cause: usize) -> (a: TrapAction)
    requires
        cause != 0,
    ensures
        a == spec_trap_action(cause),
{
    match cause {
        0x1 | 0x2 | 0x3 | 0x4 | 0x5 | 0x6 | 0x7 | 0x8 | 0xB => TrapAction::ReportOnce,
        0x8000_0003 | 0x8000_0007 => TrapAction::ReportOnce,
        0x8000_000B => TrapAction::ExternalInterrupts,
        _ => TrapAction::ReportForever,
    }
}

/// The blink pattern that reports a trap: a long fast burst, the interrupt bit, a
/// short burst, the low eight bits of the cause, a short burst, the 32 bits of the
/// trapping address (each number least significant bit first).
pub open spec fn spec_trap_report(cause: usize, addr: usize) -> Seq<LedStep> {
    fast_blink_steps(20) + led_bits(cause as nat / 0x8000_0000, 1) + fast_blink_steps(5) + led_bits(cause as nat, 8)
        + fast_blink_steps(5) + led_bits(addr as nat, 32)
}

/// The blink pattern that reports trap cause `cause` at address `addr`.
pub fn blink_trap_cause_once(cause: usize, addr: usize) -> (p: Vec<LedStep>)
    ensures
        p@ == spec_trap_report(cause, addr),
{
    let mut p = crate::board::fast_blink(20);
    assert(cause >> 31usize == cause / 0x8000_0000) by (bit_vector);
    let mut interrupt_bit = crate::board::blink_partial_value(cause >> 31, 1);
    p.append(&mut interrupt_bit);
    let mut burst = crate::board::fast_blink(5);
    p.append(&mut burst);
    let mut cause_bits = crate::board::blink_partial_value(cause, 8);
    p.append(&mut cause_bits);
    let mut burst2 = crate::board::fast_blink(5);
    p.append(&mut burst2);
    let mut addr_bits = crate::board::blink_value(addr);
    p.append(&mut addr_bits);
    p
}

/// Which pending external interrupt to serve next.
#[derive(Copy, Clone, PartialEq, Eq, Debug)]
pub enum ExternalInterrupt {
    /// No interrupt is pending.
    NoneLeft,
    /// A timer alarm interrupt, by interrupt number (0 to 7).
    Timer(usize),
    /// The USB controller's interrupt.
    Usb,
    /// An interrupt the firmware does not serve; it blinks the number forever.
    Unexpected,
}

/// The interrupt to serve for a value read from `meinext`: bit 31 set means none
/// is pending, else bits 2 and up hold the interrupt number.
pub open spec fn spec_external_interrupt(next: usize) -> ExternalInterrupt {
    if next as nat / 0x8000_0000 != 0 {
        ExternalInterrupt::NoneLeft
    } else if next as nat / 4 <= 7 {
        ExternalInterrupt::Timer((next as nat / 4) as usize)
    } else if next as nat / 4 == 14 {
        ExternalInterrupt::Usb
    } else {
        ExternalInterrupt::Unexpected
    }
}

/// The interrupt to serve for a value read from `meinext`. The chip has 52
/// interrupts, so a pending one is numbered at most 51.
pub fn classify_external_interrupt(next: usize) -> (r: ExternalInterrupt)
    requires
        next as nat / 0x8000_0000 != 0 || next as nat / 4 <= 51,
    ensures
        r == spec_external_interrupt(next),
{
    assert(next >> 31usize == next / 0x8000_0000 && next >> 2usize == next / 4) by (bit_vector);
    if next >> 31 != 0 {
        return ExternalInterrupt::NoneLeft;
    }
    let next_irq = next >> 2;
    if next_irq <= 7 {
        ExternalInterrupt::Timer(next_irq)
    } else if next_irq == 14 {
        ExternalInterrupt::Usb
    } else {
        ExternalInterrupt::Unexpected
    }
}

/// Whether the interrupt context agrees with `meinext`: the context's no-interrupt
/// bit (15) matches bit 31 of `next`, its interrupt field (bits 4..=11) matches the
/// low byte of the interrupt number, and `mip` reports an external interrupt (bit 11).
pub fn external_interrupt_consistent(context: usize, next: usize, mip: usize) -> (b: bool)
    ensures
        b == ((context as nat / 0x8000) % 2 == next as nat / 0x8000_0000
            && (context as nat / 16) % 256 == (next as nat / 4) % 256 && (mip as nat / 0x800) % 2 == 1),
{
    assert((context >> 15usize) & 1 == (context / 0x8000) % 2 && next >> 31usize == next / 0x8000_0000
        && (context >> 4usize) & 0xFF == (context / 16) % 256 && (next >> 2usize) & 0xFF == (next / 4) % 256
        && ((mip & 0x800 != 0) == ((mip / 0x800) % 2 == 1))) by (bit_vector);
    (context >> 15) & 1 == next >> 31 && (context >> 4) & 0xFF == (next >> 2) & 0xFF && mip & 0x800 != 0
}

/// The pattern blinked forever for an interrupt the firmware does not serve: a
/// long burst, then the low six bits of `next`.
pub fn unexpected_interrupt_report(next: usize) -> (p: Vec<LedStep>)
    ensures
        p@ == fast_blink_steps(40) + led_bits(next as nat, 6),
{
    let mut p = crate::board::fast_blink(40);
    let mut bits = crate::board::blink_partial_value(next, 6);
    p.append(&mut bits);
    p
}

} // verus!
