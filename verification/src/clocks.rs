//! Clock tree: crystal oscillator start-up, PLL parameters and configuration,
//! clock source switching and the frequency counter.
use vstd::prelude::*;

use crate::common::{AliasedRegister, BusWrite, RegCondition, RegStep, CLEAR_ALIAS_OFFSET, SET_ALIAS_OFFSET};
use crate::resets::{reset_blocks, reset_steps};

verus! {

/// Base address of the clock generators.
pub const CLOCKS_BASE: usize = 0x4001_0000;
pub const CLK_REF_CTRL: usize = CLOCKS_BASE + 0x30;
pub const CLK_REF_SELECTED: usize = CLOCKS_BASE + 0x38;
pub const CLK_SYS_CTRL: usize = CLOCKS_BASE + 0x3C;
pub const CLK_SYS_SELECTED: usize = CLOCKS_BASE + 0x44;
pub const CLK_USB_CTRL: usize = CLOCKS_BASE + 0x60;

/// Base address of the crystal oscillator.
pub const XOSC_BASE: usize = 0x4004_8000;
pub const XOSC_CTRL: usize = XOSC_BASE;
pub const XOSC_STATUS: usize = XOSC_BASE + 0x4;
pub const XOSC_STARTUP: usize = XOSC_BASE + 0xC;
pub const XOSC_COUNT: usize = XOSC_BASE + 0x10;

/// Base address of the ring oscillator.
pub const ROSC_BASE: usize = 0x400E_8000;
pub const ROSC_CTRL: usize = ROSC_BASE;
pub const ROSC_RANDOM: usize = ROSC_BASE + 0xC;
pub const ROSC_RANDOMBIT: usize = ROSC_BASE + 0x20;
pub const ROSC_COUNT: usize = ROSC_BASE + 0x24;

/// Frequency counter registers.
pub const FC0_REF_KHZ: usize = CLOCKS_BASE + 0x8C;
pub const FC0_SRC: usize = CLOCKS_BASE + 0xA0;
pub const FC0_STATUS: usize = CLOCKS_BASE + 0xA4;
pub const FC0_RESULT: usize = CLOCKS_BASE + 0xA8;

/// Frequency of the crystal oscillator.
pub const XOSC_HZ: u32 = 12_000_000;

/// Base addresses and reset bits of the two PLLs.
pub const PLL_SYS_BASE: usize = 0x4005_0000;
pub const PLL_USB_BASE: usize = 0x4005_8000;
pub const RESETS_RESET_PLL_SYS: u32 = 14;
pub const RESETS_RESET_PLL_USB: u32 = 15;

/// Limits on PLL settings.
pub const REF_MIN: u32 = 5_000_000;
pub const FBDIV_MIN: u32 = 16;
pub const FBDIV_MAX: u32 = 320;
pub const VCO_MIN: u32 = 750_000_000;
pub const VCO_MAX: u32 = 1600_000_000;

/// Reference frequency of a PLL whose input divider is `refdiv`.
pub open spec fn reference_hz(refdiv: u32) -> int {
    XOSC_HZ as int / refdiv as int
}

/// Voltage-controlled oscillator frequency for the dividers.
pub open spec fn vco_hz(refdiv: u32, fbdiv: u32) -> int {
    reference_hz(refdiv) * fbdiv
}

/// The settings a PLL accepts.
pub open spec fn pll_settings_valid(refdiv: u32, fbdiv: u32, post_div1: u32, post_div2: u32) -> bool {
    &&& refdiv > 0
    &&& FBDIV_MIN <= fbdiv <= FBDIV_MAX
    &&& REF_MIN <= reference_hz(refdiv) <= vco_hz(refdiv, fbdiv) / 16
    &&& VCO_MIN <= vco_hz(refdiv, fbdiv) <= VCO_MAX
    &&& 1 <= post_div1 <= 7
    &&& 1 <= post_div2 <= 7
}

/// The plain values of a [`PllParams`].
#[derive(Copy, Clone, PartialEq, Eq, Debug)]
pub struct PllConfig {
    pub refdiv: u32,
    pub fbdiv: u32,
    pub post_div1: u32,
    pub post_div2: u32,
}

/// Divider settings for a PLL; every value satisfies [`pll_settings_valid`].
#[derive(Copy, Clone, PartialEq, Eq, Debug)]
pub struct PllParams {
    refdiv: u32,
    fbdiv: u32,
    post_div1: u32,
    post_div2: u32,
}

impl View for PllParams {
    type V = PllConfig;

    closed spec fn view(&self) -> PllConfig {
        PllConfig {
            refdiv: self.refdiv,
            fbdiv: self.fbdiv,
            post_div1: self.post_div1,
            post_div2: self.post_div2,
        }
    }
}

impl PllParams {
    #[verifier::type_invariant]
    spec fn settings_valid(self) -> bool {
        pll_settings_valid(self.refdiv, self.fbdiv, self.post_div1, self.post_div2)
    }

    /// The divider values; every value of the type holds settings a PLL accepts.
    pub fn settings(&self) -> (c: PllConfig)
        ensures
            c == self@,
            pll_settings_valid(c.refdiv, c.fbdiv, c.post_div1, c.post_div2),
    {
        proof {
            use_type_invariant(self);
        }
        PllConfig {
            refdiv: self.refdiv,
            fbdiv: self.fbdiv,
            post_div1: self.post_div1,
            post_div2: self.post_div2,
        }
    }

    /// The post-divider register value: `post_div1` in bits 16..=18, `post_div2` in bits 12..=14.
    pub fn pdiv(self) -> (r: u32)
        ensures
            r as int == self@.post_div1 * 0x10000 + self@.post_div2 * 0x1000,
    {
        proof {
            use_type_invariant(&self);
        }
        let a = self.post_div1;
        let b = self.post_div2;
        assert((a << 16u32 | b << 12u32) == a * 0x10000 + b * 0x1000) by (bit_vector)
            requires
                a <= 7,
                b <= 7,
        ;
        a << 16 | b << 12
    }

    /// The settings, if a PLL accepts them.
    pub fn new(refdiv: u32, fbdiv: u32, post_div1: u32, post_div2: u32) -> (r: Option<Self>)
        requires
            refdiv != 0 || !(FBDIV_MIN <= fbdiv <= FBDIV_MAX),
        ensures
            r is Some <==> pll_settings_valid(refdiv, fbdiv, post_div1, post_div2),
            r matches Some(p) ==> p@ == (PllConfig { refdiv, fbdiv, post_div1, post_div2 }),
    {
        if !(16 <= fbdiv && fbdiv <= 320) {
            return None;
        }
        let ref_freq = XOSC_HZ / refdiv;
        assert(ref_freq * fbdiv <= 12_000_000 * 320) by (nonlinear_arith)
            requires
                ref_freq <= 12_000_000,
                fbdiv <= 320,
        ;
        let vco_freq = ref_freq * fbdiv;
        let ref_max = vco_freq / 16;
        if !(REF_MIN <= ref_freq && ref_freq <= ref_max) {
            return None;
        }
        if !(VCO_MIN <= vco_freq && vco_freq <= VCO_MAX) {
            return None;
        }
        if !(FBDIV_MIN <= fbdiv && fbdiv <= FBDIV_MAX) {
            return None;
        }
        if !(1 <= post_div1 && post_div1 <= 7) {
            return None;
        }
        if !(1 <= post_div2 && post_div2 <= 7) {
            return None;
        }
        Some(PllParams { refdiv, fbdiv, post_div1, post_div2 })
    }

    /// The settings that reach `vco_freq` with input divider `refdiv`: the feedback
    /// divider is `vco_freq / (XOSC_HZ / refdiv)`, rounded down.
    pub fn from_vco(refdiv: u32, vco_freq: u32, post_div1: u32, post_div2: u32) -> (r: Option<Self>)
        requires
            refdiv != 0,
            refdiv <= XOSC_HZ,
        ensures
            ({
                let fbdiv = (vco_freq as int / reference_hz(refdiv)) as u32;
                &&& r is Some <==> pll_settings_valid(refdiv, fbdiv, post_div1, post_div2)
                &&& r matches Some(p) ==> p@ == (PllConfig { refdiv, fbdiv, post_div1, post_div2 })
            }),
    {
        let ref_freq = XOSC_HZ / refdiv;
        assert(ref_freq >= 1) by (nonlinear_arith)
            requires
                refdiv <= 12_000_000,
                refdiv > 0,
                ref_freq as int == 12_000_000int / refdiv as int,
        ;
        let fbdiv = vco_freq / ref_freq;
        Self::new(refdiv, fbdiv, post_div1, post_div2)
    }

    /// Output frequency after both post-dividers.
    pub fn f_out_post_div_hz(self) -> (r: u32)
        ensures
            r as int == vco_hz(self@.refdiv, self@.fbdiv) / (self@.post_div1 * self@.post_div2),
    {
        proof {
            use_type_invariant(&self);
        }
        let a = self.post_div1;
        let b = self.post_div2;
        assert(1 <= a * b <= 49) by (nonlinear_arith)
            requires
                1 <= a <= 7,
                1 <= b <= 7,
        ;
        (XOSC_HZ / self.refdiv) * self.fbdiv / (self.post_div1 * self.post_div2)
    }
}

/// The system PLL's settings.
pub closed spec fn spec_pll_sys_params() -> PllParams {
    PllParams { refdiv: 1, fbdiv: 125, post_div1: 5, post_div2: 2 }
}

/// The USB PLL's settings.
pub closed spec fn spec_pll_usb_params() -> PllParams {
    PllParams { refdiv: 1, fbdiv: 100, post_div1: 5, post_div2: 5 }
}

/// The system PLL's settings: 1.5 GHz VCO, post-dividers 5 and 2.
pub fn pll_sys_params() -> (p: PllParams)
    ensures
        p == spec_pll_sys_params(),
        p@ == (PllConfig { refdiv: 1, fbdiv: 125, post_div1: 5, post_div2: 2 }),
{
    assert(reference_hz(1) == 12_000_000);
    assert(1_500_000_000int / 12_000_000int == 125);
    assert(vco_hz(1, 125) == 1_500_000_000);
    PllParams::from_vco(1, 1_500_000_000, 5, 2).unwrap()
}

/// The USB PLL's settings: 1.2 GHz VCO, post-dividers 5 and 5, giving the 48 MHz
/// a full-speed USB controller runs at.
pub fn pll_usb_params() -> (p: PllParams)
    ensures
        vco_hz(p@.refdiv, p@.fbdiv) / (p@.post_div1 * p@.post_div2) == 48_000_000,
        p == spec_pll_usb_params(),
        p@ == (PllConfig { refdiv: 1, fbdiv: 100, post_div1: 5, post_div2: 5 }),
{
    assert(reference_hz(1) == 12_000_000);
    assert(1_200_000_000int / 12_000_000int == 100);
    assert(vco_hz(1, 100) == 1_200_000_000);
    assert(1_200_000_000int / 25 == 48_000_000);
    let p = PllParams::from_vco(1, 1_200_000_000, 5, 5).unwrap();
    assert(p@.post_div1 * p@.post_div2 == 25) by (nonlinear_arith)
        requires
            p@.post_div1 == 5,
            p@.post_div2 == 5,
    ;
    p
}

/// Offsets of a PLL's registers from its base address.
pub const PLL_CS: usize = 0x00;
pub const PLL_PWR: usize = 0x04;
pub const PLL_FBDIV_INT: usize = 0x08;
pub const PLL_PRIM: usize = 0x0C;
pub const PLL_INTR: usize = 0x10;
pub const PLL_INTE: usize = 0x14;
pub const PLL_INTF: usize = 0x18;
pub const PLL_INTS: usize = 0x1C;

/// Power-down bits of a PLL's power register.
pub const PLL_PWR_PD: u32 = 1 << 0;
pub const PLL_PWR_POSTDIVPD: u32 = 1 << 3;
pub const PLL_PWR_VCOPD: u32 = 1 << 5;
/// Post-divider fields of a PLL's primary-output register.
pub const PDIV_BITS: u32 = 0x0007_7000;
/// Lock bit of a PLL's control register.
pub const PLL_CS_LOCK: u32 = 0x8000_0000;

/// One of the two PLLs: its register block and its bit in the reset controller.
#[derive(Copy, Clone, PartialEq, Eq, Debug)]
pub struct Pll {
    register: AliasedRegister,
    reset_bit: u32,
}

impl Pll {
    #[verifier::type_invariant]
    spec fn is_known_pll(self) -> bool {
        ||| self.register@ == PLL_SYS_BASE && self.reset_bit == RESETS_RESET_PLL_SYS
        ||| self.register@ == PLL_USB_BASE && self.reset_bit == RESETS_RESET_PLL_USB
    }

    /// Base address of the PLL's registers.
    pub closed spec fn spec_base(self) -> usize {
        self.register@
    }

    /// The PLL's bit in the reset controller.
    pub closed spec fn spec_reset_bit(self) -> u32 {
        self.reset_bit
    }

    fn new(register: AliasedRegister, reset_bit: u32) -> (p: Self)
        requires
            (register@ == PLL_SYS_BASE && reset_bit == RESETS_RESET_PLL_SYS)
                || (register@ == PLL_USB_BASE && reset_bit == RESETS_RESET_PLL_USB),
        ensures
            p == (Pll { register, reset_bit }),
            p.spec_base() == register@,
            p.spec_reset_bit() == reset_bit,
    {
        Pll { register, reset_bit }
    }

    /// Base address and reset bit are those of one of the two PLLs.
    pub fn base(self) -> (b: usize)
        ensures
            b == self.spec_base(),
            (b == PLL_SYS_BASE && self.spec_reset_bit() == RESETS_RESET_PLL_SYS)
                || (b == PLL_USB_BASE && self.spec_reset_bit() == RESETS_RESET_PLL_USB),
    {
        proof {
            use_type_invariant(&self);
        }
        self.register.addr()
    }

    /// The PLL's bit in the reset controller, as a mask.
    fn reset_mask(self) -> (m: u32)
        ensures
            m as int == vstd::arithmetic::power2::pow2(self.spec_reset_bit() as nat),
    {
        proof {
            use_type_invariant(&self);
            vstd::arithmetic::power2::lemma2_to64();
        }
        if self.reset_bit == RESETS_RESET_PLL_SYS {
            assert(1u32 << 14u32 == 0x4000) by (bit_vector);
        } else {
            assert(1u32 << 15u32 == 0x8000) by (bit_vector);
        }
        1 << self.reset_bit
    }

    fn register_at(self, offset: usize) -> (r: AliasedRegister)
        requires
            offset <= PLL_INTS,
        ensures
            r@ == self.spec_base() + offset,
    {
        proof {
            use_type_invariant(&self);
        }
        self.register.offset_bytes(offset)
    }

    /// Control and status register.
    pub fn cs(self) -> (r: AliasedRegister)
        ensures
            r@ == self.spec_base() + PLL_CS,
    {
        self.register_at(PLL_CS)
    }

    /// Power register.
    pub fn pwr(self) -> (r: AliasedRegister)
        ensures
            r@ == self.spec_base() + PLL_PWR,
    {
        self.register_at(PLL_PWR)
    }

    /// Feedback divider register.
    pub fn fbdiv_int(self) -> (r: AliasedRegister)
        ensures
            r@ == self.spec_base() + PLL_FBDIV_INT,
    {
        self.register_at(PLL_FBDIV_INT)
    }

    /// Primary output (post-divider) register.
    pub fn prim(self) -> (r: AliasedRegister)
        ensures
            r@ == self.spec_base() + PLL_PRIM,
    {
        self.register_at(PLL_PRIM)
    }

    /// Raw interrupt register.
    pub fn intr(self) -> (r: AliasedRegister)
        ensures
            r@ == self.spec_base() + PLL_INTR,
    {
        self.register_at(PLL_INTR)
    }

    /// Interrupt enable register.
    pub fn inte(self) -> (r: AliasedRegister)
        ensures
            r@ == self.spec_base() + PLL_INTE,
    {
        self.register_at(PLL_INTE)
    }

    /// Interrupt force register.
    pub fn intf(self) -> (r: AliasedRegister)
        ensures
            r@ == self.spec_base() + PLL_INTF,
    {
        self.register_at(PLL_INTF)
    }

    /// Interrupt status register.
    pub fn ints(self) -> (r: AliasedRegister)
        ensures
            r@ == self.spec_base() + PLL_INTS,
    {
        self.register_at(PLL_INTS)
    }

    /// Whether the PLL already runs with `params`, judged from the values read from
    /// its control register (locked, input divider), feedback divider register and
    /// primary output register.
    pub fn is_configured(self, params: PllParams, cs: u32, fbdiv: u32, prim: u32) -> (b: bool)
        ensures
            b == pll_runs_with(params@, cs, fbdiv, prim),
    {
        (cs >> 31 == 1) && (cs & 0x3F == params.settings().refdiv) && (fbdiv & 0xFFF
            == params.settings().fbdiv) && (prim & PDIV_BITS == params.pdiv())
    }

    /// The program that brings the PLL up with `params`: reset the PLL, program the
    /// dividers, power up, wait for lock, set the post-dividers and power them up.
    pub open spec fn bring_up_program(self, params: PllParams) -> Seq<RegStep> {
        reset_steps(vstd::arithmetic::power2::pow2(self.spec_reset_bit() as nat) as u32) + seq![
            RegStep::Write(BusWrite { addr: (self.spec_base() + PLL_CS) as usize, value: params@.refdiv }),
            RegStep::Write(BusWrite { addr: (self.spec_base() + PLL_FBDIV_INT) as usize, value: params@.fbdiv }),
            RegStep::Write(BusWrite {
                addr: (self.spec_base() + PLL_PWR + CLEAR_ALIAS_OFFSET) as usize,
                value: PLL_PWR_PD | PLL_PWR_VCOPD,
            }),
            RegStep::WaitUntil(RegCondition {
                addr: (self.spec_base() + PLL_CS) as usize,
                mask: PLL_CS_LOCK,
                expected: 0,
                negate: true,
            }),
            RegStep::Write(BusWrite {
                addr: (self.spec_base() + PLL_PRIM) as usize,
                value: pdiv_value(params@),
            }),
            RegStep::Write(BusWrite {
                addr: (self.spec_base() + PLL_PWR + CLEAR_ALIAS_OFFSET) as usize,
                value: PLL_PWR_POSTDIVPD,
            }),
        ]
    }

    /// The program that makes the PLL run with `params`, given the values read from
    /// its control (`cs`), feedback divider (`fbdiv`) and primary output (`prim`)
    /// registers: nothing when they show the PLL already locked with these settings,
    /// else the whole bring-up program.
    pub fn setup(self, params: PllParams, cs: u32, fbdiv: u32, prim: u32) -> (p: Vec<RegStep>)
        ensures
            pll_runs_with(params@, cs, fbdiv, prim) ==> p@ == Seq::<RegStep>::empty(),
            !pll_runs_with(params@, cs, fbdiv, prim) ==> p@ == self.bring_up_program(params),
    {
        proof {
            use_type_invariant(&self);
        }
        if self.is_configured(params, cs, fbdiv, prim) {
            return Vec::new();
        }
        let mut p = reset_blocks(self.reset_mask());
        let settings = params.settings();
        p.push(RegStep::Write(self.cs().write(settings.refdiv)));
        p.push(RegStep::Write(self.fbdiv_int().write(settings.fbdiv)));
        p.push(RegStep::Write(self.pwr().clear(PLL_PWR_PD | PLL_PWR_VCOPD)));
        p.push(RegStep::WaitUntil(RegCondition::masked_ne(self.cs(), PLL_CS_LOCK, 0)));
        p.push(RegStep::Write(self.prim().write(params.pdiv())));
        p.push(RegStep::Write(self.pwr().clear(PLL_PWR_POSTDIVPD)));
        p
    }
}

/// The primary output register value for the post-dividers of `c`.
pub open spec fn pdiv_value(c: PllConfig) -> u32 {
    (c.post_div1 * 0x10000 + c.post_div2 * 0x1000) as u32
}

/// Whether register values read from a PLL show it locked and running with `c`:
/// lock bit set, input divider in bits 0..=5 of the control register, feedback
/// divider in bits 0..=11, post-dividers in their fields of the primary output register.
pub open spec fn pll_runs_with(c: PllConfig, cs: u32, fbdiv: u32, prim: u32) -> bool {
    &&& cs >> 31u32 == 1
    &&& cs & 0x3F == c.refdiv
    &&& fbdiv & 0xFFF == c.fbdiv
    &&& prim & PDIV_BITS == pdiv_value(c)
}

/// A PLL brought up by [`Pll::setup`] runs with its parameters: the bring-up program
/// writes the input divider to the control register, the feedback divider and the
/// post-divider value; once the PLL has locked, these registers read back as written,
/// with the lock bit set in the control register. Those values show the PLL running
/// with the parameters, so `setup` with the same parameters then gives no step.
pub proof fn lemma_setup_idempotent(params: PllParams)
    requires
        pll_settings_valid(params@.refdiv, params@.fbdiv, params@.post_div1, params@.post_div2),
    ensures
        pll_runs_with(params@, params@.refdiv | PLL_CS_LOCK, params@.fbdiv, pdiv_value(params@)),
{
    let c = params@;
    let r = c.refdiv;
    let f = c.fbdiv;
    let a = c.post_div1;
    let b = c.post_div2;
    if r >= 3 {
        assert(12_000_000int / r as int <= 4_000_000) by (nonlinear_arith)
            requires
                r >= 3,
        ;
    }
    assert(r <= 2);
    assert((r | PLL_CS_LOCK) >> 31u32 == 1 && (r | PLL_CS_LOCK) & 0x3F == r) by (bit_vector)
        requires
            r <= 2,
            PLL_CS_LOCK == 0x8000_0000u32,
    ;
    assert(f & 0xFFF == f) by (bit_vector)
        requires
            f <= 320,
    ;
    let v = pdiv_value(c);
    assert(v & PDIV_BITS == v) by (bit_vector)
        requires
            v == a * 0x10000 + b * 0x1000,
            1 <= a <= 7,
            1 <= b <= 7,
            PDIV_BITS == 0x77000u32,
    ;
}

/// What register values read from a PLL must show for it to count as running with
/// settings `c`: the lock bit, and each divider in its field (input divider in bits
/// 0..=5 of the control register, feedback divider in bits 0..=11, post-dividers in
/// bits 16..=18 and 12..=14 of the primary output register). A PLL whose input
/// divider, feedback divider or post-dividers differ is not running with `c`, and
/// [`Pll::setup`] gives the whole bring-up program for it.
pub proof fn lemma_runs_with_fields(c: PllConfig, cs: u32, fbdiv: u32, prim: u32)
    ensures
        pll_runs_with(c, cs, fbdiv, prim) ==> cs & PLL_CS_LOCK != 0,
        cs & 0x3F != c.refdiv ==> !pll_runs_with(c, cs, fbdiv, prim),
        fbdiv & 0xFFF != c.fbdiv ==> !pll_runs_with(c, cs, fbdiv, prim),
        1 <= c.post_div1 <= 7 && 1 <= c.post_div2 <= 7 && (prim >> 16u32) & 7 != c.post_div1
            ==> !pll_runs_with(c, cs, fbdiv, prim),
        1 <= c.post_div1 <= 7 && 1 <= c.post_div2 <= 7 && (prim >> 12u32) & 7 != c.post_div2
            ==> !pll_runs_with(c, cs, fbdiv, prim),
{
    assert((cs >> 31u32 == 1) ==> cs & 0x8000_0000 != 0) by (bit_vector);
    if 1 <= c.post_div1 <= 7 && 1 <= c.post_div2 <= 7 {
        let a = c.post_div1;
        let b = c.post_div2;
        let v = pdiv_value(c);
        assert(prim & 0x77000 == v ==> (prim >> 16u32) & 7 == a && (prim >> 12u32) & 7 == b) by (bit_vector)
            requires
                v == a * 0x10000 + b * 0x1000,
                1 <= a <= 7,
                1 <= b <= 7,
        ;
    }
}

/// The registers read from a PLL show it running with at most one valid setting:
/// two valid settings that both match the same values read are equal.
pub proof fn lemma_runs_with_one_setting(c1: PllConfig, c2: PllConfig, cs: u32, fbdiv: u32, prim: u32)
    requires
        pll_settings_valid(c1.refdiv, c1.fbdiv, c1.post_div1, c1.post_div2),
        pll_settings_valid(c2.refdiv, c2.fbdiv, c2.post_div1, c2.post_div2),
        pll_runs_with(c1, cs, fbdiv, prim),
        pll_runs_with(c2, cs, fbdiv, prim),
    ensures
        c1 == c2,
{
    lemma_runs_with_fields(c1, cs, fbdiv, prim);
    lemma_runs_with_fields(c2, cs, fbdiv, prim);
}

/// Whether settings are accepted does not depend on the post-dividers beyond each
/// lying in 1..=7: once one choice of post-dividers is accepted with an input and a
/// feedback divider, every pair in 1..=7 is, and the order of the two never matters.
/// So [`PllParams::new`] gives `Some` for `(r, f, a, b)` exactly when it does for
/// `(r, f, b, a)`.
pub proof fn lemma_post_dividers_free(refdiv: u32, fbdiv: u32, a0: u32, b0: u32, a: u32, b: u32)
    requires
        pll_settings_valid(refdiv, fbdiv, a0, b0),
    ensures
        pll_settings_valid(refdiv, fbdiv, a, b) <==> (1 <= a <= 7 && 1 <= b <= 7),
        pll_settings_valid(refdiv, fbdiv, a, b) <==> pll_settings_valid(refdiv, fbdiv, b, a),
{
}

/// The system PLL.
pub closed spec fn spec_pll_sys() -> Pll {
    Pll { register: AliasedRegister { addr: PLL_SYS_BASE }, reset_bit: RESETS_RESET_PLL_SYS }
}

/// The USB PLL.
pub closed spec fn spec_pll_usb() -> Pll {
    Pll { register: AliasedRegister { addr: PLL_USB_BASE }, reset_bit: RESETS_RESET_PLL_USB }
}

/// The system PLL.
pub fn pll_sys() -> (p: Pll)
    ensures
        p == spec_pll_sys(),
        p.spec_base() == PLL_SYS_BASE,
        p.spec_reset_bit() == RESETS_RESET_PLL_SYS,
{
    Pll::new(AliasedRegister::from_addr(PLL_SYS_BASE), RESETS_RESET_PLL_SYS)
}

/// The USB PLL.
pub fn pll_usb() -> (p: Pll)
    ensures
        p == spec_pll_usb(),
        p.spec_base() == PLL_USB_BASE,
        p.spec_reset_bit() == RESETS_RESET_PLL_USB,
{
    Pll::new(AliasedRegister::from_addr(PLL_USB_BASE), RESETS_RESET_PLL_USB)
}

/// Crystal oscillator start-up delay and control values.
pub const XOSC_STARTUP_DELAY: u32 = 0x11A;
pub const XOSC_CTRL_ENABLE_1_15MHZ: u32 = 0xFAB_AA0;
/// Stable bit of the crystal oscillator status register.
pub const XOSC_STATUS_STABLE: u32 = 1 << 31;

/// Starts the crystal oscillator and waits until it reports stable.
pub fn init_xosc() -> (p: Vec<RegStep>)
    ensures
        p@ == seq![
            RegStep::Write(BusWrite { addr: XOSC_STARTUP, value: XOSC_STARTUP_DELAY }),
            RegStep::Write(BusWrite { addr: XOSC_CTRL, value: XOSC_CTRL_ENABLE_1_15MHZ }),
            RegStep::WaitUntil(RegCondition { addr: XOSC_STATUS, mask: XOSC_STATUS_STABLE, expected: 0, negate: true }),
        ],
{
    let mut p: Vec<RegStep> = Vec::new();
    p.push(RegStep::Write(AliasedRegister::from_addr(XOSC_STARTUP).write(XOSC_STARTUP_DELAY)));
    p.push(RegStep::Write(AliasedRegister::from_addr(XOSC_CTRL).write(XOSC_CTRL_ENABLE_1_15MHZ)));
    p.push(
        RegStep::WaitUntil(
            RegCondition::masked_ne(AliasedRegister::from_addr(XOSC_STATUS), XOSC_STATUS_STABLE, 0),
        ),
    );
    p
}

/// Auxiliary source field of the system clock's control register.
pub const CLK_SYS_CTRL_AUXSRC: u32 = 0b111 << 5;

/// Requires both clocks to run from their reset sources, brings up the system PLL,
/// switches the reference clock to the crystal oscillator (source 2), then moves the
/// system clock to its reference glitchlessly, keeps its auxiliary source selection
/// (bits 5..=7) and switches it to the auxiliary source (source 1).
pub fn switch_sys_clock_to_xosc() -> (p: Vec<RegStep>)
    ensures
        p@ == seq![
            RegStep::Expect(RegCondition { addr: CLK_REF_SELECTED, mask: 0xFFFF_FFFF, expected: 1, negate: false }),
            RegStep::Expect(RegCondition { addr: CLK_SYS_SELECTED, mask: 0xFFFF_FFFF, expected: 1, negate: false }),
            RegStep::ConfigurePll(spec_pll_sys(), spec_pll_sys_params()),
            RegStep::Expect(RegCondition { addr: CLK_REF_CTRL, mask: 0b11, expected: 0, negate: false }),
            RegStep::Write(BusWrite { addr: (CLK_REF_CTRL + SET_ALIAS_OFFSET) as usize, value: 0x2 }),
            RegStep::WaitUntil(RegCondition { addr: CLK_REF_SELECTED, mask: 0xF, expected: 4, negate: false }),
            RegStep::Write(BusWrite { addr: (CLK_SYS_CTRL + CLEAR_ALIAS_OFFSET) as usize, value: 0x1 }),
            RegStep::WaitUntil(RegCondition { addr: CLK_SYS_SELECTED, mask: 0b11, expected: 1, negate: false }),
            RegStep::CopyMasked { from: CLK_SYS_CTRL, mask: CLK_SYS_CTRL_AUXSRC, to: (CLK_SYS_CTRL + SET_ALIAS_OFFSET) as usize },
            RegStep::Write(BusWrite { addr: (CLK_SYS_CTRL + SET_ALIAS_OFFSET) as usize, value: 0x1 }),
            RegStep::WaitUntil(RegCondition { addr: CLK_SYS_SELECTED, mask: 0b11, expected: 2, negate: false }),
        ],
{
    let ref_ctrl = AliasedRegister::from_addr(CLK_REF_CTRL);
    let ref_selected = AliasedRegister::from_addr(CLK_REF_SELECTED);
    let sys_ctrl = AliasedRegister::from_addr(CLK_SYS_CTRL);
    let sys_selected = AliasedRegister::from_addr(CLK_SYS_SELECTED);
    let mut p: Vec<RegStep> = Vec::new();
    p.push(RegStep::Expect(RegCondition::masked_eq(ref_selected, 0xFFFF_FFFF, 1)));
    p.push(RegStep::Expect(RegCondition::masked_eq(sys_selected, 0xFFFF_FFFF, 1)));
    p.push(RegStep::ConfigurePll(pll_sys(), pll_sys_params()));
    p.push(RegStep::Expect(RegCondition::masked_eq(ref_ctrl, 0b11, 0)));
    p.push(RegStep::Write(ref_ctrl.set(0x2)));
    p.push(RegStep::WaitUntil(RegCondition::masked_eq(ref_selected, 0xF, 4)));
    p.push(RegStep::Write(sys_ctrl.clear(0x1)));
    p.push(RegStep::WaitUntil(RegCondition::masked_eq(sys_selected, 0b11, 1)));
    p.push(RegStep::CopyMasked { from: sys_ctrl.addr(), mask: CLK_SYS_CTRL_AUXSRC, to: sys_ctrl.set(0).addr });
    p.push(RegStep::Write(sys_ctrl.set(0x1)));
    p.push(RegStep::WaitUntil(RegCondition::masked_eq(sys_selected, 0b11, 2)));
    p
}

/// Enable bit and stable bit of the USB clock's control register, and its
/// auxiliary source field.
pub const CLK_USB_CTRL_ENABLE: u32 = 1 << 11;
pub const CLK_USB_CTRL_ENABLED: u32 = 1 << 28;
pub const CLK_USB_CTRL_AUXSRC: u32 = 0b111 << 5;

/// Brings up the USB PLL, requires the USB clock to be disabled and fed by its
/// first auxiliary source, enables it and waits until it runs.
pub fn enable_usb_clock() -> (p: Vec<RegStep>)
    ensures
        p@ == seq![
            RegStep::ConfigurePll(spec_pll_usb(), spec_pll_usb_params()),
            RegStep::Expect(RegCondition {
                addr: CLK_USB_CTRL,
                mask: CLK_USB_CTRL_ENABLED | CLK_USB_CTRL_AUXSRC,
                expected: 0,
                negate: false,
            }),
            RegStep::Write(BusWrite { addr: (CLK_USB_CTRL + SET_ALIAS_OFFSET) as usize, value: CLK_USB_CTRL_ENABLE }),
            RegStep::WaitUntil(RegCondition { addr: CLK_USB_CTRL, mask: CLK_USB_CTRL_ENABLED, expected: 0, negate: true }),
        ],
{
    let usb_ctrl = AliasedRegister::from_addr(CLK_USB_CTRL);
    let mut p: Vec<RegStep> = Vec::new();
    p.push(RegStep::ConfigurePll(pll_usb(), pll_usb_params()));
    p.push(RegStep::Expect(RegCondition::masked_eq(usb_ctrl, CLK_USB_CTRL_ENABLED | CLK_USB_CTRL_AUXSRC, 0)));
    p.push(RegStep::Write(usb_ctrl.set(CLK_USB_CTRL_ENABLE)));
    p.push(RegStep::WaitUntil(RegCondition::masked_ne(usb_ctrl, CLK_USB_CTRL_ENABLED, 0)));
    p
}

/// Switches the reference clock back to the ring oscillator.
pub fn set_ref_clock_to_rosc() -> (p: Vec<RegStep>)
    ensures
        p@ == seq![
            RegStep::Write(BusWrite { addr: (CLK_REF_CTRL + CLEAR_ALIAS_OFFSET) as usize, value: 0b1 }),
            RegStep::WaitUntil(RegCondition { addr: CLK_REF_SELECTED, mask: 0xFFFF_FFFF, expected: 1, negate: false }),
        ],
{
    let mut p: Vec<RegStep> = Vec::new();
    p.push(RegStep::Write(AliasedRegister::from_addr(CLK_REF_CTRL).clear(0b1)));
    p.push(
        RegStep::WaitUntil(
            RegCondition::masked_eq(AliasedRegister::from_addr(CLK_REF_SELECTED), 0xFFFF_FFFF, 1),
        ),
    );
    p
}

/// Switches the system clock back to the reference clock.
pub fn set_sys_clock_to_ref() -> (p: Vec<RegStep>)
    ensures
        p@ == seq![
            RegStep::Write(BusWrite { addr: (CLK_SYS_CTRL + CLEAR_ALIAS_OFFSET) as usize, value: 0b111 }),
            RegStep::WaitUntil(RegCondition { addr: CLK_SYS_SELECTED, mask: 0xFFFF_FFFF, expected: 1, negate: false }),
        ],
{
    let mut p: Vec<RegStep> = Vec::new();
    p.push(RegStep::Write(AliasedRegister::from_addr(CLK_SYS_CTRL).clear(0b111)));
    p.push(
        RegStep::WaitUntil(
            RegCondition::masked_eq(AliasedRegister::from_addr(CLK_SYS_SELECTED), 0xFFFF_FFFF, 1),
        ),
    );
    p
}

/// A clock the frequency counter can measure.
#[derive(Copy, Clone, PartialEq, Eq, Debug)]
pub enum ClockToTest {
    PllSys,
    PllUsb,
    Rosc,
    Xosc,
    Ref,
    Sys,
    Usb,
}

impl ClockToTest {
    /// The frequency counter's source number for the clock.
    pub open spec fn spec_source(self) -> u32 {
        match self {
            ClockToTest::PllSys => 0x1,
            ClockToTest::PllUsb => 0x2,
            ClockToTest::Rosc => 0x3,
            ClockToTest::Xosc => 0x5,
            ClockToTest::Ref => 0x8,
            ClockToTest::Sys => 0x9,
            ClockToTest::Usb => 0xB,
        }
    }

    /// The frequency counter's source number for the clock.
    pub fn source(self) -> (n: u32)
        ensures
            n == self.spec_source(),
    {
        match self {
            ClockToTest::PllSys => 0x1,
            ClockToTest::PllUsb => 0x2,
            ClockToTest::Rosc => 0x3,
            ClockToTest::Xosc => 0x5,
            ClockToTest::Ref => 0x8,
            ClockToTest::Sys => 0x9,
            ClockToTest::Usb => 0xB,
        }
    }
}

/// The frequency counter's source codes are the RP2350's FC0_SRC codes: taken in the
/// order PllSys, PllUsb, Rosc, Xosc, Ref, Sys, Usb they strictly increase, and each is
/// one of 1, 2, 3, 5, 8, 9 and 0xB; so distinct clocks are counted from distinct
/// sources, and each clock from its own.
pub proof fn lemma_counter_sources(c1: ClockToTest, c2: ClockToTest)
    ensures
        c1 != c2 ==> c1.spec_source() != c2.spec_source(),
        ClockToTest::PllSys.spec_source() < ClockToTest::PllUsb.spec_source(),
        ClockToTest::PllUsb.spec_source() < ClockToTest::Rosc.spec_source(),
        ClockToTest::Rosc.spec_source() < ClockToTest::Xosc.spec_source(),
        ClockToTest::Xosc.spec_source() < ClockToTest::Ref.spec_source(),
        ClockToTest::Ref.spec_source() < ClockToTest::Sys.spec_source(),
        ClockToTest::Sys.spec_source() < ClockToTest::Usb.spec_source(),
        set![1u32, 2, 3, 5, 8, 9, 0xB].contains(c1.spec_source()),
{
}

/// Running bit, done bit and success bit of the frequency counter's status register.
pub const FC0_STATUS_RUNNING: u32 = 1 << 8;
pub const FC0_STATUS_DONE: u32 = 1 << 4;
pub const FC0_STATUS_PASS: u32 = 1;

/// Starts a measurement of `clock`: waits until the counter is idle, gives it the
/// reference frequency in kHz, selects the clock and waits until the count is done.
/// The counter's result and status registers are then read and handed to
/// [`frequency_count_result`].
pub fn test_clock_khz(clock: ClockToTest) -> (p: Vec<RegStep>)
    ensures
        p@ == seq![
            RegStep::WaitUntil(RegCondition { addr: FC0_STATUS, mask: FC0_STATUS_RUNNING, expected: 0, negate: false }),
            RegStep::Write(BusWrite { addr: FC0_REF_KHZ, value: (XOSC_HZ / 1000) as u32 }),
            RegStep::Write(BusWrite { addr: FC0_SRC, value: clock.spec_source() }),
            RegStep::WaitUntil(RegCondition { addr: FC0_STATUS, mask: FC0_STATUS_DONE, expected: 0, negate: true }),
        ],
{
    let status = AliasedRegister::from_addr(FC0_STATUS);
    let mut p: Vec<RegStep> = Vec::new();
    p.push(RegStep::WaitUntil(RegCondition::masked_eq(status, FC0_STATUS_RUNNING, 0)));
    p.push(RegStep::Write(AliasedRegister::from_addr(FC0_REF_KHZ).write(XOSC_HZ / 1000)));
    p.push(RegStep::Write(AliasedRegister::from_addr(FC0_SRC).write(clock.source())));
    p.push(RegStep::WaitUntil(RegCondition::masked_ne(status, FC0_STATUS_DONE, 0)));
    p
}

/// Ends a measurement from the values read from the result and status registers:
/// the source selection is written back to 0, and the outcome is the frequency in
/// kHz with its fraction in 32ths when the status reports success, else the status.
pub fn frequency_count_result(result: u32, status: u32) -> (r: (BusWrite, Result<(u32, u8), u32>))
    ensures
        r.0 == (BusWrite { addr: FC0_SRC, value: 0 }),
        status & FC0_STATUS_PASS == 1 ==> r.1 == Ok::<(u32, u8), u32>(
            ((result / 32) as u32, (result % 32) as u8),
        ),
        status & FC0_STATUS_PASS != 1 ==> r.1 == Err::<(u32, u8), u32>(status),
{
    let done = AliasedRegister::from_addr(FC0_SRC).write(0);
    if (status & 1) == 1 {
        let khz = result >> 5;
        let frac = (result & 0x1F) as u8;
        assert(result >> 5u32 == result / 32 && result & 0x1F == result % 32) by (bit_vector);
        (done, Ok((khz, frac)))
    } else {
        (done, Err(status))
    }
}

} // verus!
