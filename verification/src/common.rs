//! Memory-mapped registers with atomic set/clear/xor aliases, and the register
//! programs that the configuration routines of this crate produce.
//!
//! A register program is a list of [`RegStep`]s. The library decides which
//! registers are written with which values and which conditions are polled;
//! the code that owns the hardware performs the bus accesses in order.
use vstd::prelude::*;
use vstd::wrapping::usize_specs::wrapping_add;

use core::ops::Range;

use crate::clocks::{Pll, PllParams};

verus! {

/// Byte distance from a register to its xor alias.
pub const XOR_ALIAS_OFFSET: usize = 0x1000;
/// Byte distance from a register to its atomic bit-set alias.
pub const SET_ALIAS_OFFSET: usize = 0x2000;
/// Byte distance from a register to its atomic bit-clear alias.
pub const CLEAR_ALIAS_OFFSET: usize = 0x3000;

/// A hardware register that has xor, set and clear aliases at fixed offsets.
#[derive(Copy, Clone, PartialEq, Eq, Debug)]
pub struct AliasedRegister {
    pub addr: usize,
}

impl View for AliasedRegister {
    type V = usize;

    /// The register's byte address.
    open spec fn view(&self) -> usize {
        self.addr
    }
}

/// One bus write: `value` is stored to the word at byte address `addr`.
#[derive(Copy, Clone, PartialEq, Eq, Debug)]
pub struct BusWrite {
    pub addr: usize,
    pub value: u32,
}

/// One byte store: `value` is stored to the byte at address `addr`.
#[derive(Copy, Clone, PartialEq, Eq, Debug)]
pub struct ByteWrite {
    pub addr: usize,
    pub value: u8,
}

impl AliasedRegister {
    /// The register at byte address `base_addr`.
    pub fn from_addr(base_addr: usize) -> (r: Self)
        ensures
            r@ == base_addr,
    {
        AliasedRegister { addr: base_addr }
    }

    /// The register's byte address.
    pub fn addr(self) -> (a: usize)
        ensures
            a == self@,
    {
        self.addr
    }

    /// The register `words` 32-bit words further on (address arithmetic wraps).
    pub fn offset(self, words: usize) -> (r: Self)
        ensures
            r@ as int == (self@ as int + 4 * words as int) % (usize::MAX as int + 1),
    {
        let bytes = words.wrapping_mul(4);
        let r = AliasedRegister { addr: self.addr.wrapping_add(bytes) };
        proof {
            let m = usize::MAX as int + 1;
            assert(bytes as int == (words as int * 4) % m);
            vstd::arithmetic::div_mod::lemma_add_mod_noop(self.addr as int, words as int * 4, m);
        }
        r
    }

    /// The register `bytes` bytes further on (address arithmetic wraps).
    pub fn offset_bytes(self, bytes: usize) -> (r: Self)
        ensures
            r@ == wrapping_add(self@, bytes),
    {
        AliasedRegister { addr: self.addr.wrapping_add(bytes) }
    }

    /// Writes `value` to the register itself.
    pub fn write(self, value: u32) -> (w: BusWrite)
        ensures
            w == (BusWrite { addr: self@, value }),
    {
        BusWrite { addr: self.addr, value }
    }

    /// Flips the bits of `bits` in the register, through its xor alias.
    pub fn xor(self, bits: u32) -> (w: BusWrite)
        ensures
            w == (BusWrite { addr: wrapping_add(self@, XOR_ALIAS_OFFSET), value: bits }),
    {
        BusWrite { addr: self.addr.wrapping_add(XOR_ALIAS_OFFSET), value: bits }
    }

    /// Sets the bits of `bits` in the register, through its set alias.
    pub fn set(self, bits: u32) -> (w: BusWrite)
        ensures
            w == (BusWrite { addr: wrapping_add(self@, SET_ALIAS_OFFSET), value: bits }),
    {
        BusWrite { addr: self.addr.wrapping_add(SET_ALIAS_OFFSET), value: bits }
    }

    /// Clears the bits of `bits` in the register, through its clear alias.
    pub fn clear(self, bits: u32) -> (w: BusWrite)
        ensures
            w == (BusWrite { addr: wrapping_add(self@, CLEAR_ALIAS_OFFSET), value: bits }),
    {
        BusWrite { addr: self.addr.wrapping_add(CLEAR_ALIAS_OFFSET), value: bits }
    }
}

/// A test on the value read from a register: the bits of `mask` are compared
/// with `expected`; with `negate` the test holds when they differ.
#[derive(Copy, Clone, PartialEq, Eq, Debug)]
pub struct RegCondition {
    pub addr: usize,
    pub mask: u32,
    pub expected: u32,
    pub negate: bool,
}

impl RegCondition {
    /// Whether the test holds of `value`.
    pub open spec fn spec_holds(self, value: u32) -> bool {
        ((value & self.mask) == self.expected) != self.negate
    }

    /// Holds when `(read(reg) & mask) == expected`.
    pub fn masked_eq(reg: AliasedRegister, mask: u32, expected: u32) -> (c: Self)
        ensures
            c == (RegCondition { addr: reg@, mask, expected, negate: false }),
    {
        RegCondition { addr: reg.addr(), mask, expected, negate: false }
    }

    /// Holds when `(read(reg) & mask) != expected`.
    pub fn masked_ne(reg: AliasedRegister, mask: u32, expected: u32) -> (c: Self)
        ensures
            c == (RegCondition { addr: reg@, mask, expected, negate: true }),
    {
        RegCondition { addr: reg.addr(), mask, expected, negate: true }
    }

    /// Decides the test on a value read from `self.addr`.
    pub fn holds(&self, value: u32) -> (b: bool)
        ensures
            b == self.spec_holds(value),
    {
        ((value & self.mask) == self.expected) != self.negate
    }
}

/// One step of a register program.
#[derive(Copy, Clone, PartialEq, Eq, Debug)]
pub enum RegStep {
    /// Perform the bus write.
    Write(BusWrite),
    /// Read the condition's register until the condition holds.
    WaitUntil(RegCondition),
    /// Read the condition's register once; the program must stop (panic) if it does not hold.
    Expect(RegCondition),
    /// Read the word at `from` and write `value & mask` to the word at `to`.
    CopyMasked { from: usize, mask: u32, to: usize },
    /// Read the word at `addr` and write `(!value & toggle) | set` back to it: the
    /// bits of `toggle` are inverted, those of `set` set, the others cleared.
    ToggleWrite { addr: usize, toggle: u32, set: u32 },
    /// Perform the byte store.
    WriteByte(ByteWrite),
    /// Read the PLL's control, feedback and post-divider registers and run the program
    /// that [`Pll::setup`] gives for the values read.
    ConfigurePll(Pll, PllParams),
    /// Write `value` to machine CSR number `csr`.
    CsrWrite { csr: u32, value: usize },
    /// Clear the bits of `value` in machine CSR number `csr`.
    CsrClear { csr: u32, value: usize },
    /// Set the bits of `value` in machine CSR number `csr`.
    CsrSet { csr: u32, value: usize },
    /// Busy-wait for `cycles` no-op iterations.
    Spin { cycles: u32 },
    /// Store `len` zero bytes from byte address `addr` on.
    ZeroFill { addr: usize, len: usize },
}

/// Copies `src` into `dst[range.start..range.end]`; the rest of `dst` is kept.
pub fn copy_const(dst: &mut [u8], range: Range<usize>, src: &[u8])
    requires
        range.end >= range.start,
        old(dst)@.len() >= range.end,
        src@.len() == range.end - range.start,
    ensures
        final(dst)@ == old(dst)@.subrange(0, range.start as int) + src@ + old(dst)@.subrange(
            range.end as int,
            old(dst)@.len() as int,
        ),
{
    let len = range.end - range.start;
    let mut i: usize = 0;
    while i < len
        invariant
            len == range.end - range.start,
            range.end <= dst@.len(),
            src@.len() == len,
            i <= len,
            dst@.len() == old(dst)@.len(),
            forall|k: int| 0 <= k < range.start ==> dst@[k] == old(dst)@[k],
            forall|k: int| range.end <= k < dst@.len() ==> dst@[k] == old(dst)@[k],
            forall|k: int| 0 <= k < i ==> dst@[range.start + k] == src@[k],
            forall|k: int| range.start + i <= k < range.end ==> dst@[k] == old(dst)@[k],
        decreases len - i,
    {
        dst[range.start + i] = src[i];
        i += 1;
    }
    assert(dst@ =~= old(dst)@.subrange(0, range.start as int) + src@ + old(dst)@.subrange(
        range.end as int,
        old(dst)@.len() as int,
    ));
}

} // verus!
