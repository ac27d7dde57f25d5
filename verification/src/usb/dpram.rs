//! Typed offsets into the USB controller's dual-port RAM, and the layout of its
//! endpoint control registers and buffers.
use core::marker::PhantomData;
use vstd::layout::size_of;
use vstd::prelude::*;
use vstd::wrapping::u16_specs::wrapping_add_signed;

use crate::common::BusWrite;
use crate::usb::protocol::{Direction, EndpointId};

verus! {

broadcast use vstd::layout::layout_of_primitives;

/// Address and size of the USB controller's dual-port RAM.
pub const USBCTRL_DPRAM_BASE: usize = 0x5010_0000;
pub const USBCTRL_DPRAM_LEN: usize = 4 * 1024;

/// Byte size of a `[u8; N]`.
///
/// Calls `core::mem::size_of::<[u8; N]>()`; the contract claims what the language
/// reference states of array layout: an array of `N` bytes occupies `N` bytes.
#[verifier::external_body]
pub(crate) fn byte_array_size<const N: usize>() -> (n: usize)
    ensures
        n == N,
        n as nat == size_of::<[u8; N]>(),
{
    core::mem::size_of::<[u8; N]>()
}

/// A value of type `T` at a byte offset in the dual-port RAM; the value lies wholly
/// inside the RAM.
pub struct DPRAMPtr<T> {
    byte_offset: u16,
    _type: PhantomData<T>,
}

impl<T> Clone for DPRAMPtr<T> {
    fn clone(&self) -> (r: Self)
        ensures
            r == *self,
    {
        *self
    }
}

impl<T> Copy for DPRAMPtr<T> {
}

/// Whether a value of type `T` at `byte_offset` lies inside the dual-port RAM.
pub open spec fn fits_in_dpram<T>(byte_offset: int) -> bool {
    0 <= byte_offset < USBCTRL_DPRAM_LEN && byte_offset + size_of::<T>() <= USBCTRL_DPRAM_LEN
}

impl<T> DPRAMPtr<T> {
    #[verifier::type_invariant]
    spec fn in_bounds(self) -> bool {
        fits_in_dpram::<T>(self.byte_offset as int)
    }

    /// The byte offset into the dual-port RAM.
    pub closed spec fn spec_offset(self) -> u16 {
        self.byte_offset
    }

    /// A pointer to the value at `byte_offset`.
    pub fn new(byte_offset: u16) -> (p: Self)
        requires
            fits_in_dpram::<T>(byte_offset as int),
        ensures
            p.spec_offset() == byte_offset,
    {
        DPRAMPtr { byte_offset, _type: PhantomData }
    }

    /// The same offset, holding a `U`.
    pub fn cast<U>(self) -> (p: DPRAMPtr<U>)
        requires
            fits_in_dpram::<U>(self.spec_offset() as int),
        ensures
            p.spec_offset() == self.spec_offset(),
    {
        DPRAMPtr::new(self.byte_offset)
    }

    /// The byte offset into the dual-port RAM.
    pub fn byte_offset(self) -> (o: u16)
        ensures
            o == self.spec_offset(),
            fits_in_dpram::<T>(o as int),
    {
        proof {
            use_type_invariant(&self);
        }
        self.byte_offset
    }

    /// The bus address of the value.
    pub fn address(self) -> (a: usize)
        ensures
            a == USBCTRL_DPRAM_BASE + self.spec_offset(),
    {
        proof {
            use_type_invariant(&self);
        }
        USBCTRL_DPRAM_BASE + self.byte_offset as usize
    }

    /// The pointer moved by `offset` bytes (the offset arithmetic wraps at 16 bits).
    pub fn offset_bytes(self, offset: i16) -> (p: Self)
        requires
            fits_in_dpram::<T>(wrapping_add_signed(self.spec_offset(), offset) as int),
        ensures
            p.spec_offset() == wrapping_add_signed(self.spec_offset(), offset),
    {
        Self::new(self.byte_offset.wrapping_add_signed(offset))
    }

    /// The pointer moved by `offset` values of type `T`.
    pub fn offset(self, offset: i16) -> (p: Self)
        requires
            i16::MIN <= size_of::<T>() * offset <= i16::MAX,
            fits_in_dpram::<T>(self.spec_offset() + size_of::<T>() * offset),
        ensures
            p.spec_offset() == self.spec_offset() + size_of::<T>() * offset,
    {
        proof {
            use_type_invariant(&self);
        }
        let size = core::mem::size_of::<T>() as isize;
        assert(size * offset <= 4096 * 32768 && size * offset >= -4096 * 32768) by (nonlinear_arith)
            requires
                0 <= size <= 4096,
                i16::MIN <= offset <= i16::MAX,
        ;
        let byte_offset = size * offset as isize;
        self.offset_bytes(byte_offset as i16)
    }
}

impl DPRAMPtr<u32> {
    /// Stores `value` in the word.
    pub fn write(self, value: u32) -> (w: BusWrite)
        ensures
            w == (BusWrite { addr: (USBCTRL_DPRAM_BASE + self.spec_offset()) as usize, value }),
    {
        BusWrite { addr: self.address(), value }
    }
}

/// Byte offsets of the endpoint control registers, buffer control registers and
/// data buffers.
pub const EP_CTRL_BASE: u16 = 0;
pub const EP_BUFFER_CTRL_BASE: u16 = 0x80;
pub const EP_BUFFER_BASE: u16 = 0x100;
/// Size of an endpoint data buffer.
pub const EP_BUFFER_LEN: usize = 64;

/// Index of the register or buffer of an endpoint and direction: two per endpoint,
/// IN first.
pub open spec fn slot(endpoint: EndpointId, direction: Direction) -> int {
    2 * endpoint.spec_id() + if direction == Direction::Out { 1int } else { 0int }
}

fn slot_of(endpoint: EndpointId, direction: Direction) -> (s: i16)
    ensures
        s == slot(endpoint, direction),
        0 <= s < 32,
{
    let offset: i16 = match direction {
        Direction::Out => 1,
        Direction::In => 0,
    };
    (endpoint.id() as i16) * 2 + offset
}

/// The endpoint control register of an endpoint and direction; endpoint 0 has none.
pub fn endpoint_ctrl_register(endpoint: EndpointId, direction: Direction) -> (r: Option<DPRAMPtr<u32>>)
    ensures
        endpoint.spec_id() == 0 <==> r is None,
        r matches Some(p) ==> p.spec_offset() == EP_CTRL_BASE + 4 * slot(endpoint, direction),
{
    let base: DPRAMPtr<u32> = DPRAMPtr::new(EP_CTRL_BASE);
    let offset = slot_of(endpoint, direction);
    if endpoint.is_zero() {
        None
    } else {
        Some(base.offset(offset))
    }
}

/// The buffer control register of an endpoint and direction.
pub fn endpoint_buffer_ctrl_register(endpoint: EndpointId, direction: Direction) -> (p: DPRAMPtr<u32>)
    ensures
        p.spec_offset() == EP_BUFFER_CTRL_BASE + 4 * slot(endpoint, direction),
{
    let base: DPRAMPtr<u32> = DPRAMPtr::new(EP_BUFFER_CTRL_BASE);
    base.offset(slot_of(endpoint, direction))
}

/// The data buffer of an endpoint and direction; both directions of endpoint 0 share one.
pub fn endpoint_buffer(endpoint: EndpointId, direction: Direction) -> (p: DPRAMPtr<[u8; 64]>)
    ensures
        endpoint.spec_id() == 0 ==> p.spec_offset() == EP_BUFFER_BASE,
        endpoint.spec_id() != 0 ==> p.spec_offset() == EP_BUFFER_BASE + 64 * slot(endpoint, direction),
{
    // A buffer spans 64 bytes, so buffer `k` starts 64 * k bytes after the first.
    let size = byte_array_size::<64>();
    assert(size_of::<[u8; 64]>() == size && size == 64);
    let base: DPRAMPtr<[u8; 64]> = DPRAMPtr::new(EP_BUFFER_BASE);
    if endpoint.is_zero() {
        return base;
    }
    base.offset(slot_of(endpoint, direction))
}

/// Distinct endpoint/direction pairs get distinct slots; each pair's buffer control
/// register lies after the endpoint control registers and before the data buffers,
/// and the data buffers of distinct pairs on endpoints other than 0 do not overlap
/// and end before the two bytes kept at the end of the RAM.
pub proof fn lemma_endpoint_layout(e1: EndpointId, d1: Direction, e2: EndpointId, d2: Direction)
    ensures
        (e1 != e2 || d1 != d2) ==> slot(e1, d1) != slot(e2, d2),
        EP_CTRL_BASE + 4 * slot(e1, d1) + 4 <= EP_BUFFER_CTRL_BASE,
        EP_BUFFER_CTRL_BASE + 4 * slot(e1, d1) + 4 <= EP_BUFFER_BASE,
        EP_BUFFER_BASE + 64 * slot(e1, d1) + 64 <= USBCTRL_DPRAM_LEN - 2,
        (e1 != e2 || d1 != d2) ==> (EP_BUFFER_BASE + 64 * slot(e1, d1) + 64 <= EP_BUFFER_BASE + 64 * slot(e2, d2)
            || EP_BUFFER_BASE + 64 * slot(e2, d2) + 64 <= EP_BUFFER_BASE + 64 * slot(e1, d1)),
{
    crate::usb::protocol::lemma_endpoint_id_injective(e1, e2);
}

} // verus!
