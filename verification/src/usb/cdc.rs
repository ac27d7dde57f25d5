//! Class-specific descriptors of the CDC abstract control model.
#![allow(non_snake_case)]
use vstd::prelude::*;

verus! {

/// Call management functional descriptor body.
#[derive(Copy, Clone, PartialEq, Eq, Debug)]
pub struct CallManagement {
    pub bmCapabilities: u8,
    pub data_interface: u8,
}

/// Abstract control management functional descriptor body.
#[derive(Copy, Clone, PartialEq, Eq, Debug)]
pub struct AbstractControlManagement {
    pub bmCapabilities: u8,
}

/// Union functional descriptor body.
#[derive(Copy, Clone, PartialEq, Eq, Debug)]
pub struct Union {
    pub control_interface: u8,
    pub subordinate_interface: u8,
}

/// A CDC functional descriptor.
#[derive(Copy, Clone, PartialEq, Eq, Debug)]
pub enum CommunicationsDescriptor {
    Header,
    CallManagement(CallManagement),
    AbstractControlManagement(AbstractControlManagement),
    Union(Union),
}

/// Descriptor type code of class-specific interface descriptors.
pub const CS_INTERFACE: u8 = 0x24;
/// CDC specification release 1.20, as written in the header descriptor.
pub const CDC_RELEASE: u16 = 0x0120;

impl CommunicationsDescriptor {
    /// Bytes after the three-byte prefix (length, type, subtype).
    pub open spec fn spec_payload(self) -> Seq<u8> {
        match self {
            CommunicationsDescriptor::Header => seq![0x20u8, 0x01u8],
            CommunicationsDescriptor::CallManagement(cm) => seq![cm.bmCapabilities, cm.data_interface],
            CommunicationsDescriptor::AbstractControlManagement(acm) => seq![acm.bmCapabilities],
            CommunicationsDescriptor::Union(u) => seq![u.control_interface, u.subordinate_interface],
        }
    }

    /// Descriptor subtype.
    pub open spec fn spec_subtype(self) -> u8 {
        match self {
            CommunicationsDescriptor::Header => 0x00,
            CommunicationsDescriptor::CallManagement(_) => 0x01,
            CommunicationsDescriptor::AbstractControlManagement(_) => 0x02,
            CommunicationsDescriptor::Union(_) => 0x06,
        }
    }

    /// The whole descriptor as sent: length, type, subtype, payload.
    pub open spec fn spec_bytes(self) -> Seq<u8> {
        seq![(3 + self.spec_payload().len()) as u8, CS_INTERFACE, self.spec_subtype()] + self.spec_payload()
    }

    /// Total length in bytes.
    pub fn length(&self) -> (n: u8)
        ensures
            n == 3 + self.spec_payload().len(),
            n == self.spec_bytes().len(),
    {
        match self {
            CommunicationsDescriptor::Header => 5,
            CommunicationsDescriptor::CallManagement(_) => 5,
            CommunicationsDescriptor::AbstractControlManagement(_) => 4,
            CommunicationsDescriptor::Union(_) => 5,
        }
    }

    /// Descriptor type: class-specific interface.
    pub fn descriptor_type(&self) -> (t: u8)
        ensures
            t == CS_INTERFACE,
    {
        CS_INTERFACE
    }

    /// Descriptor subtype.
    pub fn descriptor_subtype(&self) -> (t: u8)
        ensures
            t == self.spec_subtype(),
    {
        match self {
            CommunicationsDescriptor::Header => 0x00,
            CommunicationsDescriptor::CallManagement(_) => 0x01,
            CommunicationsDescriptor::AbstractControlManagement(_) => 0x02,
            CommunicationsDescriptor::Union(_) => 0x06,
        }
    }

    /// The bytes after the prefix: the CDC release (little-endian) for the header,
    /// the body's fields in order otherwise.
    pub fn as_slice(&self) -> (b: Vec<u8>)
        ensures
            b@ == self.spec_payload(),
    {
        let mut b: Vec<u8> = Vec::new();
        match self {
            CommunicationsDescriptor::Header => {
                b.push((CDC_RELEASE % 256) as u8);
                b.push((CDC_RELEASE / 256) as u8);
            },
            CommunicationsDescriptor::CallManagement(cm) => {
                b.push(cm.bmCapabilities);
                b.push(cm.data_interface);
            },
            CommunicationsDescriptor::AbstractControlManagement(acm) => {
                b.push(acm.bmCapabilities);
            },
            CommunicationsDescriptor::Union(u) => {
                b.push(u.control_interface);
                b.push(u.subordinate_interface);
            },
        }
        b
    }

    /// Writes the descriptor at `pos` in `output` if it fits there and returns the
    /// position after it; otherwise leaves `output` as it was.
    pub fn try_write(&self, output: &mut [u8], pos: usize) -> (r: Result<usize, ()>)
        requires
            pos <= old(output)@.len(),
        ensures
            r is Err <==> old(output)@.len() - pos < self.spec_bytes().len(),
            r is Err ==> final(output)@ == old(output)@,
            r matches Ok(next) ==> next == pos + self.spec_bytes().len() && final(output)@ == old(
                output,
            )@.subrange(0, pos as int) + self.spec_bytes() + old(output)@.subrange(
                next as int,
                old(output)@.len() as int,
            ),
    {
        let len = self.length() as usize;
        if output.len() - pos < len {
            return Err(());
        }
        output[pos] = self.length();
        output[pos + 1] = self.descriptor_type();
        output[pos + 2] = self.descriptor_subtype();
        let payload = self.as_slice();
        crate::common::copy_const(output, (pos + 3)..(pos + len), payload.as_slice());
        assert(output@ =~= old(output)@.subrange(0, pos as int) + self.spec_bytes() + old(
            output,
        )@.subrange((pos + len) as int, old(output)@.len() as int));
        Ok(pos + len)
    }
}

/// The functional descriptors of the device's control interface, in order:
/// header, call management, abstract control management, union.
pub open spec fn spec_communications_descriptors() -> Seq<CommunicationsDescriptor> {
    seq![
        CommunicationsDescriptor::Header,
        CommunicationsDescriptor::CallManagement(CallManagement { bmCapabilities: 0x00, data_interface: 0x01 }),
        CommunicationsDescriptor::AbstractControlManagement(AbstractControlManagement { bmCapabilities: 0x06 }),
        CommunicationsDescriptor::Union(Union { control_interface: 0, subordinate_interface: 1 }),
    ]
}

/// The functional descriptors of the device's control interface.
pub fn communications_descriptors() -> (d: [CommunicationsDescriptor; 4])
    ensures
        d@ == spec_communications_descriptors(),
{
    let d = [
        CommunicationsDescriptor::Header,
        CommunicationsDescriptor::CallManagement(CallManagement { bmCapabilities: 0x00, data_interface: 0x01 }),
        CommunicationsDescriptor::AbstractControlManagement(AbstractControlManagement { bmCapabilities: 0x06 }),
        CommunicationsDescriptor::Union(Union { control_interface: 0, subordinate_interface: 1 }),
    ];
    assert(d@ =~= spec_communications_descriptors());
    d
}

} // verus!
