//! USB protocol values: transfer directions, standard requests, descriptor types,
//! transfer types, endpoint numbers and setup packets.
use core::convert::TryFrom;
use vstd::prelude::*;
use vstd::std_specs::convert::TryFromSpecImpl;

verus! {

/// Direction of a transfer, as encoded in bit 7 of an endpoint address or request type.
#[derive(Copy, Clone, PartialEq, Eq, Debug)]
pub enum Direction {
    Out,
    In,
}

/// Bit 7 of an endpoint address or request type: set for device-to-host.
pub const USB_DIR_IN: u8 = 0x80;
pub const USB_DIR_OUT: u8 = 0x00;

impl Direction {
    /// The direction's encoding.
    pub open spec fn spec_bits(self) -> u8 {
        match self {
            Direction::Out => USB_DIR_OUT,
            Direction::In => USB_DIR_IN,
        }
    }

    /// The direction's encoding: 0x00 for OUT, 0x80 for IN.
    pub fn bits(self) -> (b: u8)
        ensures
            b == self.spec_bits(),
    {
        match self {
            Direction::Out => USB_DIR_OUT,
            Direction::In => USB_DIR_IN,
        }
    }
}

/// The direction encoded as `value`, if it is an encoding.
pub open spec fn direction_of(value: u8) -> Option<Direction> {
    if value == USB_DIR_OUT {
        Some(Direction::Out)
    } else if value == USB_DIR_IN {
        Some(Direction::In)
    } else {
        None
    }
}

impl TryFrom<u8> for Direction {
    type Error = u8;

    fn try_from(value: u8) -> (r: Result<Self, u8>) {
        match value {
            0x00 => Ok(Direction::Out),
            0x80 => Ok(Direction::In),
            _ => Err(value),
        }
    }
}

impl TryFromSpecImpl<u8> for Direction {
    open spec fn obeys_try_from_spec() -> bool {
        true
    }

    open spec fn try_from_spec(value: u8) -> Result<Self, u8> {
        match direction_of(value) {
            Some(d) => Ok(d),
            None => Err(value),
        }
    }
}

/// A standard request code.
#[derive(Copy, Clone, PartialEq, Eq, Debug)]
pub enum Request {
    GetStatus,
    ClearFeature,
    SetFeature,
    SetAddress,
    GetDescriptor,
    SetDescriptor,
    GetConfiguration,
    SetConfiguration,
    GetInterface,
    SetInterface,
    SyncFrame,
}

impl Request {
    /// The request's code.
    pub open spec fn spec_code(self) -> u8 {
        match self {
            Request::GetStatus => 0x00,
            Request::ClearFeature => 0x01,
            Request::SetFeature => 0x03,
            Request::SetAddress => 0x05,
            Request::GetDescriptor => 0x06,
            Request::SetDescriptor => 0x07,
            Request::GetConfiguration => 0x08,
            Request::SetConfiguration => 0x09,
            Request::GetInterface => 0x0A,
            Request::SetInterface => 0x0B,
            Request::SyncFrame => 0x0C,
        }
    }

    /// The request's code.
    pub fn code(self) -> (c: u8)
        ensures
            c == self.spec_code(),
    {
        match self {
            Request::GetStatus => 0x00,
            Request::ClearFeature => 0x01,
            Request::SetFeature => 0x03,
            Request::SetAddress => 0x05,
            Request::GetDescriptor => 0x06,
            Request::SetDescriptor => 0x07,
            Request::GetConfiguration => 0x08,
            Request::SetConfiguration => 0x09,
            Request::GetInterface => 0x0A,
            Request::SetInterface => 0x0B,
            Request::SyncFrame => 0x0C,
        }
    }
}

/// The standard request with code `value`, if there is one.
pub open spec fn request_of(value: u8) -> Option<Request> {
    if value == 0x00 {
        Some(Request::GetStatus)
    } else if value == 0x01 {
        Some(Request::ClearFeature)
    } else if value == 0x03 {
        Some(Request::SetFeature)
    } else if value == 0x05 {
        Some(Request::SetAddress)
    } else if value == 0x06 {
        Some(Request::GetDescriptor)
    } else if value == 0x07 {
        Some(Request::SetDescriptor)
    } else if value == 0x08 {
        Some(Request::GetConfiguration)
    } else if value == 0x09 {
        Some(Request::SetConfiguration)
    } else if value == 0x0A {
        Some(Request::GetInterface)
    } else if value == 0x0B {
        Some(Request::SetInterface)
    } else if value == 0x0C {
        Some(Request::SyncFrame)
    } else {
        None
    }
}

impl TryFrom<u8> for Request {
    type Error = u8;

    fn try_from(value: u8) -> (r: Result<Self, u8>) {
        match value {
            0x0 => Ok(Request::GetStatus),
            0x01 => Ok(Request::ClearFeature),
            0x03 => Ok(Request::SetFeature),
            0x05 => Ok(Request::SetAddress),
            0x06 => Ok(Request::GetDescriptor),
            0x07 => Ok(Request::SetDescriptor),
            0x08 => Ok(Request::GetConfiguration),
            0x09 => Ok(Request::SetConfiguration),
            0x0A => Ok(Request::GetInterface),
            0x0B => Ok(Request::SetInterface),
            0x0C => Ok(Request::SyncFrame),
            _ => Err(value),
        }
    }
}

impl TryFromSpecImpl<u8> for Request {
    open spec fn obeys_try_from_spec() -> bool {
        true
    }

    open spec fn try_from_spec(value: u8) -> Result<Self, u8> {
        match request_of(value) {
            Some(r) => Ok(r),
            None => Err(value),
        }
    }
}

/// A descriptor type code.
#[derive(Copy, Clone, PartialEq, Eq, Debug)]
pub enum DescriptorType {
    Device,
    Config,
    String,
    Interface,
    Endpoint,
    DeviceQualifier,
    InterfaceAssociation,
    CSInterface,
}

impl DescriptorType {
    /// The descriptor type's code.
    pub open spec fn spec_code(self) -> u8 {
        match self {
            DescriptorType::Device => 0x01,
            DescriptorType::Config => 0x02,
            DescriptorType::String => 0x03,
            DescriptorType::Interface => 0x04,
            DescriptorType::Endpoint => 0x05,
            DescriptorType::DeviceQualifier => 0x06,
            DescriptorType::InterfaceAssociation => 0x0B,
            DescriptorType::CSInterface => 0x24,
        }
    }

    /// The descriptor type's code.
    pub fn code(self) -> (c: u8)
        ensures
            c == self.spec_code(),
    {
        match self {
            DescriptorType::Device => 0x01,
            DescriptorType::Config => 0x02,
            DescriptorType::String => 0x03,
            DescriptorType::Interface => 0x04,
            DescriptorType::Endpoint => 0x05,
            DescriptorType::DeviceQualifier => 0x06,
            DescriptorType::InterfaceAssociation => 0x0B,
            DescriptorType::CSInterface => 0x24,
        }
    }
}

/// The descriptor type with code `value`, if there is one.
pub open spec fn descriptor_type_of(value: u8) -> Option<DescriptorType> {
    if value == 0x01 {
        Some(DescriptorType::Device)
    } else if value == 0x02 {
        Some(DescriptorType::Config)
    } else if value == 0x03 {
        Some(DescriptorType::String)
    } else if value == 0x04 {
        Some(DescriptorType::Interface)
    } else if value == 0x05 {
        Some(DescriptorType::Endpoint)
    } else if value == 0x06 {
        Some(DescriptorType::DeviceQualifier)
    } else if value == 0x0B {
        Some(DescriptorType::InterfaceAssociation)
    } else if value == 0x24 {
        Some(DescriptorType::CSInterface)
    } else {
        None
    }
}

impl TryFrom<u8> for DescriptorType {
    type Error = u8;

    fn try_from(value: u8) -> (r: Result<Self, u8>) {
        match value {
            0x01 => Ok(DescriptorType::Device),
            0x02 => Ok(DescriptorType::Config),
            0x03 => Ok(DescriptorType::String),
            0x04 => Ok(DescriptorType::Interface),
            0x05 => Ok(DescriptorType::Endpoint),
            0x06 => Ok(DescriptorType::DeviceQualifier),
            0x0B => Ok(DescriptorType::InterfaceAssociation),
            0x24 => Ok(DescriptorType::CSInterface),
            _ => Err(value),
        }
    }
}

impl TryFromSpecImpl<u8> for DescriptorType {
    open spec fn obeys_try_from_spec() -> bool {
        true
    }

    open spec fn try_from_spec(value: u8) -> Result<Self, u8> {
        match descriptor_type_of(value) {
            Some(t) => Ok(t),
            None => Err(value),
        }
    }
}

/// An endpoint's transfer type.
#[derive(Copy, Clone, PartialEq, Eq, Debug)]
pub enum TransferType {
    Control,
    Isochronous,
    Bulk,
    Interrupt,
}

impl TransferType {
    /// The transfer type's code in an endpoint descriptor's attributes.
    pub open spec fn spec_code(self) -> u8 {
        match self {
            TransferType::Control => 0x0,
            TransferType::Isochronous => 0x1,
            TransferType::Bulk => 0x2,
            TransferType::Interrupt => 0x3,
        }
    }

    /// The transfer type's code in an endpoint descriptor's attributes.
    pub fn code(self) -> (c: u8)
        ensures
            c == self.spec_code(),
    {
        match self {
            TransferType::Control => 0x0,
            TransferType::Isochronous => 0x1,
            TransferType::Bulk => 0x2,
            TransferType::Interrupt => 0x3,
        }
    }
}

/// An endpoint number, 0 to 15.
#[derive(Copy, Clone, PartialEq, Eq, Debug)]
pub enum EndpointId {
    Endpoint0,
    Endpoint1,
    Endpoint2,
    Endpoint3,
    Endpoint4,
    Endpoint5,
    Endpoint6,
    Endpoint7,
    Endpoint8,
    Endpoint9,
    Endpoint10,
    Endpoint11,
    Endpoint12,
    Endpoint13,
    Endpoint14,
    Endpoint15,
}

impl EndpointId {
    /// The endpoint's number.
    pub open spec fn spec_id(self) -> u8 {
        match self {
            EndpointId::Endpoint0 => 0,
            EndpointId::Endpoint1 => 1,
            EndpointId::Endpoint2 => 2,
            EndpointId::Endpoint3 => 3,
            EndpointId::Endpoint4 => 4,
            EndpointId::Endpoint5 => 5,
            EndpointId::Endpoint6 => 6,
            EndpointId::Endpoint7 => 7,
            EndpointId::Endpoint8 => 8,
            EndpointId::Endpoint9 => 9,
            EndpointId::Endpoint10 => 10,
            EndpointId::Endpoint11 => 11,
            EndpointId::Endpoint12 => 12,
            EndpointId::Endpoint13 => 13,
            EndpointId::Endpoint14 => 14,
            EndpointId::Endpoint15 => 15,
        }
    }

    /// The endpoint's number.
    pub fn id(self) -> (n: u8)
        ensures
            n == self.spec_id(),
            n < 16,
    {
        match self {
            EndpointId::Endpoint0 => 0,
            EndpointId::Endpoint1 => 1,
            EndpointId::Endpoint2 => 2,
            EndpointId::Endpoint3 => 3,
            EndpointId::Endpoint4 => 4,
            EndpointId::Endpoint5 => 5,
            EndpointId::Endpoint6 => 6,
            EndpointId::Endpoint7 => 7,
            EndpointId::Endpoint8 => 8,
            EndpointId::Endpoint9 => 9,
            EndpointId::Endpoint10 => 10,
            EndpointId::Endpoint11 => 11,
            EndpointId::Endpoint12 => 12,
            EndpointId::Endpoint13 => 13,
            EndpointId::Endpoint14 => 14,
            EndpointId::Endpoint15 => 15,
        }
    }

    /// The endpoint numbered `id`, if `id < 16`.
    pub fn new(id: u8) -> (r: Option<Self>)
        ensures
            r is Some <==> id < 16,
            r matches Some(e) ==> e.spec_id() == id,
    {
        match id {
            0 => Some(EndpointId::Endpoint0),
            1 => Some(EndpointId::Endpoint1),
            2 => Some(EndpointId::Endpoint2),
            3 => Some(EndpointId::Endpoint3),
            4 => Some(EndpointId::Endpoint4),
            5 => Some(EndpointId::Endpoint5),
            6 => Some(EndpointId::Endpoint6),
            7 => Some(EndpointId::Endpoint7),
            8 => Some(EndpointId::Endpoint8),
            9 => Some(EndpointId::Endpoint9),
            10 => Some(EndpointId::Endpoint10),
            11 => Some(EndpointId::Endpoint11),
            12 => Some(EndpointId::Endpoint12),
            13 => Some(EndpointId::Endpoint13),
            14 => Some(EndpointId::Endpoint14),
            15 => Some(EndpointId::Endpoint15),
            _ => None,
        }
    }

    /// Whether this is endpoint 0.
    pub fn is_zero(self) -> (b: bool)
        ensures
            b <==> self.spec_id() == 0,
    {
        matches!(self, EndpointId::Endpoint0)
    }
}

/// Decoding a direction's encoding gives the direction back, and a value decodes
/// only if it is some direction's encoding.
pub proof fn lemma_direction_code_roundtrip(d: Direction, v: u8)
    ensures
        direction_of(d.spec_bits()) == Some(d),
        direction_of(v) matches Some(e) ==> e.spec_bits() == v,
{
}

/// Decoding a request's code gives the request back, and a code decodes only if
/// it is some request's code.
pub proof fn lemma_request_code_roundtrip(r: Request, v: u8)
    ensures
        request_of(r.spec_code()) == Some(r),
        request_of(v) matches Some(q) ==> q.spec_code() == v,
{
}

/// Decoding a descriptor type's code gives the type back, and a code decodes only
/// if it is some type's code.
pub proof fn lemma_descriptor_type_code_roundtrip(t: DescriptorType, v: u8)
    ensures
        descriptor_type_of(t.spec_code()) == Some(t),
        descriptor_type_of(v) matches Some(u) ==> u.spec_code() == v,
{
}

/// Endpoints are told apart by their numbers.
pub proof fn lemma_endpoint_id_injective(a: EndpointId, b: EndpointId)
    ensures
        a.spec_id() == b.spec_id() ==> a == b,
        a.spec_id() < 16,
{
}

/// A setup packet as the controller stores it: request type, request code and
/// three little-endian 16-bit fields.
#[derive(Copy, Clone, PartialEq, Eq, Debug)]
pub struct SetupPacket {
    pub request_type: u8,
    pub request: u8,
    pub value: u16,
    pub index: u16,
    pub length: u16,
}

/// Size of a setup packet in the dual-port RAM.
pub const SETUP_PACKET_LEN: usize = 8;

impl SetupPacket {
    /// The packet stored in the eight bytes `bytes`.
    pub fn from_bytes(bytes: [u8; 8]) -> (p: Self)
        ensures
            p.request_type == bytes[0],
            p.request == bytes[1],
            p.value == bytes[2] + 256 * bytes[3],
            p.index == bytes[4] + 256 * bytes[5],
            p.length == bytes[6] + 256 * bytes[7],
    {
        SetupPacket {
            request_type: bytes[0],
            request: bytes[1],
            value: bytes[2] as u16 + 256 * bytes[3] as u16,
            index: bytes[4] as u16 + 256 * bytes[5] as u16,
            length: bytes[6] as u16 + 256 * bytes[7] as u16,
        }
    }

    /// The direction of the request's data stage (bit 7 of the request type).
    pub fn request_direction(self) -> (d: Direction)
        ensures
            d == (if self.request_type >= 0x80 { Direction::In } else { Direction::Out }),
    {
        let request_type = self.request_type;
        let bit = request_type & 0x80;
        assert(bit == 0 || bit == 0x80) by (bit_vector)
            requires
                bit == request_type & 0x80,
        ;
        assert((request_type & 0x80 == 0x80) == (request_type >= 0x80)) by (bit_vector);
        match Direction::try_from(bit) {
            Ok(d) => d,
            Err(_) => Direction::Out,
        }
    }

    /// The standard request, or the request code if it is not a standard one.
    pub fn request(self) -> (r: Result<Request, u8>)
        ensures
            r == (match request_of(self.request) {
                Some(q) => Ok::<Request, u8>(q),
                None => Err::<Request, u8>(self.request),
            }),
    {
        Request::try_from(self.request)
    }
}

} // verus!
