//! Standard descriptors of the device, their byte layout, and the configuration
//! descriptor set as the host reads it.
#![allow(non_snake_case)]
use vstd::prelude::*;

use crate::common::copy_const;
use crate::usb::cdc::{communications_descriptors, spec_communications_descriptors, CommunicationsDescriptor};
use crate::usb::protocol::{Direction, EndpointId, TransferType};

verus! {

/// A 16-bit value as the bus carries it: low byte first.
pub open spec fn le16(v: u16) -> Seq<u8> {
    seq![(v % 256) as u8, (v / 256) as u8]
}

/// Index of a string descriptor; never 0, which stands for "no string".
#[derive(Copy, Clone, PartialEq, Eq, Debug)]
pub struct StringDescriptorIndex {
    index: u8,
}

impl StringDescriptorIndex {
    #[verifier::type_invariant]
    spec fn nonzero(self) -> bool {
        self.index != 0
    }

    /// The index.
    pub closed spec fn spec_index(self) -> u8 {
        self.index
    }

    /// The index `index`, unless it is 0.
    pub fn new(index: u8) -> (r: Option<Self>)
        ensures
            r is Some <==> index != 0,
            r matches Some(i) ==> i.spec_index() == index,
    {
        if index == 0 {
            None
        } else {
            Some(StringDescriptorIndex { index })
        }
    }

    /// The index.
    pub fn get(self) -> (i: u8)
        ensures
            i == self.spec_index(),
            i != 0,
    {
        proof {
            use_type_invariant(&self);
        }
        self.index
    }
}

/// The byte that stands for an optional string: its index, or 0.
pub open spec fn string_index_byte(i: Option<StringDescriptorIndex>) -> u8 {
    match i {
        Some(i) => i.spec_index(),
        None => 0,
    }
}

fn index_byte(i: Option<StringDescriptorIndex>) -> (b: u8)
    ensures
        b == string_index_byte(i),
{
    match i {
        Some(i) => i.get(),
        None => 0,
    }
}

fn low_byte(v: u16) -> (b: u8)
    ensures
        b == le16(v)[0],
{
    (v % 256) as u8
}

fn high_byte(v: u16) -> (b: u8)
    ensures
        b == le16(v)[1],
{
    (v / 256) as u8
}

/// Writes a descriptor's length and type to `output[0..2]`, then, when `output`
/// holds at least the rest of the descriptor, all of `bytes`; otherwise reports
/// that it does not fit (with only the first two bytes written).
fn try_write_bytes(output: &mut [u8], bytes: &[u8]) -> (r: Result<(), ()>)
    requires
        bytes@.len() >= 2,
        old(output)@.len() >= 2,
        old(output)@.len() < bytes@.len() - 2 || old(output)@.len() >= bytes@.len(),
    ensures
        r is Err <==> old(output)@.len() < bytes@.len() - 2,
        r is Err ==> final(output)@ == old(output)@.update(0, bytes@[0]).update(1, bytes@[1]),
        r is Ok ==> final(output)@ == bytes@ + old(output)@.subrange(bytes@.len() as int, old(output)@.len() as int),
{
    let len = bytes.len();
    output[0] = bytes[0];
    output[1] = bytes[1];
    if output.len() < len - 2 {
        return Err(());
    }
    let rest = slice_from(bytes, 2);
    copy_const(output, 2..len, rest.as_slice());
    assert(output@ =~= bytes@ + old(output)@.subrange(bytes@.len() as int, old(output)@.len() as int));
    Ok(())
}

/// The bytes of `bytes` from `start` on.
fn slice_from(bytes: &[u8], start: usize) -> (r: Vec<u8>)
    requires
        start <= bytes@.len(),
    ensures
        r@ == bytes@.subrange(start as int, bytes@.len() as int),
{
    let mut r: Vec<u8> = Vec::new();
    let mut i = start;
    while i < bytes.len()
        invariant
            start <= i <= bytes@.len(),
            r@ == bytes@.subrange(start as int, i as int),
        decreases bytes@.len() - i,
    {
        r.push(bytes[i]);
        assert(r@ =~= bytes@.subrange(start as int, i + 1));
        i += 1;
    }
    r
}

/// Device descriptor.
#[derive(Copy, Clone, PartialEq, Eq, Debug)]
pub struct DeviceDescriptor {
    pub bcdUSB: u16,
    pub bDeviceClass: u8,
    pub bDeviceSubClass: u8,
    pub bDeviceProtocol: u8,
    pub bMaxPacketSize0: u8,
    pub idVendor: u16,
    pub idProduct: u16,
    pub bcdDevice: u16,
    pub manufacturer: Option<StringDescriptorIndex>,
    pub product: Option<StringDescriptorIndex>,
    pub serial_number: Option<StringDescriptorIndex>,
    pub bNumConfigurations: u8,
}

/// Lengths and type codes of the standard descriptors.
pub const DEVICE_DESCRIPTOR_LENGTH: u8 = 18;
pub const DEVICE_DESCRIPTOR_TYPE: u8 = 0x01;
pub const CONFIGURATION_DESCRIPTOR_LENGTH: u8 = 9;
pub const CONFIGURATION_DESCRIPTOR_TYPE: u8 = 0x02;
pub const INTERFACE_DESCRIPTOR_LENGTH: u8 = 9;
pub const INTERFACE_DESCRIPTOR_TYPE: u8 = 0x04;
pub const ENDPOINT_DESCRIPTOR_LENGTH: u8 = 7;
pub const ENDPOINT_DESCRIPTOR_TYPE: u8 = 0x05;
pub const INTERFACE_ASSOCIATION_DESCRIPTOR_LENGTH: u8 = 8;
pub const INTERFACE_ASSOCIATION_DESCRIPTOR_TYPE: u8 = 0x0B;

impl DeviceDescriptor {
    /// Length of the descriptor in bytes.
    pub fn length(&self) -> (n: u8)
        ensures
            n == DEVICE_DESCRIPTOR_LENGTH,
            n == self.spec_bytes().len(),
    {
        DEVICE_DESCRIPTOR_LENGTH
    }

    /// Type code of the descriptor.
    pub fn descriptor_type(&self) -> (t: u8)
        ensures
            t == DEVICE_DESCRIPTOR_TYPE,
            t == self.spec_bytes()[1],
    {
        DEVICE_DESCRIPTOR_TYPE
    }

    /// Writes the descriptor's length and type to `output[0..2]`; then writes the whole
    /// descriptor if `output` holds at least 16 bytes, else reports that it does
    /// not fit. (An `output` shorter than the descriptor but not shorter than 16
    /// bytes is outside the domain.)
    pub fn try_write(&self, output: &mut [u8]) -> (r: Result<(), ()>)
        requires
            old(output)@.len() >= 2,
            old(output)@.len() < 16 || old(output)@.len() >= 18,
        ensures
            r is Err <==> old(output)@.len() < 16,
            r is Err ==> final(output)@ == old(output)@.update(0, DEVICE_DESCRIPTOR_LENGTH).update(1, DEVICE_DESCRIPTOR_TYPE),
            r is Ok ==> final(output)@ == self.spec_bytes() + old(output)@.subrange(18, old(output)@.len() as int),
    {
        let mut bytes = [0u8; 18];
        self.write(&mut bytes);
        try_write_bytes(output, bytes.as_slice())
    }

    /// The descriptor's bytes: length, type, then the fields in order, 16-bit fields
    /// little-endian, absent strings as 0.
    pub open spec fn spec_bytes(self) -> Seq<u8> {
        seq![DEVICE_DESCRIPTOR_LENGTH, DEVICE_DESCRIPTOR_TYPE] + le16(self.bcdUSB) + seq![
            self.bDeviceClass,
            self.bDeviceSubClass,
            self.bDeviceProtocol,
            self.bMaxPacketSize0,
        ] + le16(self.idVendor) + le16(self.idProduct) + le16(self.bcdDevice) + seq![
            string_index_byte(self.manufacturer),
            string_index_byte(self.product),
            string_index_byte(self.serial_number),
            self.bNumConfigurations,
        ]
    }

    /// Writes the descriptor's bytes.
    pub fn write(&self, output: &mut [u8; 18])
        ensures
            final(output)@ == self.spec_bytes(),
    {
        *output = [
            DEVICE_DESCRIPTOR_LENGTH,
            DEVICE_DESCRIPTOR_TYPE,
            low_byte(self.bcdUSB),
            high_byte(self.bcdUSB),
            self.bDeviceClass,
            self.bDeviceSubClass,
            self.bDeviceProtocol,
            self.bMaxPacketSize0,
            low_byte(self.idVendor),
            high_byte(self.idVendor),
            low_byte(self.idProduct),
            high_byte(self.idProduct),
            low_byte(self.bcdDevice),
            high_byte(self.bcdDevice),
            index_byte(self.manufacturer),
            index_byte(self.product),
            index_byte(self.serial_number),
            self.bNumConfigurations,
        ];
        assert(output@ =~= self.spec_bytes());
    }
}

/// Interface descriptor.
#[derive(Copy, Clone, PartialEq, Eq, Debug)]
pub struct InterfaceDescriptor {
    pub bInterfaceNumber: u8,
    pub bAlternateSetting: u8,
    pub bNumEndpoints: u8,
    pub bInterfaceClass: u8,
    pub bInterfaceSubClass: u8,
    pub bInterfaceProtocol: u8,
    pub iInterface: u8,
}

impl InterfaceDescriptor {
    /// Length of the descriptor in bytes.
    pub fn length(&self) -> (n: u8)
        ensures
            n == INTERFACE_DESCRIPTOR_LENGTH,
            n == self.spec_bytes().len(),
    {
        INTERFACE_DESCRIPTOR_LENGTH
    }

    /// Type code of the descriptor.
    pub fn descriptor_type(&self) -> (t: u8)
        ensures
            t == INTERFACE_DESCRIPTOR_TYPE,
            t == self.spec_bytes()[1],
    {
        INTERFACE_DESCRIPTOR_TYPE
    }

    /// Writes the descriptor's length and type to `output[0..2]`; then writes the whole
    /// descriptor if `output` holds at least 7 bytes, else reports that it does
    /// not fit. (An `output` shorter than the descriptor but not shorter than 7
    /// bytes is outside the domain.)
    pub fn try_write(&self, output: &mut [u8]) -> (r: Result<(), ()>)
        requires
            old(output)@.len() >= 2,
            old(output)@.len() < 7 || old(output)@.len() >= 9,
        ensures
            r is Err <==> old(output)@.len() < 7,
            r is Err ==> final(output)@ == old(output)@.update(0, INTERFACE_DESCRIPTOR_LENGTH).update(1, INTERFACE_DESCRIPTOR_TYPE),
            r is Ok ==> final(output)@ == self.spec_bytes() + old(output)@.subrange(9, old(output)@.len() as int),
    {
        let mut bytes = [0u8; 9];
        self.write(&mut bytes);
        try_write_bytes(output, bytes.as_slice())
    }

    /// The descriptor's bytes: length, type, then the fields in order.
    pub open spec fn spec_bytes(self) -> Seq<u8> {
        seq![
            INTERFACE_DESCRIPTOR_LENGTH,
            INTERFACE_DESCRIPTOR_TYPE,
            self.bInterfaceNumber,
            self.bAlternateSetting,
            self.bNumEndpoints,
            self.bInterfaceClass,
            self.bInterfaceSubClass,
            self.bInterfaceProtocol,
            self.iInterface,
        ]
    }

    /// Writes the descriptor's bytes.
    pub fn write(&self, output: &mut [u8; 9])
        ensures
            final(output)@ == self.spec_bytes(),
    {
        *output = [
            INTERFACE_DESCRIPTOR_LENGTH,
            INTERFACE_DESCRIPTOR_TYPE,
            self.bInterfaceNumber,
            self.bAlternateSetting,
            self.bNumEndpoints,
            self.bInterfaceClass,
            self.bInterfaceSubClass,
            self.bInterfaceProtocol,
            self.iInterface,
        ];
        assert(output@ =~= self.spec_bytes());
    }
}

/// Interface association descriptor.
#[derive(Copy, Clone, PartialEq, Eq, Debug)]
pub struct InterfaceAssociationDescriptor {
    pub bFirstInterface: u8,
    pub bInterfaceCount: u8,
    pub bFunctionClass: u8,
    pub bFunctionSubClass: u8,
    pub bFunctionProtocol: u8,
    pub iFunction: u8,
}

impl InterfaceAssociationDescriptor {
    /// Length of the descriptor in bytes.
    pub fn length(&self) -> (n: u8)
        ensures
            n == INTERFACE_ASSOCIATION_DESCRIPTOR_LENGTH,
            n == self.spec_bytes().len(),
    {
        INTERFACE_ASSOCIATION_DESCRIPTOR_LENGTH
    }

    /// Type code of the descriptor.
    pub fn descriptor_type(&self) -> (t: u8)
        ensures
            t == INTERFACE_ASSOCIATION_DESCRIPTOR_TYPE,
            t == self.spec_bytes()[1],
    {
        INTERFACE_ASSOCIATION_DESCRIPTOR_TYPE
    }

    /// Writes the descriptor's length and type to `output[0..2]`; then writes the whole
    /// descriptor if `output` holds at least 6 bytes, else reports that it does
    /// not fit. (An `output` shorter than the descriptor but not shorter than 6
    /// bytes is outside the domain.)
    pub fn try_write(&self, output: &mut [u8]) -> (r: Result<(), ()>)
        requires
            old(output)@.len() >= 2,
            old(output)@.len() < 6 || old(output)@.len() >= 8,
        ensures
            r is Err <==> old(output)@.len() < 6,
            r is Err ==> final(output)@ == old(output)@.update(0, INTERFACE_ASSOCIATION_DESCRIPTOR_LENGTH).update(1, INTERFACE_ASSOCIATION_DESCRIPTOR_TYPE),
            r is Ok ==> final(output)@ == self.spec_bytes() + old(output)@.subrange(8, old(output)@.len() as int),
    {
        let mut bytes = [0u8; 8];
        self.write(&mut bytes);
        try_write_bytes(output, bytes.as_slice())
    }

    /// The descriptor's bytes: length, type, then the fields in order.
    pub open spec fn spec_bytes(self) -> Seq<u8> {
        seq![
            INTERFACE_ASSOCIATION_DESCRIPTOR_LENGTH,
            INTERFACE_ASSOCIATION_DESCRIPTOR_TYPE,
            self.bFirstInterface,
            self.bInterfaceCount,
            self.bFunctionClass,
            self.bFunctionSubClass,
            self.bFunctionProtocol,
            self.iFunction,
        ]
    }

    /// Writes the descriptor's bytes.
    pub fn write(&self, output: &mut [u8; 8])
        ensures
            final(output)@ == self.spec_bytes(),
    {
        *output = [
            INTERFACE_ASSOCIATION_DESCRIPTOR_LENGTH,
            INTERFACE_ASSOCIATION_DESCRIPTOR_TYPE,
            self.bFirstInterface,
            self.bInterfaceCount,
            self.bFunctionClass,
            self.bFunctionSubClass,
            self.bFunctionProtocol,
            self.iFunction,
        ];
        assert(output@ =~= self.spec_bytes());
    }
}

/// Configuration descriptor.
#[derive(Copy, Clone, PartialEq, Eq, Debug)]
pub struct ConfigurationDescriptor {
    pub wTotalLength: u16,
    pub bNumInterfaces: u8,
    pub bConfigurationValue: u8,
    pub iConfiguration: u8,
    pub bmAttributes: u8,
    pub bMaxPower: u8,
}

impl ConfigurationDescriptor {
    /// Length of the descriptor in bytes.
    pub fn length(&self) -> (n: u8)
        ensures
            n == CONFIGURATION_DESCRIPTOR_LENGTH,
            n == self.spec_bytes().len(),
    {
        CONFIGURATION_DESCRIPTOR_LENGTH
    }

    /// Type code of the descriptor.
    pub fn descriptor_type(&self) -> (t: u8)
        ensures
            t == CONFIGURATION_DESCRIPTOR_TYPE,
            t == self.spec_bytes()[1],
    {
        CONFIGURATION_DESCRIPTOR_TYPE
    }

    /// Writes the descriptor's length and type to `output[0..2]`; then writes the whole
    /// descriptor if `output` holds at least 7 bytes, else reports that it does
    /// not fit. (An `output` shorter than the descriptor but not shorter than 7
    /// bytes is outside the domain.)
    pub fn try_write(&self, output: &mut [u8]) -> (r: Result<(), ()>)
        requires
            old(output)@.len() >= 2,
            old(output)@.len() < 7 || old(output)@.len() >= 9,
        ensures
            r is Err <==> old(output)@.len() < 7,
            r is Err ==> final(output)@ == old(output)@.update(0, CONFIGURATION_DESCRIPTOR_LENGTH).update(1, CONFIGURATION_DESCRIPTOR_TYPE),
            r is Ok ==> final(output)@ == self.spec_bytes() + old(output)@.subrange(9, old(output)@.len() as int),
    {
        let mut bytes = [0u8; 9];
        self.write(&mut bytes);
        try_write_bytes(output, bytes.as_slice())
    }

    /// The descriptor's bytes: length, type, then the fields in order, the total
    /// length little-endian.
    pub open spec fn spec_bytes(self) -> Seq<u8> {
        seq![CONFIGURATION_DESCRIPTOR_LENGTH, CONFIGURATION_DESCRIPTOR_TYPE] + le16(self.wTotalLength)
            + seq![
            self.bNumInterfaces,
            self.bConfigurationValue,
            self.iConfiguration,
            self.bmAttributes,
            self.bMaxPower,
        ]
    }

    /// Writes the descriptor's bytes.
    pub fn write(&self, output: &mut [u8; 9])
        ensures
            final(output)@ == self.spec_bytes(),
    {
        *output = [
            CONFIGURATION_DESCRIPTOR_LENGTH,
            CONFIGURATION_DESCRIPTOR_TYPE,
            low_byte(self.wTotalLength),
            high_byte(self.wTotalLength),
            self.bNumInterfaces,
            self.bConfigurationValue,
            self.iConfiguration,
            self.bmAttributes,
            self.bMaxPower,
        ];
        assert(output@ =~= self.spec_bytes());
    }
}

/// Endpoint descriptor.
#[derive(Copy, Clone, PartialEq, Eq, Debug)]
pub struct EndpointDescriptor {
    pub endpoint_address: u8,
    pub attributes: TransferType,
    pub max_packet_size: u16,
    pub interval: u8,
}

impl EndpointDescriptor {
    /// Length of the descriptor in bytes.
    pub fn length(&self) -> (n: u8)
        ensures
            n == ENDPOINT_DESCRIPTOR_LENGTH,
            n == self.spec_bytes().len(),
    {
        ENDPOINT_DESCRIPTOR_LENGTH
    }

    /// Type code of the descriptor.
    pub fn descriptor_type(&self) -> (t: u8)
        ensures
            t == ENDPOINT_DESCRIPTOR_TYPE,
            t == self.spec_bytes()[1],
    {
        ENDPOINT_DESCRIPTOR_TYPE
    }

    /// Writes the descriptor's length and type to `output[0..2]`; then writes the whole
    /// descriptor if `output` holds at least 5 bytes, else reports that it does
    /// not fit. (An `output` shorter than the descriptor but not shorter than 5
    /// bytes is outside the domain.)
    pub fn try_write(&self, output: &mut [u8]) -> (r: Result<(), ()>)
        requires
            old(output)@.len() >= 2,
            old(output)@.len() < 5 || old(output)@.len() >= 7,
        ensures
            r is Err <==> old(output)@.len() < 5,
            r is Err ==> final(output)@ == old(output)@.update(0, ENDPOINT_DESCRIPTOR_LENGTH).update(1, ENDPOINT_DESCRIPTOR_TYPE),
            r is Ok ==> final(output)@ == self.spec_bytes() + old(output)@.subrange(7, old(output)@.len() as int),
    {
        let mut bytes = [0u8; 7];
        self.write(&mut bytes);
        try_write_bytes(output, bytes.as_slice())
    }

    /// The descriptor's bytes: length, type, address, transfer type, maximum packet
    /// size (little-endian), interval.
    pub open spec fn spec_bytes(self) -> Seq<u8> {
        seq![ENDPOINT_DESCRIPTOR_LENGTH, ENDPOINT_DESCRIPTOR_TYPE, self.endpoint_address, self.attributes.spec_code()]
            + le16(self.max_packet_size) + seq![self.interval]
    }

    /// The endpoint number in the address (its low seven bits).
    pub open spec fn spec_number(self) -> u8 {
        (self.endpoint_address % 128) as u8
    }

    /// Writes the descriptor's bytes.
    pub fn write(&self, output: &mut [u8; 7])
        ensures
            final(output)@ == self.spec_bytes(),
    {
        *output = [
            ENDPOINT_DESCRIPTOR_LENGTH,
            ENDPOINT_DESCRIPTOR_TYPE,
            self.endpoint_address,
            self.attributes.code(),
            low_byte(self.max_packet_size),
            high_byte(self.max_packet_size),
            self.interval,
        ];
        assert(output@ =~= self.spec_bytes());
    }

    /// The endpoint named by the address.
    pub fn endpoint(self) -> (e: EndpointId)
        requires
            self.spec_number() < 16,
        ensures
            e.spec_id() == self.spec_number(),
    {
        let a = self.endpoint_address;
        assert(a & 0x7F == a % 128) by (bit_vector);
        EndpointId::new(a & 0x7F).unwrap()
    }

    /// The direction named by bit 7 of the address.
    pub fn direction(self) -> (d: Direction)
        ensures
            d == (if self.endpoint_address >= 0x80 { Direction::In } else { Direction::Out }),
    {
        let a = self.endpoint_address;
        assert((a & 0x80 == 0x80) == (a >= 0x80) && (a & 0x80 == 0 || a & 0x80 == 0x80)) by (bit_vector);
        if a & 0x80 == 0x80 {
            Direction::In
        } else {
            Direction::Out
        }
    }
}

/// The descriptors' bytes, one after the other.
pub open spec fn communications_bytes(ds: Seq<CommunicationsDescriptor>) -> Seq<u8>
    decreases ds.len(),
{
    if ds.len() == 0 {
        seq![]
    } else {
        communications_bytes(ds.drop_last()) + ds.last().spec_bytes()
    }
}

/// The bytes of those endpoint descriptors whose endpoint number is `number`, in order.
pub open spec fn endpoint_bytes_for(eps: Seq<EndpointDescriptor>, number: u8) -> Seq<u8>
    decreases eps.len(),
{
    if eps.len() == 0 {
        seq![]
    } else {
        endpoint_bytes_for(eps.drop_last(), number) + if eps.last().spec_number() == number {
            eps.last().spec_bytes()
        } else {
            seq![]
        }
    }
}

/// The device's interface descriptors: the CDC control interface (abstract control
/// model, one endpoint, string 4) and the CDC data interface (two endpoints).
pub open spec fn spec_interface_descriptors() -> Seq<InterfaceDescriptor> {
    seq![
        InterfaceDescriptor {
            bInterfaceNumber: 0,
            bAlternateSetting: 0,
            bNumEndpoints: 1,
            bInterfaceClass: 0x02,
            bInterfaceSubClass: 0x02,
            bInterfaceProtocol: 0,
            iInterface: 4,
        },
        InterfaceDescriptor {
            bInterfaceNumber: 1,
            bAlternateSetting: 0,
            bNumEndpoints: 2,
            bInterfaceClass: 0x0A,
            bInterfaceSubClass: 0x00,
            bInterfaceProtocol: 0x00,
            iInterface: 0,
        },
    ]
}

/// The device's interface descriptors.
pub fn interface_descriptors() -> (d: [InterfaceDescriptor; 2])
    ensures
        d@ == spec_interface_descriptors(),
{
    let d = [
        InterfaceDescriptor {
            bInterfaceNumber: 0,
            bAlternateSetting: 0,
            bNumEndpoints: 1,
            bInterfaceClass: 0x02,
            bInterfaceSubClass: 0x02,
            bInterfaceProtocol: 0,
            iInterface: 4,
        },
        InterfaceDescriptor {
            bInterfaceNumber: 1,
            bAlternateSetting: 0,
            bNumEndpoints: 2,
            bInterfaceClass: 0x0A,
            bInterfaceSubClass: 0x00,
            bInterfaceProtocol: 0x00,
            iInterface: 0,
        },
    ];
    assert(d@ =~= spec_interface_descriptors());
    d
}

/// The association of the two CDC interfaces.
pub open spec fn spec_interface_association_descriptor() -> InterfaceAssociationDescriptor {
    InterfaceAssociationDescriptor {
        bFirstInterface: 0,
        bInterfaceCount: 2,
        bFunctionClass: 0x02,
        bFunctionSubClass: 0x02,
        bFunctionProtocol: 0,
        iFunction: 0,
    }
}

/// The association of the two CDC interfaces.
pub fn interface_association_descriptor() -> (d: InterfaceAssociationDescriptor)
    ensures
        d == spec_interface_association_descriptor(),
{
    InterfaceAssociationDescriptor {
        bFirstInterface: 0,
        bInterfaceCount: 2,
        bFunctionClass: 0x02,
        bFunctionSubClass: 0x02,
        bFunctionProtocol: 0,
        iFunction: 0,
    }
}

/// The device's endpoints (bit 7 of the address set for IN): control OUT and IN on
/// endpoint 0, interrupt IN on endpoint 1, bulk IN and OUT on endpoint 2.
pub open spec fn spec_endpoints() -> Seq<EndpointDescriptor> {
    seq![
        EndpointDescriptor { endpoint_address: 0x00, attributes: TransferType::Control, max_packet_size: 64, interval: 0 },
        EndpointDescriptor { endpoint_address: 0x80, attributes: TransferType::Control, max_packet_size: 64, interval: 0 },
        EndpointDescriptor { endpoint_address: 0x81, attributes: TransferType::Interrupt, max_packet_size: 8, interval: 1 },
        EndpointDescriptor { endpoint_address: 0x82, attributes: TransferType::Bulk, max_packet_size: 64, interval: 0 },
        EndpointDescriptor { endpoint_address: 0x02, attributes: TransferType::Bulk, max_packet_size: 64, interval: 0 },
    ]
}

/// The device's endpoints.
pub fn endpoints() -> (d: [EndpointDescriptor; 5])
    ensures
        d@ == spec_endpoints(),
{
    let d = [
        EndpointDescriptor { endpoint_address: 0x00, attributes: TransferType::Control, max_packet_size: 64, interval: 0 },
        EndpointDescriptor { endpoint_address: 0x80, attributes: TransferType::Control, max_packet_size: 64, interval: 0 },
        EndpointDescriptor { endpoint_address: 0x81, attributes: TransferType::Interrupt, max_packet_size: 8, interval: 1 },
        EndpointDescriptor { endpoint_address: 0x82, attributes: TransferType::Bulk, max_packet_size: 64, interval: 0 },
        EndpointDescriptor { endpoint_address: 0x02, attributes: TransferType::Bulk, max_packet_size: 64, interval: 0 },
    ];
    assert(d@ =~= spec_endpoints());
    d
}

/// The configuration descriptor. Its total length counts itself, both interface
/// descriptors, the association descriptor, the endpoints other than endpoint 0
/// and the functional descriptors.
pub open spec fn spec_configuration_descriptor() -> ConfigurationDescriptor {
    ConfigurationDescriptor {
        wTotalLength: (CONFIGURATION_DESCRIPTOR_LENGTH + 2 * INTERFACE_DESCRIPTOR_LENGTH
            + INTERFACE_ASSOCIATION_DESCRIPTOR_LENGTH + 3 * ENDPOINT_DESCRIPTOR_LENGTH
            + communications_bytes(spec_communications_descriptors()).len()) as u16,
        bNumInterfaces: 2,
        bConfigurationValue: 1,
        iConfiguration: 0,
        bmAttributes: 0xc0,
        bMaxPower: 0x32,
    }
}

/// The configuration descriptor.
pub fn configuration_descriptor() -> (d: ConfigurationDescriptor)
    ensures
        d == spec_configuration_descriptor(),
        d.wTotalLength == 75,
{
    let comms = communications_descriptors();
    let mut sum: u16 = 0;
    let mut i: usize = 0;
    while i < 4
        invariant
            0 <= i <= 4,
            comms@ == spec_communications_descriptors(),
            sum == communications_bytes(comms@.take(i as int)).len(),
            sum <= 5 * i,
        decreases 4 - i,
    {
        assert(comms@.take(i + 1).drop_last() =~= comms@.take(i as int));
        assert(comms@[i as int].spec_payload().len() <= 2);
        sum = sum + comms[i].length() as u16;
        i += 1;
    }
    assert(comms@.take(4) =~= comms@);
    proof {
        reveal_with_fuel(communications_bytes, 5);
    }
    assert(sum == 19);
    let config_len = CONFIGURATION_DESCRIPTOR_LENGTH as u16;
    let interfaces_len = 2 * (INTERFACE_DESCRIPTOR_LENGTH as u16);
    let association_len = 1 * (INTERFACE_ASSOCIATION_DESCRIPTOR_LENGTH as u16);
    let endpoints_len = 3 * (ENDPOINT_DESCRIPTOR_LENGTH as u16);
    assert(config_len == 9 && interfaces_len == 18 && association_len == 8 && endpoints_len == 21);
    ConfigurationDescriptor {
        wTotalLength: config_len + interfaces_len + association_len + endpoints_len + sum,
        bNumInterfaces: 2,
        bConfigurationValue: 1,
        iConfiguration: 0,
        bmAttributes: 0xc0,
        bMaxPower: 0x32,
    }
}

/// The device descriptor: USB 2.0, miscellaneous class with interface association,
/// 64-byte control packets, vendor 0, product 1, manufacturer string 1, product
/// string 2, no serial number, one configuration.
pub closed spec fn spec_device_descriptor() -> DeviceDescriptor {
    DeviceDescriptor {
        bcdUSB: 0x0200,
        bDeviceClass: 0xEF,
        bDeviceSubClass: 2,
        bDeviceProtocol: 1,
        bMaxPacketSize0: 64,
        idVendor: 0x0000,
        idProduct: 0x0001,
        bcdDevice: 0,
        manufacturer: Some(StringDescriptorIndex { index: 1 }),
        product: Some(StringDescriptorIndex { index: 2 }),
        serial_number: None,
        bNumConfigurations: 1,
    }
}

/// The device descriptor.
pub fn device_descriptor() -> (d: DeviceDescriptor)
    ensures
        d == spec_device_descriptor(),
        d.spec_bytes() == seq![
            18u8, 0x01, 0x00, 0x02, 0xEF, 2, 1, 64, 0, 0, 1, 0, 0, 0, 1, 2, 0, 1,
        ],
{
    let d = DeviceDescriptor {
        bcdUSB: 0x0200,
        bDeviceClass: 0xEF,
        bDeviceSubClass: 2,
        bDeviceProtocol: 1,
        bMaxPacketSize0: 64,
        idVendor: 0x0000,
        idProduct: 0x0001,
        bcdDevice: 0,
        manufacturer: StringDescriptorIndex::new(1),
        product: StringDescriptorIndex::new(2),
        serial_number: None,
        bNumConfigurations: 1,
    };
    assert(d.spec_bytes() =~= seq![18u8, 0x01, 0x00, 0x02, 0xEF, 2, 1, 64, 0, 0, 1, 0, 0, 0, 1, 2, 0, 1]);
    d
}

/// Number of bytes in the configuration descriptor set.
pub const CONFIG_DESC_SIZE: usize = 75;

/// The configuration descriptor set the host reads: configuration, interface
/// association, control interface, its functional descriptors, its endpoint (1),
/// data interface, its endpoints (2).
pub open spec fn spec_config_descriptor_set() -> Seq<u8> {
    spec_configuration_descriptor().spec_bytes() + spec_interface_association_descriptor().spec_bytes()
        + spec_interface_descriptors()[0].spec_bytes() + communications_bytes(spec_communications_descriptors())
        + endpoint_bytes_for(spec_endpoints(), 1) + spec_interface_descriptors()[1].spec_bytes()
        + endpoint_bytes_for(spec_endpoints(), 2)
}

/// Appends the bytes of the descriptors in `eps` whose endpoint number is `number`.
fn append_endpoints(buf: &mut Vec<u8>, eps: &[EndpointDescriptor; 5], number: u8)
    requires
        forall|k: int| 0 <= k < 5 ==> (#[trigger] eps@[k]).spec_number() < 16,
    ensures
        final(buf)@ == old(buf)@ + endpoint_bytes_for(eps@, number),
{
    let mut i: usize = 0;
    while i < 5
        invariant
            0 <= i <= 5,
            forall|k: int| 0 <= k < 5 ==> (#[trigger] eps@[k]).spec_number() < 16,
            buf@ == old(buf)@ + endpoint_bytes_for(eps@.take(i as int), number),
        decreases 5 - i,
    {
        assert(eps@.take(i + 1).drop_last() =~= eps@.take(i as int));
        let endpoint = eps[i];
        if endpoint.endpoint().id() == number {
            let mut bytes = [0u8; 7];
            endpoint.write(&mut bytes);
            buf.extend_from_slice(bytes.as_slice());
        }
        assert(buf@ =~= old(buf)@ + endpoint_bytes_for(eps@.take(i + 1), number));
        i += 1;
    }
    assert(eps@.take(5) =~= eps@);
}

/// The configuration descriptor set, all [`CONFIG_DESC_SIZE`] bytes of it.
pub fn config_descriptor_set() -> (buf: Vec<u8>)
    ensures
        buf@ == spec_config_descriptor_set(),
        buf@.len() == CONFIG_DESC_SIZE,
{
    let mut buf: Vec<u8> = Vec::new();
    let mut config = [0u8; 9];
    configuration_descriptor().write(&mut config);
    buf.extend_from_slice(config.as_slice());
    let mut association = [0u8; 8];
    interface_association_descriptor().write(&mut association);
    buf.extend_from_slice(association.as_slice());
    let interfaces = interface_descriptors();
    let mut control = [0u8; 9];
    interfaces[0].write(&mut control);
    buf.extend_from_slice(control.as_slice());
    let ghost before_comms = buf@;
    let comms = communications_descriptors();
    let mut i: usize = 0;
    while i < 4
        invariant
            0 <= i <= 4,
            comms@ == spec_communications_descriptors(),
            buf@ == before_comms + communications_bytes(comms@.take(i as int)),
        decreases 4 - i,
    {
        assert(comms@.take(i + 1).drop_last() =~= comms@.take(i as int));
        let len = comms[i].length() as usize;
        let mut scratch: Vec<u8> = vec![0u8; len];
        let written = comms[i].try_write(scratch.as_mut_slice(), 0);
        buf.extend_from_slice(scratch.as_slice());
        assert(scratch@ =~= comms@[i as int].spec_bytes());
        assert(buf@ =~= before_comms + communications_bytes(comms@.take(i + 1)));
        i += 1;
    }
    assert(comms@.take(4) =~= comms@);
    let eps = endpoints();
    append_endpoints(&mut buf, &eps, 1);
    let mut data = [0u8; 9];
    interfaces[1].write(&mut data);
    buf.extend_from_slice(data.as_slice());
    append_endpoints(&mut buf, &eps, 2);
    proof {
        reveal_with_fuel(communications_bytes, 5);
        reveal_with_fuel(endpoint_bytes_for, 6);
    }
    assert(buf@ =~= spec_config_descriptor_set());
    buf
}

/// The part of the configuration descriptor set sent in packet `part` of a
/// transfer the host asked `total_len` bytes of: bytes `64 * part` up to the least
/// of `64 * (part + 1)`, `total_len` and the set's end; empty when that end lies
/// before the start.
pub open spec fn spec_config_desc_packet(total_len: int, part: int) -> Seq<u8> {
    let set = spec_config_descriptor_set();
    let start = part * 64;
    let end = vstd::math::min(vstd::math::min(start + 64, total_len), set.len() as int);
    if end < start {
        seq![]
    } else {
        set.subrange(start, end)
    }
}

/// Packet `part` of the configuration descriptor set when the host asked for
/// `total_len` bytes.
pub fn config_desc_packet(total_len: usize, part: usize) -> (p: Vec<u8>)
    requires
        part * 64 + 64 <= usize::MAX,
    ensures
        p@ == spec_config_desc_packet(total_len as int, part as int),
{
    let set = config_descriptor_set();
    let start = part * 64;
    let mut end = start + 64;
    if total_len < end {
        end = total_len;
    }
    if set.len() < end {
        end = set.len();
    }
    let mut p: Vec<u8> = Vec::new();
    if end < start {
        return p;
    }
    let mut i = start;
    while i < end
        invariant
            start <= i <= end,
            end <= set@.len(),
            p@ == set@.subrange(start as int, i as int),
        decreases end - i,
    {
        p.push(set[i]);
        assert(p@ =~= set@.subrange(start as int, i + 1));
        i += 1;
    }
    p
}

/// String descriptor 0: the supported language IDs, US English only.
pub fn lang_descriptor() -> (d: [u8; 4])
    ensures
        d@ == seq![4u8, 0x03, 0x09, 0x04],
{
    let d = [4, 0x03, 0x09, 0x04];
    assert(d@ =~= seq![4u8, 0x03, 0x09, 0x04]);
    d
}

/// The text of string descriptor `index` (1-based): manufacturer, then product;
/// any other index reads "Unknown string".
pub open spec fn spec_descriptor_string(index: int) -> Seq<char> {
    if index == 1 {
        "RCoder01's"@
    } else if index == 2 {
        "worlds worst USB stick"@
    } else {
        "Unknown string"@
    }
}

/// The text of string descriptor `index` (1-based).
pub fn descriptor_string(index: usize) -> (s: &'static str)
    requires
        index >= 1,
    ensures
        s@ == spec_descriptor_string(index as int),
{
    let strings: [&'static str; 2] = ["RCoder01's", "worlds worst USB stick"];
    if index - 1 < 2 {
        strings[index - 1]
    } else {
        "Unknown string"
    }
}

/// The UTF-16 code units of one character.
pub open spec fn utf16_of_char(c: char) -> Seq<u16> {
    if (c as u32) < 0x10000 {
        seq![c as u16]
    } else {
        seq![
            (0xD800 + (c as u32 - 0x10000) / 0x400) as u16,
            (0xDC00 + (c as u32 - 0x10000) % 0x400) as u16,
        ]
    }
}

/// The UTF-16 code units of a text.
pub open spec fn utf16_units(s: Seq<char>) -> Seq<u16>
    decreases s.len(),
{
    if s.len() == 0 {
        seq![]
    } else {
        utf16_units(s.drop_last()) + utf16_of_char(s.last())
    }
}

/// Encodes `s` in UTF-16.
pub fn encode_utf16(s: &str) -> (units: Vec<u16>)
    ensures
        units@ == utf16_units(s@),
{
    let n = s.unicode_len();
    let mut units: Vec<u16> = Vec::new();
    let mut i: usize = 0;
    while i < n
        invariant
            n == s@.len(),
            i <= n,
            units@ == utf16_units(s@.take(i as int)),
        decreases n - i,
    {
        assert(s@.take(i + 1).drop_last() =~= s@.take(i as int));
        let c = s.get_char(i);
        let v = c as u32;
        if v < 0x10000 {
            units.push(v as u16);
        } else {
            assert(v <= 0x10FFFF);
            units.push((0xD800 + (v - 0x10000) / 0x400) as u16);
            units.push((0xDC00 + (v - 0x10000) % 0x400) as u16);
        }
        assert(units@ =~= utf16_units(s@.take(i + 1)));
        i += 1;
    }
    assert(s@.take(n as int) =~= s@);
    units
}

/// 16-bit words as bytes, each low byte first.
pub open spec fn le16_words(ws: Seq<u16>) -> Seq<u8>
    decreases ws.len(),
{
    if ws.len() == 0 {
        seq![]
    } else {
        le16_words(ws.drop_last()) + le16(ws.last())
    }
}

/// Number of bytes the host is told a string descriptor holds: two bytes of header
/// and two per code unit, at most one packet.
pub open spec fn string_descriptor_len(units: Seq<u16>) -> int {
    vstd::math::min(2 * units.len() as int + 2, 64)
}

/// The 64-byte packet holding a string descriptor: its length and type, then as many
/// code units as fit after them, then zeros.
pub open spec fn spec_string_descriptor_packet(units: Seq<u16>) -> Seq<u8> {
    let shown = vstd::math::min(units.len() as int, 31);
    le16_words(
        seq![(string_descriptor_len(units) + 0x0300) as u16] + units.take(shown) + Seq::new(
            (31 - shown) as nat,
            |k: int| 0u16,
        ),
    )
}

/// The packet and advertised length of string descriptor `index` (`index != 0`).
pub fn string_descriptor_packet(index: u8) -> (r: (Vec<u8>, u8))
    requires
        index != 0,
    ensures
        r.0@ == spec_string_descriptor_packet(utf16_units(spec_descriptor_string(index as int))),
        r.1 == string_descriptor_len(utf16_units(spec_descriptor_string(index as int))),
{
    let text = descriptor_string(index as usize);
    let units = encode_utf16(text);
    let str_len = units.len();
    let len: u8 = if str_len < 31 { (2 * str_len + 2) as u8 } else { 64 };
    let mut words: Vec<u16> = Vec::new();
    words.push(len as u16 + 0x0300);
    let mut j: usize = 0;
    while j < 31
        invariant
            j <= 31,
            units@ == utf16_units(text@),
            len as int == string_descriptor_len(units@),
            words@ == seq![(len as int + 0x0300) as u16] + if j <= units@.len() {
                units@.take(j as int)
            } else {
                units@ + Seq::new((j - units@.len()) as nat, |k: int| 0u16)
            },
        decreases 31 - j,
    {
        if j < units.len() {
            words.push(units[j]);
        } else {
            words.push(0);
        }
        assert(words@ =~= seq![(len as int + 0x0300) as u16] + if j + 1 <= units@.len() {
            units@.take(j + 1)
        } else {
            units@ + Seq::new((j + 1 - units@.len()) as nat, |k: int| 0u16)
        });
        j += 1;
    }
    let ghost shown = vstd::math::min(units@.len() as int, 31);
    assert(words@ =~= seq![(string_descriptor_len(units@) + 0x0300) as u16] + units@.take(shown)
        + Seq::new((31 - shown) as nat, |k: int| 0u16));
    let mut bytes: Vec<u8> = Vec::new();
    let mut k: usize = 0;
    while k < 32
        invariant
            k <= 32,
            words@.len() == 32,
            bytes@ == le16_words(words@.take(k as int)),
        decreases 32 - k,
    {
        assert(words@.take(k + 1).drop_last() =~= words@.take(k as int));
        let w = words[k];
        bytes.push((w % 256) as u8);
        bytes.push((w / 256) as u8);
        assert(bytes@ =~= le16_words(words@.take(k + 1)));
        k += 1;
    }
    assert(words@.take(32) =~= words@);
    (bytes, len)
}

/// Everything the device tells the host about itself.
pub struct DeviceConfig {
    pub device_descriptor: DeviceDescriptor,
    pub configuration_descriptor: ConfigurationDescriptor,
    pub lang_descriptor: [u8; 4],
    pub descriptor_strings: [&'static str; 2],
    pub endpoints: [EndpointDescriptor; 5],
}

/// The device's configuration.
pub fn device_config() -> (c: DeviceConfig)
    ensures
        c.device_descriptor == spec_device_descriptor(),
        c.configuration_descriptor == spec_configuration_descriptor(),
        c.lang_descriptor@ == seq![4u8, 0x03, 0x09, 0x04],
        c.descriptor_strings@[0]@ == spec_descriptor_string(1),
        c.descriptor_strings@[1]@ == spec_descriptor_string(2),
        c.endpoints@ == spec_endpoints(),
{
    DeviceConfig {
        device_descriptor: device_descriptor(),
        configuration_descriptor: configuration_descriptor(),
        lang_descriptor: lang_descriptor(),
        descriptor_strings: [descriptor_string(1), descriptor_string(2)],
        endpoints: endpoints(),
    }
}

/// The configuration descriptor set is as long as its total-length field says,
/// [`CONFIG_DESC_SIZE`] bytes.
pub proof fn lemma_config_set_length()
    ensures
        spec_config_descriptor_set().len() == CONFIG_DESC_SIZE,
        spec_configuration_descriptor().wTotalLength == spec_config_descriptor_set().len(),
{
    reveal_with_fuel(communications_bytes, 5);
    reveal_with_fuel(endpoint_bytes_for, 6);
}

/// Every standard descriptor serialises to as many bytes as its length byte says,
/// led by that length and its type code.
pub proof fn lemma_descriptor_headers(
    dev: DeviceDescriptor,
    cfg: ConfigurationDescriptor,
    iface: InterfaceDescriptor,
    assoc: InterfaceAssociationDescriptor,
    ep: EndpointDescriptor,
    cdc: CommunicationsDescriptor,
)
    ensures
        dev.spec_bytes().len() == DEVICE_DESCRIPTOR_LENGTH && dev.spec_bytes()[0] == DEVICE_DESCRIPTOR_LENGTH
            && dev.spec_bytes()[1] == DEVICE_DESCRIPTOR_TYPE,
        cfg.spec_bytes().len() == CONFIGURATION_DESCRIPTOR_LENGTH && cfg.spec_bytes()[0]
            == CONFIGURATION_DESCRIPTOR_LENGTH && cfg.spec_bytes()[1] == CONFIGURATION_DESCRIPTOR_TYPE,
        iface.spec_bytes().len() == INTERFACE_DESCRIPTOR_LENGTH && iface.spec_bytes()[0]
            == INTERFACE_DESCRIPTOR_LENGTH && iface.spec_bytes()[1] == INTERFACE_DESCRIPTOR_TYPE,
        assoc.spec_bytes().len() == INTERFACE_ASSOCIATION_DESCRIPTOR_LENGTH && assoc.spec_bytes()[0]
            == INTERFACE_ASSOCIATION_DESCRIPTOR_LENGTH && assoc.spec_bytes()[1]
            == INTERFACE_ASSOCIATION_DESCRIPTOR_TYPE,
        ep.spec_bytes().len() == ENDPOINT_DESCRIPTOR_LENGTH && ep.spec_bytes()[0] == ENDPOINT_DESCRIPTOR_LENGTH
            && ep.spec_bytes()[1] == ENDPOINT_DESCRIPTOR_TYPE,
        cdc.spec_bytes().len() == cdc.spec_bytes()[0] && cdc.spec_bytes()[1] == crate::usb::cdc::CS_INTERFACE,
{
}

/// A string descriptor packet fills the 64-byte buffer and begins with the length
/// the host is told and the string descriptor type.
pub proof fn lemma_string_descriptor_header(units: Seq<u16>)
    ensures
        spec_string_descriptor_packet(units).len() == 64,
        spec_string_descriptor_packet(units)[0] == string_descriptor_len(units),
        spec_string_descriptor_packet(units)[1] == 0x03,
{
    let shown = vstd::math::min(units.len() as int, 31);
    let words = seq![(string_descriptor_len(units) + 0x0300) as u16] + units.take(shown) + Seq::new(
        (31 - shown) as nat,
        |k: int| 0u16,
    );
    lemma_le16_words(words);
    assert(words[0] == (string_descriptor_len(units) + 0x0300) as u16);
    assert(le16_words(words)[2 * 0int] == (words[0] % 256) as u8);
    assert(spec_string_descriptor_packet(units) == le16_words(words));
}

/// Words as bytes: two per word, each word's low byte then high byte.
pub proof fn lemma_le16_words(ws: Seq<u16>)
    ensures
        le16_words(ws).len() == 2 * ws.len(),
        forall|i: int| 0 <= i < ws.len() ==> #[trigger] le16_words(ws)[2 * i] == (ws[i] % 256) as u8 && le16_words(ws)[2 * i + 1] == (ws[i] / 256) as u8,
    decreases ws.len(),
{
    if ws.len() > 0 {
        lemma_le16_words(ws.drop_last());
        assert forall|i: int| 0 <= i < ws.len() implies #[trigger] le16_words(ws)[2 * i] == (ws[i] % 256) as u8 && le16_words(ws)[2 * i + 1] == (ws[i] / 256) as u8 by {
            if i < ws.len() - 1 {
                assert(le16_words(ws.drop_last())[2 * i] == (ws.drop_last()[i] % 256) as u8);
            }
        }
    }
}

/// A text of characters below 0x10000 encodes to one UTF-16 unit per character,
/// each the character's code.
pub proof fn lemma_utf16_bmp(s: Seq<char>)
    requires
        forall|k: int| 0 <= k < s.len() ==> (#[trigger] s[k] as u32) < 0x10000,
    ensures
        utf16_units(s).len() == s.len(),
        forall|k: int| 0 <= k < s.len() ==> #[trigger] utf16_units(s)[k] == s[k] as u16,
    decreases s.len(),
{
    if s.len() > 0 {
        let init = s.drop_last();
        assert forall|k: int| 0 <= k < init.len() implies (#[trigger] init[k] as u32) < 0x10000 by {
            assert(init[k] == s[k]);
        }
        lemma_utf16_bmp(init);
        assert((s[s.len() - 1] as u32) < 0x10000);
        assert forall|k: int| 0 <= k < s.len() implies #[trigger] utf16_units(s)[k] == s[k] as u16 by {
            if k < s.len() - 1 {
                assert(init[k] == s[k]);
            }
        }
    }
}

/// Only string indices 1 (manufacturer) and 2 (product) name a string: every other
/// index past the language list (0) reads "Unknown string", which differs from both
/// named strings; its descriptor advertises 30 bytes and its text starts with 'U'.
pub proof fn lemma_unnamed_string_indices(index: int)
    requires
        index != 0,
        index != 1,
        index != 2,
    ensures
        spec_descriptor_string(index) == "Unknown string"@,
        spec_descriptor_string(index) != spec_descriptor_string(1),
        spec_descriptor_string(index) != spec_descriptor_string(2),
        ({
            let units = utf16_units(spec_descriptor_string(index));
            let p = spec_string_descriptor_packet(units);
            &&& string_descriptor_len(units) == 30
            &&& p[0] == 30 && p[1] == 0x03 && p[2] == 0x55 && p[3] == 0
        }),
{
    reveal_strlit("Unknown string");
    reveal_strlit("RCoder01's");
    reveal_strlit("worlds worst USB stick");
    let s = spec_descriptor_string(index);
    assert(s.len() == 14);
    assert(spec_descriptor_string(1).len() == 10);
    assert(spec_descriptor_string(2).len() == 22);
    assert forall|k: int| 0 <= k < s.len() implies (#[trigger] s[k] as u32) < 0x10000 by {
        assert((s[k] as u32) <= 0x7F);
    }
    lemma_utf16_bmp(s);
    let units = utf16_units(s);
    assert(units[0] == 0x55u16);
    lemma_string_descriptor_header(units);
    let words = seq![(string_descriptor_len(units) + 0x0300) as u16] + units.take(14) + Seq::new(
        17nat,
        |k: int| 0u16,
    );
    assert(spec_string_descriptor_packet(units) == le16_words(words));
    lemma_le16_words(words);
    assert(words[1] == 0x55u16);
    assert(le16_words(words)[2 * 1int] == (words[1] % 256) as u8);
    assert(le16_words(words)[2 * 1int + 1] == (words[1] / 256) as u8);
}

/// Packets past the first two of a configuration descriptor transfer are empty,
/// and the first two carry the set's first `min(total_len, 75)` bytes.
pub proof fn lemma_config_packets_reassemble(total_len: int, part: int)
    requires
        total_len >= 0,
        part >= 2,
    ensures
        spec_config_desc_packet(total_len, 0) + spec_config_desc_packet(total_len, 1)
            == spec_config_descriptor_set().take(vstd::math::min(total_len, CONFIG_DESC_SIZE as int)),
        spec_config_desc_packet(total_len, part) == Seq::<u8>::empty(),
{
    lemma_config_set_length();
    let set = spec_config_descriptor_set();
    let total = vstd::math::min(total_len, CONFIG_DESC_SIZE as int);
    assert(spec_config_desc_packet(total_len, 0) + spec_config_desc_packet(total_len, 1) =~= set.take(total));
}

} // verus!
