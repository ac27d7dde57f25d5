//! The USB controller's set-up and the control endpoint's request handling: which
//! registers to program, what to answer each setup request, and what to do when
//! an endpoint buffer completes.
use vstd::prelude::*;

use crate::clocks::{pll_sys_params, pll_usb_params, vco_hz};
use crate::common::{AliasedRegister, BusWrite, ByteWrite, RegStep, CLEAR_ALIAS_OFFSET, SET_ALIAS_OFFSET};
use crate::resets::{reset_blocks, reset_steps};
use crate::trap::{RVCSR_MEIEA, RVCSR_MEIFA};
use crate::usb::descriptors::{config_desc_packet, device_descriptor, lang_descriptor, spec_config_desc_packet, spec_descriptor_string, spec_device_descriptor, spec_string_descriptor_packet, string_descriptor_len, string_descriptor_packet, utf16_units, EndpointDescriptor, DeviceConfig};
use crate::usb::dpram::{endpoint_buffer, endpoint_buffer_ctrl_register, endpoint_ctrl_register, slot, EP_BUFFER_BASE, EP_BUFFER_CTRL_BASE, EP_CTRL_BASE, USBCTRL_DPRAM_BASE, USBCTRL_DPRAM_LEN};
use crate::usb::protocol::{descriptor_type_of, request_of, DescriptorType, Direction, EndpointId, Request, SetupPacket};

verus! {

/// The USB controller's bit in the reset controller, and its interrupt number.
pub const RESETS_RESET_USBCTRL: u32 = 28;
pub const USBCTRL_MASK: u32 = 0x10000000;
pub const USBCTRL_IRQ: u32 = 14;

/// USB controller registers.
pub const USBCTRL_REG_BASE: usize = 0x5011_0000;
pub const USBCTRL_ADDR_ENDP: usize = USBCTRL_REG_BASE + 0x000;
pub const USBCTRL_MAIN_CTRL: usize = USBCTRL_REG_BASE + 0x040;
pub const USBCTRL_SIE_CTRL: usize = USBCTRL_REG_BASE + 0x04C;
pub const USBCTRL_SIE_STATUS: usize = USBCTRL_REG_BASE + 0x050;
pub const USBCTRL_BUF_STATUS: usize = USBCTRL_REG_BASE + 0x058;
pub const USBCTRL_USB_MUXING: usize = USBCTRL_REG_BASE + 0x074;
pub const USBCTRL_USB_PWR: usize = USBCTRL_REG_BASE + 0x078;
pub const USBCTRL_INTE: usize = USBCTRL_REG_BASE + 0x090;
pub const USBCTRL_INTS: usize = USBCTRL_REG_BASE + 0x098;

/// Interrupt bits of the USB controller.
pub const USBINT_BUF_STATUS: u32 = 0x10;
pub const USBINT_BUS_RESET: u32 = 0x1000;
pub const USBINT_SETUP_REQ: u32 = 0x10000;

/// Register values written while bringing the controller up.
pub const MUXING_TO_PHY: u32 = 0x1;
pub const MUXING_SOFTCON: u32 = 0x8;
pub const PWR_VBUS_DETECT: u32 = 0x4;
pub const PWR_VBUS_DETECT_OVERRIDE_ENABLE: u32 = 0x8;
pub const MAIN_CTRL_CONTROLLER_ENABLE: u32 = 0x1;
pub const SIE_EP0_INT_BUF: u32 = 0x20000000;
pub const SIE_PULLUP_ENABLE: u32 = 0x10000;

/// Bits of a buffer control register.
pub const BUFFER_0_AVAILABLE: u32 = 0x400;
pub const BUFFER_0_DATA_PID: u32 = 0x2000;
pub const BUFFER_0_FULL: u32 = 0x8000;

/// Bits of the controller's status register.
pub const SIE_STATUS_SETUP_REC: u32 = 0x20000;
pub const SIE_STATUS_BUS_RESET: u32 = 0x80000;

/// Byte offsets in the dual-port RAM of the line-coding flag and of the number of
/// the next configuration-descriptor packet to send (0: none).
pub const FLAG_OFFSET: u16 = (USBCTRL_DPRAM_LEN - 2) as u16;
pub const EP0_BUF_STATUS_OFFSET: u16 = (USBCTRL_DPRAM_LEN - 1) as u16;

/// Number of no-op iterations that cover one USB clock cycle at the system clock:
/// the system clock divided by the USB clock, rounded up.
pub open spec fn spec_usb_dpsram_wait_cycles() -> int {
    let sys = vco_hz(1, 125) / 10;
    let usb = vco_hz(1, 100) / 25;
    if sys % usb == 0 { sys / usb } else { sys / usb + 1 }
}

/// Number of no-op iterations that cover one USB clock cycle at the system clock.
pub fn usb_dpsram_wait_cycles() -> (n: u32)
    ensures
        n == spec_usb_dpsram_wait_cycles(),
        n == 4,
{
    let sys_params = pll_sys_params();
    let usb_params = pll_usb_params();
    let sys = sys_params.f_out_post_div_hz();
    let usb = usb_params.f_out_post_div_hz();
    assert(sys_params@.post_div1 * sys_params@.post_div2 == 10);
    assert(usb_params@.post_div1 * usb_params@.post_div2 == 25);
    assert(crate::clocks::reference_hz(1) == 12_000_000);
    assert(vco_hz(1, 125) == 1_500_000_000 && vco_hz(1, 100) == 1_200_000_000);
    assert(sys == 150_000_000) by (nonlinear_arith)
        requires
            sys as int == vco_hz(1, 125) / (sys_params@.post_div1 * sys_params@.post_div2),
            sys_params@.post_div1 * sys_params@.post_div2 == 10,
            vco_hz(1, 125) == 1_500_000_000,
    ;
    assert(usb == 48_000_000) by (nonlinear_arith)
        requires
            usb as int == vco_hz(1, 100) / (usb_params@.post_div1 * usb_params@.post_div2),
            usb_params@.post_div1 * usb_params@.post_div2 == 25,
            vco_hz(1, 100) == 1_200_000_000,
    ;
    if sys % usb == 0 {
        sys / usb
    } else {
        sys / usb + 1
    }
}

/// Waits long enough for the controller to see a write to its dual-port RAM.
pub fn wait_sync_usb_dpsram() -> (s: RegStep)
    ensures
        s == (RegStep::Spin { cycles: 4 }),
{
    RegStep::Spin { cycles: usb_dpsram_wait_cycles() }
}

/// Interrupt-array window select for the controller's interrupt: the low bits hold
/// the 16-interrupt window, the upper half the interrupt's bit within it.
pub const USBCTRL_IRQ_SELECT: usize = 0x4000_0000;

/// Pulses the controller's reset and waits until it is done.
pub fn reset_usb() -> (p: Vec<RegStep>)
    ensures
        p@ == reset_steps(USBCTRL_MASK),
{
    reset_blocks(USBCTRL_MASK)
}

/// Drops a forced controller interrupt, then enables the controller's interrupt.
pub fn enable_usbctrl_interrupt() -> (p: Vec<RegStep>)
    ensures
        p@ == seq![
            RegStep::CsrClear { csr: RVCSR_MEIFA, value: USBCTRL_IRQ_SELECT },
            RegStep::CsrSet { csr: RVCSR_MEIEA, value: USBCTRL_IRQ_SELECT },
        ],
{
    assert(((1usize << (14usize % 16)) << 16usize) + 14usize / 16 == 0x4000_0000) by (bit_vector);
    let usbctrl = ((1usize << (USBCTRL_IRQ % 16) as usize) << 16) + (USBCTRL_IRQ / 16) as usize;
    let mut p: Vec<RegStep> = Vec::new();
    p.push(RegStep::CsrClear { csr: RVCSR_MEIFA, value: usbctrl });
    p.push(RegStep::CsrSet { csr: RVCSR_MEIEA, value: usbctrl });
    p
}

/// Resets the controller, zeroes its dual-port RAM, enables its interrupt, connects
/// it to the on-board PHY with VBUS detection forced, enables it in device mode with
/// an interrupt per endpoint 0 transaction, enables the buffer-done, bus-reset and
/// setup interrupts, and presents a full-speed device by enabling the D+ pull-up.
pub fn init_usb_as_device() -> (p: Vec<RegStep>)
    ensures
        p@ == reset_steps(USBCTRL_MASK) + seq![
            RegStep::ZeroFill { addr: USBCTRL_DPRAM_BASE, len: USBCTRL_DPRAM_LEN },
            RegStep::CsrClear { csr: RVCSR_MEIFA, value: USBCTRL_IRQ_SELECT },
            RegStep::CsrSet { csr: RVCSR_MEIEA, value: USBCTRL_IRQ_SELECT },
            RegStep::Write(BusWrite { addr: USBCTRL_USB_MUXING, value: MUXING_TO_PHY | MUXING_SOFTCON }),
            RegStep::Write(BusWrite { addr: USBCTRL_USB_PWR, value: PWR_VBUS_DETECT | PWR_VBUS_DETECT_OVERRIDE_ENABLE }),
            RegStep::Write(BusWrite { addr: USBCTRL_MAIN_CTRL, value: MAIN_CTRL_CONTROLLER_ENABLE }),
            RegStep::Write(BusWrite { addr: USBCTRL_SIE_CTRL, value: SIE_EP0_INT_BUF }),
            RegStep::Write(BusWrite { addr: USBCTRL_INTE, value: USBINT_BUF_STATUS | USBINT_BUS_RESET | USBINT_SETUP_REQ }),
            RegStep::Write(BusWrite { addr: (USBCTRL_SIE_CTRL + SET_ALIAS_OFFSET) as usize, value: SIE_PULLUP_ENABLE }),
        ],
{
    let mut p = reset_usb();
    p.push(RegStep::ZeroFill { addr: USBCTRL_DPRAM_BASE, len: USBCTRL_DPRAM_LEN });
    let mut interrupt = enable_usbctrl_interrupt();
    p.append(&mut interrupt);
    p.push(RegStep::Write(AliasedRegister::from_addr(USBCTRL_USB_MUXING).write(MUXING_TO_PHY | MUXING_SOFTCON)));
    p.push(
        RegStep::Write(
            AliasedRegister::from_addr(USBCTRL_USB_PWR).write(PWR_VBUS_DETECT | PWR_VBUS_DETECT_OVERRIDE_ENABLE),
        ),
    );
    p.push(RegStep::Write(AliasedRegister::from_addr(USBCTRL_MAIN_CTRL).write(MAIN_CTRL_CONTROLLER_ENABLE)));
    p.push(RegStep::Write(AliasedRegister::from_addr(USBCTRL_SIE_CTRL).write(SIE_EP0_INT_BUF)));
    p.push(
        RegStep::Write(
            AliasedRegister::from_addr(USBCTRL_INTE).write(USBINT_BUF_STATUS | USBINT_BUS_RESET | USBINT_SETUP_REQ),
        ),
    );
    p.push(RegStep::Write(AliasedRegister::from_addr(USBCTRL_SIE_CTRL).set(SIE_PULLUP_ENABLE)));
    p
}

/// Which data PID a reply on endpoint 0 carries.
#[derive(Copy, Clone, PartialEq, Eq, Debug)]
pub enum DataPid {
    /// The opposite of the PID currently in the buffer control register.
    Toggle,
    /// DATA1.
    Data1,
}

/// The buffer control value that hands `len` bytes to the controller: available,
/// full, with the data PID `pid` picks given the register's `current` value.
pub open spec fn spec_in_buffer_ctrl(len: u32, pid: DataPid, current: u32) -> u32 {
    match pid {
        DataPid::Toggle => len | BUFFER_0_AVAILABLE | BUFFER_0_FULL | (!current & BUFFER_0_DATA_PID),
        DataPid::Data1 => len | BUFFER_0_AVAILABLE | BUFFER_0_DATA_PID | BUFFER_0_FULL,
    }
}

/// The buffer control value that hands `len` bytes to the controller.
pub fn in_buffer_ctrl(len: u32, pid: DataPid, current: u32) -> (v: u32)
    ensures
        v == spec_in_buffer_ctrl(len, pid, current),
{
    match pid {
        DataPid::Toggle => len | BUFFER_0_AVAILABLE | BUFFER_0_FULL | (!current & BUFFER_0_DATA_PID),
        DataPid::Data1 => len | BUFFER_0_AVAILABLE | BUFFER_0_DATA_PID | BUFFER_0_FULL,
    }
}

/// The buffer control value that offers a buffer of `len` bytes for the host to
/// fill, with the data PID toggled from the register's `current` value.
pub fn out_buffer_ctrl(len: u32, current: u32) -> (v: u32)
    ensures
        v == ((!current & BUFFER_0_DATA_PID) | BUFFER_0_AVAILABLE | len),
{
    (!current & BUFFER_0_DATA_PID) | BUFFER_0_AVAILABLE | len
}

/// The buffer control value with the data PID cleared, so that the next packet
/// goes out as DATA1.
pub fn clear_data_pid(current: u32) -> (v: u32)
    ensures
        v == current & !BUFFER_0_DATA_PID,
{
    current & !BUFFER_0_DATA_PID
}

/// A reply on endpoint 0's IN buffer: `data` goes to the start of the buffer, then
/// `buf_status` (if any) to the pending-packet byte; with `sync` the controller is
/// given time to see the writes; last the buffer control register is set to
/// `in_buffer_ctrl(len, pid, current)`.
pub struct Ep0InReply {
    pub data: Vec<u8>,
    pub buf_status: Option<u8>,
    pub sync: bool,
    pub len: u32,
    pub pid: DataPid,
}

/// Acknowledges an OUT request with a zero-length IN packet.
pub fn acknowledge_out_request() -> (r: Ep0InReply)
    ensures
        r.data@ == Seq::<u8>::empty(),
        r.buf_status is None,
        !r.sync,
        r.len == 0,
        r.pid == DataPid::Toggle,
{
    Ep0InReply { data: Vec::new(), buf_status: None, sync: false, len: 0, pid: DataPid::Toggle }
}

/// Sends the device descriptor, at most as many bytes as the host asked for, as DATA1.
pub fn send_device_descriptor(packet: &SetupPacket) -> (r: Ep0InReply)
    ensures
        r.data@ == spec_device_descriptor().spec_bytes(),
        r.buf_status is None,
        r.sync,
        r.len == vstd::math::min(18, packet.length as int),
        r.pid == DataPid::Data1,
{
    let descriptor = device_descriptor();
    let mut buf = [0u8; 18];
    descriptor.write(&mut buf);
    let mut data: Vec<u8> = Vec::new();
    data.extend_from_slice(buf.as_slice());
    assert(data@ =~= buf@);
    let len = if (packet.length as u32) < 18 { packet.length as u32 } else { 18 };
    Ep0InReply { data, buf_status: None, sync: true, len, pid: DataPid::Data1 }
}

/// Sends packet `part_index` of the configuration descriptor set. A full packet
/// records `part_index + 1` (modulo 256) as the next part to send; a short one
/// records 0.
pub fn send_config_descriptor(packet: &SetupPacket, part_index: usize) -> (r: Ep0InReply)
    requires
        part_index * 64 + 64 <= usize::MAX,
    ensures
        r.data@ == spec_config_desc_packet(packet.length as int, part_index as int),
        r.buf_status == Some(if r.data@.len() == 64 { ((part_index + 1) % 256) as u8 } else { 0u8 }),
        r.sync,
        r.len == r.data@.len(),
        r.pid == DataPid::Toggle,
{
    let part = config_desc_packet(packet.length as usize, part_index);
    let status: u8 = if part.len() == 64 {
        ((part_index + 1) % 256) as u8
    } else {
        0
    };
    let len = part.len() as u32;
    Ep0InReply { data: part, buf_status: Some(status), sync: true, len, pid: DataPid::Toggle }
}

/// Sends the string descriptor the request's low value byte names: the language
/// list for 0, else the string's packet.
pub fn send_string_descriptor(packet: &SetupPacket) -> (r: Ep0InReply)
    ensures
        ({
            let i = packet.value % 256;
            let units = utf16_units(spec_descriptor_string(i as int));
            &&& i == 0 ==> r.data@ == seq![4u8, 0x03, 0x09, 0x04] && r.len == 4
            &&& i != 0 ==> r.data@ == spec_string_descriptor_packet(units) && r.len == string_descriptor_len(units)
        }),
        r.buf_status is None,
        r.sync,
        r.pid == DataPid::Toggle,
{
    let i = (packet.value % 256) as u8;
    if i == 0 {
        let lang = lang_descriptor();
        let mut data: Vec<u8> = Vec::new();
        data.extend_from_slice(lang.as_slice());
        assert(data@ =~= lang@);
        Ep0InReply { data, buf_status: None, sync: true, len: 4, pid: DataPid::Toggle }
    } else {
        let (data, len) = string_descriptor_packet(i);
        Ep0InReply { data, buf_status: None, sync: true, len: len as u32, pid: DataPid::Toggle }
    }
}

/// Answers a device qualifier request with a zero-length packet (the device is
/// full-speed only).
pub fn send_device_qualifier_descriptor(packet: &SetupPacket) -> (r: Ep0InReply)
    ensures
        r.data@ == Seq::<u8>::empty(),
        r.buf_status is None,
        !r.sync,
        r.len == 0,
        r.pid == DataPid::Toggle,
{
    Ep0InReply { data: Vec::new(), buf_status: None, sync: false, len: 0, pid: DataPid::Toggle }
}

/// Class request codes of the CDC abstract control model.
pub const CDC_SET_LINE_CODING: u8 = 0x20;
pub const CDC_SET_CONTROL_LINE_STATE: u8 = 0x22;

/// What to do for a setup request.
#[derive(Copy, Clone, PartialEq, Eq, Debug)]
pub enum SetupResponse {
    /// Remember `pending` (the new address with bit 7 set as a marker) and acknowledge;
    /// the address takes effect once the acknowledgement is through.
    SetAddress { pending: u8 },
    /// Acknowledge, then offer endpoint 1's OUT buffer (64 bytes).
    SetConfiguration,
    /// Acknowledge and set the line-coding flag to 1.
    SetLineCoding,
    /// Acknowledge.
    Acknowledge,
    /// Send the device descriptor.
    GetDeviceDescriptor,
    /// Send the first packet of the configuration descriptor set.
    GetConfigDescriptor,
    /// Send a string descriptor.
    GetStringDescriptor,
    /// Answer the device qualifier request.
    GetDeviceQualifier,
}

/// The requests the device answers: every host-to-device request except a set
/// configuration to a configuration other than 1, and a device-to-host request
/// only when it asks for the device, configuration, string or device qualifier
/// descriptor.
pub open spec fn spec_setup_request_supported(packet: SetupPacket) -> bool {
    if packet.request_type < 0x80 {
        request_of(packet.request) == Some(Request::SetConfiguration) ==> packet.value == 1
    } else {
        &&& request_of(packet.request) == Some(Request::GetDescriptor)
        &&& match descriptor_type_of((packet.value / 256) as u8) {
            Some(DescriptorType::Device) | Some(DescriptorType::Config) | Some(DescriptorType::String)
            | Some(DescriptorType::DeviceQualifier) => true,
            _ => false,
        }
    }
}

/// The answer to a supported setup request.
pub open spec fn spec_setup_response(packet: SetupPacket) -> SetupResponse {
    if packet.request_type < 0x80 {
        match request_of(packet.request) {
            Some(Request::SetAddress) => SetupResponse::SetAddress { pending: (packet.value % 128 + 0x80) as u8 },
            Some(Request::SetConfiguration) => SetupResponse::SetConfiguration,
            Some(_) => SetupResponse::Acknowledge,
            None => if packet.request == CDC_SET_LINE_CODING {
                SetupResponse::SetLineCoding
            } else {
                SetupResponse::Acknowledge
            },
        }
    } else {
        match descriptor_type_of((packet.value / 256) as u8) {
            Some(DescriptorType::Device) => SetupResponse::GetDeviceDescriptor,
            Some(DescriptorType::Config) => SetupResponse::GetConfigDescriptor,
            Some(DescriptorType::String) => SetupResponse::GetStringDescriptor,
            _ => SetupResponse::GetDeviceQualifier,
        }
    }
}

/// Whether the device answers `packet`.
pub fn setup_request_supported(packet: &SetupPacket) -> (b: bool)
    ensures
        b == spec_setup_request_supported(*packet),
{
    match packet.request_direction() {
        Direction::Out => match packet.request() {
            Ok(Request::SetConfiguration) => packet.value == 1,
            _ => true,
        },
        Direction::In => match packet.request() {
            Ok(Request::GetDescriptor) => match DescriptorType::try_from((packet.value / 256) as u8) {
                Ok(DescriptorType::Device) | Ok(DescriptorType::Config) | Ok(DescriptorType::String)
                | Ok(DescriptorType::DeviceQualifier) => true,
                _ => false,
            },
            _ => false,
        },
    }
}

/// What to do for the setup request `packet`.
pub fn setup_response(packet: &SetupPacket) -> (r: SetupResponse)
    requires
        spec_setup_request_supported(*packet),
    ensures
        r == spec_setup_response(*packet),
{
    match packet.request_direction() {
        Direction::Out => match packet.request() {
            Ok(Request::SetAddress) => {
                let low = packet.value % 128;
                SetupResponse::SetAddress { pending: low as u8 + 0x80 }
            },
            Ok(Request::SetConfiguration) => SetupResponse::SetConfiguration,
            Err(CDC_SET_LINE_CODING) => SetupResponse::SetLineCoding,
            Err(CDC_SET_CONTROL_LINE_STATE) => SetupResponse::Acknowledge,
            _ => SetupResponse::Acknowledge,
        },
        Direction::In => match DescriptorType::try_from((packet.value / 256) as u8) {
            Ok(DescriptorType::Device) => SetupResponse::GetDeviceDescriptor,
            Ok(DescriptorType::Config) => SetupResponse::GetConfigDescriptor,
            Ok(DescriptorType::String) => SetupResponse::GetStringDescriptor,
            _ => SetupResponse::GetDeviceQualifier,
        },
    }
}

/// The parts of an interrupt status the handler deals with, and what is left.
#[derive(Copy, Clone, PartialEq, Eq, Debug)]
pub struct UsbWork {
    pub setup_request: bool,
    pub buffer_status: bool,
    pub bus_reset: bool,
    /// Status bits no part deals with; the handler stops (panics) when any is set.
    pub unhandled: u32,
}

/// Splits the controller's interrupt status into the setup, buffer-done and bus-reset
/// work and the bits left over.
pub fn usb_interrupt_work(status: u32) -> (w: UsbWork)
    ensures
        w.setup_request == (status & USBINT_SETUP_REQ != 0),
        w.buffer_status == (status & USBINT_BUF_STATUS != 0),
        w.bus_reset == (status & USBINT_BUS_RESET != 0),
        w.unhandled == status & !(USBINT_SETUP_REQ | USBINT_BUF_STATUS | USBINT_BUS_RESET),
{
    let mut rest = status;
    let setup_request = (rest & USBINT_SETUP_REQ) != 0;
    if setup_request {
        rest ^= USBINT_SETUP_REQ;
    }
    let buffer_status = (rest & USBINT_BUF_STATUS) != 0;
    if buffer_status {
        rest ^= USBINT_BUF_STATUS;
    }
    let bus_reset = (rest & USBINT_BUS_RESET) != 0;
    if bus_reset {
        rest ^= USBINT_BUS_RESET;
    }
    assert(rest == status & !(USBINT_SETUP_REQ | USBINT_BUF_STATUS | USBINT_BUS_RESET)
        && setup_request == (status & USBINT_SETUP_REQ != 0)
        && buffer_status == (status & USBINT_BUF_STATUS != 0)
        && bus_reset == (status & USBINT_BUS_RESET != 0)) by (bit_vector)
        requires
            setup_request == (status & 0x10000 != 0),
            buffer_status == ((if setup_request { status ^ 0x10000 } else { status }) & 0x10 != 0),
            bus_reset == ((if buffer_status {
                (if setup_request { status ^ 0x10000 } else { status }) ^ 0x10
            } else {
                (if setup_request { status ^ 0x10000 } else { status })
            }) & 0x1000 != 0),
            rest == (if bus_reset {
                (if buffer_status {
                    (if setup_request { status ^ 0x10000 } else { status }) ^ 0x10
                } else {
                    (if setup_request { status ^ 0x10000 } else { status })
                }) ^ 0x1000
            } else {
                (if buffer_status {
                    (if setup_request { status ^ 0x10000 } else { status }) ^ 0x10
                } else {
                    (if setup_request { status ^ 0x10000 } else { status })
                })
            }),
    ;
    UsbWork { setup_request, buffer_status, bus_reset, unhandled: rest }
}

/// The line-coding flag after an interrupt: once set it counts interrupts, else it
/// stays 0 (`None`: nothing to write).
pub fn flag_after_interrupt(flag: u8) -> (r: Option<u8>)
    requires
        flag != 255,
    ensures
        flag == 0 ==> r is None,
        flag != 0 ==> r == Some((flag + 1) as u8),
{
    if flag != 0 {
        Some(flag + 1)
    } else {
        None
    }
}

/// The set bits among the lowest `n` bits of `v`, from low to high.
pub open spec fn set_bits_below(v: u32, n: nat) -> Seq<u32>
    decreases n,
{
    if n == 0 {
        seq![]
    } else {
        set_bits_below(v, (n - 1) as nat) + if (v as int / vstd::arithmetic::power2::pow2((n - 1) as nat) as int) % 2 == 1 {
            seq![(n - 1) as u32]
        } else {
            seq![]
        }
    }
}

/// The set-bit list holds exactly the set bits below `n`, each once, from low to high.
pub proof fn lemma_set_bits_below(v: u32, n: nat)
    requires
        n <= 32,
    ensures
        forall|k: int|
            0 <= k < set_bits_below(v, n).len() ==> (#[trigger] set_bits_below(v, n)[k]) < n && (v as int
                / vstd::arithmetic::power2::pow2(set_bits_below(v, n)[k] as nat) as int) % 2 == 1,
        forall|j: int, k: int|
            0 <= j < k < set_bits_below(v, n).len() ==> #[trigger] set_bits_below(v, n)[j]
                < #[trigger] set_bits_below(v, n)[k],
        forall|i: nat|
            i < n && (v as int / vstd::arithmetic::power2::pow2(i) as int) % 2 == 1 ==> #[trigger] set_bits_below(
                v,
                n,
            ).contains(i as u32),
    decreases n,
{
    if n > 0 {
        lemma_set_bits_below(v, (n - 1) as nat);
        let prev = set_bits_below(v, (n - 1) as nat);
        let cur = set_bits_below(v, n);
        assert forall|i: nat| i < n && (v as int / vstd::arithmetic::power2::pow2(i) as int) % 2 == 1 implies #[trigger] cur.contains(i as u32) by {
            if i < n - 1 {
                assert(prev.contains(i as u32));
                let k = choose|k: int| 0 <= k < prev.len() && prev[k] == i as u32;
                assert(cur[k] == i as u32);
            } else {
                assert(cur[cur.len() - 1] == i as u32);
            }
        }
    }
}

/// The buffers whose transfer completed: the set bits of the buffer status value,
/// lowest first.
pub fn buffer_status_bits(buffers: u32) -> (bits: Vec<u32>)
    ensures
        bits@ == set_bits_below(buffers, 32),
{
    let mut bits: Vec<u32> = Vec::new();
    let mut remaining = buffers;
    let mut bit: u32 = 0;
    proof {
        vstd::arithmetic::power2::lemma2_to64();
    }
    while bit < 32
        invariant
            bit <= 32,
            remaining as int == buffers as int / vstd::arithmetic::power2::pow2(bit as nat) as int,
            bits@ == set_bits_below(buffers, bit as nat),
        decreases 32 - bit,
    {
        proof {
            vstd::arithmetic::power2::lemma_pow2_pos(bit as nat);
            vstd::arithmetic::power2::lemma_pow2_unfold((bit + 1) as nat);
            vstd::arithmetic::div_mod::lemma_div_denominator(
                buffers as int,
                vstd::arithmetic::power2::pow2(bit as nat) as int,
                2int,
            );
        }
        if remaining % 2 == 1 {
            bits.push(bit);
        }
        remaining = remaining / 2;
        bit += 1;
    }
    bits
}

/// The endpoint and direction of buffer status bit `bit`: endpoint `bit / 2`, IN
/// for even bits.
pub fn buffer_endpoint(bit: u32) -> (r: (EndpointId, Direction))
    requires
        bit < 32,
    ensures
        r.0.spec_id() == bit / 2,
        r.1 == (if bit % 2 == 0 { Direction::In } else { Direction::Out }),
{
    let endpoint = EndpointId::new((bit / 2) as u8).unwrap();
    let dir = if (bit & 0b1) == 0 {
        Direction::In
    } else {
        Direction::Out
    };
    assert(bit & 1 == bit % 2) by (bit_vector);
    (endpoint, dir)
}

/// Acknowledges buffer status bit `bit` (the register clears on write).
pub fn buffer_status_clear(bit: u32) -> (w: BusWrite)
    requires
        bit < 32,
    ensures
        w == (BusWrite {
            addr: (USBCTRL_BUF_STATUS + CLEAR_ALIAS_OFFSET) as usize,
            value: vstd::arithmetic::power2::pow2(bit as nat) as u32,
        }),
{
    proof {
        vstd::bits::lemma_u32_pow2_no_overflow(bit as nat);
        vstd::bits::lemma_u32_shl_is_mul(1, bit);
    }
    AliasedRegister::from_addr(USBCTRL_BUF_STATUS).clear(1 << bit)
}

/// The completed buffers the device handles: both buffers of endpoint 0.
pub open spec fn spec_buffer_event_supported(endpoint: EndpointId, direction: Direction) -> bool {
    endpoint.spec_id() == 0
}

/// Whether the device handles completion of the buffer of `endpoint` in `direction`.
pub fn buffer_event_supported(endpoint: EndpointId, direction: Direction) -> (b: bool)
    ensures
        b == spec_buffer_event_supported(endpoint, direction),
{
    endpoint.is_zero()
}

/// What to do once an IN packet on endpoint 0 has gone out.
#[derive(Copy, Clone, PartialEq, Eq, Debug)]
pub enum Ep0InComplete {
    /// A new address was pending: store `stored` as the pending address and write
    /// `addr_endp` to the address register.
    ApplyAddress { stored: u8, addr_endp: u32 },
    /// Send packet `part` of the configuration descriptor set.
    ContinueConfig { part: usize },
    /// Offer endpoint 0's OUT buffer for the status stage.
    ArmOut,
}

/// What to do once an IN packet on endpoint 0 has gone out, given the pending
/// address (bit 7 marks one) and the pending configuration-descriptor part: apply
/// a pending address (keeping it without the marker; the address register gets the
/// marked value), else send the pending part, else offer the OUT buffer.
pub open spec fn spec_ep0_in_complete(new_addr: u8, ep0_buf_status: u8) -> Ep0InComplete {
    if new_addr >= 0x80 {
        Ep0InComplete::ApplyAddress { stored: (new_addr % 128) as u8, addr_endp: new_addr as u32 }
    } else if ep0_buf_status != 0 {
        Ep0InComplete::ContinueConfig { part: ep0_buf_status as usize }
    } else {
        Ep0InComplete::ArmOut
    }
}

/// What to do once an IN packet on endpoint 0 has gone out.
pub fn ep0_in_complete(new_addr: u8, ep0_buf_status: u8) -> (r: Ep0InComplete)
    ensures
        r == spec_ep0_in_complete(new_addr, ep0_buf_status),
{
    assert((new_addr & 0x80 != 0) == (new_addr >= 0x80) && new_addr & 0x7F == new_addr % 128) by (bit_vector);
    if new_addr & 0x80 != 0 {
        Ep0InComplete::ApplyAddress { stored: new_addr & 0x7F, addr_endp: new_addr as u32 }
    } else if ep0_buf_status != 0 {
        Ep0InComplete::ContinueConfig { part: ep0_buf_status as usize }
    } else {
        Ep0InComplete::ArmOut
    }
}

/// RAM byte holding the pending device address: bit 7 marks an address whose
/// set-address request still awaits its acknowledgement.
pub const NEW_ADDR: usize = 0x2000_0000;

/// Byte addresses of the line-coding flag and of the pending configuration part.
pub const FLAG_ADDR: usize = USBCTRL_DPRAM_BASE + FLAG_OFFSET as usize;
pub const EP0_BUF_STATUS_ADDR: usize = USBCTRL_DPRAM_BASE + EP0_BUF_STATUS_OFFSET as usize;

/// Bus address of the buffer control register of `endpoint` in `direction`.
pub open spec fn buffer_ctrl_addr(endpoint: EndpointId, direction: Direction) -> usize {
    (USBCTRL_DPRAM_BASE + EP_BUFFER_CTRL_BASE + 4 * slot(endpoint, direction)) as usize
}

/// The step that offers the OUT buffer of `endpoint` for `len` bytes: the buffer
/// control register gets the available bit and the length, with its data PID toggled.
pub open spec fn spec_arm_out_step(endpoint: EndpointId, len: u32) -> RegStep {
    RegStep::ToggleWrite {
        addr: buffer_ctrl_addr(endpoint, Direction::Out),
        toggle: BUFFER_0_DATA_PID,
        set: BUFFER_0_AVAILABLE | len,
    }
}

/// Offers the OUT buffer of `endpoint` for `len` bytes.
pub fn arm_out_step(endpoint: EndpointId, len: u32) -> (s: RegStep)
    ensures
        s == spec_arm_out_step(endpoint, len),
{
    let ctrl = endpoint_buffer_ctrl_register(endpoint, Direction::Out);
    RegStep::ToggleWrite { addr: ctrl.address(), toggle: BUFFER_0_DATA_PID, set: BUFFER_0_AVAILABLE | len }
}

/// The steps a setup request asks for besides its reply, as (before the reply, after
/// the reply): a set-address request stores the pending address first; a set
/// configuration offers endpoint 1's OUT buffer for 64 bytes afterwards; a set line
/// coding sets the line-coding flag to 1 afterwards; the others need none.
pub open spec fn spec_setup_steps(response: SetupResponse) -> (Seq<RegStep>, Seq<RegStep>) {
    match response {
        SetupResponse::SetAddress { pending } => (
            seq![RegStep::WriteByte(ByteWrite { addr: NEW_ADDR, value: pending })],
            seq![],
        ),
        SetupResponse::SetConfiguration => (seq![], seq![spec_arm_out_step(EndpointId::Endpoint1, 64)]),
        SetupResponse::SetLineCoding => (
            seq![],
            seq![RegStep::WriteByte(ByteWrite { addr: FLAG_ADDR, value: 1 })],
        ),
        _ => (seq![], seq![]),
    }
}

/// The steps a setup request asks for besides its reply: (before, after) the reply.
pub fn setup_steps(response: SetupResponse) -> (s: (Vec<RegStep>, Vec<RegStep>))
    ensures
        s.0@ == spec_setup_steps(response).0,
        s.1@ == spec_setup_steps(response).1,
{
    let mut before: Vec<RegStep> = Vec::new();
    let mut after: Vec<RegStep> = Vec::new();
    match response {
        SetupResponse::SetAddress { pending } => {
            before.push(RegStep::WriteByte(ByteWrite { addr: NEW_ADDR, value: pending }));
        },
        SetupResponse::SetConfiguration => {
            after.push(arm_out_step(EndpointId::Endpoint1, 64));
        },
        SetupResponse::SetLineCoding => {
            after.push(RegStep::WriteByte(ByteWrite { addr: FLAG_ADDR, value: 1 }));
        },
        _ => {},
    }
    (before, after)
}

/// The reply to a supported setup request: an acknowledgement for the host-to-device
/// requests, else the descriptor asked for (the first configuration packet).
pub fn setup_reply(packet: &SetupPacket) -> (r: Ep0InReply)
    requires
        spec_setup_request_supported(*packet),
    ensures
        match spec_setup_response(*packet) {
            SetupResponse::GetDeviceDescriptor => {
                &&& r.data@ == spec_device_descriptor().spec_bytes()
                &&& r.buf_status is None
                &&& r.sync
                &&& r.len == vstd::math::min(18, packet.length as int)
                &&& r.pid == DataPid::Data1
            },
            SetupResponse::GetConfigDescriptor => {
                &&& r.data@ == spec_config_desc_packet(packet.length as int, 0)
                &&& r.buf_status == Some(if r.data@.len() == 64 { 1u8 } else { 0u8 })
                &&& r.sync
                &&& r.len == r.data@.len()
                &&& r.pid == DataPid::Toggle
            },
            SetupResponse::GetStringDescriptor => {
                let i = packet.value % 256;
                let units = utf16_units(spec_descriptor_string(i as int));
                &&& i == 0 ==> r.data@ == seq![4u8, 0x03, 0x09, 0x04] && r.len == 4
                &&& i != 0 ==> r.data@ == spec_string_descriptor_packet(units) && r.len
                    == string_descriptor_len(units)
                &&& r.buf_status is None
                &&& r.sync
                &&& r.pid == DataPid::Toggle
            },
            _ => {
                &&& r.data@ == Seq::<u8>::empty()
                &&& r.buf_status is None
                &&& !r.sync
                &&& r.len == 0
                &&& r.pid == DataPid::Toggle
            },
        },
{
    match setup_response(packet) {
        SetupResponse::GetDeviceDescriptor => send_device_descriptor(packet),
        SetupResponse::GetConfigDescriptor => send_config_descriptor(packet, 0),
        SetupResponse::GetStringDescriptor => send_string_descriptor(packet),
        SetupResponse::GetDeviceQualifier => send_device_qualifier_descriptor(packet),
        _ => acknowledge_out_request(),
    }
}

/// The steps that carry out a completion decision: a pending address is stored
/// without its marker and written (marked) to the address register; the status-stage
/// OUT buffer of endpoint 0 is offered with length 0; continuing the configuration
/// transfer takes no step besides sending its next packet.
pub open spec fn spec_completion_steps(action: Ep0InComplete) -> Seq<RegStep> {
    match action {
        Ep0InComplete::ApplyAddress { stored, addr_endp } => seq![
            RegStep::WriteByte(ByteWrite { addr: NEW_ADDR, value: stored }),
            RegStep::Write(BusWrite { addr: USBCTRL_ADDR_ENDP, value: addr_endp }),
        ],
        Ep0InComplete::ContinueConfig { .. } => seq![],
        Ep0InComplete::ArmOut => seq![spec_arm_out_step(EndpointId::Endpoint0, 0)],
    }
}

/// The steps that carry out a completion decision.
pub fn completion_steps(action: Ep0InComplete) -> (p: Vec<RegStep>)
    ensures
        p@ == spec_completion_steps(action),
{
    let mut p: Vec<RegStep> = Vec::new();
    match action {
        Ep0InComplete::ApplyAddress { stored, addr_endp } => {
            p.push(RegStep::WriteByte(ByteWrite { addr: NEW_ADDR, value: stored }));
            p.push(RegStep::Write(AliasedRegister::from_addr(USBCTRL_ADDR_ENDP).write(addr_endp)));
        },
        Ep0InComplete::ContinueConfig { .. } => {},
        Ep0InComplete::ArmOut => {
            p.push(arm_out_step(EndpointId::Endpoint0, 0));
        },
    }
    p
}

/// After a bus reset: acknowledge it, drop the pending address and return to
/// address 0.
pub open spec fn spec_bus_reset_steps() -> Seq<RegStep> {
    seq![
        RegStep::Write(BusWrite { addr: (USBCTRL_SIE_STATUS + CLEAR_ALIAS_OFFSET) as usize, value: SIE_STATUS_BUS_RESET }),
        RegStep::WriteByte(ByteWrite { addr: NEW_ADDR, value: 0 }),
        RegStep::Write(BusWrite { addr: USBCTRL_ADDR_ENDP, value: 0 }),
    ]
}

/// After a bus reset: acknowledge it, drop the pending address and return to
/// address 0.
pub fn bus_reset_steps() -> (p: Vec<RegStep>)
    ensures
        p@ == spec_bus_reset_steps(),
{
    let mut p: Vec<RegStep> = Vec::new();
    p.push(RegStep::Write(AliasedRegister::from_addr(USBCTRL_SIE_STATUS).clear(SIE_STATUS_BUS_RESET)));
    p.push(RegStep::WriteByte(ByteWrite { addr: NEW_ADDR, value: 0 }));
    p.push(RegStep::Write(AliasedRegister::from_addr(USBCTRL_ADDR_ENDP).write(0)));
    p
}

/// Acknowledges a received setup packet.
pub fn setup_received_write() -> (w: BusWrite)
    ensures
        w == (BusWrite { addr: (USBCTRL_SIE_STATUS + CLEAR_ALIAS_OFFSET) as usize, value: SIE_STATUS_SETUP_REC }),
{
    AliasedRegister::from_addr(USBCTRL_SIE_STATUS).clear(SIE_STATUS_SETUP_REC)
}

/// Bits of an endpoint control register.
pub const EP_CTRL_ENABLE: u32 = 0x8000_0000;
pub const EP_CTRL_DOUBLE_BUFFERED: u32 = 0x4000_0000;
pub const EP_CTRL_INTERRUPT_EVERY_BUFFER: u32 = 0x2000_0000;
pub const EP_CTRL_INTERRUPT_EVERY_2_BUFFERS: u32 = 0x1000_0000;
pub const EP_CTRL_TRANSFER_TYPE_SHIFT: u32 = 26;

/// The endpoint control write for one endpoint other than endpoint 0: enabled,
/// single-buffered, an interrupt per buffer, its transfer type, and the offset of
/// its data buffer.
pub open spec fn endpoint_config_write(ep: EndpointDescriptor) -> BusWrite {
    let number = ep.spec_number() as int;
    let slot = 2 * number + if ep.endpoint_address >= 0x80 { 0int } else { 1int };
    BusWrite {
        addr: (USBCTRL_DPRAM_BASE + EP_CTRL_BASE + 4 * slot) as usize,
        value: EP_CTRL_ENABLE | EP_CTRL_INTERRUPT_EVERY_BUFFER | ((ep.attributes.spec_code() as u32) << 26u32)
            | ((EP_BUFFER_BASE + 64 * slot) as u32),
    }
}

/// The endpoint control writes for the endpoints in `eps`, in order, skipping
/// endpoint 0, which has no control register.
pub open spec fn endpoint_config_writes(eps: Seq<EndpointDescriptor>) -> Seq<BusWrite>
    decreases eps.len(),
{
    if eps.len() == 0 {
        seq![]
    } else {
        endpoint_config_writes(eps.drop_last()) + if eps.last().spec_number() == 0 {
            seq![]
        } else {
            seq![endpoint_config_write(eps.last())]
        }
    }
}

impl DeviceConfig {
    /// Programs the control register of each endpoint other than endpoint 0.
    pub fn configure_endpoints(&self) -> (w: Vec<BusWrite>)
        requires
            forall|k: int| 0 <= k < 5 ==> (#[trigger] self.endpoints@[k]).spec_number() < 16,
        ensures
            w@ == endpoint_config_writes(self.endpoints@),
    {
        let mut w: Vec<BusWrite> = Vec::new();
        let mut i: usize = 0;
        while i < 5
            invariant
                0 <= i <= 5,
                forall|k: int| 0 <= k < 5 ==> (#[trigger] self.endpoints@[k]).spec_number() < 16,
                w@ == endpoint_config_writes(self.endpoints@.take(i as int)),
            decreases 5 - i,
        {
            assert(self.endpoints@.take(i + 1).drop_last() =~= self.endpoints@.take(i as int));
            let endpoint = self.endpoints[i];
            let id = endpoint.endpoint();
            let dir = endpoint.direction();
            let dpram_offset = endpoint_buffer(id, dir).byte_offset();
            match endpoint_ctrl_register(id, dir) {
                Some(register) => {
                    let code = endpoint.attributes.code();
                    assert((code & 0b11) == code) by (bit_vector)
                        requires
                            code <= 3,
                    ;
                    let value = EP_CTRL_ENABLE | (EP_CTRL_DOUBLE_BUFFERED * 0) | EP_CTRL_INTERRUPT_EVERY_BUFFER
                        | (((code & 0b11) as u32) << EP_CTRL_TRANSFER_TYPE_SHIFT) | dpram_offset as u32;
                    let ghost c32 = code as u32;
                    let ghost off32 = dpram_offset as u32;
                    assert(0x8000_0000u32 | 0u32 | 0x2000_0000u32 | (c32 << 26u32) | off32
                        == 0x8000_0000u32 | 0x2000_0000u32 | (c32 << 26u32) | off32) by (bit_vector);
                    w.push(register.write(value));
                },
                None => {},
            }
            assert(w@ =~= endpoint_config_writes(self.endpoints@.take(i + 1)));
            i += 1;
        }
        assert(self.endpoints@.take(5) =~= self.endpoints@);
        w
    }
}

/// A set-address request is answered by storing the new address, marked pending
/// (bit 7), in the pending-address byte before the acknowledgement goes out; once
/// the acknowledgement is through, the completion stores the 7-bit address without
/// the marker and writes the marked value to the address register; a later
/// completion reads the unmarked byte and does not apply the address again.
pub proof fn lemma_set_address_then_complete(packet: SetupPacket, buf_status: u8)
    requires
        packet.request_type < 0x80,
        packet.request == 0x05,
    ensures
        spec_setup_request_supported(packet),
        ({
            let pending = (packet.value % 128 + 0x80) as u8;
            let stored = (packet.value % 128) as u8;
            &&& spec_setup_response(packet) == (SetupResponse::SetAddress { pending })
            &&& spec_setup_steps(spec_setup_response(packet)).0 == seq![
                RegStep::WriteByte(ByteWrite { addr: NEW_ADDR, value: pending }),
            ]
            &&& spec_setup_steps(spec_setup_response(packet)).1 == Seq::<RegStep>::empty()
            &&& pending >= 0x80
            &&& spec_completion_steps(spec_ep0_in_complete(pending, buf_status)) == seq![
                RegStep::WriteByte(ByteWrite { addr: NEW_ADDR, value: stored }),
                RegStep::Write(BusWrite { addr: USBCTRL_ADDR_ENDP, value: pending as u32 }),
            ]
            &&& !(spec_ep0_in_complete(stored, buf_status) is ApplyAddress)
        }),
{
}

/// A bus reset clears the pending-address byte, so the next completion of an IN
/// packet on endpoint 0 applies no address, whatever configuration part is pending.
pub proof fn lemma_bus_reset_drops_pending_address(buf_status: u8)
    ensures
        spec_bus_reset_steps()[1] == RegStep::WriteByte(ByteWrite { addr: NEW_ADDR, value: 0 }),
        spec_bus_reset_steps()[2] == RegStep::Write(BusWrite { addr: USBCTRL_ADDR_ENDP, value: 0 }),
        !(spec_ep0_in_complete(0, buf_status) is ApplyAddress),
{
}

/// A configuration descriptor transfer for a request of `length` bytes: the first
/// packet carries the set's first `min(length, 64, 75)` bytes; when it is full, its
/// completion continues with packet 1, which carries the rest up to
/// `min(length, 75)` bytes, is short, and records no further part; together the
/// packets carry exactly the set's first `min(length, 75)` bytes.
pub proof fn lemma_config_transfer(length: u16)
    ensures
        ({
            let set = crate::usb::descriptors::spec_config_descriptor_set();
            let total = vstd::math::min(length as int, set.len() as int);
            let p0 = spec_config_desc_packet(length as int, 0);
            let p1 = spec_config_desc_packet(length as int, 1);
            &&& p0.len() == 64 ==> spec_ep0_in_complete(0, 1) == (Ep0InComplete::ContinueConfig { part: 1 })
            &&& p0.len() == 64 ==> p1.len() < 64 && p0 + p1 == set.take(total)
            &&& p0.len() < 64 ==> p0 == set.take(total)
            &&& spec_ep0_in_complete(0, 0) == Ep0InComplete::ArmOut
        }),
{
    let set = crate::usb::descriptors::spec_config_descriptor_set();
    crate::usb::descriptors::lemma_config_set_length();
    let total = vstd::math::min(length as int, set.len() as int);
    if total >= 64 {
        assert(spec_config_desc_packet(length as int, 0) + spec_config_desc_packet(length as int, 1) =~= set.take(total));
    } else {
        assert(spec_config_desc_packet(length as int, 0) =~= set.take(total));
    }
}

} // verus!
