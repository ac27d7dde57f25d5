use lib::common::{BusWrite, ByteWrite, RegStep};
use lib::usb::cdc::{communications_descriptors, AbstractControlManagement, CommunicationsDescriptor};
use lib::usb::control::{
    acknowledge_out_request, buffer_endpoint, buffer_event_supported, buffer_status_bits, buffer_status_clear,
    arm_out_step, bus_reset_steps, clear_data_pid, completion_steps, ep0_in_complete, flag_after_interrupt, in_buffer_ctrl, init_usb_as_device,
    out_buffer_ctrl, send_config_descriptor, send_device_descriptor, send_device_qualifier_descriptor,
    send_string_descriptor, setup_received_write, setup_reply, setup_request_supported, setup_response, setup_steps, usb_dpsram_wait_cycles,
    usb_interrupt_work, wait_sync_usb_dpsram, DataPid, Ep0InComplete, SetupResponse,
};
use lib::usb::descriptors::{
    config_desc_packet, config_descriptor_set, configuration_descriptor, device_config, device_descriptor,
    encode_utf16, string_descriptor_packet, StringDescriptorIndex,
};
use lib::usb::dpram::{endpoint_buffer, endpoint_buffer_ctrl_register, endpoint_ctrl_register, DPRAMPtr};
use lib::usb::protocol::{DescriptorType, Direction, EndpointId, Request, SetupPacket, TransferType};

const CONFIG_SET: [u8; 75] = [
    9, 2, 75, 0, 2, 1, 0, 0xC0, 0x32, // configuration
    8, 0x0B, 0, 2, 2, 2, 0, 0, // interface association
    9, 4, 0, 0, 1, 2, 2, 0, 4, // control interface
    5, 0x24, 0, 0x20, 0x01, // header
    5, 0x24, 1, 0, 1, // call management
    4, 0x24, 2, 6, // abstract control management
    5, 0x24, 6, 0, 1, // union
    7, 5, 0x81, 3, 8, 0, 1, // endpoint 1 IN
    9, 4, 1, 0, 2, 0x0A, 0, 0, 0, // data interface
    7, 5, 0x82, 2, 64, 0, 0, // endpoint 2 IN
    7, 5, 0x02, 2, 64, 0, 0, // endpoint 2 OUT
];

fn setup(request_type: u8, request: u8, value: u16, length: u16) -> SetupPacket {
    SetupPacket { request_type, request, value, index: 0, length }
}

#[test]
fn direction_request_and_descriptor_codes_roundtrip() {
    for d in [Direction::Out, Direction::In] {
        assert_eq!(Direction::try_from(d.bits()), Ok(d));
    }
    assert_eq!(Direction::try_from(0x40), Err(0x40));
    for code in 0u8..=255 {
        if let Ok(r) = Request::try_from(code) {
            assert_eq!(r.code(), code);
        }
        if let Ok(t) = DescriptorType::try_from(code) {
            assert_eq!(t.code(), code);
        }
    }
    assert_eq!(Request::try_from(0x02), Err(0x02));
    assert_eq!(Request::try_from(0x09), Ok(Request::SetConfiguration));
    assert_eq!(DescriptorType::try_from(0x24), Ok(DescriptorType::CSInterface));
    assert_eq!(DescriptorType::try_from(0x07), Err(0x07));
    assert_eq!(TransferType::Interrupt.code(), 3);
}

#[test]
fn endpoint_ids() {
    for id in 0u8..16 {
        assert_eq!(EndpointId::new(id).unwrap().id(), id);
    }
    assert!(EndpointId::new(16).is_none());
    assert!(EndpointId::Endpoint0.is_zero());
    assert!(!EndpointId::Endpoint15.is_zero());
}

#[test]
fn setup_packet_from_bytes() {
    let p = SetupPacket::from_bytes([0x80, 0x06, 0x00, 0x01, 0x00, 0x00, 0x40, 0x00]);
    assert_eq!(p, setup(0x80, 6, 0x0100, 64));
    assert_eq!(p.request_direction(), Direction::In);
    assert_eq!(p.request(), Ok(Request::GetDescriptor));
    let q = SetupPacket::from_bytes([0x21, 0x20, 0, 0, 0, 0, 7, 0]);
    assert_eq!(q.request_direction(), Direction::Out);
    assert_eq!(q.request(), Err(0x20));
}

#[test]
fn dpram_layout() {
    assert_eq!(endpoint_buffer_ctrl_register(EndpointId::Endpoint0, Direction::In).byte_offset(), 0x80);
    assert_eq!(endpoint_buffer_ctrl_register(EndpointId::Endpoint0, Direction::Out).byte_offset(), 0x84);
    assert_eq!(endpoint_buffer_ctrl_register(EndpointId::Endpoint15, Direction::Out).byte_offset(), 0xFC);
    assert!(endpoint_ctrl_register(EndpointId::Endpoint0, Direction::In).is_none());
    assert_eq!(endpoint_ctrl_register(EndpointId::Endpoint1, Direction::In).unwrap().byte_offset(), 8);
    assert_eq!(endpoint_ctrl_register(EndpointId::Endpoint2, Direction::Out).unwrap().byte_offset(), 0x14);
    assert_eq!(endpoint_buffer(EndpointId::Endpoint0, Direction::Out).byte_offset(), 0x100);
    assert_eq!(endpoint_buffer(EndpointId::Endpoint2, Direction::Out).byte_offset(), 0x240);
    assert_eq!(endpoint_buffer(EndpointId::Endpoint15, Direction::Out).byte_offset(), 0x8C0);
    assert_eq!(endpoint_buffer(EndpointId::Endpoint1, Direction::In).address(), 0x5010_0180);
}

#[test]
fn dpram_pointer_arithmetic() {
    let p: DPRAMPtr<u32> = DPRAMPtr::new(0x80);
    assert_eq!(p.offset(3).byte_offset(), 0x8C);
    assert_eq!(p.offset(-2).byte_offset(), 0x78);
    assert_eq!(p.offset_bytes(-0x80).byte_offset(), 0);
    let b: DPRAMPtr<u8> = p.cast();
    assert_eq!(b.byte_offset(), 0x80);
    assert_eq!(p.write(7), BusWrite { addr: 0x5010_0080, value: 7 });
}

#[test]
fn device_descriptor_bytes() {
    let mut buf = [0u8; 18];
    device_descriptor().write(&mut buf);
    assert_eq!(buf, [18, 1, 0x00, 0x02, 0xEF, 2, 1, 64, 0, 0, 1, 0, 0, 0, 1, 2, 0, 1]);
    assert!(StringDescriptorIndex::new(0).is_none());
    assert_eq!(StringDescriptorIndex::new(3).unwrap().get(), 3);
}

#[test]
fn configuration_descriptor_set_bytes() {
    assert_eq!(configuration_descriptor().wTotalLength, 75);
    assert_eq!(config_descriptor_set(), CONFIG_SET.to_vec());
}

#[test]
fn config_packets() {
    assert_eq!(config_desc_packet(255, 0), CONFIG_SET[..64].to_vec());
    assert_eq!(config_desc_packet(255, 1), CONFIG_SET[64..].to_vec());
    assert_eq!(config_desc_packet(255, 2), Vec::<u8>::new());
    assert_eq!(config_desc_packet(9, 0), CONFIG_SET[..9].to_vec());
    assert_eq!(config_desc_packet(9, 1), Vec::<u8>::new());
    assert_eq!(config_desc_packet(70, 1), CONFIG_SET[64..70].to_vec());
    let mut whole = config_desc_packet(1000, 0);
    whole.extend(config_desc_packet(1000, 1));
    assert_eq!(whole, CONFIG_SET.to_vec());
}

#[test]
fn utf16_encoding() {
    assert_eq!(encode_utf16("Ab"), vec![0x41, 0x62]);
    assert_eq!(encode_utf16("é€"), vec![0xE9, 0x20AC]);
    assert_eq!(encode_utf16("😀"), vec![0xD83D, 0xDE00]);
    assert_eq!(encode_utf16("x😀"), "x😀".encode_utf16().collect::<Vec<u16>>());
}

#[test]
fn string_descriptors() {
    let (bytes, len) = string_descriptor_packet(1);
    assert_eq!(len, 22);
    assert_eq!(bytes.len(), 64);
    assert_eq!(&bytes[..6], &[22, 3, b'R', 0, b'C', 0]);
    assert!(bytes[22..].iter().all(|b| *b == 0));
    let (product, product_len) = string_descriptor_packet(2);
    assert_eq!(product_len, 46);
    assert_eq!(product[2], b'w');
    let (unknown, unknown_len) = string_descriptor_packet(9);
    assert_eq!(unknown_len, 30);
    assert_eq!(unknown[2], b'U');
}

#[test]
fn cdc_functional_descriptors() {
    let c = communications_descriptors();
    assert_eq!(c.iter().map(|d| d.length()).collect::<Vec<_>>(), vec![5, 5, 4, 5]);
    assert_eq!(c.iter().map(|d| d.descriptor_subtype()).collect::<Vec<_>>(), vec![0, 1, 2, 6]);
    assert_eq!(c[0].descriptor_type(), 0x24);
    assert_eq!(c[0].as_slice(), vec![0x20, 0x01]);
    let mut out = [0xAAu8; 8];
    let acm = CommunicationsDescriptor::AbstractControlManagement(AbstractControlManagement { bmCapabilities: 6 });
    assert_eq!(acm.try_write(&mut out, 2), Ok(6));
    assert_eq!(out, [0xAA, 0xAA, 4, 0x24, 2, 6, 0xAA, 0xAA]);
    assert_eq!(c[1].try_write(&mut out, 4), Err(()));
    assert_eq!(out, [0xAA, 0xAA, 4, 0x24, 2, 6, 0xAA, 0xAA]);
}

#[test]
fn buffer_control_values() {
    assert_eq!(in_buffer_ctrl(18, DataPid::Data1, 0), 18 | 0x400 | 0x2000 | 0x8000);
    assert_eq!(in_buffer_ctrl(5, DataPid::Toggle, 0), 5 | 0x400 | 0x8000 | 0x2000);
    assert_eq!(in_buffer_ctrl(5, DataPid::Toggle, 0x2000), 5 | 0x400 | 0x8000);
    assert_eq!(out_buffer_ctrl(64, 0), 0x2000 | 0x400 | 64);
    assert_eq!(out_buffer_ctrl(0, 0x2000), 0x400);
    assert_eq!(clear_data_pid(0xFFFF), 0xDFFF);
}

#[test]
fn setup_request_answers() {
    let set_address = setup(0x00, 0x05, 0x0A, 0);
    assert!(setup_request_supported(&set_address));
    assert_eq!(setup_response(&set_address), SetupResponse::SetAddress { pending: 0x8A });
    let set_config = setup(0x00, 0x09, 1, 0);
    assert_eq!(setup_response(&set_config), SetupResponse::SetConfiguration);
    assert!(!setup_request_supported(&setup(0x00, 0x09, 2, 0)));
    assert_eq!(setup_response(&setup(0x21, 0x20, 0, 7)), SetupResponse::SetLineCoding);
    assert_eq!(setup_response(&setup(0x21, 0x22, 3, 0)), SetupResponse::Acknowledge);
    assert_eq!(setup_response(&setup(0x00, 0x01, 0, 0)), SetupResponse::Acknowledge);
    assert_eq!(setup_response(&setup(0x80, 0x06, 0x0100, 64)), SetupResponse::GetDeviceDescriptor);
    assert_eq!(setup_response(&setup(0x80, 0x06, 0x0200, 255)), SetupResponse::GetConfigDescriptor);
    assert_eq!(setup_response(&setup(0x80, 0x06, 0x0302, 255)), SetupResponse::GetStringDescriptor);
    assert_eq!(setup_response(&setup(0x80, 0x06, 0x0600, 10)), SetupResponse::GetDeviceQualifier);
    assert!(!setup_request_supported(&setup(0x80, 0x06, 0x0400, 9)));
    assert!(!setup_request_supported(&setup(0x80, 0x00, 0, 2)));
}

#[test]
fn endpoint_zero_replies() {
    let d = send_device_descriptor(&setup(0x80, 6, 0x0100, 8));
    assert_eq!(d.len, 8);
    assert_eq!(d.data.len(), 18);
    assert_eq!(d.pid, DataPid::Data1);
    assert!(d.sync);
    let c0 = send_config_descriptor(&setup(0x80, 6, 0x0200, 255), 0);
    assert_eq!(c0.len, 64);
    assert_eq!(c0.buf_status, Some(1));
    let c1 = send_config_descriptor(&setup(0x80, 6, 0x0200, 255), 1);
    assert_eq!(c1.len, 11);
    assert_eq!(c1.buf_status, Some(0));
    let short = send_config_descriptor(&setup(0x80, 6, 0x0200, 9), 0);
    assert_eq!(short.data, CONFIG_SET[..9].to_vec());
    assert_eq!(short.buf_status, Some(0));
    let lang = send_string_descriptor(&setup(0x80, 6, 0x0300, 255));
    assert_eq!(lang.data, vec![4, 3, 9, 4]);
    assert_eq!(lang.len, 4);
    let s1 = send_string_descriptor(&setup(0x80, 6, 0x0301, 255));
    assert_eq!(s1.len, 22);
    let q = send_device_qualifier_descriptor(&setup(0x80, 6, 0x0600, 10));
    assert_eq!(q.len, 0);
    assert!(q.data.is_empty());
    assert!(!q.sync);
    let a = acknowledge_out_request();
    assert_eq!(a.len, 0);
    assert_eq!(a.pid, DataPid::Toggle);
}

#[test]
fn interrupt_work_split() {
    let w = usb_interrupt_work(0x1_1010);
    assert!(w.setup_request && w.buffer_status && w.bus_reset);
    assert_eq!(w.unhandled, 0);
    let v = usb_interrupt_work(0x10 | 0x4);
    assert!(v.buffer_status && !v.setup_request && !v.bus_reset);
    assert_eq!(v.unhandled, 0x4);
    assert_eq!(flag_after_interrupt(0), None);
    assert_eq!(flag_after_interrupt(1), Some(2));
}

#[test]
fn buffer_status_events() {
    assert_eq!(buffer_status_bits(0b1010_0001), vec![0, 5, 7]);
    assert_eq!(buffer_status_bits(0), Vec::<u32>::new());
    assert_eq!(buffer_status_bits(0x8000_0000), vec![31]);
    assert_eq!(buffer_endpoint(0), (EndpointId::Endpoint0, Direction::In));
    assert_eq!(buffer_endpoint(3), (EndpointId::Endpoint1, Direction::Out));
    assert_eq!(buffer_endpoint(31), (EndpointId::Endpoint15, Direction::Out));
    assert!(buffer_event_supported(EndpointId::Endpoint0, Direction::Out));
    assert!(!buffer_event_supported(EndpointId::Endpoint2, Direction::In));
    assert_eq!(buffer_status_clear(5), BusWrite { addr: 0x5011_3058, value: 32 });
}

#[test]
fn endpoint_zero_completion() {
    assert_eq!(ep0_in_complete(0x8A, 1), Ep0InComplete::ApplyAddress { stored: 0x0A, addr_endp: 0x8A });
    assert_eq!(ep0_in_complete(0x0A, 1), Ep0InComplete::ContinueConfig { part: 1 });
    assert_eq!(ep0_in_complete(0x0A, 0), Ep0InComplete::ArmOut);
}

#[test]
fn set_address_flow() {
    let packet = setup(0x00, 0x05, 0x2B, 0);
    let pending = match setup_response(&packet) {
        SetupResponse::SetAddress { pending } => pending,
        other => panic!("unexpected {:?}", other),
    };
    match ep0_in_complete(pending, 0) {
        Ep0InComplete::ApplyAddress { stored, addr_endp } => {
            assert_eq!(stored, 0x2B);
            assert_eq!(addr_endp, 0xAB);
            assert_eq!(ep0_in_complete(stored, 0), Ep0InComplete::ArmOut);
        },
        other => panic!("unexpected {:?}", other),
    }
}

#[test]
fn controller_writes() {
    assert_eq!(
        bus_reset_steps(),
        vec![
            RegStep::Write(BusWrite { addr: 0x5011_3050, value: 1 << 19 }),
            RegStep::WriteByte(ByteWrite { addr: 0x2000_0000, value: 0 }),
            RegStep::Write(BusWrite { addr: 0x5011_0000, value: 0 }),
        ]
    );
    assert_eq!(setup_received_write(), BusWrite { addr: 0x5011_3050, value: 1 << 17 });
    assert_eq!(usb_dpsram_wait_cycles(), 4);
    assert_eq!(wait_sync_usb_dpsram(), RegStep::Spin { cycles: 4 });
}

#[test]
fn init_usb_program() {
    let p = init_usb_as_device();
    assert_eq!(p.len(), 3 + 1 + 2 + 6);
    assert_eq!(p[3], RegStep::ZeroFill { addr: 0x5010_0000, len: 4096 });
    assert_eq!(p[4], RegStep::CsrClear { csr: 0xBE2, value: 1 << 30 });
    assert_eq!(p[6], RegStep::Write(BusWrite { addr: 0x5011_0074, value: 9 }));
    assert_eq!(p[10], RegStep::Write(BusWrite { addr: 0x5011_0090, value: 0x1_1010 }));
    assert_eq!(p[11], RegStep::Write(BusWrite { addr: 0x5011_204C, value: 1 << 16 }));
}

#[test]
fn configure_endpoints_writes() {
    let writes = device_config().configure_endpoints();
    assert_eq!(
        writes,
        vec![
            BusWrite { addr: 0x5010_0008, value: 0xAC00_0180 },
            BusWrite { addr: 0x5010_0010, value: 0xA800_0200 },
            BusWrite { addr: 0x5010_0014, value: 0xA800_0240 },
        ]
    );
}

#[test]
fn standard_descriptor_try_write() {
    let iface = lib::usb::descriptors::interface_descriptors()[1];
    assert_eq!(iface.length(), 9);
    assert_eq!(iface.descriptor_type(), 4);
    let mut fits = [0xEEu8; 10];
    assert_eq!(iface.try_write(&mut fits), Ok(()));
    assert_eq!(fits, [9, 4, 1, 0, 2, 0x0A, 0, 0, 0, 0xEE]);
    let mut short = [0xEEu8; 5];
    assert_eq!(iface.try_write(&mut short), Err(()));
    assert_eq!(short, [9, 4, 0xEE, 0xEE, 0xEE]);
    let ep = lib::usb::descriptors::endpoints()[2];
    assert_eq!(ep.endpoint(), EndpointId::Endpoint1);
    assert_eq!(ep.direction(), Direction::In);
    let mut out = [0u8; 7];
    assert_eq!(ep.try_write(&mut out), Ok(()));
    assert_eq!(out, [7, 5, 0x81, 3, 8, 0, 1]);
    let dev = device_descriptor();
    assert_eq!((dev.length(), dev.descriptor_type()), (18, 1));
    let assoc = lib::usb::descriptors::interface_association_descriptor();
    let mut a = [0u8; 8];
    assert_eq!(assoc.try_write(&mut a), Ok(()));
    assert_eq!(a, [8, 0x0B, 0, 2, 2, 2, 0, 0]);
    let cfg = configuration_descriptor();
    let mut c = [0u8; 9];
    cfg.write(&mut c);
    assert_eq!(c, CONFIG_SET[..9]);
}

#[test]
fn setup_steps_around_the_reply() {
    let (before, after) = setup_steps(setup_response(&setup(0x00, 0x05, 0x2B, 0)));
    assert_eq!(before, vec![RegStep::WriteByte(ByteWrite { addr: 0x2000_0000, value: 0xAB })]);
    assert!(after.is_empty());

    let (before, after) = setup_steps(setup_response(&setup(0x00, 0x09, 1, 0)));
    assert!(before.is_empty());
    assert_eq!(after, vec![RegStep::ToggleWrite { addr: 0x5010_008C, toggle: 1 << 13, set: (1 << 10) | 64 }]);

    let (before, after) = setup_steps(setup_response(&setup(0x21, 0x20, 0, 7)));
    assert!(before.is_empty());
    assert_eq!(after, vec![RegStep::WriteByte(ByteWrite { addr: 0x5010_0FFE, value: 1 })]);

    let (before, after) = setup_steps(setup_response(&setup(0x21, 0x22, 3, 0)));
    assert!(before.is_empty() && after.is_empty());
    let (before, after) = setup_steps(setup_response(&setup(0x80, 0x06, 0x0100, 64)));
    assert!(before.is_empty() && after.is_empty());
}

#[test]
fn setup_reply_per_request() {
    let ack = setup_reply(&setup(0x00, 0x09, 1, 0));
    assert!(ack.data.is_empty() && ack.buf_status.is_none() && !ack.sync);
    assert_eq!((ack.len, ack.pid), (0, DataPid::Toggle));

    let device = setup_reply(&setup(0x80, 0x06, 0x0100, 8));
    assert_eq!(device.data.len(), 18);
    assert_eq!((device.len, device.pid), (8, DataPid::Data1));
    assert!(device.sync);

    let config = setup_reply(&setup(0x80, 0x06, 0x0200, 255));
    assert_eq!(config.data.len(), 64);
    assert_eq!(config.buf_status, Some(1));
    assert_eq!(config.len, 64);

    let short = setup_reply(&setup(0x80, 0x06, 0x0200, 9));
    assert_eq!(short.data.len(), 9);
    assert_eq!(short.buf_status, Some(0));

    let lang = setup_reply(&setup(0x80, 0x06, 0x0300, 255));
    assert_eq!(lang.data, vec![4, 0x03, 0x09, 0x04]);
    assert_eq!(lang.len, 4);

    let qualifier = setup_reply(&setup(0x80, 0x06, 0x0600, 10));
    assert!(qualifier.data.is_empty());
    assert_eq!(qualifier.len, 0);
}

#[test]
fn completion_steps_per_decision() {
    assert_eq!(
        completion_steps(ep0_in_complete(0xAB, 0)),
        vec![
            RegStep::WriteByte(ByteWrite { addr: 0x2000_0000, value: 0x2B }),
            RegStep::Write(BusWrite { addr: 0x5011_0000, value: 0xAB }),
        ]
    );
    assert!(completion_steps(ep0_in_complete(0x2B, 1)).is_empty());
    assert_eq!(
        completion_steps(ep0_in_complete(0x2B, 0)),
        vec![RegStep::ToggleWrite { addr: 0x5010_0084, toggle: 1 << 13, set: 1 << 10 }]
    );
    assert_eq!(
        arm_out_step(EndpointId::Endpoint2, 32),
        RegStep::ToggleWrite { addr: 0x5010_0094, toggle: 1 << 13, set: (1 << 10) | 32 }
    );
}
