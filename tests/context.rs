use ftdi_library::baudrate::{ftdi_convert_baudrate, ftdi_to_clkbits, ftdi_to_clkbits_am, EncodedBaudRate};
use ftdi_library::constants::{
    ftdi_bits_type, ftdi_break_type, ftdi_chip_type, ftdi_interface, ftdi_parity_type,
    ftdi_stopbits_type, READ_BUFFER_CHUNKSIZE, READ_BUFFER_CHUNKSIZE_LINUX_LOW_KERNEL,
    SIO_SET_BAUDRATE_REQUEST, SIO_SET_DATA_REQUEST,
};
use ftdi_library::context::{
    check_and_calculate_buffer_size, chip_type_from_bcd, encode_line_property,
    ftdi_read_chipid_shift, ftdi_context, EndpointInfo, PurgeKind,
};
use ftdi_library::device_list::{ftdi_device_list, DeviceCandidate, UsbIds};
use ftdi_library::error::{ErrorKind, FtdiContextError};
use ftdi_library::open_sequence::{DeviceDescriptorInfo, OpenAction, OpenOutcome, OpenStep};

fn ftdi_candidate(vendor_id: u16, product_id: u16) -> DeviceCandidate {
    DeviceCandidate {
        ids: Some(UsbIds { vendor_id, product_id }),
        bus_number: 1,
        device_address: 4,
        product: None,
        serial: None,
    }
}

#[test]
fn create_new_ftdi_context() {
    let ftdi = ftdi_context::new(0, None);
    match ftdi {
        Ok(_) => { /* all is fine */ }
        _ => {
            assert!(false); // error
        }
    }
}

#[test]
fn ftdi_usb_find_all() {
    let ftdi = ftdi_context::new(0, None).unwrap();
    let mut ftdi_list = ftdi_device_list::new(&ftdi, 0).unwrap();
    match ftdi_list.ftdi_usb_find_all(&ftdi, 0, 0, &Vec::new()) {
        Ok(_) => {}
        _ => {
            assert!(false); // error
        }
    }
}

#[test]
fn ftdi_usb_open() {
    let ftdi = ftdi_context::new(0, None).unwrap();
    let candidates = vec![ftdi_candidate(0x1d6b, 0x0002), ftdi_candidate(0x403, 0x6001)];
    match ftdi.ftdi_usb_open(&candidates, 0, 0) {
        Ok(_) => { /* all is fine */ }
        Err(_) => {
            assert!(false); // error
        }
    }
}

#[test]
fn ftdi_usb_open_desc_index() {
    let ftdi = ftdi_context::new(0, None).unwrap();
    let candidates = vec![ftdi_candidate(0x403, 0x6010)];
    match ftdi.ftdi_usb_open_desc_index(&candidates, 0, 0, &None, &None, 0) {
        Ok(_) => { /* all is fine */ }
        Err(_) => {
            assert!(false); // error
        }
    }
}

#[test]
fn new_context_defaults_and_init_errors() {
    let ftdi = ftdi_context::new(0, None).unwrap();
    assert!(ftdi.usb_ctx && !ftdi.usb_dev);
    assert_eq!(ftdi.chip_type, ftdi_chip_type::TYPE_BM);
    assert_eq!(ftdi.baudrate, -1);
    assert!(ftdi.readbuffer_chunksize == READ_BUFFER_CHUNKSIZE
        || ftdi.readbuffer_chunksize == READ_BUFFER_CHUNKSIZE_LINUX_LOW_KERNEL);
    let e = ftdi_context::new(-3, None).err().unwrap();
    assert_eq!(e, FtdiContextError::UsbInit { code: -3, message: "access denied".to_string() });
    let e = ftdi_context::new(-42, None).err().unwrap();
    assert_eq!((e.error_kind(), e.error_code()), (ErrorKind::Init, -1000));
    let e = ftdi_context::get_usb_sys_init_error(-99);
    assert_eq!(e.error_message(), "other error");
}

#[test]
fn buffer_size_by_kernel_version() {
    let low = READ_BUFFER_CHUNKSIZE.min(READ_BUFFER_CHUNKSIZE_LINUX_LOW_KERNEL);
    assert_eq!(check_and_calculate_buffer_size(Some((2, 6, 32))), low);
    assert_eq!(check_and_calculate_buffer_size(Some((2, 4, 40))), low);
    assert!(check_and_calculate_buffer_size(Some((2, 4, 40))) <= READ_BUFFER_CHUNKSIZE);
    let old = ftdi_context::new(0, Some((2, 6, 30))).unwrap();
    assert_eq!(old.readbuffer_chunksize, low);
    assert_eq!(check_and_calculate_buffer_size(Some((2, 6, 33))), READ_BUFFER_CHUNKSIZE);
    assert_eq!(check_and_calculate_buffer_size(Some((5, 15, 0))), READ_BUFFER_CHUNKSIZE);
    assert_eq!(check_and_calculate_buffer_size(None), READ_BUFFER_CHUNKSIZE);
}

#[test]
fn interface_table() {
    let mut ftdi = ftdi_context::new(0, None).unwrap();
    ftdi.ftdi_set_interface(ftdi_interface::INTERFACE_ANY);
    assert_eq!((ftdi.interface, ftdi.index, ftdi.in_ep, ftdi.out_ep), (0, 1, 0x02, 0x81));
    ftdi.ftdi_set_interface(ftdi_interface::INTERFACE_B);
    assert_eq!((ftdi.interface, ftdi.index, ftdi.in_ep, ftdi.out_ep), (1, 2, 0x04, 0x83));
    ftdi.ftdi_set_interface(ftdi_interface::INTERFACE_D);
    assert_eq!((ftdi.interface, ftdi.index, ftdi.in_ep, ftdi.out_ep), (3, 4, 0x08, 0x87));
    assert_eq!(ftdi.bitbang_mode, 1);
    assert_eq!("C".parse::<ftdi_interface>(), Ok(ftdi_interface::INTERFACE_C));
    assert_eq!("INTERFACE_A".parse::<ftdi_interface>(), Ok(ftdi_interface::INTERFACE_A));
    assert_eq!("E".parse::<ftdi_interface>(), Err("no match"));
    let code: u8 = ftdi_interface::INTERFACE_D.into();
    assert_eq!(code, 4);
}

#[test]
fn chip_type_from_bcd_device() {
    assert_eq!(chip_type_from_bcd(0x400, 3), Some(ftdi_chip_type::TYPE_BM));
    assert_eq!(chip_type_from_bcd(0x200, 0), Some(ftdi_chip_type::TYPE_BM));
    assert_eq!(chip_type_from_bcd(0x200, 3), Some(ftdi_chip_type::TYPE_AM));
    assert_eq!(chip_type_from_bcd(0x700, 3), Some(ftdi_chip_type::TYPE_2232H));
    assert_eq!(chip_type_from_bcd(0x1000, 3), Some(ftdi_chip_type::TYPE_230X));
    assert_eq!(chip_type_from_bcd(0x1234, 3), None);
}

#[test]
fn line_property_packing() {
    let v = encode_line_property(ftdi_bits_type::BITS_8, ftdi_stopbits_type::STOP_BIT_1,
        ftdi_parity_type::NONE, ftdi_break_type::BREAK_OFF);
    assert_eq!(v, 8);
    let v = encode_line_property(ftdi_bits_type::BITS_7, ftdi_stopbits_type::STOP_BIT_2,
        ftdi_parity_type::EVEN, ftdi_break_type::BREAK_ON);
    assert_eq!(v & (1 << 14), 1 << 14);
    assert_eq!((v >> 11) & 3, 2);
    assert_eq!((v >> 8) & 7, 2);
    assert_eq!(v & 0xff, 7);
    assert_eq!(v, 0x5207);
}

#[test]
fn am_encoding_values() {
    assert_eq!(ftdi_to_clkbits_am(3000000), (0, 3000000));
    assert_eq!(ftdi_to_clkbits_am(9600), (0x4138, 9600));
    assert_eq!(ftdi_to_clkbits_am(2500000), (2, 1500000));
}

#[test]
fn high_speed_encoding_values() {
    assert_eq!(ftdi_to_clkbits(12000000, 120000000, 10), (0, 12000000));
    assert_eq!(ftdi_to_clkbits(8000000, 120000000, 10), (1, 8000000));
    assert_eq!(ftdi_to_clkbits(6000000, 120000000, 10), (2, 6000000));
    assert_eq!(ftdi_to_clkbits(115200, 120000000, 10), (0xC068, 115246));
    assert_eq!(ftdi_to_clkbits(9600, 24000000, 8), (0x4138, 9600));
}

#[test]
fn convert_baudrate_values() {
    assert_eq!(ftdi_convert_baudrate(9600, ftdi_chip_type::TYPE_BM, 1),
        Some(EncodedBaudRate { value: 0x4138, index: 0, achieved: 9600 }));
    assert_eq!(ftdi_convert_baudrate(115200, ftdi_chip_type::TYPE_2232H, 1),
        Some(EncodedBaudRate { value: 0xC068, index: 0x201, achieved: 115246 }));
    assert_eq!(ftdi_convert_baudrate(0, ftdi_chip_type::TYPE_BM, 0), None);
    assert_eq!(ftdi_convert_baudrate(-5, ftdi_chip_type::TYPE_232H, 0), None);
}

#[test]
fn baudrate_tolerance_over_range() {
    let chips = [ftdi_chip_type::TYPE_AM, ftdi_chip_type::TYPE_BM, ftdi_chip_type::TYPE_R,
        ftdi_chip_type::TYPE_2232H, ftdi_chip_type::TYPE_232H];
    for chip in chips {
        for requested in [300, 1200, 9600, 57600, 115200, 921600, 1000000, 2500000, 3000000] {
            let e = ftdi_convert_baudrate(requested, chip, 1).unwrap();
            let within = (e.achieved as i64 - requested as i64).abs() * 20 <= requested as i64;
            let accepted = ftdi_library::baudrate::ftdi_baudrate_within_tolerance(requested, e.achieved);
            assert!(within || !accepted, "{:?} {}", chip, requested);
        }
    }
}

/// Drives the open sequence with the given outcomes; the claim step fails
/// with `claim_status` where it is negative.
fn open_device(ftdi: &mut ftdi_context, bcd: u16, claim_status: i32, detach_status: i32) -> OpenAction {
    let (mut progress, action) = ftdi.ftdi_usb_open_dev();
    assert!(matches!(action, OpenAction::OpenHandle { close_previous: false }));
    let mut action = ftdi.ftdi_usb_open_dev_step(&mut progress, OpenOutcome::Status(0));
    loop {
        let outcome = match action {
            OpenAction::ReadDescriptors => OpenOutcome::Descriptors {
                descriptor_status: 0,
                config_status: 0,
                descriptor: DeviceDescriptorInfo {
                    vendor_id: 0x403,
                    product_id: 0x6001,
                    bcd_device: bcd,
                    serial_number_index: 3,
                    num_configurations: 1,
                },
                config_value: 1,
            },
            OpenAction::DetachKernelDriver { .. } => OpenOutcome::Status(detach_status),
            OpenAction::GetConfiguration => OpenOutcome::Configuration { status: 0, value: 1 },
            OpenAction::ClaimInterface { .. } => OpenOutcome::Status(claim_status),
            OpenAction::Control(_) => OpenOutcome::Status(0),
            OpenAction::ReadEndpoint { .. } => OpenOutcome::Endpoint(Some(EndpointInfo {
                num_configurations: 1,
                num_interfaces: 1,
                num_altsettings: 1,
                num_endpoints: 2,
                max_packet_size: 64,
            })),
            other => return other,
        };
        action = ftdi.ftdi_usb_open_dev_step(&mut progress, outcome);
        if progress.step == OpenStep::Finished {
            return action;
        }
    }
}

/// Runs the open sequence with every transport call succeeding except the
/// one of `failing`, which reports -1.
fn open_failing_at(failing: &str) -> FtdiContextError {
    let mut ftdi = ftdi_context::new(0, None).unwrap();
    let (mut progress, mut action) = ftdi.ftdi_usb_open_dev();
    loop {
        let status = |name: &str| if name == failing { -1 } else { 0 };
        let outcome = match action {
            OpenAction::OpenHandle { .. } => OpenOutcome::Status(status("open")),
            OpenAction::ReadDescriptors => OpenOutcome::Descriptors {
                descriptor_status: status("descriptor"),
                config_status: status("config"),
                descriptor: DeviceDescriptorInfo {
                    vendor_id: 0x403,
                    product_id: 0x6010,
                    bcd_device: 0x700,
                    serial_number_index: 3,
                    num_configurations: 1,
                },
                config_value: 1,
            },
            OpenAction::DetachKernelDriver { .. } | OpenAction::SetAutoDetachKernelDriver =>
                OpenOutcome::Status(status("detach")),
            OpenAction::GetConfiguration => OpenOutcome::Configuration { status: status("get_configuration"), value: 0 },
            OpenAction::SetConfiguration { value } => {
                assert_eq!(value, 1);
                OpenOutcome::Status(status("set_configuration"))
            }
            OpenAction::ClaimInterface { .. } => OpenOutcome::Status(status("claim")),
            OpenAction::Control(q) => OpenOutcome::Status(status(if q.request == 0 { "reset" } else { "baudrate" })),
            OpenAction::ReadEndpoint { .. } => OpenOutcome::Endpoint(None),
            OpenAction::Done => panic!("no failure at {}", failing),
            OpenAction::Fail { error, close_handle } => {
                assert_eq!(close_handle, failing != "open");
                assert!(!ftdi.usb_dev);
                return error;
            }
        };
        action = ftdi.ftdi_usb_open_dev_step(&mut progress, outcome);
    }
}

#[test]
fn open_sequence_failure_codes() {
    let cases = [
        ("open", ErrorKind::Init, -4),
        ("descriptor", ErrorKind::Command, -9),
        ("config", ErrorKind::Command, -10),
        ("get_configuration", ErrorKind::Init, -12),
        ("set_configuration", ErrorKind::Command, -8),
        ("claim", ErrorKind::Command, -5),
        ("reset", ErrorKind::Command, -6),
        ("baudrate", ErrorKind::Command, -2),
    ];
    for (step, kind, code) in cases {
        let e = open_failing_at(step);
        assert_eq!((e.error_kind(), e.error_code()), (kind, code), "{}", step);
    }
}

#[test]
fn open_sequence_success() {
    let mut ftdi = ftdi_context::new(0, None).unwrap();
    let action = open_device(&mut ftdi, 0x600, 0, 0);
    assert!(matches!(action, OpenAction::Done));
    assert!(ftdi.usb_dev);
    assert_eq!(ftdi.chip_type, ftdi_chip_type::TYPE_R);
    assert_eq!(ftdi.baudrate, 9600);
    assert_eq!(ftdi.max_packet_size, 64);
}

#[test]
fn open_failing_at_claim_leaves_no_handle() {
    let mut ftdi = ftdi_context::new(0, None).unwrap();
    match open_device(&mut ftdi, 0x600, -6, 0) {
        OpenAction::Fail { error, close_handle } => {
            assert!(close_handle);
            assert_eq!((error.error_kind(), error.error_code()), (ErrorKind::Command, -5));
        }
        other => panic!("unexpected action {:?}", other),
    }
    assert!(!ftdi.usb_dev);
    assert!(!ftdi.ftdi_usb_close_internal());
    let actions = ftdi.ftdi_deinit();
    assert!(!actions.close_handle && actions.exit_context);
}

#[test]
fn open_failing_at_claim_without_permission() {
    let mut ftdi = ftdi_context::new(0, None).unwrap();
    match open_device(&mut ftdi, 0x600, -3, -3) {
        OpenAction::Fail { error, close_handle } => {
            assert!(close_handle);
            assert_eq!(error.error_code(), -8);
            assert_eq!(error.error_message(), "inappropriate permissions on device!");
        }
        other => panic!("unexpected action {:?}", other),
    }
}

#[test]
fn open_unknown_chip_fails() {
    let mut ftdi = ftdi_context::new(0, None).unwrap();
    match open_device(&mut ftdi, 0x1234, 0, 0) {
        OpenAction::Fail { error, close_handle } => {
            assert!(close_handle);
            assert_eq!((error.error_kind(), error.error_code()), (ErrorKind::Init, -8));
        }
        other => panic!("unexpected action {:?}", other),
    }
    assert!(!ftdi.usb_dev);
}

#[test]
fn open_without_transport_fails() {
    let mut ftdi = ftdi_context::default();
    let (_, action) = ftdi.ftdi_usb_open_dev();
    match action {
        OpenAction::Fail { error, close_handle } => {
            assert!(!close_handle);
            assert_eq!(error.error_code(), -8);
        }
        other => panic!("unexpected action {:?}", other),
    }
}

#[test]
fn baudrate_and_line_requests() {
    let mut ftdi = ftdi_context::new(0, None).unwrap();
    let e = ftdi.ftdi_set_baudrate(9600).err().unwrap();
    assert_eq!((e.error_kind(), e.error_code()), (ErrorKind::Init, -2));
    assert!(matches!(open_device(&mut ftdi, 0x400, 0, 0), OpenAction::Done));
    let q = ftdi.ftdi_set_baudrate(9600).unwrap();
    assert_eq!(q.request.request, SIO_SET_BAUDRATE_REQUEST);
    assert_eq!((q.request.value, q.request.index, q.baudrate), (0x4138, 0, 9600));
    let e = ftdi.ftdi_set_baudrate(0).err().unwrap();
    assert_eq!((e.error_kind(), e.error_code()), (ErrorKind::Common, -1));
    ftdi.chip_type = ftdi_chip_type::TYPE_AM;
    let e = ftdi.ftdi_set_baudrate(2500000).err().unwrap();
    assert_eq!((e.error_kind(), e.error_code()), (ErrorKind::Common, -1));
    let q = ftdi.ftdi_set_baudrate(115200).unwrap();
    assert!(ftdi.ftdi_set_baudrate_done(&q, -1).is_err());
    assert_eq!(ftdi.baudrate, 9600);
    ftdi.ftdi_set_baudrate_done(&q, 0).unwrap();
    assert_eq!(ftdi.baudrate, 115200);
    let l = ftdi.ftdi_set_line_property(ftdi_bits_type::BITS_8, ftdi_stopbits_type::STOP_BIT_1,
        ftdi_parity_type::NONE).unwrap();
    assert_eq!((l.request, l.value), (SIO_SET_DATA_REQUEST, 8));
    let e = ftdi.ftdi_set_line_property_done(-1).err().unwrap();
    assert_eq!(e, FtdiContextError::UsbCommandError { code: -1, message: "Setting new line property failed".to_string() });
    assert!(ftdi.ftdi_set_line_property_done(0).is_ok());
}

#[test]
fn purge_requests_and_buffer() {
    let mut ftdi = ftdi_context::new(0, None).unwrap();
    assert!(ftdi.ftdi_tciflush().is_err());
    assert!(matches!(open_device(&mut ftdi, 0x400, 0, 0), OpenAction::Done));
    assert_eq!(ftdi.ftdi_tciflush().unwrap().value, 2);
    assert_eq!(ftdi.ftdi_usb_purge_rx_buffer().unwrap().value, 1);
    assert_eq!(ftdi.ftdi_tcoflush().unwrap().value, 1);
    assert_eq!(ftdi.ftdi_usb_purge_tx_buffer().unwrap().value, 2);
    let (a, b) = ftdi.ftdi_tcioflush().unwrap();
    assert_eq!((a.value, b.value), (1, 2));
    ftdi.readbuffer_remaining = 5;
    ftdi.ftdi_purge_done(PurgeKind::PurgeTx, 0).unwrap();
    assert_eq!(ftdi.readbuffer_remaining, 5);
    assert_eq!(ftdi.ftdi_purge_done(PurgeKind::TciFlush, -1).err().unwrap().error_code(), -1);
    ftdi.ftdi_purge_done(PurgeKind::TciFlush, 0).unwrap();
    assert_eq!(ftdi.readbuffer_remaining, 0);
}

#[test]
fn chipid_computation() {
    assert_eq!(ftdi_read_chipid_shift(1), 2);
    assert_eq!(ftdi_read_chipid_shift(2), 0x40);
    assert_eq!(ftdi_read_chipid_shift(0xff), 0xff);
    let ftdi = ftdi_context::new(0, None).unwrap();
    assert_eq!(ftdi.ftdi_read_chipid(Some(0x1234), Some(0xabcd)).unwrap(), 0xbcb85023);
    assert_eq!(ftdi.ftdi_read_chipid(None, Some(1)).err().unwrap().error_code(), -1);
}

#[test]
fn max_packet_size_choice() {
    let mut ftdi = ftdi_context::new(0, None).unwrap();
    assert_eq!(ftdi.ftdi_determine_max_packet_size(None), 64);
    ftdi.usb_dev = true;
    ftdi.chip_type = ftdi_chip_type::TYPE_232H;
    assert_eq!(ftdi.ftdi_determine_max_packet_size(None), 512);
    let e = EndpointInfo { num_configurations: 1, num_interfaces: 1, num_altsettings: 1,
        num_endpoints: 1, max_packet_size: 256 };
    assert_eq!(ftdi.ftdi_determine_max_packet_size(Some(e)), 256);
    ftdi.interface = 1;
    assert_eq!(ftdi.ftdi_determine_max_packet_size(Some(e)), 512);
}
