use ftdi_library::context::ftdi_context;
use ftdi_library::device_list::{ftdi_device_list, DeviceCandidate, UsbIds};
use ftdi_library::transfer::{strip_status_bytes, ftdi_transfer_control, TRANSFER_CANCELLED};
use ftdi_library::descriptor_text::{get_bcd_version, get_class_type, get_descriptor_type, get_device_speed};
use ftdi_library::version_info::ftdi_version_info;
use ftdi_library::eeprom::{ftdi_eeprom, ftdi_eeprom_value};

/// `n` packets of `packet_size` bytes: status bytes 0x01 0x60, then payload
/// bytes counting up from 0x80.
fn packets(n: usize, packet_size: usize) -> Vec<u8> {
    let mut v = Vec::new();
    let mut next: u8 = 0x80;
    for _ in 0..n {
        v.push(0x01);
        v.push(0x60);
        for _ in 2..packet_size {
            v.push(next);
            next = if next == 0xff { 0x80 } else { next + 1 };
        }
    }
    v
}

#[test]
fn one_packet_delivers_its_payload() {
    let data = packets(1, 64);
    let p = strip_status_bytes(&data, 64);
    assert_eq!(p.len(), 62);
    assert_eq!(p[..], data[2..]);
}

#[test]
fn full_packets_deliver_no_status_bytes() {
    let data = packets(5, 64);
    let p = strip_status_bytes(&data, 64);
    assert_eq!(p.len(), 5 * 62);
    assert!(p.iter().all(|b| *b >= 0x80));
    let short = strip_status_bytes(&data[..64 * 2 + 10], 64);
    assert_eq!(short.len(), 62 * 2 + 8);
    assert_eq!(strip_status_bytes(&[1, 2], 64).len(), 0);
}

fn open_context(packet_size: u32) -> ftdi_context {
    let mut ftdi = ftdi_context::new(0, None).unwrap();
    ftdi.usb_dev = true;
    ftdi.max_packet_size = packet_size;
    ftdi
}

#[test]
fn blocking_read_keeps_leftover() {
    let mut ftdi = open_context(64);
    assert!(ftdi_context::new(0, None).unwrap().ftdi_read_data_submit(4).is_err());
    let mut tc = ftdi.ftdi_read_data_submit(100).unwrap();
    assert_eq!(tc.completed, 0);
    let data = packets(2, 64);
    ftdi.ftdi_read_data_chunk(&mut tc, 0, &data).unwrap();
    assert_eq!(tc.offset, 100);
    assert_eq!(tc.completed, 1);
    assert_eq!(tc.buf[..62], data[2..64]);
    assert_eq!(ftdi.readbuffer_remaining, 24);
    let tc2 = ftdi.ftdi_read_data_submit(10).unwrap();
    assert_eq!(tc2.completed, 1);
    assert_eq!(tc2.buf[..], data[66 + 38..66 + 48]);
    assert_eq!(ftdi.readbuffer_remaining, 14);
    let mut tc3 = ftdi.ftdi_read_data_submit(20).unwrap();
    assert_eq!((tc3.offset, tc3.completed), (14, 0));
    assert_eq!(ftdi.readbuffer_remaining, 0);
    ftdi.ftdi_read_data_chunk(&mut tc3, 0, &[1, 0x60]).unwrap();
    assert_eq!((tc3.offset, tc3.completed), (14, 1));
    assert_eq!(ftdi.ftdi_read_data_chunk(&mut tc3, -1, &[]).err().unwrap().error_code(), -1);
}

#[test]
fn read_callback_resubmits_until_full() {
    let mut ftdi = open_context(64);
    let mut tc = ftdi_transfer_control::new_read(100);
    assert!(ftdi.ftdi_read_data_callback(&mut tc, 0, &packets(1, 64)));
    assert_eq!(tc.offset, 62);
    assert!(!ftdi.ftdi_read_data_callback(&mut tc, 0, &packets(1, 64)));
    assert_eq!((tc.offset, tc.completed), (100, 1));
    let mut tc = ftdi_transfer_control::new_read(100);
    assert!(!ftdi.ftdi_read_data_callback(&mut tc, TRANSFER_CANCELLED, &packets(1, 64)));
    assert_eq!((tc.offset, tc.completed), (62, TRANSFER_CANCELLED));
    let mut tc = ftdi_transfer_control::new_read(10);
    tc.resubmit_failed();
    assert_eq!(tc.completed, 1);
}

#[test]
fn chunked_write() {
    let ftdi = open_context(64);
    let data = vec![7u8; 10000];
    let mut tc = ftdi.ftdi_write_data(&data, 10000).unwrap();
    let mut chunks = Vec::new();
    while let Some((start, len)) = ftdi.ftdi_write_next_chunk(&tc) {
        chunks.push((start, len));
        ftdi.ftdi_write_chunk_done(&mut tc, 0, len).unwrap();
    }
    assert_eq!(chunks, vec![(0, 4096), (4096, 4096), (8192, 1808)]);
    assert_eq!(tc.completed, 1);
    let mut tc = ftdi.ftdi_write_data(&data, 10).unwrap();
    assert_eq!(ftdi.ftdi_write_chunk_done(&mut tc, -1, 0).err().unwrap().error_code(), -1);
    assert_eq!(ftdi.ftdi_write_data(&data, 0).unwrap().completed, 1);
    assert!(ftdi_context::new(0, None).unwrap().ftdi_write_data(&data, 1).is_err());
}

#[test]
fn write_callback_next_chunks() {
    let ftdi = open_context(64);
    let mut tc = ftdi_transfer_control::new(&vec![1u8; 5000]);
    assert_eq!(ftdi.ftdi_write_data_cb(&mut tc, 0, 4096), Some((4096, 904)));
    assert_eq!(ftdi.ftdi_write_data_cb(&mut tc, 0, 904), None);
    assert_eq!(tc.completed, 1);
    let mut tc = ftdi_transfer_control::new(&vec![1u8; 5000]);
    assert_eq!(ftdi.ftdi_write_data_cb(&mut tc, TRANSFER_CANCELLED, 100), None);
    assert_eq!((tc.offset, tc.completed), (100, TRANSFER_CANCELLED));
}

#[test]
fn find_all_without_match_holds_nothing() {
    let ftdi = ftdi_context::new(0, None).unwrap();
    let mut list = ftdi_device_list::new(&ftdi, 3).unwrap();
    assert_eq!(list.number_found_devices, 3);
    let entries = vec![Some(UsbIds { vendor_id: 0x1d6b, product_id: 2 }), None,
        Some(UsbIds { vendor_id: 0x403, product_id: 0x1234 })];
    let (mut found, free_array) = list.ftdi_usb_find_all(&ftdi, 0, 0, &entries).unwrap();
    assert!(free_array);
    assert_eq!(found.number_found_devices, 0);
    let e = found.ftdi_usb_find_all(&ftdi, 0, 0, &Vec::new()).err().unwrap();
    assert_eq!(e.error_code(), -101);
    let release = found.release();
    assert!(release.device_references.is_empty() && !release.free_system_list);
}

#[test]
fn find_all_selects_matches() {
    let ftdi = ftdi_context::new(0, None).unwrap();
    let mut list = ftdi_device_list::new(&ftdi, 4).unwrap();
    let entries = vec![Some(UsbIds { vendor_id: 0x403, product_id: 0x6001 }), None,
        Some(UsbIds { vendor_id: 0x403, product_id: 0x6014 }),
        Some(UsbIds { vendor_id: 0x1234, product_id: 0x5678 })];
    let (found, _) = list.ftdi_usb_find_all(&ftdi, 0, 0, &entries).unwrap();
    assert_eq!(found.devices, vec![0, 2]);
    let (found, _) = list.ftdi_usb_find_all(&ftdi, 0x1234, 0x5678, &entries).unwrap();
    assert_eq!(found.devices, vec![3]);
    let dead = ftdi_context::default();
    assert_eq!(ftdi_device_list::new(&dead, 1).err().unwrap().error_code(), -100);
    assert_eq!(ftdi_device_list::new(&ftdi, -1).err().unwrap().error_code(), -5);
}

#[test]
fn open_selection_by_strings_and_location() {
    let ftdi = ftdi_context::new(0, None).unwrap();
    let candidate = |serial: &str, bus: u8, address: u8| DeviceCandidate {
        ids: Some(UsbIds { vendor_id: 0x403, product_id: 0x6001 }),
        bus_number: bus,
        device_address: address,
        product: Some(b"FT232R USB UART".to_vec()),
        serial: Some(serial.as_bytes().to_vec()),
    };
    let cs = vec![candidate("A1", 1, 2), candidate("B2", 1, 3), candidate("C3", 2, 5)];
    assert_eq!(ftdi.ftdi_usb_open_desc_index(&cs, 0x403, 0x6001, &None, &Some(b"B2".to_vec()), 0).unwrap(), 1);
    assert_eq!(ftdi.ftdi_usb_open_desc_index(&cs, 0x403, 0x6001, &None, &None, 2).unwrap(), 2);
    assert_eq!(ftdi.ftdi_usb_open_desc_index(&cs, 0x403, 0x6001, &None, &None, 3).err().unwrap().error_code(), -3);
    assert_eq!(ftdi.ftdi_usb_open_desc(&cs, 0x403, 0x6001, &Some(b"other".to_vec()), &None).err().unwrap().error_code(), -3);
    assert_eq!(ftdi.ftdi_usb_open_bus_addr(&cs, 2, 5).unwrap(), 2);
    assert_eq!(ftdi.ftdi_usb_open_bus_addr(&cs, 9, 9).err().unwrap().error_code(), -3);
}

#[test]
fn descriptor_texts() {
    assert_eq!(get_bcd_version(0x0200), "2.00");
    assert_eq!(get_bcd_version(0x0110), "1.10");
    assert_eq!(get_bcd_version(0x1100), "11.00");
    assert_eq!(get_bcd_version(0x00fa), "0.1510");
    assert_eq!(get_descriptor_type(1), "Device");
    assert_eq!(get_descriptor_type(0x77), "unknown type");
    assert_eq!(get_class_type(0xff), "Vendor Specific");
    assert_eq!(get_class_type(0x44), "");
    assert_eq!(get_device_speed(3), " 480 Mbps");
}

#[test]
fn library_version_and_eeprom() {
    let v = ftdi_version_info::ftdi_get_library_version();
    assert_eq!((v.major, v.minor, v.micro), (1, 5, 0));
    assert_eq!(v.version_str, "1.5.0");
    assert_eq!(v.snapshot_str, "v1.5rc1");
    let e = ftdi_eeprom::default();
    assert_eq!(e.manufacturer.len(), 256);
    assert!(!e.initialized_for_connected_device);
    assert_eq!(ftdi_eeprom_value::from(57), ftdi_eeprom_value::USER_DATA_ADDR);
    assert_eq!(ftdi_eeprom_value::CHIP_TYPE.as_u8(), 44);
}
