use ftdi_library::context::ftdi_context;
use ftdi_library::description::OpenTarget;
use ftdi_library::error::{ErrorKind, FtdiContextError};

#[test]
fn parse_vendor_product_index_ok() {
    let values: Vec<(&str, Result<Vec<u16>, FtdiContextError>)> = vec![
        ("s:12:34:0", Ok(vec![12u16, 34u16, 0u16])),
        ("s:0o12:0o74:0o3", Ok(vec![10u16, 60u16, 3u16])),
        ("s:0xAD:0xF34:0x2", Ok(vec![173u16, 3892u16, 2u16])),
        ("s:0xAD:0o34:0", Ok(vec![173u16, 28u16, 0u16])),
        ("i:400:400", Ok(vec![400u16, 400u16])),
        ("i:0x400:0x400", Ok(vec![1024u16, 1024u16])),
        ("i:0o4070:0o4040", Ok(vec![2104u16, 2080u16])),
        ("i:0o4070:0o4040:0o1", Ok(vec![2104u16, 2080u16, 1u16])),
        ("s:400:400:0", Ok(vec![400u16, 400u16, 0u16])),
        ("s:400:0x4DF:0o0", Ok(vec![400u16, 1247u16, 0u16])),
        ("s:0o400:0x4DF:0x0", Ok(vec![256u16, 1247u16, 0u16])),
    ];
    for (input, expected) in values {
        let result = ftdi_context::parse_vendor_product_index(&input);
        assert_eq!(result.unwrap(), expected.unwrap());
    }
}

fn common(code: i32, message: &str) -> FtdiContextError {
    FtdiContextError::UsbCommonError { code, message: message.to_string() }
}

#[test]
fn parse_vendor_product_index_fail() {
    let values: Vec<(&str, Result<Vec<u16>, FtdiContextError>)> = vec![
        ("", Err(common(-11, "incorrect 'description' format or length, see format explanation in code"))),
        ("  ", Err(common(-11, "incorrect 'description' format or length, see format explanation in code"))),
        ("empty", Err(common(-11, "incorrect 'description' format or length, see format explanation in code"))),
        ("s:", Err(common(-12, "incorrect 'description' format, vendor and product is minimal set"))),
        (":empty", Err(common(-12, "incorrect 'description' format, vendor and product is minimal set"))),
        ("s:1234", Err(common(-12, "incorrect 'description' format, vendor and product is minimal set"))),
        ("s:0o400:0x4DF:0x0:dddd", Err(common(-14, "incorrect 'description' format is too long"))),
        ("i:0xFFFFF:0x4DF:0x0", Err(common(-15, "HEX value parse error"))),
        ("i:0xFF:0x4DsdhF:0x0", Err(common(-15, "HEX value parse error"))),
        ("s:0o8800:0o123:0o0", Err(common(-16, "Octal value parse error"))),
        ("s:0o56:0o123678:0o0", Err(common(-16, "Octal value parse error"))),
        ("i:657777:0x4DF:0x0", Err(common(-17, "Decimal value parse error"))),
        ("i:657777:0x4DF:0x0", Err(common(-17, "Decimal value parse error"))),
        ("i:657:67000:0", Err(common(-17, "Decimal value parse error"))),
        ("i:657:600:0789056", Err(common(-17, "Decimal value parse error"))),
        ("s:124:", Err(common(-17, "Decimal value parse error"))),
    ];
    for (input, expected) in values {
        println!("input = \'{}\'", input);
        let result = ftdi_context::parse_vendor_product_index(&input);
        assert_eq!(result.err().unwrap(), expected.err().unwrap());
    }
}

#[test]
fn parse_number_str() {
    let values: Vec<(&str, Option<u16>)> = vec![
        ("", None),
        ("  ", None),
        ("empty", None),
        ("s", None),
        ("1234", Some(1234)),
        ("12", Some(12)),
        ("0o1274", Some(700)),
        ("0xADF", Some(2783)),
    ];
    for (input, expected) in values {
        println!("input = \'{}\'", input);
        let result = ftdi_context::parse_number_str(&input);
        assert_eq!(result, expected);
    }
}

#[test]
fn parse_number_edge_forms() {
    assert_eq!(ftdi_context::parse_number_str("+7"), Some(7));
    assert_eq!(ftdi_context::parse_number_str("+"), None);
    assert_eq!(ftdi_context::parse_number_str("-1"), None);
    assert_eq!(ftdi_context::parse_number_str("65535"), Some(65535));
    assert_eq!(ftdi_context::parse_number_str("65536"), None);
    assert_eq!(ftdi_context::parse_number_str("0xffff"), Some(65535));
    assert_eq!(ftdi_context::parse_number_str("0x0x1F"), Some(31));
    assert_eq!(ftdi_context::parse_number_str("0x"), None);
    assert_eq!(ftdi_context::parse_number_str("0o17"), Some(15));
    assert_eq!(ftdi_context::parse_number_str("0o8"), None);
}

#[test]
fn parse_description_letter_token_is_mandatory() {
    assert_eq!(ftdi_context::parse_vendor_product_index("i:1:s").err().unwrap().error_code(), -17);
    assert_eq!(ftdi_context::parse_vendor_product_index("x:1:2").err().unwrap().error_code(), -11);
    assert_eq!(ftdi_context::parse_vendor_product_index("1:2:3").err().unwrap().error_code(), -11);
    assert_eq!(ftdi_context::parse_vendor_product_index("is:1:2").err().unwrap().error_code(), -11);
    assert_eq!(ftdi_context::parse_vendor_product_index("s:1:2").unwrap(), vec![1u16, 2u16]);
}

fn live_context() -> ftdi_context {
    ftdi_context::new(0, None).unwrap()
}

#[test]
fn open_string_vendor_product_forms() {
    let ftdi = live_context();
    match ftdi.ftdi_usb_open_string("i:0x403:0x6010:2").unwrap() {
        OpenTarget::VendorProduct { vendor, product, index } => {
            assert_eq!((vendor, product, index), (0x403, 0x6010, 2));
        }
        other => panic!("unexpected target {:?}", other),
    }
    match ftdi.ftdi_usb_open_string("i:0x403:0x6001").unwrap() {
        OpenTarget::VendorProduct { vendor, product, index } => {
            assert_eq!((vendor, product, index), (0x403, 0x6001, 0));
        }
        other => panic!("unexpected target {:?}", other),
    }
    match ftdi.ftdi_usb_open_string("s:0x403:0x6001:1234").unwrap() {
        OpenTarget::VendorProductSerial { vendor, product, serial } => {
            assert_eq!((vendor, product), (0x403, 0x6001));
            assert_eq!(serial, b"1234".to_vec());
        }
        other => panic!("unexpected target {:?}", other),
    }
}

#[test]
fn open_string_bus_address_form() {
    let ftdi = live_context();
    match ftdi.ftdi_usb_open_string("d:3/12").unwrap() {
        OpenTarget::BusAddress { bus, address } => assert_eq!((bus, address), (3, 12)),
        other => panic!("unexpected target {:?}", other),
    }
    let e = ftdi.ftdi_usb_open_string("d:3").err().unwrap();
    assert_eq!((e.error_kind(), e.error_code()), (ErrorKind::Common, -11));
    let e = ftdi.ftdi_usb_open_string("d:3/1/2").err().unwrap();
    assert_eq!(e.error_code(), -11);
}

#[test]
fn open_string_errors() {
    let ftdi = live_context();
    assert_eq!(ftdi.ftdi_usb_open_string("").err().unwrap().error_code(), -11);
    assert_eq!(ftdi.ftdi_usb_open_string("x:1:2").err().unwrap().error_code(), -11);
    assert_eq!(ftdi.ftdi_usb_open_string("i:1:2:3:4").err().unwrap().error_code(), -14);
    assert_eq!(ftdi.ftdi_usb_open_string("i:1:s:s").err().unwrap().error_code(), -17);
    assert_eq!(ftdi.ftdi_usb_open_string("i:1").err().unwrap().error_code(), -12);
    let dead = ftdi_context::default();
    let e = dead.ftdi_usb_open_string("i:1:2").err().unwrap();
    assert_eq!((e.error_kind(), e.error_code()), (ErrorKind::Init, -8));
}
