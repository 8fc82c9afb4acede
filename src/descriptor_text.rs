//! Readable names of USB descriptor fields, for diagnostics.
use vstd::prelude::*;

verus! {

/// The decimal digits of a number below 16, as ASCII bytes.
pub open spec fn nibble_text(n: u16) -> Seq<u8> {
    if n < 10 {
        seq![(48 + n) as u8]
    } else {
        seq![49u8, (38 + n) as u8]
    }
}

/// A BCD version as text: its four nibbles in decimal, with a dot before
/// the last two, and the first one left out when it is zero.
pub open spec fn bcd_text(v: u16) -> Seq<u8> {
    let d1 = (v / 0x1000) as u16;
    let d2 = ((v / 0x100) % 16) as u16;
    let d3 = ((v / 0x10) % 16) as u16;
    let d4 = (v % 16) as u16;
    let tail = nibble_text(d2) + seq![46u8] + nibble_text(d3) + nibble_text(d4);
    if d1 > 0 {
        nibble_text(d1) + tail
    } else {
        tail
    }
}

/// The characters of ASCII bytes.
pub open spec fn ascii_chars(b: Seq<u8>) -> Seq<char> {
    Seq::new(b.len(), |i: int| b[i] as char)
}

/// Relies on String::from_utf8: ASCII bytes are valid UTF-8, and each one
/// is the character of the same code.
#[verifier::external_body]
fn ascii_string(bytes: Vec<u8>) -> (r: String)
    requires
        forall|i: int| 0 <= i < bytes@.len() ==> bytes@[i] < 128,
    ensures
        r@ == ascii_chars(bytes@),
{
    match String::from_utf8(bytes) {
        Ok(s) => s,
        Err(_) => String::new(),
    }
}

fn push_nibble(out: &mut Vec<u8>, n: u16)
    requires
        n < 16,
    ensures
        final(out)@ == old(out)@ + nibble_text(n),
{
    if n < 10 {
        out.push((48 + n) as u8);
    } else {
        out.push(49);
        out.push((38 + n) as u8);
    }
    assert(final(out)@ =~= old(out)@ + nibble_text(n));
}

/// A BCD version number (such as a device's `bcdUSB`) as text: 0x0200 is
/// "2.00", 0x1100 is "11.00".
pub fn get_bcd_version(bcd_version: u16) -> (r: String)
    ensures
        r@ == ascii_chars(bcd_text(bcd_version)),
{
    let d1 = bcd_version / 0x1000;
    let d2 = (bcd_version / 0x100) % 16;
    let d3 = (bcd_version / 0x10) % 16;
    let d4 = bcd_version % 16;
    let mut out: Vec<u8> = Vec::new();
    if d1 > 0 {
        push_nibble(&mut out, d1);
    }
    push_nibble(&mut out, d2);
    out.push(46);
    push_nibble(&mut out, d3);
    push_nibble(&mut out, d4);
    assert(out@ =~= bcd_text(bcd_version));
    ascii_string(out)
}

/// The name of a USB descriptor type.
pub open spec fn descriptor_type_name(desc_type: u8) -> &'static str {
    if desc_type == 0x01 {
        "Device"
    } else if desc_type == 0x02 {
        "Configuration"
    } else if desc_type == 0x03 {
        "String"
    } else if desc_type == 0x04 {
        "Interface"
    } else if desc_type == 0x05 {
        "Endpoint"
    } else if desc_type == 0x0f {
        "BOS"
    } else if desc_type == 0x10 {
        "Device Capability"
    } else if desc_type == 0x21 {
        "HID"
    } else if desc_type == 0x22 {
        "Report"
    } else if desc_type == 0x23 {
        "Physical"
    } else if desc_type == 0x29 {
        "HUB"
    } else if desc_type == 0x2a {
        "Superspeed Hub"
    } else if desc_type == 0x30 {
        "Superspeed Endpoint Companion"
    } else {
        "unknown type"
    }
}

/// The name of a USB descriptor type.
pub fn get_descriptor_type(desc_type: u8) -> (r: &'static str)
    ensures
        r == descriptor_type_name(desc_type),
{
    if desc_type == 0x01 {
        "Device"
    } else if desc_type == 0x02 {
        "Configuration"
    } else if desc_type == 0x03 {
        "String"
    } else if desc_type == 0x04 {
        "Interface"
    } else if desc_type == 0x05 {
        "Endpoint"
    } else if desc_type == 0x0f {
        "BOS"
    } else if desc_type == 0x10 {
        "Device Capability"
    } else if desc_type == 0x21 {
        "HID"
    } else if desc_type == 0x22 {
        "Report"
    } else if desc_type == 0x23 {
        "Physical"
    } else if desc_type == 0x29 {
        "HUB"
    } else if desc_type == 0x2a {
        "Superspeed Hub"
    } else if desc_type == 0x30 {
        "Superspeed Endpoint Companion"
    } else {
        "unknown type"
    }
}

/// The name of a USB device class; empty for an unknown one.
pub open spec fn class_name(class: u8) -> &'static str {
    if class == 0 {
        "(Defined at Interface level)"
    } else if class == 1 {
        "Audio"
    } else if class == 2 {
        "Comm"
    } else if class == 3 {
        "HID"
    } else if class == 5 {
        "Physical"
    } else if class == 7 {
        "Printer"
    } else if class == 6 {
        "Image"
    } else if class == 8 {
        "Mass Storage"
    } else if class == 9 {
        "Hub"
    } else if class == 10 {
        "Data"
    } else if class == 0x0b {
        "Smart Card"
    } else if class == 0x0d {
        "Content Security"
    } else if class == 0x0e {
        "Video"
    } else if class == 0x0f {
        "Personal Healthcare"
    } else if class == 0xdc {
        "Diagnostic Device"
    } else if class == 0xe0 {
        "Wireless"
    } else if class == 0xfe {
        "Application"
    } else if class == 0xff {
        "Vendor Specific"
    } else {
        ""
    }
}

/// The name of a USB device class; empty for an unknown one.
pub fn get_class_type(class: u8) -> (r: &'static str)
    ensures
        r == class_name(class),
{
    if class == 0 {
        "(Defined at Interface level)"
    } else if class == 1 {
        "Audio"
    } else if class == 2 {
        "Comm"
    } else if class == 3 {
        "HID"
    } else if class == 5 {
        "Physical"
    } else if class == 7 {
        "Printer"
    } else if class == 6 {
        "Image"
    } else if class == 8 {
        "Mass Storage"
    } else if class == 9 {
        "Hub"
    } else if class == 10 {
        "Data"
    } else if class == 0x0b {
        "Smart Card"
    } else if class == 0x0d {
        "Content Security"
    } else if class == 0x0e {
        "Video"
    } else if class == 0x0f {
        "Personal Healthcare"
    } else if class == 0xdc {
        "Diagnostic Device"
    } else if class == 0xe0 {
        "Wireless"
    } else if class == 0xfe {
        "Application"
    } else if class == 0xff {
        "Vendor Specific"
    } else {
        ""
    }
}

/// The speed of a USB device, as text.
pub open spec fn speed_name(speed: i32) -> &'static str {
    if speed == 4 {
        "5000 Mbps"
    } else if speed == 3 {
        " 480 Mbps"
    } else if speed == 2 {
        "  12 Mbps"
    } else if speed == 1 {
        " 1.5 Mbps"
    } else if speed == 0 {
        "(unknown)"
    } else {
        "what's an odd usb speed value?"
    }
}

/// The speed of a USB device, as text.
pub fn get_device_speed(speed: i32) -> (r: &'static str)
    ensures
        r == speed_name(speed),
{
    if speed == 4 {
        "5000 Mbps"
    } else if speed == 3 {
        " 480 Mbps"
    } else if speed == 2 {
        "  12 Mbps"
    } else if speed == 1 {
        " 1.5 Mbps"
    } else if speed == 0 {
        "(unknown)"
    } else {
        "what's an odd usb speed value?"
    }
}

} // verus!
