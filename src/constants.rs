//! Chip generations, line settings, interfaces and the vendor protocol's fixed values.
use vstd::prelude::*;
use vstd::string::StringSliceAdditionalSpecFns;

verus! {

pub const FTDI_MAJOR_VERSION: u8 = 1;
pub const FTDI_MINOR_VERSION: u8 = 5;
pub const FTDI_MICRO_VERSION: u8 = 0;

/// Size of the chunks in which data is read from the chip.
pub const READ_BUFFER_CHUNKSIZE: u32 = 4096;
/// Size of the chunks in which data is written to the chip.
pub const WRITE_BUFFER_CHUNKSIZE: u32 = 4096;
/// The read chunk size on Linux kernels up to 2.6.32, which split larger
/// bulk requests into several transfers.
pub const READ_BUFFER_CHUNKSIZE_LINUX_LOW_KERNEL: u32 = 16384;

/// FTDI's USB vendor id.
pub const FTDI_VENDOR_ID: u16 = 0x403;
/// The product ids searched for when neither vendor nor product is given.
pub const FTDI_PRODUCT_FT232: u16 = 0x6001;
pub const FTDI_PRODUCT_FT2232: u16 = 0x6010;
pub const FTDI_PRODUCT_FT4232: u16 = 0x6011;
pub const FTDI_PRODUCT_FT232H: u16 = 0x6014;
pub const FTDI_PRODUCT_FT230X: u16 = 0x6015;

/// Request type of vendor requests to the device, host to device
/// (vendor type, device recipient, direction out).
pub const FTDI_DEVICE_OUT_REQTYPE: u8 = 0x40;
/// Request type of vendor requests to the device, device to host
/// (vendor type, device recipient, direction in).
pub const FTDI_DEVICE_IN_REQTYPE: u8 = 0xc0;

/// Reset the port.
pub const SIO_RESET_REQUEST: u8 = 0;
/// Set the modem control register.
pub const SIO_SET_MODEM_CTRL_REQUEST: u8 = 1;
/// Set the flow control register.
pub const SIO_SET_FLOW_CTRL_REQUEST: u8 = 2;
/// Set the baud rate.
pub const SIO_SET_BAUDRATE_REQUEST: u8 = 3;
/// Set the data characteristics of the port.
pub const SIO_SET_DATA_REQUEST: u8 = 4;
pub const SIO_POLL_MODEM_STATUS_REQUEST: u8 = 0x05;
pub const SIO_SET_EVENT_CHAR_REQUEST: u8 = 0x06;
pub const SIO_SET_ERROR_CHAR_REQUEST: u8 = 0x07;
pub const SIO_SET_LATENCY_TIMER_REQUEST: u8 = 0x09;
pub const SIO_GET_LATENCY_TIMER_REQUEST: u8 = 0x0A;
pub const SIO_SET_BITMODE_REQUEST: u8 = 0x0B;
pub const SIO_READ_PINS_REQUEST: u8 = 0x0C;
pub const SIO_READ_EEPROM_REQUEST: u8 = 0x90;
pub const SIO_WRITE_EEPROM_REQUEST: u8 = 0x91;
pub const SIO_ERASE_EEPROM_REQUEST: u8 = 0x92;

/// Values of the reset request.
pub const SIO_RESET_SIO: u16 = 0;
pub const SIO_RESET_PURGE_RX: u16 = 1;
pub const SIO_RESET_PURGE_TX: u16 = 2;
/// Flush values of the reset request: clear the chip's RX, resp. TX, buffer.
pub const SIO_TCIFLUSH: u16 = 2;
pub const SIO_TCOFLUSH: u16 = 1;


/// FTDI chip generation.
#[derive(Copy, Clone, PartialEq, Eq, Structural, Debug)]
pub enum ftdi_chip_type {
    TYPE_AM,
    TYPE_BM,
    TYPE_2232C,
    TYPE_R,
    TYPE_2232H,
    TYPE_4232H,
    TYPE_232H,
    TYPE_230X,
}

impl ftdi_chip_type {
    /// The numeric code of the value.
    pub open spec fn code(self) -> u8 {
        match self {
            ftdi_chip_type::TYPE_AM => 0,
            ftdi_chip_type::TYPE_BM => 1,
            ftdi_chip_type::TYPE_2232C => 2,
            ftdi_chip_type::TYPE_R => 3,
            ftdi_chip_type::TYPE_2232H => 4,
            ftdi_chip_type::TYPE_4232H => 5,
            ftdi_chip_type::TYPE_232H => 6,
            ftdi_chip_type::TYPE_230X => 7,
        }
    }

    /// Whether `value` is the code of a value of this type.
    pub open spec fn is_code(value: u8) -> bool {
        value == 0 || value == 1 || value == 2 || value == 3 || value == 4 || value == 5 || value == 6 || value == 7
    }

    /// The value with the given numeric code.
    pub fn from(value: u8) -> (r: ftdi_chip_type)
        requires
            ftdi_chip_type::is_code(value),
        ensures
            r.code() == value,
    {
        match value {
            0 => ftdi_chip_type::TYPE_AM,
            1 => ftdi_chip_type::TYPE_BM,
            2 => ftdi_chip_type::TYPE_2232C,
            3 => ftdi_chip_type::TYPE_R,
            4 => ftdi_chip_type::TYPE_2232H,
            5 => ftdi_chip_type::TYPE_4232H,
            6 => ftdi_chip_type::TYPE_232H,
            _ => ftdi_chip_type::TYPE_230X,
        }
    }

    /// The numeric code of the value.
    pub fn as_u8(self) -> (r: u8)
        ensures
            r == self.code(),
    {
        match self {
            ftdi_chip_type::TYPE_AM => 0,
            ftdi_chip_type::TYPE_BM => 1,
            ftdi_chip_type::TYPE_2232C => 2,
            ftdi_chip_type::TYPE_R => 3,
            ftdi_chip_type::TYPE_2232H => 4,
            ftdi_chip_type::TYPE_4232H => 5,
            ftdi_chip_type::TYPE_232H => 6,
            ftdi_chip_type::TYPE_230X => 7,
        }
    }
}

/// Parity mode of the serial line.
#[derive(Copy, Clone, PartialEq, Eq, Structural, Debug)]
pub enum ftdi_parity_type {
    NONE,
    ODD,
    EVEN,
    MARK,
    SPACE,
}

impl ftdi_parity_type {
    /// The numeric code of the value.
    pub open spec fn code(self) -> u8 {
        match self {
            ftdi_parity_type::NONE => 0,
            ftdi_parity_type::ODD => 1,
            ftdi_parity_type::EVEN => 2,
            ftdi_parity_type::MARK => 3,
            ftdi_parity_type::SPACE => 4,
        }
    }

    /// Whether `value` is the code of a value of this type.
    pub open spec fn is_code(value: u8) -> bool {
        value == 0 || value == 1 || value == 2 || value == 3 || value == 4
    }

    /// The value with the given numeric code.
    pub fn from(value: u8) -> (r: ftdi_parity_type)
        requires
            ftdi_parity_type::is_code(value),
        ensures
            r.code() == value,
    {
        match value {
            0 => ftdi_parity_type::NONE,
            1 => ftdi_parity_type::ODD,
            2 => ftdi_parity_type::EVEN,
            3 => ftdi_parity_type::MARK,
            _ => ftdi_parity_type::SPACE,
        }
    }

    /// The numeric code of the value.
    pub fn as_u8(self) -> (r: u8)
        ensures
            r == self.code(),
    {
        match self {
            ftdi_parity_type::NONE => 0,
            ftdi_parity_type::ODD => 1,
            ftdi_parity_type::EVEN => 2,
            ftdi_parity_type::MARK => 3,
            ftdi_parity_type::SPACE => 4,
        }
    }
}

/// Number of stop bits of the serial line.
#[derive(Copy, Clone, PartialEq, Eq, Structural, Debug)]
pub enum ftdi_stopbits_type {
    STOP_BIT_1,
    STOP_BIT_15,
    STOP_BIT_2,
}

impl ftdi_stopbits_type {
    /// The numeric code of the value.
    pub open spec fn code(self) -> u8 {
        match self {
            ftdi_stopbits_type::STOP_BIT_1 => 0,
            ftdi_stopbits_type::STOP_BIT_15 => 1,
            ftdi_stopbits_type::STOP_BIT_2 => 2,
        }
    }

    /// Whether `value` is the code of a value of this type.
    pub open spec fn is_code(value: u8) -> bool {
        value == 0 || value == 1 || value == 2
    }

    /// The value with the given numeric code.
    pub fn from(value: u8) -> (r: ftdi_stopbits_type)
        requires
            ftdi_stopbits_type::is_code(value),
        ensures
            r.code() == value,
    {
        match value {
            0 => ftdi_stopbits_type::STOP_BIT_1,
            1 => ftdi_stopbits_type::STOP_BIT_15,
            _ => ftdi_stopbits_type::STOP_BIT_2,
        }
    }

    /// The numeric code of the value.
    pub fn as_u8(self) -> (r: u8)
        ensures
            r == self.code(),
    {
        match self {
            ftdi_stopbits_type::STOP_BIT_1 => 0,
            ftdi_stopbits_type::STOP_BIT_15 => 1,
            ftdi_stopbits_type::STOP_BIT_2 => 2,
        }
    }
}

/// Number of data bits of the serial line.
#[derive(Copy, Clone, PartialEq, Eq, Structural, Debug)]
pub enum ftdi_bits_type {
    BITS_7,
    BITS_8,
}

impl ftdi_bits_type {
    /// The numeric code of the value.
    pub open spec fn code(self) -> u8 {
        match self {
            ftdi_bits_type::BITS_7 => 7,
            ftdi_bits_type::BITS_8 => 8,
        }
    }

    /// Whether `value` is the code of a value of this type.
    pub open spec fn is_code(value: u8) -> bool {
        value == 7 || value == 8
    }

    /// The value with the given numeric code.
    pub fn from(value: u8) -> (r: ftdi_bits_type)
        requires
            ftdi_bits_type::is_code(value),
        ensures
            r.code() == value,
    {
        match value {
            7 => ftdi_bits_type::BITS_7,
            _ => ftdi_bits_type::BITS_8,
        }
    }

    /// The numeric code of the value.
    pub fn as_u8(self) -> (r: u8)
        ensures
            r == self.code(),
    {
        match self {
            ftdi_bits_type::BITS_7 => 7,
            ftdi_bits_type::BITS_8 => 8,
        }
    }
}

/// Break condition of the serial line.
#[derive(Copy, Clone, PartialEq, Eq, Structural, Debug)]
pub enum ftdi_break_type {
    BREAK_OFF,
    BREAK_ON,
}

impl ftdi_break_type {
    /// The numeric code of the value.
    pub open spec fn code(self) -> u8 {
        match self {
            ftdi_break_type::BREAK_OFF => 0,
            ftdi_break_type::BREAK_ON => 1,
        }
    }

    /// Whether `value` is the code of a value of this type.
    pub open spec fn is_code(value: u8) -> bool {
        value == 0 || value == 1
    }

    /// The value with the given numeric code.
    pub fn from(value: u8) -> (r: ftdi_break_type)
        requires
            ftdi_break_type::is_code(value),
        ensures
            r.code() == value,
    {
        match value {
            0 => ftdi_break_type::BREAK_OFF,
            _ => ftdi_break_type::BREAK_ON,
        }
    }

    /// The numeric code of the value.
    pub fn as_u8(self) -> (r: u8)
        ensures
            r == self.code(),
    {
        match self {
            ftdi_break_type::BREAK_OFF => 0,
            ftdi_break_type::BREAK_ON => 1,
        }
    }
}

/// Bit-bang modes of the chip.
#[derive(Copy, Clone, PartialEq, Eq, Structural, Debug)]
pub enum ftdi_mpsse_mode {
    /// switch off bitbang mode, back to regular serial/FIFO
    BITMODE_RESET,
    /// classical asynchronous bitbang mode, introduced with B-type chips
    BITMODE_BITBANG,
    /// MPSSE mode, available on 2232x chips
    BITMODE_MPSSE,
    /// synchronous bitbang mode, available on 2232x and R-type chips
    BITMODE_SYNCBB,
    /// MCU Host Bus Emulation mode, available on 2232x chips
    BITMODE_MCU,
    /// Fast Opto-Isolated Serial Interface Mode, available on 2232x chips
    BITMODE_OPTO,
    /// Bitbang on CBUS pins of R-type chips, configured in EEPROM before
    BITMODE_CBUS,
    /// Single Channel Synchronous FIFO mode, available on 2232H chips
    BITMODE_SYNCFF,
    /// FT1284 mode, available on 232H chips
    BITMODE_FT1284,
}

impl ftdi_mpsse_mode {
    /// The numeric code of the value.
    pub open spec fn code(self) -> u8 {
        match self {
            ftdi_mpsse_mode::BITMODE_RESET => 0x00,
            ftdi_mpsse_mode::BITMODE_BITBANG => 0x01,
            ftdi_mpsse_mode::BITMODE_MPSSE => 0x02,
            ftdi_mpsse_mode::BITMODE_SYNCBB => 0x04,
            ftdi_mpsse_mode::BITMODE_MCU => 0x08,
            ftdi_mpsse_mode::BITMODE_OPTO => 0x10,
            ftdi_mpsse_mode::BITMODE_CBUS => 0x20,
            ftdi_mpsse_mode::BITMODE_SYNCFF => 0x40,
            ftdi_mpsse_mode::BITMODE_FT1284 => 0x80,
        }
    }

    /// Whether `value` is the code of a value of this type.
    pub open spec fn is_code(value: u8) -> bool {
        value == 0x00 || value == 0x01 || value == 0x02 || value == 0x04 || value == 0x08 || value == 0x10 || value == 0x20 || value == 0x40 || value == 0x80
    }

    /// The value with the given numeric code.
    pub fn from(value: u8) -> (r: ftdi_mpsse_mode)
        requires
            ftdi_mpsse_mode::is_code(value),
        ensures
            r.code() == value,
    {
        match value {
            0x00 => ftdi_mpsse_mode::BITMODE_RESET,
            0x01 => ftdi_mpsse_mode::BITMODE_BITBANG,
            0x02 => ftdi_mpsse_mode::BITMODE_MPSSE,
            0x04 => ftdi_mpsse_mode::BITMODE_SYNCBB,
            0x08 => ftdi_mpsse_mode::BITMODE_MCU,
            0x10 => ftdi_mpsse_mode::BITMODE_OPTO,
            0x20 => ftdi_mpsse_mode::BITMODE_CBUS,
            0x40 => ftdi_mpsse_mode::BITMODE_SYNCFF,
            _ => ftdi_mpsse_mode::BITMODE_FT1284,
        }
    }

    /// The numeric code of the value.
    pub fn as_u8(self) -> (r: u8)
        ensures
            r == self.code(),
    {
        match self {
            ftdi_mpsse_mode::BITMODE_RESET => 0x00,
            ftdi_mpsse_mode::BITMODE_BITBANG => 0x01,
            ftdi_mpsse_mode::BITMODE_MPSSE => 0x02,
            ftdi_mpsse_mode::BITMODE_SYNCBB => 0x04,
            ftdi_mpsse_mode::BITMODE_MCU => 0x08,
            ftdi_mpsse_mode::BITMODE_OPTO => 0x10,
            ftdi_mpsse_mode::BITMODE_CBUS => 0x20,
            ftdi_mpsse_mode::BITMODE_SYNCFF => 0x40,
            ftdi_mpsse_mode::BITMODE_FT1284 => 0x80,
        }
    }
}

/// Port interface of chips with several interfaces.
#[derive(Copy, Clone, PartialEq, Eq, Structural, Debug)]
pub enum ftdi_interface {
    INTERFACE_ANY,
    INTERFACE_A,
    INTERFACE_B,
    INTERFACE_C,
    INTERFACE_D,
}

impl ftdi_interface {
    /// The numeric code of the value.
    pub open spec fn code(self) -> u8 {
        match self {
            ftdi_interface::INTERFACE_ANY => 0,
            ftdi_interface::INTERFACE_A => 1,
            ftdi_interface::INTERFACE_B => 2,
            ftdi_interface::INTERFACE_C => 3,
            ftdi_interface::INTERFACE_D => 4,
        }
    }

    /// Whether `value` is the code of a value of this type.
    pub open spec fn is_code(value: u8) -> bool {
        value == 0 || value == 1 || value == 2 || value == 3 || value == 4
    }

    /// The value with the given numeric code.
    pub fn from(value: u8) -> (r: ftdi_interface)
        requires
            ftdi_interface::is_code(value),
        ensures
            r.code() == value,
    {
        match value {
            0 => ftdi_interface::INTERFACE_ANY,
            1 => ftdi_interface::INTERFACE_A,
            2 => ftdi_interface::INTERFACE_B,
            3 => ftdi_interface::INTERFACE_C,
            _ => ftdi_interface::INTERFACE_D,
        }
    }

    /// The numeric code of the value.
    pub fn as_u8(self) -> (r: u8)
        ensures
            r == self.code(),
    {
        match self {
            ftdi_interface::INTERFACE_ANY => 0,
            ftdi_interface::INTERFACE_A => 1,
            ftdi_interface::INTERFACE_B => 2,
            ftdi_interface::INTERFACE_C => 3,
            ftdi_interface::INTERFACE_D => 4,
        }
    }
}

/// What to do when a kernel driver already holds the device.
#[derive(Copy, Clone, PartialEq, Eq, Structural, Debug)]
pub enum ftdi_module_detach_mode {
    AUTO_DETACH_SIO_MODULE,
    DONT_DETACH_SIO_MODULE,
    AUTO_DETACH_REATACH_SIO_MODULE,
}

impl ftdi_module_detach_mode {
    /// The numeric code of the value.
    pub open spec fn code(self) -> u8 {
        match self {
            ftdi_module_detach_mode::AUTO_DETACH_SIO_MODULE => 0,
            ftdi_module_detach_mode::DONT_DETACH_SIO_MODULE => 1,
            ftdi_module_detach_mode::AUTO_DETACH_REATACH_SIO_MODULE => 2,
        }
    }

    /// Whether `value` is the code of a value of this type.
    pub open spec fn is_code(value: u8) -> bool {
        value == 0 || value == 1 || value == 2
    }

    /// The value with the given numeric code.
    pub fn from(value: u8) -> (r: ftdi_module_detach_mode)
        requires
            ftdi_module_detach_mode::is_code(value),
        ensures
            r.code() == value,
    {
        match value {
            0 => ftdi_module_detach_mode::AUTO_DETACH_SIO_MODULE,
            1 => ftdi_module_detach_mode::DONT_DETACH_SIO_MODULE,
            _ => ftdi_module_detach_mode::AUTO_DETACH_REATACH_SIO_MODULE,
        }
    }

    /// The numeric code of the value.
    pub fn as_u8(self) -> (r: u8)
        ensures
            r == self.code(),
    {
        match self {
            ftdi_module_detach_mode::AUTO_DETACH_SIO_MODULE => 0,
            ftdi_module_detach_mode::DONT_DETACH_SIO_MODULE => 1,
            ftdi_module_detach_mode::AUTO_DETACH_REATACH_SIO_MODULE => 2,
        }
    }
}

/// The interface that a name stands for: `INTERFACE_ANY` or `ANY`, and so on for A to D.
pub open spec fn interface_named(s: Seq<u8>) -> Option<ftdi_interface> {
    if s == seq![73u8, 78u8, 84u8, 69u8, 82u8, 70u8, 65u8, 67u8, 69u8, 95u8, 65u8, 78u8, 89u8] || s == seq![65u8, 78u8, 89u8] {
        Some(ftdi_interface::INTERFACE_ANY)
    } else if s == seq![73u8, 78u8, 84u8, 69u8, 82u8, 70u8, 65u8, 67u8, 69u8, 95u8, 65u8] || s == seq![65u8] {
        Some(ftdi_interface::INTERFACE_A)
    } else if s == seq![73u8, 78u8, 84u8, 69u8, 82u8, 70u8, 65u8, 67u8, 69u8, 95u8, 66u8] || s == seq![66u8] {
        Some(ftdi_interface::INTERFACE_B)
    } else if s == seq![73u8, 78u8, 84u8, 69u8, 82u8, 70u8, 65u8, 67u8, 69u8, 95u8, 67u8] || s == seq![67u8] {
        Some(ftdi_interface::INTERFACE_C)
    } else if s == seq![73u8, 78u8, 84u8, 69u8, 82u8, 70u8, 65u8, 67u8, 69u8, 95u8, 68u8] || s == seq![68u8] {
        Some(ftdi_interface::INTERFACE_D)
    } else {
        None
    }
}

impl ftdi_interface {
    /// The interface that `value` names, if any.
    pub fn from_name(value: &str) -> (r: Option<ftdi_interface>)
        ensures
            r == interface_named(value.spec_bytes()),
    {
        let b = value.as_bytes();
        // INTERFACE_ANY
        if b.len() == 13 && b[0] == 73 && b[1] == 78 && b[2] == 84 && b[3] == 69 && b[4] == 82 && b[5] == 70 && b[6] == 65 && b[7] == 67 && b[8] == 69 && b[9] == 95 && b[10] == 65 && b[11] == 78 && b[12] == 89 {
            assert(b@ =~= seq![73u8, 78u8, 84u8, 69u8, 82u8, 70u8, 65u8, 67u8, 69u8, 95u8, 65u8, 78u8, 89u8]);
            return Some(ftdi_interface::INTERFACE_ANY);
        }
        // ANY
        if b.len() == 3 && b[0] == 65 && b[1] == 78 && b[2] == 89 {
            assert(b@ =~= seq![65u8, 78u8, 89u8]);
            return Some(ftdi_interface::INTERFACE_ANY);
        }
        // INTERFACE_A
        if b.len() == 11 && b[0] == 73 && b[1] == 78 && b[2] == 84 && b[3] == 69 && b[4] == 82 && b[5] == 70 && b[6] == 65 && b[7] == 67 && b[8] == 69 && b[9] == 95 && b[10] == 65 {
            assert(b@ =~= seq![73u8, 78u8, 84u8, 69u8, 82u8, 70u8, 65u8, 67u8, 69u8, 95u8, 65u8]);
            return Some(ftdi_interface::INTERFACE_A);
        }
        // A
        if b.len() == 1 && b[0] == 65 {
            assert(b@ =~= seq![65u8]);
            return Some(ftdi_interface::INTERFACE_A);
        }
        // INTERFACE_B
        if b.len() == 11 && b[0] == 73 && b[1] == 78 && b[2] == 84 && b[3] == 69 && b[4] == 82 && b[5] == 70 && b[6] == 65 && b[7] == 67 && b[8] == 69 && b[9] == 95 && b[10] == 66 {
            assert(b@ =~= seq![73u8, 78u8, 84u8, 69u8, 82u8, 70u8, 65u8, 67u8, 69u8, 95u8, 66u8]);
            return Some(ftdi_interface::INTERFACE_B);
        }
        // B
        if b.len() == 1 && b[0] == 66 {
            assert(b@ =~= seq![66u8]);
            return Some(ftdi_interface::INTERFACE_B);
        }
        // INTERFACE_C
        if b.len() == 11 && b[0] == 73 && b[1] == 78 && b[2] == 84 && b[3] == 69 && b[4] == 82 && b[5] == 70 && b[6] == 65 && b[7] == 67 && b[8] == 69 && b[9] == 95 && b[10] == 67 {
            assert(b@ =~= seq![73u8, 78u8, 84u8, 69u8, 82u8, 70u8, 65u8, 67u8, 69u8, 95u8, 67u8]);
            return Some(ftdi_interface::INTERFACE_C);
        }
        // C
        if b.len() == 1 && b[0] == 67 {
            assert(b@ =~= seq![67u8]);
            return Some(ftdi_interface::INTERFACE_C);
        }
        // INTERFACE_D
        if b.len() == 11 && b[0] == 73 && b[1] == 78 && b[2] == 84 && b[3] == 69 && b[4] == 82 && b[5] == 70 && b[6] == 65 && b[7] == 67 && b[8] == 69 && b[9] == 95 && b[10] == 68 {
            assert(b@ =~= seq![73u8, 78u8, 84u8, 69u8, 82u8, 70u8, 65u8, 67u8, 69u8, 95u8, 68u8]);
            return Some(ftdi_interface::INTERFACE_D);
        }
        // D
        if b.len() == 1 && b[0] == 68 {
            assert(b@ =~= seq![68u8]);
            return Some(ftdi_interface::INTERFACE_D);
        }
        None
    }
}

impl From<ftdi_interface> for u8 {
    fn from(value: ftdi_interface) -> u8 {
        value.as_u8()
    }
}

impl vstd::std_specs::convert::FromSpecImpl<ftdi_interface> for u8 {
    open spec fn obeys_from_spec() -> bool {
        true
    }

    open spec fn from_spec(v: ftdi_interface) -> u8 {
        v.code()
    }
}

impl std::str::FromStr for ftdi_interface {
    type Err = &'static str;

    fn from_str(value: &str) -> Result<ftdi_interface, &'static str> {
        match ftdi_interface::from_name(value) {
            Some(interface) => Ok(interface),
            None => Err("no match"),
        }
    }
}

} // verus!
