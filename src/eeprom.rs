//! The in-memory shape of a device's EEPROM settings.
use vstd::prelude::*;

verus! {

/// Size of the EEPROM image and of the string fields, in bytes.
pub const FTDI_MAX_EEPROM_SIZE: usize = 256;

/// The unit of the `max_power` field, in milliamperes.
pub const MAX_POWER_MILLIAMP_PER_UNIT: u8 = 2;

/// The decoded EEPROM settings of a device, held in memory only.
pub struct ftdi_eeprom {
    /// vendor id
    pub vendor_id: i32,
    /// product id
    pub product_id: i32,
    /// Whether the structure was filled for the device that is connected.
    pub initialized_for_connected_device: bool,
    /// self powered
    pub self_powered: i32,
    /// remote wakeup
    pub remote_wakeup: i32,
    pub is_not_pnp: bool,
    /// suspend on DBUS7 low
    pub suspend_dbus7: i32,
    /// input in isochronous transfer mode
    pub in_is_isochronous: bool,
    /// output in isochronous transfer mode
    pub out_is_isochronous: bool,
    /// suspend pull downs
    pub suspend_pull_downs: i32,
    /// use serial
    pub use_serial: bool,
    /// usb version
    pub usb_version: i32,
    /// use usb version on FT2232 devices
    pub use_usb_version: i32,
    /// maximum power, in units of `MAX_POWER_MILLIAMP_PER_UNIT`
    pub max_power: i32,
    /// manufacturer name
    pub manufacturer: Vec<u8>,
    /// product name
    pub product: Vec<u8>,
    /// serial number
    pub serial: Vec<u8>,
    /// hardware type of channel A: 0 = RS232 UART, 1 = 245 FIFO, 2 = CPU FIFO, 4 = opto isolate
    pub channel_a_type: i32,
    pub channel_b_type: i32,
    /// driver type of each channel, 1 = VCP
    pub channel_a_driver: i32,
    pub channel_b_driver: i32,
    pub channel_c_driver: i32,
    pub channel_d_driver: i32,
    /// RS485 enable of each channel (4232H)
    pub channel_a_rs485enable: bool,
    pub channel_b_rs485enable: bool,
    pub channel_c_rs485enable: bool,
    pub channel_d_rs485enable: bool,
    /// CBUS pin functions (FT232R/FT232H)
    pub cbus_function: Vec<i32>,
    /// high current drive on R devices
    pub high_current: i32,
    /// high current drive on channel A (2232C)
    pub high_current_a: i32,
    /// high current drive on channel B (2232C)
    pub high_current_b: i32,
    /// inversion of data lines (bitmask)
    pub invert: i32,
    /// external oscillator
    pub external_oscillator: i32,
    /// drive, Schmitt trigger and slew settings of the four pin groups (2232H/4232H)
    pub group0_drive: i32,
    pub group0_schmitt: i32,
    pub group0_slew: i32,
    pub group1_drive: i32,
    pub group1_schmitt: i32,
    pub group1_slew: i32,
    pub group2_drive: i32,
    pub group2_schmitt: i32,
    pub group2_slew: i32,
    pub group3_drive: i32,
    pub group3_schmitt: i32,
    pub group3_slew: i32,
    pub powersave: i32,
    pub clock_polarity: i32,
    pub data_order: i32,
    pub flow_control: i32,
    /// user data
    pub user_data_addr: i32,
    pub user_data_size: i32,
    pub user_data: Vec<u8>,
    /// EEPROM size in bytes
    pub size: i32,
    /// EEPROM type: 0x46 for 93xx46, 0x56 for 93xx56, 0x66 for 93xx66
    pub chip: i32,
    /// the raw EEPROM image
    pub buf: Vec<u8>,
    /// device release number
    pub release_number: i32,
}

impl ftdi_eeprom {
    /// The lengths of the fixed-size fields.
    pub open spec fn wf(&self) -> bool {
        &&& self.manufacturer@.len() == FTDI_MAX_EEPROM_SIZE
        &&& self.product@.len() == FTDI_MAX_EEPROM_SIZE
        &&& self.serial@.len() == FTDI_MAX_EEPROM_SIZE
        &&& self.user_data@.len() == FTDI_MAX_EEPROM_SIZE
        &&& self.buf@.len() == FTDI_MAX_EEPROM_SIZE
        &&& self.cbus_function@.len() == 10
    }

    /// Every number zero, every flag off, every byte zero.
    pub open spec fn is_blank(&self) -> bool {
        &&& self.vendor_id == 0
        &&& self.product_id == 0
        &&& !self.initialized_for_connected_device
        &&& self.self_powered == 0
        &&& self.remote_wakeup == 0
        &&& !self.is_not_pnp
        &&& self.suspend_dbus7 == 0
        &&& !self.in_is_isochronous
        &&& !self.out_is_isochronous
        &&& self.suspend_pull_downs == 0
        &&& !self.use_serial
        &&& self.usb_version == 0
        &&& self.use_usb_version == 0
        &&& self.max_power == 0
        &&& self.channel_a_type == 0
        &&& self.channel_b_type == 0
        &&& self.channel_a_driver == 0
        &&& self.channel_b_driver == 0
        &&& self.channel_c_driver == 0
        &&& self.channel_d_driver == 0
        &&& !self.channel_a_rs485enable
        &&& !self.channel_b_rs485enable
        &&& !self.channel_c_rs485enable
        &&& !self.channel_d_rs485enable
        &&& self.high_current == 0
        &&& self.high_current_a == 0
        &&& self.high_current_b == 0
        &&& self.invert == 0
        &&& self.external_oscillator == 0
        &&& self.group0_drive == 0
        &&& self.group0_schmitt == 0
        &&& self.group0_slew == 0
        &&& self.group1_drive == 0
        &&& self.group1_schmitt == 0
        &&& self.group1_slew == 0
        &&& self.group2_drive == 0
        &&& self.group2_schmitt == 0
        &&& self.group2_slew == 0
        &&& self.group3_drive == 0
        &&& self.group3_schmitt == 0
        &&& self.group3_slew == 0
        &&& self.powersave == 0
        &&& self.clock_polarity == 0
        &&& self.data_order == 0
        &&& self.flow_control == 0
        &&& self.user_data_addr == 0
        &&& self.user_data_size == 0
        &&& self.size == 0
        &&& self.chip == 0
        &&& self.release_number == 0
        &&& forall|i: int| 0 <= i < self.manufacturer@.len() ==> self.manufacturer@[i] == 0
        &&& forall|i: int| 0 <= i < self.product@.len() ==> self.product@[i] == 0
        &&& forall|i: int| 0 <= i < self.serial@.len() ==> self.serial@[i] == 0
        &&& forall|i: int| 0 <= i < self.user_data@.len() ==> self.user_data@[i] == 0
        &&& forall|i: int| 0 <= i < self.buf@.len() ==> self.buf@[i] == 0
        &&& forall|i: int| 0 <= i < self.cbus_function@.len() ==> self.cbus_function@[i] == 0
    }

    /// An empty structure: every number zero, every flag off, every byte zero.
    pub fn new() -> (r: ftdi_eeprom)
        ensures
            r.wf(),
            r.is_blank(),
    {
        ftdi_eeprom {
            vendor_id: 0,
            product_id: 0,
            initialized_for_connected_device: false,
            self_powered: 0,
            remote_wakeup: 0,
            is_not_pnp: false,
            suspend_dbus7: 0,
            in_is_isochronous: false,
            out_is_isochronous: false,
            suspend_pull_downs: 0,
            use_serial: false,
            usb_version: 0,
            use_usb_version: 0,
            max_power: 0,
            manufacturer: vec![0u8; FTDI_MAX_EEPROM_SIZE],
            product: vec![0u8; FTDI_MAX_EEPROM_SIZE],
            serial: vec![0u8; FTDI_MAX_EEPROM_SIZE],
            channel_a_type: 0,
            channel_b_type: 0,
            channel_a_driver: 0,
            channel_b_driver: 0,
            channel_c_driver: 0,
            channel_d_driver: 0,
            channel_a_rs485enable: false,
            channel_b_rs485enable: false,
            channel_c_rs485enable: false,
            channel_d_rs485enable: false,
            cbus_function: vec![0i32; 10],
            high_current: 0,
            high_current_a: 0,
            high_current_b: 0,
            invert: 0,
            external_oscillator: 0,
            group0_drive: 0,
            group0_schmitt: 0,
            group0_slew: 0,
            group1_drive: 0,
            group1_schmitt: 0,
            group1_slew: 0,
            group2_drive: 0,
            group2_schmitt: 0,
            group2_slew: 0,
            group3_drive: 0,
            group3_schmitt: 0,
            group3_slew: 0,
            powersave: 0,
            clock_polarity: 0,
            data_order: 0,
            flow_control: 0,
            user_data_addr: 0,
            user_data_size: 0,
            user_data: vec![0u8; FTDI_MAX_EEPROM_SIZE],
            size: 0,
            chip: 0,
            buf: vec![0u8; FTDI_MAX_EEPROM_SIZE],
            release_number: 0,
        }
    }
}

impl Default for ftdi_eeprom {
    fn default() -> (r: ftdi_eeprom)
        ensures
            r.wf(),
            r.is_blank(),
    {
        ftdi_eeprom::new()
    }
}

/// The EEPROM values that the library handles, in a stable order.
#[derive(Copy, Clone, PartialEq, Eq, Structural, Debug)]
pub enum ftdi_eeprom_value {
    VENDOR_ID,
    PRODUCT_ID,
    SELF_POWERED,
    REMOTE_WAKEUP,
    IS_NOT_PNP,
    SUSPEND_DBUS7,
    IN_IS_ISOCHRONOUS,
    OUT_IS_ISOCHRONOUS,
    SUSPEND_PULL_DOWNS,
    USE_SERIAL,
    USB_VERSION,
    USE_USB_VERSION,
    MAX_POWER,
    CHANNEL_A_TYPE,
    CHANNEL_B_TYPE,
    CHANNEL_A_DRIVER,
    CHANNEL_B_DRIVER,
    CBUS_FUNCTION_0,
    CBUS_FUNCTION_1,
    CBUS_FUNCTION_2,
    CBUS_FUNCTION_3,
    CBUS_FUNCTION_4,
    CBUS_FUNCTION_5,
    CBUS_FUNCTION_6,
    CBUS_FUNCTION_7,
    CBUS_FUNCTION_8,
    CBUS_FUNCTION_9,
    HIGH_CURRENT,
    HIGH_CURRENT_A,
    HIGH_CURRENT_B,
    INVERT,
    GROUP0_DRIVE,
    GROUP0_SCHMITT,
    GROUP0_SLEW,
    GROUP1_DRIVE,
    GROUP1_SCHMITT,
    GROUP1_SLEW,
    GROUP2_DRIVE,
    GROUP2_SCHMITT,
    GROUP2_SLEW,
    GROUP3_DRIVE,
    GROUP3_SCHMITT,
    GROUP3_SLEW,
    CHIP_SIZE,
    CHIP_TYPE,
    POWER_SAVE,
    CLOCK_POLARITY,
    DATA_ORDER,
    FLOW_CONTROL,
    CHANNEL_C_DRIVER,
    CHANNEL_D_DRIVER,
    CHANNEL_A_RS485,
    CHANNEL_B_RS485,
    CHANNEL_C_RS485,
    CHANNEL_D_RS485,
    RELEASE_NUMBER,
    EXTERNAL_OSCILLATOR,
    USER_DATA_ADDR,
}

impl ftdi_eeprom_value {
    /// The numeric code of the value.
    pub open spec fn code(self) -> u8 {
        match self {
            ftdi_eeprom_value::VENDOR_ID => 0,
            ftdi_eeprom_value::PRODUCT_ID => 1,
            ftdi_eeprom_value::SELF_POWERED => 2,
            ftdi_eeprom_value::REMOTE_WAKEUP => 3,
            ftdi_eeprom_value::IS_NOT_PNP => 4,
            ftdi_eeprom_value::SUSPEND_DBUS7 => 5,
            ftdi_eeprom_value::IN_IS_ISOCHRONOUS => 6,
            ftdi_eeprom_value::OUT_IS_ISOCHRONOUS => 7,
            ftdi_eeprom_value::SUSPEND_PULL_DOWNS => 8,
            ftdi_eeprom_value::USE_SERIAL => 9,
            ftdi_eeprom_value::USB_VERSION => 10,
            ftdi_eeprom_value::USE_USB_VERSION => 11,
            ftdi_eeprom_value::MAX_POWER => 12,
            ftdi_eeprom_value::CHANNEL_A_TYPE => 13,
            ftdi_eeprom_value::CHANNEL_B_TYPE => 14,
            ftdi_eeprom_value::CHANNEL_A_DRIVER => 15,
            ftdi_eeprom_value::CHANNEL_B_DRIVER => 16,
            ftdi_eeprom_value::CBUS_FUNCTION_0 => 17,
            ftdi_eeprom_value::CBUS_FUNCTION_1 => 18,
            ftdi_eeprom_value::CBUS_FUNCTION_2 => 19,
            ftdi_eeprom_value::CBUS_FUNCTION_3 => 20,
            ftdi_eeprom_value::CBUS_FUNCTION_4 => 21,
            ftdi_eeprom_value::CBUS_FUNCTION_5 => 22,
            ftdi_eeprom_value::CBUS_FUNCTION_6 => 23,
            ftdi_eeprom_value::CBUS_FUNCTION_7 => 24,
            ftdi_eeprom_value::CBUS_FUNCTION_8 => 25,
            ftdi_eeprom_value::CBUS_FUNCTION_9 => 26,
            ftdi_eeprom_value::HIGH_CURRENT => 27,
            ftdi_eeprom_value::HIGH_CURRENT_A => 28,
            ftdi_eeprom_value::HIGH_CURRENT_B => 29,
            ftdi_eeprom_value::INVERT => 30,
            ftdi_eeprom_value::GROUP0_DRIVE => 31,
            ftdi_eeprom_value::GROUP0_SCHMITT => 32,
            ftdi_eeprom_value::GROUP0_SLEW => 33,
            ftdi_eeprom_value::GROUP1_DRIVE => 34,
            ftdi_eeprom_value::GROUP1_SCHMITT => 35,
            ftdi_eeprom_value::GROUP1_SLEW => 36,
            ftdi_eeprom_value::GROUP2_DRIVE => 37,
            ftdi_eeprom_value::GROUP2_SCHMITT => 38,
            ftdi_eeprom_value::GROUP2_SLEW => 39,
            ftdi_eeprom_value::GROUP3_DRIVE => 40,
            ftdi_eeprom_value::GROUP3_SCHMITT => 41,
            ftdi_eeprom_value::GROUP3_SLEW => 42,
            ftdi_eeprom_value::CHIP_SIZE => 43,
            ftdi_eeprom_value::CHIP_TYPE => 44,
            ftdi_eeprom_value::POWER_SAVE => 45,
            ftdi_eeprom_value::CLOCK_POLARITY => 46,
            ftdi_eeprom_value::DATA_ORDER => 47,
            ftdi_eeprom_value::FLOW_CONTROL => 48,
            ftdi_eeprom_value::CHANNEL_C_DRIVER => 49,
            ftdi_eeprom_value::CHANNEL_D_DRIVER => 50,
            ftdi_eeprom_value::CHANNEL_A_RS485 => 51,
            ftdi_eeprom_value::CHANNEL_B_RS485 => 52,
            ftdi_eeprom_value::CHANNEL_C_RS485 => 53,
            ftdi_eeprom_value::CHANNEL_D_RS485 => 54,
            ftdi_eeprom_value::RELEASE_NUMBER => 55,
            ftdi_eeprom_value::EXTERNAL_OSCILLATOR => 56,
            ftdi_eeprom_value::USER_DATA_ADDR => 57,
        }
    }

    /// Whether `value` is the code of a value of this type.
    pub open spec fn is_code(value: u8) -> bool {
        value < 58
    }

    /// The value with the given numeric code.
    pub fn from(value: u8) -> (r: ftdi_eeprom_value)
        requires
            ftdi_eeprom_value::is_code(value),
        ensures
            r.code() == value,
    {
        match value {
            0 => ftdi_eeprom_value::VENDOR_ID,
            1 => ftdi_eeprom_value::PRODUCT_ID,
            2 => ftdi_eeprom_value::SELF_POWERED,
            3 => ftdi_eeprom_value::REMOTE_WAKEUP,
            4 => ftdi_eeprom_value::IS_NOT_PNP,
            5 => ftdi_eeprom_value::SUSPEND_DBUS7,
            6 => ftdi_eeprom_value::IN_IS_ISOCHRONOUS,
            7 => ftdi_eeprom_value::OUT_IS_ISOCHRONOUS,
            8 => ftdi_eeprom_value::SUSPEND_PULL_DOWNS,
            9 => ftdi_eeprom_value::USE_SERIAL,
            10 => ftdi_eeprom_value::USB_VERSION,
            11 => ftdi_eeprom_value::USE_USB_VERSION,
            12 => ftdi_eeprom_value::MAX_POWER,
            13 => ftdi_eeprom_value::CHANNEL_A_TYPE,
            14 => ftdi_eeprom_value::CHANNEL_B_TYPE,
            15 => ftdi_eeprom_value::CHANNEL_A_DRIVER,
            16 => ftdi_eeprom_value::CHANNEL_B_DRIVER,
            17 => ftdi_eeprom_value::CBUS_FUNCTION_0,
            18 => ftdi_eeprom_value::CBUS_FUNCTION_1,
            19 => ftdi_eeprom_value::CBUS_FUNCTION_2,
            20 => ftdi_eeprom_value::CBUS_FUNCTION_3,
            21 => ftdi_eeprom_value::CBUS_FUNCTION_4,
            22 => ftdi_eeprom_value::CBUS_FUNCTION_5,
            23 => ftdi_eeprom_value::CBUS_FUNCTION_6,
            24 => ftdi_eeprom_value::CBUS_FUNCTION_7,
            25 => ftdi_eeprom_value::CBUS_FUNCTION_8,
            26 => ftdi_eeprom_value::CBUS_FUNCTION_9,
            27 => ftdi_eeprom_value::HIGH_CURRENT,
            28 => ftdi_eeprom_value::HIGH_CURRENT_A,
            29 => ftdi_eeprom_value::HIGH_CURRENT_B,
            30 => ftdi_eeprom_value::INVERT,
            31 => ftdi_eeprom_value::GROUP0_DRIVE,
            32 => ftdi_eeprom_value::GROUP0_SCHMITT,
            33 => ftdi_eeprom_value::GROUP0_SLEW,
            34 => ftdi_eeprom_value::GROUP1_DRIVE,
            35 => ftdi_eeprom_value::GROUP1_SCHMITT,
            36 => ftdi_eeprom_value::GROUP1_SLEW,
            37 => ftdi_eeprom_value::GROUP2_DRIVE,
            38 => ftdi_eeprom_value::GROUP2_SCHMITT,
            39 => ftdi_eeprom_value::GROUP2_SLEW,
            40 => ftdi_eeprom_value::GROUP3_DRIVE,
            41 => ftdi_eeprom_value::GROUP3_SCHMITT,
            42 => ftdi_eeprom_value::GROUP3_SLEW,
            43 => ftdi_eeprom_value::CHIP_SIZE,
            44 => ftdi_eeprom_value::CHIP_TYPE,
            45 => ftdi_eeprom_value::POWER_SAVE,
            46 => ftdi_eeprom_value::CLOCK_POLARITY,
            47 => ftdi_eeprom_value::DATA_ORDER,
            48 => ftdi_eeprom_value::FLOW_CONTROL,
            49 => ftdi_eeprom_value::CHANNEL_C_DRIVER,
            50 => ftdi_eeprom_value::CHANNEL_D_DRIVER,
            51 => ftdi_eeprom_value::CHANNEL_A_RS485,
            52 => ftdi_eeprom_value::CHANNEL_B_RS485,
            53 => ftdi_eeprom_value::CHANNEL_C_RS485,
            54 => ftdi_eeprom_value::CHANNEL_D_RS485,
            55 => ftdi_eeprom_value::RELEASE_NUMBER,
            56 => ftdi_eeprom_value::EXTERNAL_OSCILLATOR,
            _ => ftdi_eeprom_value::USER_DATA_ADDR,
        }
    }

    /// The numeric code of the value.
    pub fn as_u8(self) -> (r: u8)
        ensures
            r == self.code(),
    {
        match self {
            ftdi_eeprom_value::VENDOR_ID => 0,
            ftdi_eeprom_value::PRODUCT_ID => 1,
            ftdi_eeprom_value::SELF_POWERED => 2,
            ftdi_eeprom_value::REMOTE_WAKEUP => 3,
            ftdi_eeprom_value::IS_NOT_PNP => 4,
            ftdi_eeprom_value::SUSPEND_DBUS7 => 5,
            ftdi_eeprom_value::IN_IS_ISOCHRONOUS => 6,
            ftdi_eeprom_value::OUT_IS_ISOCHRONOUS => 7,
            ftdi_eeprom_value::SUSPEND_PULL_DOWNS => 8,
            ftdi_eeprom_value::USE_SERIAL => 9,
            ftdi_eeprom_value::USB_VERSION => 10,
            ftdi_eeprom_value::USE_USB_VERSION => 11,
            ftdi_eeprom_value::MAX_POWER => 12,
            ftdi_eeprom_value::CHANNEL_A_TYPE => 13,
            ftdi_eeprom_value::CHANNEL_B_TYPE => 14,
            ftdi_eeprom_value::CHANNEL_A_DRIVER => 15,
            ftdi_eeprom_value::CHANNEL_B_DRIVER => 16,
            ftdi_eeprom_value::CBUS_FUNCTION_0 => 17,
            ftdi_eeprom_value::CBUS_FUNCTION_1 => 18,
            ftdi_eeprom_value::CBUS_FUNCTION_2 => 19,
            ftdi_eeprom_value::CBUS_FUNCTION_3 => 20,
            ftdi_eeprom_value::CBUS_FUNCTION_4 => 21,
            ftdi_eeprom_value::CBUS_FUNCTION_5 => 22,
            ftdi_eeprom_value::CBUS_FUNCTION_6 => 23,
            ftdi_eeprom_value::CBUS_FUNCTION_7 => 24,
            ftdi_eeprom_value::CBUS_FUNCTION_8 => 25,
            ftdi_eeprom_value::CBUS_FUNCTION_9 => 26,
            ftdi_eeprom_value::HIGH_CURRENT => 27,
            ftdi_eeprom_value::HIGH_CURRENT_A => 28,
            ftdi_eeprom_value::HIGH_CURRENT_B => 29,
            ftdi_eeprom_value::INVERT => 30,
            ftdi_eeprom_value::GROUP0_DRIVE => 31,
            ftdi_eeprom_value::GROUP0_SCHMITT => 32,
            ftdi_eeprom_value::GROUP0_SLEW => 33,
            ftdi_eeprom_value::GROUP1_DRIVE => 34,
            ftdi_eeprom_value::GROUP1_SCHMITT => 35,
            ftdi_eeprom_value::GROUP1_SLEW => 36,
            ftdi_eeprom_value::GROUP2_DRIVE => 37,
            ftdi_eeprom_value::GROUP2_SCHMITT => 38,
            ftdi_eeprom_value::GROUP2_SLEW => 39,
            ftdi_eeprom_value::GROUP3_DRIVE => 40,
            ftdi_eeprom_value::GROUP3_SCHMITT => 41,
            ftdi_eeprom_value::GROUP3_SLEW => 42,
            ftdi_eeprom_value::CHIP_SIZE => 43,
            ftdi_eeprom_value::CHIP_TYPE => 44,
            ftdi_eeprom_value::POWER_SAVE => 45,
            ftdi_eeprom_value::CLOCK_POLARITY => 46,
            ftdi_eeprom_value::DATA_ORDER => 47,
            ftdi_eeprom_value::FLOW_CONTROL => 48,
            ftdi_eeprom_value::CHANNEL_C_DRIVER => 49,
            ftdi_eeprom_value::CHANNEL_D_DRIVER => 50,
            ftdi_eeprom_value::CHANNEL_A_RS485 => 51,
            ftdi_eeprom_value::CHANNEL_B_RS485 => 52,
            ftdi_eeprom_value::CHANNEL_C_RS485 => 53,
            ftdi_eeprom_value::CHANNEL_D_RS485 => 54,
            ftdi_eeprom_value::RELEASE_NUMBER => 55,
            ftdi_eeprom_value::EXTERNAL_OSCILLATOR => 56,
            ftdi_eeprom_value::USER_DATA_ADDR => 57,
        }
    }
}

} // verus!
