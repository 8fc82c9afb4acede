//! The device context: the state of one FTDI device as the library keeps it,
//! and the decisions of its configuration operations.
//!
//! The USB transport is driven by the caller. An operation that needs the
//! transport hands back the request to make, and a second call takes the
//! transport's status and applies the outcome to the context.
use vstd::prelude::*;
use crate::baudrate::{
    achieved_for, baudrate_accepted, divisor_index, divisor_value, encoded_divisor_for,
    ftdi_baudrate_within_tolerance, ftdi_convert_baudrate,
};
use crate::constants::{
    FTDI_DEVICE_IN_REQTYPE, SIO_READ_EEPROM_REQUEST, ftdi_bits_type, ftdi_break_type, ftdi_chip_type, ftdi_interface, ftdi_module_detach_mode,
    ftdi_parity_type, ftdi_stopbits_type, FTDI_DEVICE_OUT_REQTYPE, READ_BUFFER_CHUNKSIZE,
    READ_BUFFER_CHUNKSIZE_LINUX_LOW_KERNEL, SIO_RESET_PURGE_RX, SIO_RESET_PURGE_TX,
    SIO_RESET_REQUEST, SIO_RESET_SIO, SIO_SET_BAUDRATE_REQUEST, SIO_SET_DATA_REQUEST,
    SIO_TCIFLUSH, SIO_TCOFLUSH, WRITE_BUFFER_CHUNKSIZE,
};
use crate::eeprom::ftdi_eeprom;
use crate::error::{sys_init_error_code, ErrorKind, FtdiContextError};

verus! {

/// The largest bulk transfer that the transport takes in one request.
pub const MAX_BULK_BUFFER_LENGTH: u32 = 16384;

/// Default read and write timeout, in milliseconds.
pub const DEFAULT_TIMEOUT_MS: i32 = 5000;

/// Kernels up to 2.6.32 split larger bulk reads into several transfers.
pub open spec fn is_low_kernel(version: Option<(u64, u64, u64)>) -> bool {
    match version {
        Some((major, minor, patch)) => major < 2 || (major == 2 && (minor < 6 || (minor == 6
            && patch <= 32))),
        None => false,
    }
}

/// The read chunk size for a kernel version: the default, held to at most
/// `READ_BUFFER_CHUNKSIZE_LINUX_LOW_KERNEL` on kernels up to 2.6.32 (the
/// largest bulk read that such a kernel takes in one transfer).
pub open spec fn read_chunk_size(version: Option<(u64, u64, u64)>) -> u32 {
    if is_low_kernel(version) && READ_BUFFER_CHUNKSIZE_LINUX_LOW_KERNEL < READ_BUFFER_CHUNKSIZE {
        READ_BUFFER_CHUNKSIZE_LINUX_LOW_KERNEL
    } else {
        READ_BUFFER_CHUNKSIZE
    }
}

/// The read chunk size for a kernel version.
pub fn check_and_calculate_buffer_size(version: Option<(u64, u64, u64)>) -> (r: u32)
    ensures
        r == read_chunk_size(version),
        0 < r <= READ_BUFFER_CHUNKSIZE,
{
    let low = match version {
        Some((major, minor, patch)) => major < 2 || (major == 2 && (minor < 6 || (minor == 6
            && patch <= 32))),
        None => false,
    };
    if low && READ_BUFFER_CHUNKSIZE_LINUX_LOW_KERNEL < READ_BUFFER_CHUNKSIZE {
        READ_BUFFER_CHUNKSIZE_LINUX_LOW_KERNEL
    } else {
        READ_BUFFER_CHUNKSIZE
    }
}

/// A vendor control request to the device, with no data stage.
#[derive(Copy, Clone, PartialEq, Eq, Structural, Debug)]
pub struct ControlRequest {
    pub request_type: u8,
    pub request: u8,
    pub value: u16,
    pub index: u16,
    pub timeout: i32,
}

/// The four purge and flush requests.
#[derive(Copy, Clone, PartialEq, Eq, Structural, Debug)]
pub enum PurgeKind {
    /// Clears the chip's receive buffer and the internal read buffer.
    TciFlush,
    /// Clears the chip's buffer at purge value 1 and the internal read buffer.
    PurgeRx,
    /// Clears the chip's transmit buffer and the internal read buffer.
    TcoFlush,
    /// Clears the chip's buffer at purge value 2.
    PurgeTx,
}

impl PurgeKind {
    /// The value of the reset request.
    pub open spec fn request_value(self) -> u16 {
        match self {
            PurgeKind::TciFlush => SIO_TCIFLUSH,
            PurgeKind::PurgeRx => SIO_RESET_PURGE_RX,
            PurgeKind::TcoFlush => SIO_TCOFLUSH,
            PurgeKind::PurgeTx => SIO_RESET_PURGE_TX,
        }
    }

    /// Whether the internal read buffer is emptied too.
    pub open spec fn clears_read_buffer(self) -> bool {
        self != PurgeKind::PurgeTx
    }
}

/// A baud-rate request and the rate it sets.
#[derive(Copy, Clone, PartialEq, Eq, Structural, Debug)]
pub struct BaudrateRequest {
    pub request: ControlRequest,
    /// The rate requested of the chip (four times the caller's in bit-bang mode).
    pub baudrate: i32,
}

/// The state of one device context.
pub struct ftdi_context {
    /// The transport context is live.
    pub usb_ctx: bool,
    /// A device handle is open.
    pub usb_dev: bool,
    /// usb read timeout, in milliseconds
    pub usb_read_timeout: i32,
    /// usb write timeout, in milliseconds
    pub usb_write_timeout: i32,
    /// The chip generation.
    pub chip_type: ftdi_chip_type,
    /// The baud rate, or -1 while none is set.
    pub baudrate: i32,
    /// bitbang mode state
    pub bitbang_enabled: bool,
    /// The read buffer, `readbuffer_chunksize` bytes.
    pub readbuffer: Vec<u8>,
    /// Where the unread bytes of the read buffer start.
    pub readbuffer_offset: u32,
    /// How many unread bytes the read buffer holds.
    pub readbuffer_remaining: u32,
    /// read buffer chunk size
    pub readbuffer_chunksize: u32,
    /// write buffer chunk size
    pub writebuffer_chunksize: u32,
    /// The endpoint's maximum packet size; each packet read starts with two status bytes.
    pub max_packet_size: u32,
    /// The interface number.
    pub interface: u8,
    /// The interface index of the vendor requests.
    pub index: u8,
    /// The endpoint that data is written to (host to chip).
    pub in_ep: u8,
    /// The endpoint that data is read from (chip to host).
    pub out_ep: u8,
    /// Bitbang mode. 1: (default) Normal bitbang mode, 2: FT2232C SPI bitbang mode
    pub bitbang_mode: u8,
    /// Decoded eeprom structure
    pub eeprom: ftdi_eeprom,
    /// What to do when a kernel driver already holds the device.
    pub module_detach_mode: ftdi_module_detach_mode,
}

/// What the transport has to release when a context is closed, in this order.
#[derive(Copy, Clone, PartialEq, Eq, Structural, Debug)]
pub struct CloseActions {
    /// Close the device handle.
    pub close_handle: bool,
    /// Then tear down the transport context.
    pub exit_context: bool,
}

/// The endpoint facts that decide the maximum packet size.
#[derive(Copy, Clone, PartialEq, Eq, Structural, Debug)]
pub struct EndpointInfo {
    pub num_configurations: u8,
    pub num_interfaces: u8,
    pub num_altsettings: i32,
    pub num_endpoints: u8,
    pub max_packet_size: u16,
}

/// The chip generation that a device's `bcdDevice` names. A BM chip
/// without a serial number reports 0x200 like an AM chip.
pub open spec fn chip_type_of(bcd_device: u16, serial_number_index: u8) -> Option<ftdi_chip_type> {
    if bcd_device == 0x400 || (bcd_device == 0x200 && serial_number_index == 0) {
        Some(ftdi_chip_type::TYPE_BM)
    } else if bcd_device == 0x200 {
        Some(ftdi_chip_type::TYPE_AM)
    } else if bcd_device == 0x500 {
        Some(ftdi_chip_type::TYPE_2232C)
    } else if bcd_device == 0x600 {
        Some(ftdi_chip_type::TYPE_R)
    } else if bcd_device == 0x700 {
        Some(ftdi_chip_type::TYPE_2232H)
    } else if bcd_device == 0x800 {
        Some(ftdi_chip_type::TYPE_4232H)
    } else if bcd_device == 0x900 {
        Some(ftdi_chip_type::TYPE_232H)
    } else if bcd_device == 0x1000 {
        Some(ftdi_chip_type::TYPE_230X)
    } else {
        None
    }
}

/// The chip generation of a device, or `None` for an unknown `bcdDevice`.
pub fn chip_type_from_bcd(bcd_device: u16, serial_number_index: u8) -> (r: Option<ftdi_chip_type>)
    ensures
        r == chip_type_of(bcd_device, serial_number_index),
{
    if bcd_device == 0x400 || (bcd_device == 0x200 && serial_number_index == 0) {
        Some(ftdi_chip_type::TYPE_BM)
    } else if bcd_device == 0x200 {
        Some(ftdi_chip_type::TYPE_AM)
    } else if bcd_device == 0x500 {
        Some(ftdi_chip_type::TYPE_2232C)
    } else if bcd_device == 0x600 {
        Some(ftdi_chip_type::TYPE_R)
    } else if bcd_device == 0x700 {
        Some(ftdi_chip_type::TYPE_2232H)
    } else if bcd_device == 0x800 {
        Some(ftdi_chip_type::TYPE_4232H)
    } else if bcd_device == 0x900 {
        Some(ftdi_chip_type::TYPE_232H)
    } else if bcd_device == 0x1000 {
        Some(ftdi_chip_type::TYPE_230X)
    } else {
        None
    }
}

/// The interface number, request index and the read and write endpoints of
/// each interface. ANY and A share the first interface; B, C and D each add
/// one to the numbers and two to both endpoints.
pub open spec fn interface_table(i: ftdi_interface) -> (u8, u8, u8, u8) {
    match i {
        ftdi_interface::INTERFACE_ANY => (0, 1, 0x02, 0x81),
        ftdi_interface::INTERFACE_A => (0, 1, 0x02, 0x81),
        ftdi_interface::INTERFACE_B => (1, 2, 0x04, 0x83),
        ftdi_interface::INTERFACE_C => (2, 3, 0x06, 0x85),
        ftdi_interface::INTERFACE_D => (3, 4, 0x08, 0x87),
    }
}

/// The packet size when the endpoint cannot be read: 512 on the high-speed
/// chips, 64 on the others.
pub open spec fn default_packet_size(chip: ftdi_chip_type) -> u32 {
    if crate::baudrate::is_h_type(chip) {
        512
    } else {
        64
    }
}

/// The bits of the set-line-property request: the data bits in bits 0-7,
/// parity in bits 8-10, stop bits in bits 11-12, break in bit 14.
pub open spec fn line_property_value(
    bits: ftdi_bits_type,
    sbit: ftdi_stopbits_type,
    parity: ftdi_parity_type,
    break_type: ftdi_break_type,
) -> int {
    bits.code() + parity.code() * 0x100 + sbit.code() * 0x800 + break_type.code() * 0x4000
}

/// Packs the line properties into the value of the set-line-property request.
pub fn encode_line_property(
    bits: ftdi_bits_type,
    sbit: ftdi_stopbits_type,
    parity: ftdi_parity_type,
    break_type: ftdi_break_type,
) -> (r: u16)
    ensures
        r as int == line_property_value(bits, sbit, parity, break_type),
        r & 0xff == bits.code(),
        (r >> 8) & 7 == parity.code(),
        (r >> 11) & 3 == sbit.code(),
        (r >> 14) & 1 == break_type.code(),
        r & 0xa000 == 0,
{
    let b = bits.as_u8() as u16;
    let p = parity.as_u8() as u16;
    let s = sbit.as_u8() as u16;
    let k = break_type.as_u8() as u16;
    let r = b | (p << 8) | (s << 11) | (k << 14);
    assert(r == b + p * 0x100 + s * 0x800 + k * 0x4000 && r & 0xff == b && (r >> 8) & 7 == p && (r
        >> 11) & 3 == s && (r >> 14) & 1 == k && r & 0xa000 == 0) by (bit_vector)
        requires
            b <= 8,
            p <= 4,
            s <= 2,
            k <= 1,
            r == b | (p << 8) | (s << 11) | (k << 14),
    ;
    r
}

impl ftdi_context {
    /// The context's invariant.
    pub open spec fn wf(&self) -> bool {
        &&& self.usb_dev ==> self.usb_ctx
        &&& 0 < self.readbuffer_chunksize <= MAX_BULK_BUFFER_LENGTH
        &&& 0 < self.writebuffer_chunksize <= MAX_BULK_BUFFER_LENGTH
        &&& self.readbuffer@.len() == self.readbuffer_chunksize
        &&& self.readbuffer_offset + self.readbuffer_remaining <= self.readbuffer_chunksize
        &&& self.baudrate == -1 || self.baudrate > 0
        &&& self.eeprom.wf()
    }

    /// The context with its device handle closed.
    pub open spec fn closed(self) -> ftdi_context {
        ftdi_context {
            usb_dev: false,
            eeprom: ftdi_eeprom { initialized_for_connected_device: false, ..self.eeprom },
            ..self
        }
    }

    /// The state of a new context whose transport came up, on a kernel whose
    /// read chunk size is `chunk_size`.
    pub open spec fn initial(self, chunk_size: u32) -> bool {
        &&& self.wf()
        &&& self.usb_ctx && !self.usb_dev
        &&& self.usb_read_timeout == DEFAULT_TIMEOUT_MS
        &&& self.usb_write_timeout == DEFAULT_TIMEOUT_MS
        &&& self.chip_type == ftdi_chip_type::TYPE_BM
        &&& self.baudrate == -1
        &&& !self.bitbang_enabled
        &&& self.readbuffer_offset == 0 && self.readbuffer_remaining == 0
        &&& self.readbuffer_chunksize == chunk_size
        &&& self.writebuffer_chunksize == WRITE_BUFFER_CHUNKSIZE
        &&& self.max_packet_size == 0
        &&& self.interface == 0 && self.index == 0 && self.in_ep == 0 && self.out_ep == 0
        &&& self.bitbang_mode == 0
        &&& self.module_detach_mode == ftdi_module_detach_mode::AUTO_DETACH_SIO_MODULE
        &&& self.eeprom.is_blank()
    }

    fn fresh(chunk_size: u32) -> (r: ftdi_context)
        requires
            0 < chunk_size <= MAX_BULK_BUFFER_LENGTH,
        ensures
            r.initial(chunk_size),
    {
        ftdi_context {
            usb_ctx: true,
            usb_dev: false,
            usb_read_timeout: DEFAULT_TIMEOUT_MS,
            usb_write_timeout: DEFAULT_TIMEOUT_MS,
            chip_type: ftdi_chip_type::TYPE_BM,
            baudrate: -1,
            bitbang_enabled: false,
            readbuffer: vec![0u8; chunk_size as usize],
            readbuffer_offset: 0,
            readbuffer_remaining: 0,
            readbuffer_chunksize: chunk_size,
            writebuffer_chunksize: WRITE_BUFFER_CHUNKSIZE,
            max_packet_size: 0,
            interface: 0,
            index: 0,
            in_ep: 0,
            out_ep: 0,
            bitbang_mode: 0,
            eeprom: ftdi_eeprom::new(),
            module_detach_mode: ftdi_module_detach_mode::AUTO_DETACH_SIO_MODULE,
        }
    }

    /// The initialization error for a status code of the USB transport.
    pub fn get_usb_sys_init_error(err: i32) -> (r: FtdiContextError)
        ensures
            r.is(ErrorKind::Init, sys_init_error_code(err) as int),
    {
        let (code, message) = match err {
            0 => (0, "success"),
            -1 => (-1, "I/O error"),
            -2 => (-2, "invalid parameter"),
            -3 => (-3, "access denied"),
            -4 => (-4, "no such device"),
            -5 => (-5, "entity not found"),
            -6 => (-6, "resource busy"),
            -7 => (-7, "operation timed out"),
            -8 => (-8, "overflow error"),
            -9 => (-9, "pipe error"),
            -10 => (-10, "system call interrupted"),
            -11 => (-11, "insufficient memory"),
            -12 => (-12, "operation not supported"),
            -99 => (-99, "other error"),
            _ => (-1000, "unknown error"),
        };
        FtdiContextError::new(ErrorKind::Init, code, message)
    }

    /// A new context, given the status with which the transport context came
    /// up (0 for success) and the running kernel's version, where known. A
    /// failed bring-up is reported as the classified initialization error of
    /// the status.
    pub fn new(init_status: i32, kernel: Option<(u64, u64, u64)>) -> (r: Result<
        ftdi_context,
        FtdiContextError,
    >)
        ensures
            r is Err <==> init_status != 0,
            r matches Err(e) ==> e.is(
                ErrorKind::Init,
                sys_init_error_code(init_status) as int,
            ),
            r matches Ok(c) ==> c.initial(read_chunk_size(kernel)),
    {
        if init_status != 0 {
            return Err(ftdi_context::get_usb_sys_init_error(init_status));
        }
        let chunk_size = check_and_calculate_buffer_size(kernel);
        Ok(ftdi_context::fresh(chunk_size))
    }

    /// Selects the interface: its number, request index and endpoints, as
    /// `interface_table` gives them. Sets the bit-bang mode to 1.
    pub fn ftdi_set_interface(&mut self, interface_type: ftdi_interface)
        ensures
            ({
                let (n, i, rd, wr) = interface_table(interface_type);
                *final(self) == ftdi_context {
                    interface: n,
                    index: i,
                    in_ep: rd,
                    out_ep: wr,
                    bitbang_mode: 1,
                    ..*old(self)
                }
            }),
    {
        let (n, i, rd, wr): (u8, u8, u8, u8) = match interface_type {
            ftdi_interface::INTERFACE_ANY | ftdi_interface::INTERFACE_A => (0, 1, 0x02, 0x81),
            ftdi_interface::INTERFACE_B => (1, 2, 0x04, 0x83),
            ftdi_interface::INTERFACE_C => (2, 3, 0x06, 0x85),
            ftdi_interface::INTERFACE_D => (3, 4, 0x08, 0x87),
        };
        self.interface = n;
        self.index = i;
        self.in_ep = rd;
        self.out_ep = wr;
        self.bitbang_mode = 1;
    }

    /// Fails unless the transport context is live.
    pub fn check_usb_context_initialized(&self) -> (r: Result<(), FtdiContextError>)
        ensures
            r is Ok <==> self.usb_ctx,
            r matches Err(e) ==> e.is(ErrorKind::Init, -8),
    {
        if !self.usb_ctx {
            return Err(
                FtdiContextError::new(
                    ErrorKind::Init,
                    -8,
                    "ftdi context is not initialized previously",
                ),
            );
        }
        Ok(())
    }

    /// Fails unless a device handle is open.
    pub fn check_usb_device(&self) -> (r: Result<(), FtdiContextError>)
        ensures
            r is Ok <==> self.usb_dev,
            r matches Err(e) ==> e.is(ErrorKind::Init, -2),
    {
        if !self.usb_dev {
            return Err(FtdiContextError::new(ErrorKind::Init, -2, "USB device unavailable"));
        }
        Ok(())
    }

    /// What closing the handle does: the context after it, and whether a
    /// handle was there for the transport to close.
    pub open spec fn close_outcome(self) -> (ftdi_context, bool) {
        if self.usb_dev {
            (self.closed(), true)
        } else {
            (self, false)
        }
    }

    /// Forgets the device handle. The result says whether there was one,
    /// which the transport must then close; with none this does nothing.
    pub fn ftdi_usb_close_internal(&mut self) -> (r: bool)
        ensures
            (*final(self), r) == old(self).close_outcome(),
    {
        if self.usb_dev {
            self.usb_dev = false;
            self.eeprom.initialized_for_connected_device = false;
            true
        } else {
            false
        }
    }

    /// Closes the context: first the device handle, if any, then the
    /// transport context, if live. Closing again does nothing.
    pub fn ftdi_deinit(&mut self) -> (r: CloseActions)
        requires
            old(self).wf(),
        ensures
            r.close_handle == old(self).usb_dev,
            r.exit_context == old(self).usb_ctx,
            *final(self) == (ftdi_context { usb_ctx: false, ..old(self).close_outcome().0 }),
            final(self).wf(),
    {
        let close_handle = self.ftdi_usb_close_internal();
        let exit_context = self.usb_ctx;
        self.usb_ctx = false;
        CloseActions { close_handle, exit_context }
    }

    fn reset_request(&self, value: u16) -> (r: ControlRequest)
        ensures
            r == (ControlRequest {
                request_type: FTDI_DEVICE_OUT_REQTYPE,
                request: SIO_RESET_REQUEST,
                value,
                index: self.index as u16,
                timeout: self.usb_write_timeout,
            }),
    {
        ControlRequest {
            request_type: FTDI_DEVICE_OUT_REQTYPE,
            request: SIO_RESET_REQUEST,
            value,
            index: self.index as u16,
            timeout: self.usb_write_timeout,
        }
    }

    /// The request that resets the device; it needs an open handle.
    pub fn ftdi_usb_reset(&self) -> (r: Result<ControlRequest, FtdiContextError>)
        ensures
            r is Ok <==> self.usb_dev,
            r matches Err(e) ==> e.is(ErrorKind::Init, -2),
            r matches Ok(q) ==> q == self.reset_request_spec(SIO_RESET_SIO),
    {
        self.check_usb_device()?;
        Ok(self.reset_request(SIO_RESET_SIO))
    }

    /// The reset request with the given value.
    pub open spec fn reset_request_spec(&self, value: u16) -> ControlRequest {
        ControlRequest {
            request_type: FTDI_DEVICE_OUT_REQTYPE,
            request: SIO_RESET_REQUEST,
            value,
            index: self.index as u16,
            timeout: self.usb_write_timeout,
        }
    }

    /// Applies the transport's status of the reset request: a negative status
    /// fails; otherwise the read buffer is emptied.
    pub fn ftdi_usb_reset_done(&mut self, status: i32) -> (r: Result<(), FtdiContextError>)
        ensures
            r is Ok <==> status >= 0,
            r matches Err(e) ==> e.is(ErrorKind::Command, -1),
            *final(self) == if status >= 0 {
                ftdi_context { readbuffer_offset: 0, readbuffer_remaining: 0, ..*old(self) }
            } else {
                *old(self)
            },
    {
        if status < 0 {
            return Err(FtdiContextError::new(ErrorKind::Command, -1, "FTDI reset failed"));
        }
        self.readbuffer_offset = 0;
        self.readbuffer_remaining = 0;
        Ok(())
    }

    fn purge_request(&self, kind: PurgeKind) -> (r: Result<ControlRequest, FtdiContextError>)
        ensures
            r is Ok <==> self.usb_dev,
            r matches Err(e) ==> e.is(ErrorKind::Init, -2),
            r matches Ok(q) ==> q == self.reset_request_spec(kind.request_value()),
    {
        self.check_usb_device()?;
        let value = match kind {
            PurgeKind::TciFlush => SIO_TCIFLUSH,
            PurgeKind::PurgeRx => SIO_RESET_PURGE_RX,
            PurgeKind::TcoFlush => SIO_TCOFLUSH,
            PurgeKind::PurgeTx => SIO_RESET_PURGE_TX,
        };
        Ok(self.reset_request(value))
    }

    /// The request that clears the chip's receive buffer; on success
    /// `ftdi_purge_done` also empties the internal read buffer.
    pub fn ftdi_tciflush(&self) -> (r: Result<ControlRequest, FtdiContextError>)
        ensures
            r is Ok <==> self.usb_dev,
            r matches Err(e) ==> e.is(ErrorKind::Init, -2),
            r matches Ok(q) ==> q == self.reset_request_spec(SIO_TCIFLUSH),
    {
        self.purge_request(PurgeKind::TciFlush)
    }

    /// The request that purges the chip's buffer at value 1; on success
    /// `ftdi_purge_done` also empties the internal read buffer.
    pub fn ftdi_usb_purge_rx_buffer(&self) -> (r: Result<ControlRequest, FtdiContextError>)
        ensures
            r is Ok <==> self.usb_dev,
            r matches Err(e) ==> e.is(ErrorKind::Init, -2),
            r matches Ok(q) ==> q == self.reset_request_spec(SIO_RESET_PURGE_RX),
    {
        self.purge_request(PurgeKind::PurgeRx)
    }

    /// The request that clears the chip's transmit buffer.
    pub fn ftdi_tcoflush(&self) -> (r: Result<ControlRequest, FtdiContextError>)
        ensures
            r is Ok <==> self.usb_dev,
            r matches Err(e) ==> e.is(ErrorKind::Init, -2),
            r matches Ok(q) ==> q == self.reset_request_spec(SIO_TCOFLUSH),
    {
        self.purge_request(PurgeKind::TcoFlush)
    }

    /// The request that purges the chip's buffer at value 2.
    pub fn ftdi_usb_purge_tx_buffer(&self) -> (r: Result<ControlRequest, FtdiContextError>)
        ensures
            r is Ok <==> self.usb_dev,
            r matches Err(e) ==> e.is(ErrorKind::Init, -2),
            r matches Ok(q) ==> q == self.reset_request_spec(SIO_RESET_PURGE_TX),
    {
        self.purge_request(PurgeKind::PurgeTx)
    }

    /// The two requests that clear both of the chip's buffers and the
    /// internal read buffer: the transmit flush, then the receive flush.
    pub fn ftdi_tcioflush(&self) -> (r: Result<(ControlRequest, ControlRequest), FtdiContextError>)
        ensures
            r is Ok <==> self.usb_dev,
            r matches Err(e) ==> e.is(ErrorKind::Init, -2),
            r matches Ok(q) ==> q.0 == self.reset_request_spec(SIO_TCOFLUSH) && q.1
                == self.reset_request_spec(SIO_TCIFLUSH),
    {
        let first = self.ftdi_tcoflush()?;
        let second = self.ftdi_tciflush()?;
        Ok((first, second))
    }

    /// The two purge requests, receive side first.
    pub fn ftdi_usb_purge_buffers(&self) -> (r: Result<
        (ControlRequest, ControlRequest),
        FtdiContextError,
    >)
        ensures
            r is Ok <==> self.usb_dev,
            r matches Err(e) ==> e.is(ErrorKind::Init, -2),
            r matches Ok(q) ==> q.0 == self.reset_request_spec(SIO_RESET_PURGE_RX) && q.1
                == self.reset_request_spec(SIO_RESET_PURGE_TX),
    {
        let first = self.ftdi_usb_purge_rx_buffer()?;
        let second = self.ftdi_usb_purge_tx_buffer()?;
        Ok((first, second))
    }

    /// Applies the transport's status of a purge or flush request: a negative
    /// status fails; otherwise the internal read buffer is emptied where the
    /// kind of request says so.
    pub fn ftdi_purge_done(&mut self, kind: PurgeKind, status: i32) -> (r: Result<
        (),
        FtdiContextError,
    >)
        ensures
            r is Ok <==> status >= 0,
            r matches Err(e) ==> e.is(ErrorKind::Command, -1),
            *final(self) == if status >= 0 && kind.clears_read_buffer() {
                ftdi_context { readbuffer_offset: 0, readbuffer_remaining: 0, ..*old(self) }
            } else {
                *old(self)
            },
    {
        if status < 0 {
            let message = match kind {
                PurgeKind::PurgeTx => "FTDI purge of TX buffer failed",
                _ => "FTDI purge of RX buffer failed",
            };
            return Err(FtdiContextError::new(ErrorKind::Command, -1, message));
        }
        match kind {
            PurgeKind::PurgeTx => {},
            _ => {
                self.readbuffer_offset = 0;
                self.readbuffer_remaining = 0;
            },
        }
        Ok(())
    }

    /// The rate asked of the chip for a caller's `baudrate`: four times it in
    /// bit-bang mode.
    pub open spec fn chip_baudrate(&self, baudrate: int) -> int {
        if self.bitbang_enabled {
            baudrate * 4
        } else {
            baudrate
        }
    }

    /// The request that sets `baudrate`. It needs an open handle; a rate
    /// that cannot be encoded (not positive) or whose encoding is not within
    /// the tolerance is refused.
    pub fn ftdi_set_baudrate(&self, baudrate: i32) -> (r: Result<BaudrateRequest, FtdiContextError>)
        ensures
            ({
                let b = self.chip_baudrate(baudrate as int);
                let a = achieved_for(b, self.chip_type);
                let d = encoded_divisor_for(b, self.chip_type);
                &&& !self.usb_dev ==> (r matches Err(e) && e.is(ErrorKind::Init, -2))
                &&& self.usb_dev && (b <= 0 || b > i32::MAX) ==> (r matches Err(e) && e.is(
                    ErrorKind::Common,
                    -1,
                ))
                &&& self.usb_dev && 0 < b <= i32::MAX ==> (r is Ok <==> baudrate_accepted(b, a))
                &&& self.usb_dev ==> (r matches Err(e) ==> e.is(ErrorKind::Common, -1))
                &&& r matches Ok(q) ==> q.baudrate == b && q.request == self.baudrate_request_for(b)
            }),
    {
        self.check_usb_device()?;
        let chip_rate: i64 = if self.bitbang_enabled {
            baudrate as i64 * 4
        } else {
            baudrate as i64
        };
        if chip_rate <= 0 || chip_rate > i32::MAX as i64 {
            return Err(FtdiContextError::new(ErrorKind::Common, -1, "Silly baudrate <= 0."));
        }
        let chip_rate = chip_rate as i32;
        match ftdi_convert_baudrate(chip_rate, self.chip_type, self.index) {
            None => Err(FtdiContextError::new(ErrorKind::Common, -1, "Silly baudrate <= 0.")),
            Some(e) => {
                if !ftdi_baudrate_within_tolerance(chip_rate, e.achieved) {
                    return Err(
                        FtdiContextError::new(
                            ErrorKind::Common,
                            -1,
                            "Unsupported baudrate. Note: bitbang baudrates are automatically multiplied by 4",
                        ),
                    );
                }
                Ok(
                    BaudrateRequest {
                        request: ControlRequest {
                            request_type: FTDI_DEVICE_OUT_REQTYPE,
                            request: SIO_SET_BAUDRATE_REQUEST,
                            value: e.value,
                            index: e.index,
                            timeout: self.usb_write_timeout,
                        },
                        baudrate: chip_rate,
                    },
                )
            },
        }
    }

    /// Applies the transport's status of a baud-rate request: a negative
    /// status fails; otherwise the context records the rate.
    pub fn ftdi_set_baudrate_done(&mut self, request: &BaudrateRequest, status: i32) -> (r: Result<
        (),
        FtdiContextError,
    >)
        ensures
            r is Ok <==> status >= 0,
            r matches Err(e) ==> e.is(ErrorKind::Command, -2),
            *final(self) == if status >= 0 {
                ftdi_context { baudrate: request.baudrate, ..*old(self) }
            } else {
                *old(self)
            },
    {
        if status < 0 {
            return Err(
                FtdiContextError::new(ErrorKind::Command, -2, "Setting new baudrate failed"),
            );
        }
        self.baudrate = request.baudrate;
        Ok(())
    }

    /// The request that sets the line properties, with the break off.
    pub fn ftdi_set_line_property(
        &self,
        bits: ftdi_bits_type,
        sbit: ftdi_stopbits_type,
        parity: ftdi_parity_type,
    ) -> (r: Result<ControlRequest, FtdiContextError>)
        ensures
            r is Ok <==> self.usb_dev,
            r matches Err(e) ==> e.is(ErrorKind::Init, -2),
            r matches Ok(q) ==> q == self.line_property_request(
                bits,
                sbit,
                parity,
                ftdi_break_type::BREAK_OFF,
            ),
    {
        self.ftdi_set_line_property2(bits, sbit, parity, ftdi_break_type::BREAK_OFF)
    }

    /// The set-line-property request for the given properties.
    pub open spec fn line_property_request(
        &self,
        bits: ftdi_bits_type,
        sbit: ftdi_stopbits_type,
        parity: ftdi_parity_type,
        break_type: ftdi_break_type,
    ) -> ControlRequest {
        ControlRequest {
            request_type: FTDI_DEVICE_OUT_REQTYPE,
            request: SIO_SET_DATA_REQUEST,
            value: line_property_value(bits, sbit, parity, break_type) as u16,
            index: self.index as u16,
            timeout: self.usb_write_timeout,
        }
    }

    /// Applies the transport's status of the set-line-property request: a
    /// negative status is the command error -1.
    pub fn ftdi_set_line_property_done(&self, status: i32) -> (r: Result<(), FtdiContextError>)
        ensures
            r is Ok <==> status >= 0,
            r matches Err(e) ==> e.is(ErrorKind::Command, -1) && e.message()
                == "Setting new line property failed"@,
    {
        if status < 0 {
            return Err(
                FtdiContextError::new(ErrorKind::Command, -1, "Setting new line property failed"),
            );
        }
        Ok(())
    }

    /// The request that sets the line properties; it needs an open handle.
    /// `ftdi_set_line_property_done` takes the transport's status for it.
    pub fn ftdi_set_line_property2(
        &self,
        bits: ftdi_bits_type,
        sbit: ftdi_stopbits_type,
        parity: ftdi_parity_type,
        break_type: ftdi_break_type,
    ) -> (r: Result<ControlRequest, FtdiContextError>)
        ensures
            r is Ok <==> self.usb_dev,
            r matches Err(e) ==> e.is(ErrorKind::Init, -2),
            r matches Ok(q) ==> q == self.line_property_request(bits, sbit, parity, break_type),
    {
        self.check_usb_device()?;
        let value = encode_line_property(bits, sbit, parity, break_type);
        Ok(
            ControlRequest {
                request_type: FTDI_DEVICE_OUT_REQTYPE,
                request: SIO_SET_DATA_REQUEST,
                value,
                index: self.index as u16,
                timeout: self.usb_write_timeout,
            },
        )
    }

    /// The packet size of the claimed endpoint, as `ftdi_determine_max_packet_size` finds it.
    pub open spec fn max_packet_size_for(&self, endpoint: Option<EndpointInfo>) -> u32 {
        if !self.usb_dev {
            64
        } else {
            match endpoint {
                Some(e) => if e.num_configurations > 0 && self.interface < e.num_interfaces
                    && e.num_altsettings > 0 && e.num_endpoints > 0 {
                    e.max_packet_size as u32
                } else {
                    default_packet_size(self.chip_type)
                },
                None => default_packet_size(self.chip_type),
            }
        }
    }

    /// The request that `ftdi_set_baudrate` makes for the chip rate `b`.
    pub open spec fn baudrate_request_for(&self, b: int) -> ControlRequest {
        let d = encoded_divisor_for(b, self.chip_type);
        ControlRequest {
            request_type: FTDI_DEVICE_OUT_REQTYPE,
            request: SIO_SET_BAUDRATE_REQUEST,
            value: divisor_value(d) as u16,
            index: divisor_index(d, self.chip_type, self.index as int) as u16,
            timeout: self.usb_write_timeout,
        }
    }

    /// The maximum packet size of the claimed endpoint: the endpoint's own
    /// where the descriptors show it, else the chip's default; 64 with no
    /// device handle.
    pub fn ftdi_determine_max_packet_size(&self, endpoint: Option<EndpointInfo>) -> (r: u32)
        ensures
            r == self.max_packet_size_for(endpoint),
    {
        if !self.usb_dev {
            return 64;
        }
        let default_size: u32 = match self.chip_type {
            ftdi_chip_type::TYPE_2232H | ftdi_chip_type::TYPE_4232H | ftdi_chip_type::TYPE_232H => 512,
            _ => 64,
        };
        match endpoint {
            Some(e) => {
                if e.num_configurations > 0 && self.interface < e.num_interfaces
                    && e.num_altsettings > 0 && e.num_endpoints > 0 {
                    e.max_packet_size as u32
                } else {
                    default_size
                }
            },
            None => default_size,
        }
    }
}

impl Default for ftdi_context {
    /// A context with no transport context and no device: the settings of a
    /// new context, with the default read chunk size.
    fn default() -> (r: ftdi_context)
        ensures
            r.wf(),
            !r.usb_ctx && !r.usb_dev,
            (ftdi_context { usb_ctx: true, ..r }).initial(READ_BUFFER_CHUNKSIZE),
    {
        let mut c = ftdi_context::fresh(READ_BUFFER_CHUNKSIZE);
        c.usb_ctx = false;
        c
    }
}

/// The bit shuffle of one byte of the FTDIChip-ID.
pub open spec fn chipid_shift(value: u32) -> u32 {
    ((value & 1) << 1) | ((value & 2) << 5) | ((value & 4) >> 2) | ((value & 8) << 4) | ((value
        & 16) >> 1) | ((value & 32) >> 1) | ((value & 64) >> 4) | ((value & 128) >> 2)
}

/// Shuffles the bits of the low byte of `value` into chip-ID order.
pub fn ftdi_read_chipid_shift(value: u32) -> (r: u32)
    ensures
        r == chipid_shift(value),
{
    ((value & 1) << 1) | ((value & 2) << 5) | ((value & 4) >> 2) | ((value & 8) << 4) | ((value
        & 16) >> 1) | ((value & 32) >> 1) | ((value & 64) >> 4) | ((value & 128) >> 2)
}

/// The FTDIChip-ID from the two 16-bit words read at EEPROM addresses
/// 0x43 and 0x44: each word turned, the two joined, each byte shuffled,
/// and the whole xor-ed with 0xa5f0f7d1.
pub open spec fn chipid_of(first: u16, second: u16) -> u32 {
    let a = first as u32;
    let b = second as u32;
    let a = (a << 8) | (a >> 8);
    let b = (b << 8) | (b >> 8);
    let w = (a << 16) | (b & 0xffff);
    (chipid_shift(w) | (chipid_shift(w >> 8) << 8) | (chipid_shift(w >> 16) << 16) | (
    chipid_shift(w >> 24) << 24)) ^ 0xa5f0f7d1
}

impl ftdi_context {
    /// The two requests that read the words of the FTDIChip-ID (R-type
    /// chips): EEPROM reads at 0x43 and 0x44 of two bytes each. They need
    /// an open handle.
    pub fn ftdi_read_chipid_requests(&self) -> (r: Result<
        (ControlRequest, ControlRequest),
        FtdiContextError,
    >)
        ensures
            r is Ok <==> self.usb_dev,
            r matches Err(e) ==> e.is(ErrorKind::Init, -2),
            r matches Ok(q) ==> q.0 == (ControlRequest {
                request_type: FTDI_DEVICE_IN_REQTYPE,
                request: SIO_READ_EEPROM_REQUEST,
                value: 0,
                index: 0x43,
                timeout: self.usb_read_timeout,
            }) && q.1 == (ControlRequest { index: 0x44, ..q.0 }),
    {
        self.check_usb_device()?;
        let first = ControlRequest {
            request_type: FTDI_DEVICE_IN_REQTYPE,
            request: SIO_READ_EEPROM_REQUEST,
            value: 0,
            index: 0x43,
            timeout: self.usb_read_timeout,
        };
        Ok((first, ControlRequest { index: 0x44, ..first }))
    }

    /// The FTDIChip-ID from the words that the two requests read; `None`
    /// for a read that did not return its two bytes, which fails with the
    /// command error -1.
    pub fn ftdi_read_chipid(&self, first: Option<u16>, second: Option<u16>) -> (r: Result<
        u32,
        FtdiContextError,
    >)
        ensures
            r is Ok <==> first is Some && second is Some,
            r matches Err(e) ==> e.is(ErrorKind::Command, -1),
            r matches Ok(id) ==> id == chipid_of(first->0, second->0),
    {
        match (first, second) {
            (Some(x), Some(y)) => {
                let a = x as u32;
                let b = y as u32;
                let a = (a << 8) | (a >> 8);
                let b = (b << 8) | (b >> 8);
                let w = (a << 16) | (b & 0xffff);
                let id = (ftdi_read_chipid_shift(w) | (ftdi_read_chipid_shift(w >> 8) << 8) | (
                ftdi_read_chipid_shift(w >> 16) << 16) | (ftdi_read_chipid_shift(w >> 24) << 24))
                    ^ 0xa5f0f7d1;
                Ok(id)
            },
            _ => Err(FtdiContextError::new(ErrorKind::Command, -1, "read of FTDIChip-ID failed")),
        }
    }
}

} // verus!
