//! The sequence that opens and claims a device, as a state machine.
//!
//! The caller starts it with `ftdi_usb_open_dev`, performs each
//! requested transport operation and hands its outcome to
//! `ftdi_usb_open_dev_step`, until the sequence is done or fails. A failure
//! after the handle was opened always asks for the handle to be closed and
//! leaves the context without one.
use vstd::prelude::*;
use crate::baudrate::{achieved_for, baudrate_accepted};
use crate::context::{
    chip_type_of, BaudrateRequest, ControlRequest, EndpointInfo, ftdi_context,
};
use crate::constants::{ftdi_module_detach_mode, FTDI_DEVICE_OUT_REQTYPE, SIO_RESET_SIO};
use crate::error::{ErrorKind, FtdiContextError};

verus! {

/// The transport's status for a request refused for lack of permission.
pub const TRANSPORT_ERROR_ACCESS: i32 = -3;

/// The baud rate that a freshly opened device is set to.
pub const OPEN_BAUDRATE: i32 = 9600;

/// The device descriptor fields that the open sequence reads.
#[derive(Copy, Clone, PartialEq, Eq, Structural, Debug)]
pub struct DeviceDescriptorInfo {
    pub vendor_id: u16,
    pub product_id: u16,
    pub bcd_device: u16,
    pub serial_number_index: u8,
    pub num_configurations: u8,
}

/// The step whose outcome the sequence waits for.
#[derive(Copy, Clone, PartialEq, Eq, Structural, Debug)]
pub enum OpenStep {
    OpenHandle,
    ReadDescriptors,
    Detach,
    GetConfiguration,
    SetConfiguration,
    ClaimInterface,
    Reset,
    ReadEndpoint,
    SetBaudrate,
    Finished,
}

/// What the transport reported for the last request.
#[derive(Copy, Clone, PartialEq, Eq, Structural, Debug)]
pub enum OpenOutcome {
    /// The status of a request that returns nothing else.
    Status(i32),
    /// The statuses of reading the device descriptor and the first
    /// configuration descriptor, and what they hold.
    Descriptors {
        descriptor_status: i32,
        config_status: i32,
        descriptor: DeviceDescriptorInfo,
        config_value: u8,
    },
    /// The status of reading the active configuration, and its value.
    Configuration { status: i32, value: i32 },
    /// The endpoint facts, where the descriptors could be read.
    Endpoint(Option<EndpointInfo>),
}

/// The next thing for the transport to do.
#[derive(Debug)]
pub enum OpenAction {
    /// Open a handle to the device, after closing the one held before if
    /// `close_previous`.
    OpenHandle { close_previous: bool },
    ReadDescriptors,
    DetachKernelDriver { interface: u8 },
    SetAutoDetachKernelDriver,
    GetConfiguration,
    SetConfiguration { value: i32 },
    ClaimInterface { interface: u8 },
    Control(ControlRequest),
    ReadEndpoint { interface: u8 },
    /// The device is open and configured.
    Done,
    /// The sequence failed; close the handle first if `close_handle`.
    Fail { error: FtdiContextError, close_handle: bool },
}

/// The state of an open sequence.
#[derive(Copy, Clone, Debug)]
pub struct OpenProgress {
    pub step: OpenStep,
    pub descriptor: DeviceDescriptorInfo,
    pub config_value: i32,
    pub detach_status: i32,
    pub baudrate: BaudrateRequest,
}

/// Whether `outcome` is the kind of outcome that `step` waits for.
pub open spec fn expects(step: OpenStep, outcome: OpenOutcome) -> bool {
    match step {
        OpenStep::ReadDescriptors => outcome is Descriptors,
        OpenStep::GetConfiguration => outcome is Configuration,
        OpenStep::ReadEndpoint => outcome is Endpoint,
        OpenStep::Finished => false,
        _ => outcome is Status,
    }
}

/// The error when setting the configuration or claiming the interface
/// failed: a refused detach means missing permissions (-8); otherwise the
/// step's own code.
pub open spec fn claim_error_code(detach_status: i32, own_code: int) -> int {
    if detach_status == TRANSPORT_ERROR_ACCESS {
        -8
    } else {
        own_code
    }
}

/// The message of that error: the permission message after a refused
/// detach, the step's own otherwise.
pub open spec fn claim_error_message(detach_status: i32, own: &'static str) -> Seq<char> {
    if detach_status == TRANSPORT_ERROR_ACCESS {
        "inappropriate permissions on device!"@
    } else {
        own@
    }
}

/// The message when setting the configuration fails.
pub open spec fn set_configuration_message() -> &'static str {
    "unable to set usb configuration. Make sure the default FTDI driver is not in use"
}

/// The message when claiming the interface fails.
pub open spec fn claim_message() -> &'static str {
    "unable to claim usb device. Make sure the default FTDI driver is not in use"
}

fn claim_error(detach_status: i32, own_code: i32, message: &'static str) -> (r: FtdiContextError)
    ensures
        r.is(ErrorKind::Command, claim_error_code(detach_status, own_code as int)),
        r.message() == claim_error_message(detach_status, message),
{
    if detach_status == TRANSPORT_ERROR_ACCESS {
        FtdiContextError::new(ErrorKind::Command, -8, "inappropriate permissions on device!")
    } else {
        FtdiContextError::new(ErrorKind::Command, own_code, message)
    }
}

/// The status that an outcome reports; 0 for the descriptor and endpoint outcomes.
pub open spec fn status_of(o: OpenOutcome) -> i32 {
    match o {
        OpenOutcome::Status(s) => s,
        OpenOutcome::Configuration { status, .. } => status,
        _ => 0,
    }
}

/// Whether the set-rate step of the sequence refuses the open rate on the
/// context's chip.
pub open spec fn open_rate_refused(c: ftdi_context) -> bool {
    let b = c.chip_baudrate(OPEN_BAUDRATE as int);
    !baudrate_accepted(b, achieved_for(b, c.chip_type))
}

/// The failure, as error kind and code, of the step that `p` waits for on
/// the outcome `o`; `None` where the step succeeds.
pub open spec fn open_step_failure(p: OpenProgress, c: ftdi_context, o: OpenOutcome) -> Option<
    (ErrorKind, int),
> {
    let s = status_of(o);
    match p.step {
        OpenStep::OpenHandle => if s < 0 {
            Some((ErrorKind::Init, -4))
        } else {
            None
        },
        OpenStep::ReadDescriptors => match o {
            OpenOutcome::Descriptors { descriptor_status, config_status, .. } => {
                if descriptor_status < 0 {
                    Some((ErrorKind::Command, -9))
                } else if config_status < 0 {
                    Some((ErrorKind::Command, -10))
                } else {
                    None
                }
            },
            _ => None,
        },
        OpenStep::Detach => None,
        OpenStep::GetConfiguration => if s < 0 {
            Some((ErrorKind::Init, -12))
        } else {
            None
        },
        OpenStep::SetConfiguration => if s < 0 {
            Some((ErrorKind::Command, claim_error_code(p.detach_status, -8)))
        } else {
            None
        },
        OpenStep::ClaimInterface => if s < 0 {
            Some((ErrorKind::Command, claim_error_code(p.detach_status, -5)))
        } else {
            None
        },
        OpenStep::Reset => if s < 0 {
            Some((ErrorKind::Command, -6))
        } else if chip_type_of(p.descriptor.bcd_device, p.descriptor.serial_number_index) is None {
            Some((ErrorKind::Init, -8))
        } else {
            None
        },
        OpenStep::ReadEndpoint => if open_rate_refused(c) {
            Some((ErrorKind::Common, -1))
        } else {
            None
        },
        OpenStep::SetBaudrate => if s < 0 {
            Some((ErrorKind::Command, -2))
        } else {
            None
        },
        OpenStep::Finished => Some((ErrorKind::Init, -8)),
    }
}

/// The request that follows a step that succeeded on the outcome `o`: after
/// the descriptors, the detach that `module_detach_mode` asks for; after the
/// active configuration, setting the device's own where it differs; after
/// the claim, the reset; after the endpoint, the rate of 9600 baud.
pub open spec fn open_step_next(p: OpenProgress, c: ftdi_context, o: OpenOutcome) -> OpenAction {
    match p.step {
        OpenStep::OpenHandle => OpenAction::ReadDescriptors,
        OpenStep::ReadDescriptors => match c.module_detach_mode {
            ftdi_module_detach_mode::AUTO_DETACH_SIO_MODULE => OpenAction::DetachKernelDriver {
                interface: c.interface,
            },
            ftdi_module_detach_mode::AUTO_DETACH_REATACH_SIO_MODULE => OpenAction::SetAutoDetachKernelDriver,
            ftdi_module_detach_mode::DONT_DETACH_SIO_MODULE => OpenAction::GetConfiguration,
        },
        OpenStep::Detach => OpenAction::GetConfiguration,
        OpenStep::GetConfiguration => match o {
            OpenOutcome::Configuration { value, .. } => if p.descriptor.num_configurations > 0 && value
                != p.config_value {
                OpenAction::SetConfiguration { value: p.config_value }
            } else {
                OpenAction::ClaimInterface { interface: c.interface }
            },
            _ => OpenAction::GetConfiguration,
        },
        OpenStep::SetConfiguration => OpenAction::ClaimInterface { interface: c.interface },
        OpenStep::ClaimInterface => OpenAction::Control(c.reset_request_spec(SIO_RESET_SIO)),
        OpenStep::Reset => OpenAction::ReadEndpoint { interface: c.interface },
        OpenStep::ReadEndpoint => OpenAction::Control(
            c.baudrate_request_for(c.chip_baudrate(OPEN_BAUDRATE as int)),
        ),
        _ => OpenAction::Done,
    }
}

/// The context after a step's own changes, before a failure closes the handle.
pub open spec fn open_step_effect(p: OpenProgress, c: ftdi_context, o: OpenOutcome) -> ftdi_context {
    let s = status_of(o);
    match p.step {
        OpenStep::OpenHandle => if s >= 0 {
            ftdi_context { usb_dev: true, ..c }
        } else {
            c
        },
        OpenStep::Reset => if s >= 0 {
            match chip_type_of(p.descriptor.bcd_device, p.descriptor.serial_number_index) {
                Some(t) => ftdi_context {
                    readbuffer_offset: 0,
                    readbuffer_remaining: 0,
                    chip_type: t,
                    ..c
                },
                None => ftdi_context { readbuffer_offset: 0, readbuffer_remaining: 0, ..c },
            }
        } else {
            c
        },
        OpenStep::ReadEndpoint => match o {
            OpenOutcome::Endpoint(e) => ftdi_context { max_packet_size: c.max_packet_size_for(e), ..c },
            _ => c,
        },
        OpenStep::SetBaudrate => if s >= 0 {
            ftdi_context { baudrate: p.baudrate.baudrate, ..c }
        } else {
            c
        },
        _ => c,
    }
}

/// The progress after a step that succeeded: the step waited for next, and
/// what the step recorded (the descriptors, the detach status, the rate
/// request).
pub open spec fn open_step_progress(p: OpenProgress, c: ftdi_context, o: OpenOutcome) -> OpenProgress {
    match p.step {
        OpenStep::OpenHandle => OpenProgress { step: OpenStep::ReadDescriptors, ..p },
        OpenStep::ReadDescriptors => match o {
            OpenOutcome::Descriptors { descriptor, config_value, .. } => OpenProgress {
                step: if c.module_detach_mode == ftdi_module_detach_mode::DONT_DETACH_SIO_MODULE {
                    OpenStep::GetConfiguration
                } else {
                    OpenStep::Detach
                },
                descriptor,
                config_value: config_value as i32,
                detach_status: 0,
                ..p
            },
            _ => p,
        },
        OpenStep::Detach => OpenProgress {
            step: OpenStep::GetConfiguration,
            detach_status: status_of(o),
            ..p
        },
        OpenStep::GetConfiguration => match o {
            OpenOutcome::Configuration { value, .. } => OpenProgress {
                step: if p.descriptor.num_configurations > 0 && value != p.config_value {
                    OpenStep::SetConfiguration
                } else {
                    OpenStep::ClaimInterface
                },
                ..p
            },
            _ => p,
        },
        OpenStep::SetConfiguration => OpenProgress { step: OpenStep::ClaimInterface, ..p },
        OpenStep::ClaimInterface => OpenProgress { step: OpenStep::Reset, ..p },
        OpenStep::Reset => OpenProgress { step: OpenStep::ReadEndpoint, ..p },
        OpenStep::ReadEndpoint => {
            let b = c.chip_baudrate(OPEN_BAUDRATE as int);
            OpenProgress {
                step: OpenStep::SetBaudrate,
                baudrate: BaudrateRequest { request: c.baudrate_request_for(b), baudrate: b as i32 },
                ..p
            }
        },
        _ => OpenProgress { step: OpenStep::Finished, ..p },
    }
}

impl OpenProgress {
    /// The progress's agreement with the context: once the handle is asked
    /// for, and until the sequence ends, the context holds it.
    /// After the reset the chip generation is known; while the rate is
    /// being set, the request holds the rate for the chip.
    pub open spec fn agrees(&self, c: &ftdi_context) -> bool {
        &&& self.step != OpenStep::Finished ==> c.usb_ctx
        &&& self.step != OpenStep::OpenHandle && self.step != OpenStep::Finished ==> c.usb_dev
        &&& (self.step == OpenStep::ReadEndpoint || self.step == OpenStep::SetBaudrate) ==> Some(
            c.chip_type,
        ) == chip_type_of(self.descriptor.bcd_device, self.descriptor.serial_number_index)
        &&& self.step == OpenStep::SetBaudrate ==> self.baudrate.baudrate == c.chip_baudrate(
            OPEN_BAUDRATE as int,
        ) && self.baudrate.baudrate > 0
    }
}

impl ftdi_context {
    /// Starts opening a device. It fails unless the transport context is
    /// live; a handle held before is closed first.
    pub fn ftdi_usb_open_dev(&mut self) -> (r: (OpenProgress, OpenAction))
        requires
            old(self).wf(),
        ensures
            final(self).wf(),
            r.0.agrees(&*final(self)),
            !final(self).usb_dev,
            old(self).usb_ctx ==> r.0.step == OpenStep::OpenHandle && r.1 == (OpenAction::OpenHandle {
                close_previous: old(self).usb_dev,
            }),
            !old(self).usb_ctx ==> r.0.step == OpenStep::Finished && (r.1 matches OpenAction::Fail {
                error,
                close_handle,
            } && error.is(ErrorKind::Init, -8) && !close_handle),
    {
        let progress = OpenProgress {
            step: OpenStep::Finished,
            descriptor: DeviceDescriptorInfo {
                vendor_id: 0,
                product_id: 0,
                bcd_device: 0,
                serial_number_index: 0,
                num_configurations: 0,
            },
            config_value: 0,
            detach_status: 0,
            baudrate: BaudrateRequest {
                request: ControlRequest {
                    request_type: FTDI_DEVICE_OUT_REQTYPE,
                    request: 0,
                    value: 0,
                    index: 0,
                    timeout: 0,
                },
                baudrate: 0,
            },
        };
        if let Err(error) = self.check_usb_context_initialized() {
            return (progress, OpenAction::Fail { error, close_handle: false });
        }
        let close_previous = self.ftdi_usb_close_internal();
        (OpenProgress { step: OpenStep::OpenHandle, ..progress }, OpenAction::OpenHandle {
            close_previous,
        })
    }

    fn fail_open(&mut self, progress: &mut OpenProgress, error: FtdiContextError) -> (r:
        OpenAction)
        requires
            old(self).wf(),
        ensures
            final(self).wf(),
            *final(self) == if old(self).usb_dev {
                old(self).closed()
            } else {
                *old(self)
            },
            *final(progress) == (OpenProgress { step: OpenStep::Finished, ..*old(progress) }),
            r == (OpenAction::Fail { error, close_handle: old(self).usb_dev }),
    {
        let close_handle = self.ftdi_usb_close_internal();
        progress.step = OpenStep::Finished;
        OpenAction::Fail { error, close_handle }
    }

    /// Takes the outcome of the last request and gives the next one.
    ///
    /// Every failure leaves the context without a handle and asks for the
    /// one it held to be closed. A failure to claim the interface is the
    /// command error -5, or -8 where the kernel driver could not be detached
    /// for lack of permission.
    pub fn ftdi_usb_open_dev_step(&mut self, progress: &mut OpenProgress, outcome: OpenOutcome) -> (r:
        OpenAction)
        requires
            old(self).wf(),
            old(progress).agrees(&*old(self)),
            expects(old(progress).step, outcome),
        ensures
            final(self).wf(),
            final(progress).agrees(&*final(self)),
            final(self).usb_ctx == old(self).usb_ctx,
            r is Fail ==> final(progress).step == OpenStep::Finished && !final(self).usb_dev,
            r matches OpenAction::Fail { close_handle, .. } ==> close_handle == old(self).usb_dev,
            r is Done ==> final(progress).step == OpenStep::Finished && final(self).usb_dev && Some(
                final(self).chip_type,
            ) == chip_type_of(
                final(progress).descriptor.bcd_device,
                final(progress).descriptor.serial_number_index,
            ) && final(self).baudrate == final(self).chip_baudrate(OPEN_BAUDRATE as int),
            !(r is Fail) && !(r is Done) ==> final(progress).step != OpenStep::Finished,
            ({
                let failure = open_step_failure(*old(progress), *old(self), outcome);
                &&& failure matches Some((kind, code)) ==> (r matches OpenAction::Fail { error, .. }
                    && error.is(kind, code))
                &&& failure is None ==> r == open_step_next(*old(progress), *old(self), outcome)
            }),
            ({
                let effect = open_step_effect(*old(progress), *old(self), outcome);
                if open_step_failure(*old(progress), *old(self), outcome) is Some {
                    &&& *final(self) == effect.close_outcome().0
                    &&& *final(progress) == (OpenProgress { step: OpenStep::Finished, ..*old(progress) })
                } else {
                    &&& *final(self) == effect
                    &&& *final(progress) == open_step_progress(*old(progress), *old(self), outcome)
                }
            }),
            old(progress).step == OpenStep::SetConfiguration && status_of(outcome) < 0 ==> (r matches OpenAction::Fail {
                error,
                ..
            } && error.message() == claim_error_message(
                old(progress).detach_status,
                set_configuration_message(),
            )),
            old(progress).step == OpenStep::ClaimInterface && status_of(outcome) < 0 ==> (r matches OpenAction::Fail {
                error,
                ..
            } && error.message() == claim_error_message(old(progress).detach_status, claim_message())),
    {
        let ghost c0 = *self;
        let ghost p0 = *progress;
        match progress.step {
            OpenStep::OpenHandle => {
                let status = match outcome {
                    OpenOutcome::Status(s) => s,
                    _ => 0,
                };
                if status < 0 {
                    assert(open_step_effect(p0, c0, outcome) == c0);
                    let error = FtdiContextError::new(ErrorKind::Init, -4, "libusb_open() failed");
                    return self.fail_open(progress, error);
                }
                self.usb_dev = true;
                progress.step = OpenStep::ReadDescriptors;
                OpenAction::ReadDescriptors
            },
            OpenStep::ReadDescriptors => {
                match outcome {
                    OpenOutcome::Descriptors {
                        descriptor_status,
                        config_status,
                        descriptor,
                        config_value,
                    } => {
                        if descriptor_status < 0 {
                            let error = FtdiContextError::new(
                                ErrorKind::Command,
                                -9,
                                "libusb_get_device_descriptor() failed",
                            );
                            return self.fail_open(progress, error);
                        }
                        if config_status < 0 {
                            let error = FtdiContextError::new(
                                ErrorKind::Command,
                                -10,
                                "libusb_get_config_descriptor() failed",
                            );
                            return self.fail_open(progress, error);
                        }
                        progress.descriptor = descriptor;
                        progress.config_value = config_value as i32;
                        progress.detach_status = 0;
                        match self.module_detach_mode {
                            ftdi_module_detach_mode::AUTO_DETACH_SIO_MODULE => {
                                progress.step = OpenStep::Detach;
                                OpenAction::DetachKernelDriver { interface: self.interface }
                            },
                            ftdi_module_detach_mode::AUTO_DETACH_REATACH_SIO_MODULE => {
                                progress.step = OpenStep::Detach;
                                OpenAction::SetAutoDetachKernelDriver
                            },
                            ftdi_module_detach_mode::DONT_DETACH_SIO_MODULE => {
                                progress.step = OpenStep::GetConfiguration;
                                OpenAction::GetConfiguration
                            },
                        }
                    },
                    _ => self.fail_open(
                        progress,
                        FtdiContextError::new(ErrorKind::Command, -9, "unexpected outcome"),
                    ),
                }
            },
            OpenStep::Detach => {
                let status = match outcome {
                    OpenOutcome::Status(s) => s,
                    _ => 0,
                };
                progress.detach_status = status;
                progress.step = OpenStep::GetConfiguration;
                OpenAction::GetConfiguration
            },
            OpenStep::GetConfiguration => {
                let (status, value) = match outcome {
                    OpenOutcome::Configuration { status, value } => (status, value),
                    _ => (0, 0),
                };
                if status < 0 {
                    assert(status == status_of(outcome));
                    assert(open_step_effect(p0, c0, outcome) == c0);
                    let error = FtdiContextError::new(
                        ErrorKind::Init,
                        -12,
                        "libusb_get_configuration() failed",
                    );
                    return self.fail_open(progress, error);
                }
                if progress.descriptor.num_configurations > 0 && value != progress.config_value {
                    progress.step = OpenStep::SetConfiguration;
                    OpenAction::SetConfiguration { value: progress.config_value }
                } else {
                    progress.step = OpenStep::ClaimInterface;
                    OpenAction::ClaimInterface { interface: self.interface }
                }
            },
            OpenStep::SetConfiguration => {
                let status = match outcome {
                    OpenOutcome::Status(s) => s,
                    _ => 0,
                };
                if status < 0 {
                    let error = claim_error(
                        progress.detach_status,
                        -8,
                        "unable to set usb configuration. Make sure the default FTDI driver is not in use",
                    );
                    return self.fail_open(progress, error);
                }
                progress.step = OpenStep::ClaimInterface;
                OpenAction::ClaimInterface { interface: self.interface }
            },
            OpenStep::ClaimInterface => {
                let status = match outcome {
                    OpenOutcome::Status(s) => s,
                    _ => 0,
                };
                if status < 0 {
                    let error = claim_error(
                        progress.detach_status,
                        -5,
                        "unable to claim usb device. Make sure the default FTDI driver is not in use",
                    );
                    return self.fail_open(progress, error);
                }
                progress.step = OpenStep::Reset;
                match self.ftdi_usb_reset() {
                    Ok(request) => OpenAction::Control(request),
                    Err(error) => self.fail_open(progress, error),
                }
            },
            OpenStep::Reset => {
                let status = match outcome {
                    OpenOutcome::Status(s) => s,
                    _ => 0,
                };
                if self.ftdi_usb_reset_done(status).is_err() {
                    let error = FtdiContextError::new(
                        ErrorKind::Command,
                        -6,
                        "ftdi_usb_reset failed",
                    );
                    return self.fail_open(progress, error);
                }
                match crate::context::chip_type_from_bcd(
                    progress.descriptor.bcd_device,
                    progress.descriptor.serial_number_index,
                ) {
                    Some(chip) => {
                        self.chip_type = chip;
                        progress.step = OpenStep::ReadEndpoint;
                        OpenAction::ReadEndpoint { interface: self.interface }
                    },
                    None => {
                        let error = FtdiContextError::new(
                            ErrorKind::Init,
                            -8,
                            "Is it new 'ftdi_chip_type' ?? or type is not guessed",
                        );
                        self.fail_open(progress, error)
                    },
                }
            },
            OpenStep::ReadEndpoint => {
                let endpoint = match outcome {
                    OpenOutcome::Endpoint(e) => e,
                    _ => None,
                };
                self.max_packet_size = self.ftdi_determine_max_packet_size(endpoint);
                match self.ftdi_set_baudrate(OPEN_BAUDRATE) {
                    Ok(request) => {
                        progress.baudrate = request;
                        progress.step = OpenStep::SetBaudrate;
                        OpenAction::Control(request.request)
                    },
                    Err(error) => self.fail_open(progress, error),
                }
            },
            OpenStep::SetBaudrate => {
                let status = match outcome {
                    OpenOutcome::Status(s) => s,
                    _ => 0,
                };
                let request = progress.baudrate;
                match self.ftdi_set_baudrate_done(&request, status) {
                    Ok(()) => {
                        progress.step = OpenStep::Finished;
                        OpenAction::Done
                    },
                    Err(error) => self.fail_open(progress, error),
                }
            },
            OpenStep::Finished => self.fail_open(
                progress,
                FtdiContextError::new(ErrorKind::Init, -8, "open sequence already finished"),
            ),
        }
    }
}

/// A failed open leaves no handle behind: every failure of the sequence
/// leaves a context without a handle (the `ensures` of
/// `ftdi_usb_open_dev_step`), and closing such a context afterwards closes
/// nothing and changes nothing, so no handle is ever closed twice.
pub proof fn lemma_close_after_failed_open(c: ftdi_context)
    requires
        !c.usb_dev,
    ensures
        c.close_outcome() == (c, false),
{
}

} // verus!
