//! Opening a receiver: which USB calls are to be made, in which order, and
//! what their replies lead to.
use std::time::Duration;
use vstd::prelude::*;

use crate::descriptor::{find_interrupt_endpoint, ConfigDescriptor};
use crate::error::{usb_call, Error};
use crate::receiver::Receiver;
use crate::step::Step;

verus! {

/// USB vendor of the receiver.
pub const VENDOR_ID: u16 = 0x045e;

/// USB product of the receiver.
pub const PRODUCT_ID: u16 = 0x02a0;

/// Default read timeout, in milliseconds.
pub const DEFAULT_READ_TIMEOUT_MS: u64 = 50;

/// Default release timeout, in milliseconds.
pub const DEFAULT_RELEASE_TIMEOUT_MS: u64 = 250;

/// A libusb call that is to be made. Devices are named by their place in the
/// device list; there is at most one handle at a time.
#[derive(Debug, Clone, Copy, PartialEq, Eq, Structural)]
pub enum UsbCall {
    /// `libusb_init_context`.
    InitContext,
    /// `libusb_get_device_list`.
    GetDeviceList,
    /// `libusb_get_device_descriptor`.
    GetDeviceDescriptor { device: usize },
    /// `libusb_open`.
    OpenDevice { device: usize },
    /// `libusb_get_active_config_descriptor`.
    GetActiveConfig { device: usize },
    /// `libusb_free_config_descriptor`.
    FreeActiveConfig,
    /// `libusb_free_device_list`, which also drops the list's references.
    FreeDeviceList,
    /// `libusb_set_auto_detach_kernel_driver`.
    SetAutoDetach,
    /// `libusb_claim_interface`.
    ClaimInterface { interface_number: u8 },
    /// `libusb_release_interface`.
    ReleaseInterface { interface_number: u8 },
    /// `libusb_close`.
    CloseHandle,
    /// `libusb_exit`.
    ExitContext,
}

/// What `libusb_get_device_descriptor` said of a device.
#[derive(Debug, Clone, Copy)]
pub struct DeviceProbe {
    /// Whether the device list has a device at all in this place.
    pub present: bool,
    pub code: i32,
    pub vendor_id: u16,
    pub product_id: u16,
}

/// The reply to a [`UsbCall`].
#[derive(Debug)]
pub enum UsbReply {
    /// The status code of `InitContext`, `OpenDevice` or `ClaimInterface`.
    Status(i32),
    /// The reply to `GetDeviceList`: how many devices, or an error code.
    DeviceCount(isize),
    /// The reply to `GetDeviceDescriptor`.
    Probe(DeviceProbe),
    /// The reply to `GetActiveConfig`: status code and configuration.
    ActiveConfig(i32, Option<ConfigDescriptor>),
    /// A call whose outcome does not matter has been made.
    Made,
}

/// A search through the device list.
#[derive(Debug, Clone, Copy)]
pub struct Search {
    /// How many devices the list has.
    pub count: usize,
    /// The device at hand.
    pub device: usize,
    /// Why no device has been accepted so far.
    pub failure: Error,
}

/// How far the opening of a receiver has come. Each stage but the last waits
/// for the reply to one call.
#[derive(Debug, Clone, Copy)]
pub enum Stage {
    /// `InitContext`.
    Init,
    /// `GetDeviceList`.
    List,
    /// `GetDeviceDescriptor` of the device at hand.
    Descriptor(Search),
    /// `OpenDevice` of the device at hand.
    Open(Search),
    /// `GetActiveConfig` of the device at hand, which is open.
    Config(Search),
    /// `FreeActiveConfig` of the device at hand, whose configuration was read;
    /// its search came to an endpoint or to an error.
    FreeConfig(Search, Result<(u8, u8), Error>),
    /// `CloseHandle` of the device at hand, which has no suitable endpoint.
    Reject(Search),
    /// `FreeDeviceList`; the search came to an endpoint or to an error.
    FreeList(Result<(u8, u8), Error>),
    /// `SetAutoDetach`.
    AutoDetach(u8, u8),
    /// `ClaimInterface`.
    Claim(u8, u8),
    /// `CloseHandle`, after the interface could not be claimed.
    Unclaimed(Error),
    /// `ExitContext`, after an error.
    Exit(Error),
    /// Nothing: interface number and endpoint address, or the error.
    Finished(Result<(u8, u8), Error>),
}

/// A receiver that is being opened.
#[derive(Debug)]
pub struct Opening {
    read_timeout: Duration,
    release_timeout: Duration,
    stage: Stage,
}

impl Search {
    /// The stage that takes up the device at hand, or ends the search where
    /// the list has no more devices.
    pub open spec fn resumed(self) -> Stage {
        if self.device < self.count {
            Stage::Descriptor(self)
        } else {
            Stage::FreeList(Err(self.failure))
        }
    }

    /// The search with the device at hand passed over.
    pub open spec fn passed(self, failure: Error) -> Search {
        Search { count: self.count, device: (self.device + 1) as usize, failure }
    }

    /// The stage that follows the search of the device at hand: an endpoint
    /// ends the search, and a device without one is rejected.
    pub open spec fn examined(self, found: Result<(u8, u8), Error>) -> Stage {
        match found {
            Ok(endpoint) => Stage::FreeList(Ok(endpoint)),
            Err(error) => Stage::Reject(Search { failure: error, ..self }),
        }
    }

    /// Accepts or rejects the device at hand.
    fn examine(self, found: Result<(u8, u8), Error>) -> (stage: Stage)
        ensures
            stage == self.examined(found),
    {
        match found {
            Ok(endpoint) => Stage::FreeList(Ok(endpoint)),
            Err(error) => Stage::Reject(
                Search { count: self.count, device: self.device, failure: error },
            ),
        }
    }

    /// Takes up the device at hand, or ends the search.
    fn resume(self) -> (stage: Stage)
        ensures
            stage == self.resumed(),
    {
        if self.device < self.count {
            Stage::Descriptor(self)
        } else {
            Stage::FreeList(Err(self.failure))
        }
    }

    /// Goes on to the next device.
    fn pass(self, failure: Error) -> (search: Search)
        requires
            self.device < self.count,
        ensures
            search == self.passed(failure),
    {
        Search { count: self.count, device: self.device + 1, failure }
    }
}

impl Stage {
    /// The device at hand is one of the list.
    pub open spec fn wf(self) -> bool {
        match self {
            Stage::Descriptor(search) => search.device < search.count,
            Stage::Open(search) => search.device < search.count,
            Stage::Config(search) => search.device < search.count,
            Stage::FreeConfig(search, _) => search.device < search.count,
            Stage::Reject(search) => search.device < search.count,
            _ => true,
        }
    }

    /// The call that the stage waits for.
    pub open spec fn call(self) -> Option<UsbCall> {
        match self {
            Stage::Init => Some(UsbCall::InitContext),
            Stage::List => Some(UsbCall::GetDeviceList),
            Stage::Descriptor(search) => Some(
                UsbCall::GetDeviceDescriptor { device: search.device },
            ),
            Stage::Open(search) => Some(UsbCall::OpenDevice { device: search.device }),
            Stage::Config(search) => Some(UsbCall::GetActiveConfig { device: search.device }),
            Stage::FreeConfig(_, _) => Some(UsbCall::FreeActiveConfig),
            Stage::Reject(_) => Some(UsbCall::CloseHandle),
            Stage::FreeList(_) => Some(UsbCall::FreeDeviceList),
            Stage::AutoDetach(_, _) => Some(UsbCall::SetAutoDetach),
            Stage::Claim(interface_number, _) => Some(UsbCall::ClaimInterface { interface_number }),
            Stage::Unclaimed(_) => Some(UsbCall::CloseHandle),
            Stage::Exit(_) => Some(UsbCall::ExitContext),
            Stage::Finished(_) => None,
        }
    }

    /// The stage that a reply leads to. A reply that is not one to the call at
    /// hand leads nowhere.
    pub open spec fn after(self, reply: UsbReply) -> Stage {
        match (self, reply) {
            (Stage::Init, UsbReply::Status(code)) => if code == 0 {
                Stage::List
            } else {
                Stage::Finished(Err(Error::Usb(code)))
            },
            (Stage::List, UsbReply::DeviceCount(count)) => if count < 0 {
                Stage::Exit(Error::Usb(count as i32))
            } else {
                Search {
                    count: count as usize,
                    device: 0,
                    failure: Error::DeviceNotFound,
                }.resumed()
            },
            (Stage::Descriptor(search), UsbReply::Probe(probe)) => if !probe.present {
                search.passed(search.failure).resumed()
            } else if probe.code != 0 {
                search.passed(Error::InvalidDeviceDescriptor).resumed()
            } else if probe.vendor_id == VENDOR_ID && probe.product_id == PRODUCT_ID {
                Stage::Open(search)
            } else {
                search.passed(search.failure).resumed()
            },
            (Stage::Open(search), UsbReply::Status(code)) => if code == 0 {
                Stage::Config(search)
            } else {
                Stage::Exit(Error::Usb(code))
            },
            (Stage::Config(search), UsbReply::ActiveConfig(code, config)) => {
                let found = crate::descriptor::endpoint_search(code, config);
                if code == 0 && config is Some {
                    Stage::FreeConfig(search, found)
                } else {
                    search.examined(found)
                }
            },
            (Stage::FreeConfig(search, found), UsbReply::Made) => search.examined(found),
            (Stage::Reject(search), UsbReply::Made) => search.passed(search.failure).resumed(),
            (Stage::FreeList(Ok((interface, endpoint))), UsbReply::Made) => Stage::AutoDetach(
                interface,
                endpoint,
            ),
            (Stage::FreeList(Err(error)), UsbReply::Made) => Stage::Exit(error),
            (Stage::AutoDetach(interface, endpoint), UsbReply::Made) => Stage::Claim(
                interface,
                endpoint,
            ),
            (Stage::Claim(interface, endpoint), UsbReply::Status(code)) => if code == 0 {
                Stage::Finished(Ok((interface, endpoint)))
            } else {
                Stage::Unclaimed(Error::Usb(code))
            },
            (Stage::Unclaimed(error), UsbReply::Made) => Stage::Exit(error),
            (Stage::Exit(error), UsbReply::Made) => Stage::Finished(Err(error)),
            _ => self,
        }
    }
}

impl Receiver {
    /// Opens the receiver with the default read and release timeouts.
    ///
    /// The default read timeout is 50 ms. The default synthesized release
    /// timeout is 250 ms.
    pub fn open() -> (opening: Opening)
        ensures
            opening.stage() == Stage::Init,
            crate::clock::duration_nanos(opening.read_timeout()) == 50 * 1_000_000,
            crate::clock::duration_nanos(opening.release_timeout()) == 250 * 1_000_000,
    {
        Self::open_with_timeouts(
            Duration::from_millis(DEFAULT_READ_TIMEOUT_MS),
            Duration::from_millis(DEFAULT_RELEASE_TIMEOUT_MS),
        )
    }

    /// Opens the receiver with explicit timeouts.
    ///
    /// `read_timeout` controls how long each USB interrupt read blocks before
    /// returning to check for synthesized releases; a read blocks for a
    /// millisecond at least.
    ///
    /// `release_timeout` controls how long a controller may go silent after a
    /// repeated held-state report before a release is emitted.
    pub fn open_with_timeouts(read_timeout: Duration, release_timeout: Duration) -> (opening:
        Opening)
        ensures
            opening.stage() == Stage::Init,
            opening.read_timeout() == read_timeout,
            opening.release_timeout() == release_timeout,
    {
        Opening { read_timeout, release_timeout, stage: Stage::Init }
    }
}

/// The calls that give up a receiver, in order: release the interface, close
/// the handle, exit the context.
pub open spec fn closing_calls(
    interface_number: u8,
    has_handle: bool,
    has_context: bool,
) -> Seq<UsbCall> {
    let handle = if has_handle {
        seq![UsbCall::ReleaseInterface { interface_number }, UsbCall::CloseHandle]
    } else {
        seq![]
    };
    let context = if has_context {
        seq![UsbCall::ExitContext]
    } else {
        seq![]
    };
    handle + context
}

impl Receiver {
    /// The calls that are to be made when the receiver is given up, in order.
    /// Their results do not matter.
    ///
    /// Without a handle there is no interface to release and nothing to close;
    /// without a context there is none to exit.
    pub fn close(&self, has_handle: bool, has_context: bool) -> (calls: Vec<UsbCall>)
        ensures
            calls@ == closing_calls(self.interface_number, has_handle, has_context),
    {
        let mut calls: Vec<UsbCall> = Vec::new();
        if has_handle {
            calls.push(UsbCall::ReleaseInterface { interface_number: self.interface_number });
            calls.push(UsbCall::CloseHandle);
        }
        if has_context {
            calls.push(UsbCall::ExitContext);
        }
        calls
    }
}

impl Opening {
    #[verifier::type_invariant]
    spec fn wf(self) -> bool {
        self.stage.wf()
    }

    /// How far the opening has come.
    pub closed spec fn stage(self) -> Stage {
        self.stage
    }

    /// The read timeout that the receiver will have.
    pub closed spec fn read_timeout(self) -> Duration {
        self.read_timeout
    }

    /// The release timeout that the receiver will have.
    pub closed spec fn release_timeout(self) -> Duration {
        self.release_timeout
    }

    /// The call that is to be made next, or the receiver, or the error.
    pub fn step(&self) -> (step: Step<UsbCall, Result<Receiver, Error>>)
        ensures
            match step {
                Step::Call(call) => self.stage().call() == Some(call),
                Step::Done(Err(error)) => self.stage() == Stage::Finished(Err(error)),
                Step::Done(Ok(receiver)) => {
                    &&& self.stage() == Stage::Finished(
                        Ok((receiver.interface_number, receiver.endpoint_address)),
                    )
                    &&& receiver@ == crate::receiver::ReceiverView::fresh(
                        receiver.interface_number,
                        receiver.endpoint_address,
                        self.read_timeout(),
                        self.release_timeout(),
                    )
                    &&& receiver@.wf()
                },
            },
    {
        match self.stage {
            Stage::Init => Step::Call(UsbCall::InitContext),
            Stage::List => Step::Call(UsbCall::GetDeviceList),
            Stage::Descriptor(search) => Step::Call(
                UsbCall::GetDeviceDescriptor { device: search.device },
            ),
            Stage::Open(search) => Step::Call(UsbCall::OpenDevice { device: search.device }),
            Stage::Config(search) => Step::Call(UsbCall::GetActiveConfig { device: search.device }),
            Stage::FreeConfig(_, _) => Step::Call(UsbCall::FreeActiveConfig),
            Stage::Reject(_) => Step::Call(UsbCall::CloseHandle),
            Stage::FreeList(_) => Step::Call(UsbCall::FreeDeviceList),
            Stage::AutoDetach(_, _) => Step::Call(UsbCall::SetAutoDetach),
            Stage::Claim(interface_number, _) => Step::Call(
                UsbCall::ClaimInterface { interface_number },
            ),
            Stage::Unclaimed(_) => Step::Call(UsbCall::CloseHandle),
            Stage::Exit(_) => Step::Call(UsbCall::ExitContext),
            Stage::Finished(Ok((interface_number, endpoint_address))) => Step::Done(
                Ok(
                    Receiver::new(
                        interface_number,
                        endpoint_address,
                        self.read_timeout,
                        self.release_timeout,
                    ),
                ),
            ),
            Stage::Finished(Err(error)) => Step::Done(Err(error)),
        }
    }

    /// Takes in the reply to the call at hand.
    pub fn answer(&mut self, reply: UsbReply)
        ensures
            final(self).stage() == old(self).stage().after(reply),
            final(self).read_timeout() == old(self).read_timeout(),
            final(self).release_timeout() == old(self).release_timeout(),
    {
        proof {
            use_type_invariant(&*self);
        }
        self.stage = match (self.stage, reply) {
            (Stage::Init, UsbReply::Status(code)) => match usb_call(code) {
                Ok(()) => Stage::List,
                Err(error) => Stage::Finished(Err(error)),
            },
            (Stage::List, UsbReply::DeviceCount(count)) => if count < 0 {
                Stage::Exit(Error::Usb(count as i32))
            } else {
                Search {
                    count: count as usize,
                    device: 0,
                    failure: Error::DeviceNotFound,
                }.resume()
            },
            (Stage::Descriptor(search), UsbReply::Probe(probe)) => if !probe.present {
                search.pass(search.failure).resume()
            } else if probe.code != 0 {
                search.pass(Error::InvalidDeviceDescriptor).resume()
            } else if probe.vendor_id != VENDOR_ID || probe.product_id != PRODUCT_ID {
                search.pass(search.failure).resume()
            } else {
                Stage::Open(search)
            },
            (Stage::Open(search), UsbReply::Status(code)) => match usb_call(code) {
                Ok(()) => Stage::Config(search),
                Err(error) => Stage::Exit(error),
            },
            (Stage::Config(search), UsbReply::ActiveConfig(code, config)) => {
                let found = find_interrupt_endpoint(code, &config);
                if code == 0 && config.is_some() {
                    Stage::FreeConfig(search, found)
                } else {
                    search.examine(found)
                }
            },
            (Stage::FreeConfig(search, found), UsbReply::Made) => search.examine(found),
            (Stage::Reject(search), UsbReply::Made) => search.pass(search.failure).resume(),
            (Stage::FreeList(Ok((interface_number, endpoint_address))), UsbReply::Made) => {
                Stage::AutoDetach(interface_number, endpoint_address)
            },
            (Stage::FreeList(Err(error)), UsbReply::Made) => Stage::Exit(error),
            (Stage::AutoDetach(interface_number, endpoint_address), UsbReply::Made) => {
                Stage::Claim(interface_number, endpoint_address)
            },
            (Stage::Claim(interface_number, endpoint_address), UsbReply::Status(code)) => {
                match usb_call(code) {
                    Ok(()) => Stage::Finished(Ok((interface_number, endpoint_address))),
                    Err(error) => Stage::Unclaimed(error),
                }
            },
            (Stage::Unclaimed(error), UsbReply::Made) => Stage::Exit(error),
            (Stage::Exit(error), UsbReply::Made) => Stage::Finished(Err(error)),
            (stage, _) => stage,
        };
    }
}

} // verus!
