//! Verified core of a userspace driver for the Xbox 360 Big Button receiver.
//!
//! The receiver multiplexes four wireless controllers behind one USB device.
//! This library decides which USB calls a driver makes and what their replies
//! mean; a driver makes the calls and hands the replies back.
//!
//! - [`Receiver::open`] begins an [`Opening`], which asks for [`UsbCall`]s
//!   until it has a [`Receiver`] or an [`Error`].
//! - [`Receiver::poll_event`], [`Receiver::next_event`] and
//!   [`Receiver::events`] ask for interrupt transfers and turn their replies
//!   into [`ControllerEvent`]s. The receiver keeps enough state to suppress
//!   repeated packets and to synthesize a release when a controller stops
//!   repeating a held button.
//! - [`Receiver::close`] lists the calls that give a receiver up.
pub mod clock;
pub mod controller;
pub mod descriptor;
pub mod error;
pub mod opening;
pub mod opening_laws;
pub mod poll_laws;
pub mod receiver;
pub mod receiver_laws;
pub mod step;

pub use controller::{decode_state, ControllerEvent, ControllerId, ControllerState, EventKind};
pub use descriptor::{
    find_interrupt_endpoint, ConfigDescriptor, EndpointDescriptor, Interface, InterfaceDescriptor,
};
pub use error::{duration_to_timeout_ms, usb_call, usb_error_name, Error};
pub use opening::{DeviceProbe, Opening, UsbCall, UsbReply};
pub use receiver::{
    ControllerSlot, Events, Receiver, TransferReply, TransferRequest, PACKET_LEN,
};
pub use step::Step;
