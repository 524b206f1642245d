use std::time::Duration;

use xbox360bb::{
    find_interrupt_endpoint, ConfigDescriptor, ControllerId, DeviceProbe, EndpointDescriptor,
    Error, Interface, InterfaceDescriptor, Opening, Receiver, Step, UsbCall, UsbReply,
};

fn setting(interface_number: u8, endpoints: &[(u8, u8)]) -> InterfaceDescriptor {
    InterfaceDescriptor {
        interface_number,
        endpoints: endpoints
            .iter()
            .map(|&(address, attributes)| EndpointDescriptor { address, attributes })
            .collect(),
    }
}

fn interface(altsettings: Vec<InterfaceDescriptor>) -> Interface {
    Interface { altsettings }
}

fn suitable_config() -> ConfigDescriptor {
    ConfigDescriptor {
        interfaces: vec![interface(vec![setting(0, &[(0x81, 3)])])],
    }
}

fn probe(vendor_id: u16, product_id: u16) -> DeviceProbe {
    DeviceProbe {
        present: true,
        code: 0,
        vendor_id,
        product_id,
    }
}

fn receiver_probe() -> DeviceProbe {
    probe(0x045e, 0x02a0)
}

/// A device as libusb reports it.
struct Device {
    probe: DeviceProbe,
    open_code: i32,
    config_code: i32,
    config: fn() -> Option<ConfigDescriptor>,
}

impl Device {
    fn new(probe: DeviceProbe) -> Device {
        Device {
            probe,
            open_code: 0,
            config_code: 0,
            config: || Some(suitable_config()),
        }
    }
}

/// A USB bus on which every call that is made is written down.
struct Bus {
    init_code: i32,
    list_code: isize,
    devices: Vec<Device>,
    claim_code: i32,
    calls: Vec<UsbCall>,
}

impl Bus {
    fn new(devices: Vec<Device>) -> Bus {
        Bus {
            init_code: 0,
            list_code: devices.len() as isize,
            devices,
            claim_code: 0,
            calls: Vec::new(),
        }
    }

    fn reply(&mut self, call: UsbCall) -> UsbReply {
        self.calls.push(call);
        match call {
            UsbCall::InitContext => UsbReply::Status(self.init_code),
            UsbCall::GetDeviceList => UsbReply::DeviceCount(self.list_code),
            UsbCall::GetDeviceDescriptor { device } => {
                UsbReply::Probe(self.devices[device].probe)
            }
            UsbCall::OpenDevice { device } => UsbReply::Status(self.devices[device].open_code),
            UsbCall::GetActiveConfig { device } => {
                let device = &self.devices[device];
                UsbReply::ActiveConfig(device.config_code, (device.config)())
            }
            UsbCall::ClaimInterface { .. } => UsbReply::Status(self.claim_code),
            _ => UsbReply::Made,
        }
    }

    fn open(&mut self, mut opening: Opening) -> Result<Receiver, Error> {
        loop {
            match opening.step() {
                Step::Call(call) => {
                    let reply = self.reply(call);
                    opening.answer(reply);
                }
                Step::Done(result) => return result,
            }
        }
    }
}

#[test]
fn opens_the_receiver() {
    let mut bus = Bus::new(vec![
        Device::new(probe(0x045e, 0x028e)),
        Device::new(receiver_probe()),
    ]);
    let receiver = bus.open(Receiver::open()).expect("receiver is there");
    assert_eq!(receiver.interface_number, 0);
    assert_eq!(receiver.endpoint_address, 0x81);
    assert_eq!(receiver.read_timeout, Duration::from_millis(50));
    assert_eq!(receiver.release_timeout, Duration::from_millis(250));
    for controller in ControllerId::ALL {
        assert!(receiver.state(controller).is_idle());
    }
    assert_eq!(
        bus.calls,
        vec![
            UsbCall::InitContext,
            UsbCall::GetDeviceList,
            UsbCall::GetDeviceDescriptor { device: 0 },
            UsbCall::GetDeviceDescriptor { device: 1 },
            UsbCall::OpenDevice { device: 1 },
            UsbCall::GetActiveConfig { device: 1 },
            UsbCall::FreeActiveConfig,
            UsbCall::FreeDeviceList,
            UsbCall::SetAutoDetach,
            UsbCall::ClaimInterface { interface_number: 0 },
        ]
    );
}

#[test]
fn opens_with_explicit_timeouts() {
    let mut bus = Bus::new(vec![Device::new(receiver_probe())]);
    let opening =
        Receiver::open_with_timeouts(Duration::from_millis(20), Duration::from_millis(300));
    let receiver = bus.open(opening).expect("receiver is there");
    assert_eq!(receiver.read_timeout, Duration::from_millis(20));
    assert_eq!(receiver.release_timeout, Duration::from_millis(300));
}

#[test]
fn failed_init_is_reported_at_once() {
    let mut bus = Bus::new(Vec::new());
    bus.init_code = -99;
    assert!(matches!(bus.open(Receiver::open()), Err(Error::Usb(-99))));
    assert_eq!(bus.calls, vec![UsbCall::InitContext]);
}

#[test]
fn failed_listing_exits_the_context() {
    let mut bus = Bus::new(Vec::new());
    bus.list_code = -11;
    assert!(matches!(bus.open(Receiver::open()), Err(Error::Usb(-11))));
    assert_eq!(
        bus.calls,
        vec![
            UsbCall::InitContext,
            UsbCall::GetDeviceList,
            UsbCall::ExitContext,
        ]
    );
}

#[test]
fn no_receiver_is_not_found() {
    let absent = DeviceProbe {
        present: false,
        code: 0,
        vendor_id: 0x045e,
        product_id: 0x02a0,
    };
    let mut bus = Bus::new(vec![
        Device::new(absent),
        Device::new(probe(0x045e, 0x028e)),
        Device::new(probe(0x1234, 0x02a0)),
    ]);
    assert!(matches!(
        bus.open(Receiver::open()),
        Err(Error::DeviceNotFound)
    ));
    assert_eq!(
        bus.calls[bus.calls.len() - 2..],
        [UsbCall::FreeDeviceList, UsbCall::ExitContext]
    );
}

#[test]
fn unreadable_device_is_reported_if_no_receiver_follows() {
    let unreadable = DeviceProbe {
        present: true,
        code: -1,
        vendor_id: 0,
        product_id: 0,
    };
    let mut bus = Bus::new(vec![
        Device::new(unreadable),
        Device::new(probe(0x1234, 0x5678)),
    ]);
    assert!(matches!(
        bus.open(Receiver::open()),
        Err(Error::InvalidDeviceDescriptor)
    ));
    bus.devices.push(Device::new(receiver_probe()));
    bus.list_code = 3;
    assert!(bus.open(Receiver::open()).is_ok());
}

#[test]
fn device_that_cannot_be_opened_ends_the_search() {
    let mut refused = Device::new(receiver_probe());
    refused.open_code = -3;
    let mut bus = Bus::new(vec![refused, Device::new(receiver_probe())]);
    assert!(matches!(bus.open(Receiver::open()), Err(Error::Usb(-3))));
    assert_eq!(
        bus.calls,
        vec![
            UsbCall::InitContext,
            UsbCall::GetDeviceList,
            UsbCall::GetDeviceDescriptor { device: 0 },
            UsbCall::OpenDevice { device: 0 },
            UsbCall::ExitContext,
        ]
    );
}

#[test]
fn rejected_receiver_is_closed_and_the_next_one_tried() {
    let mut rejected = Device::new(receiver_probe());
    rejected.config = || None;
    let mut bus = Bus::new(vec![rejected, Device::new(receiver_probe())]);
    assert!(bus.open(Receiver::open()).is_ok());
    assert_eq!(
        bus.calls[3..8],
        [
            UsbCall::OpenDevice { device: 0 },
            UsbCall::GetActiveConfig { device: 0 },
            UsbCall::CloseHandle,
            UsbCall::GetDeviceDescriptor { device: 1 },
            UsbCall::OpenDevice { device: 1 },
        ]
    );
}

#[test]
fn read_configuration_is_freed_before_the_device_is_closed() {
    let mut unsuitable = Device::new(receiver_probe());
    unsuitable.config = || Some(ConfigDescriptor { interfaces: Vec::new() });
    let mut bus = Bus::new(vec![unsuitable]);
    assert!(matches!(
        bus.open(Receiver::open()),
        Err(Error::InterruptEndpointNotFound)
    ));
    assert_eq!(
        bus.calls[3..],
        [
            UsbCall::OpenDevice { device: 0 },
            UsbCall::GetActiveConfig { device: 0 },
            UsbCall::FreeActiveConfig,
            UsbCall::CloseHandle,
            UsbCall::FreeDeviceList,
            UsbCall::ExitContext,
        ]
    );
}

#[test]
fn configuration_that_was_not_read_is_not_freed() {
    let mut unreadable = Device::new(receiver_probe());
    unreadable.config_code = -5;
    let mut empty = Device::new(receiver_probe());
    empty.config = || None;
    let mut bus = Bus::new(vec![unreadable, empty]);
    assert!(bus.open(Receiver::open()).is_err());
    assert!(!bus.calls.contains(&UsbCall::FreeActiveConfig));
}

#[test]
fn last_rejection_is_reported() {
    let mut first = Device::new(receiver_probe());
    first.config_code = -5;
    let mut second = Device::new(receiver_probe());
    second.config = || None;
    let mut bus = Bus::new(vec![first, second]);
    assert!(matches!(
        bus.open(Receiver::open()),
        Err(Error::InvalidConfigurationDescriptor)
    ));
    bus.devices.reverse();
    assert!(matches!(bus.open(Receiver::open()), Err(Error::Usb(-5))));
}

#[test]
fn failed_claim_closes_the_handle_and_exits() {
    let mut bus = Bus::new(vec![Device::new(receiver_probe())]);
    bus.claim_code = -6;
    assert!(matches!(bus.open(Receiver::open()), Err(Error::Usb(-6))));
    assert_eq!(
        bus.calls[bus.calls.len() - 4..],
        [
            UsbCall::SetAutoDetach,
            UsbCall::ClaimInterface { interface_number: 0 },
            UsbCall::CloseHandle,
            UsbCall::ExitContext,
        ]
    );
}

#[test]
fn reply_to_another_call_is_ignored() {
    let mut opening = Receiver::open();
    opening.answer(UsbReply::Made);
    opening.answer(UsbReply::DeviceCount(1));
    assert!(matches!(opening.step(), Step::Call(UsbCall::InitContext)));
}

#[test]
fn closing_undoes_opening() {
    let mut bus = Bus::new(vec![Device::new(receiver_probe())]);
    let receiver = bus.open(Receiver::open()).expect("receiver is there");
    assert_eq!(
        receiver.close(true, true),
        vec![
            UsbCall::ReleaseInterface { interface_number: 0 },
            UsbCall::CloseHandle,
            UsbCall::ExitContext,
        ]
    );
    assert_eq!(receiver.close(false, true), vec![UsbCall::ExitContext]);
    assert!(receiver.close(false, false).is_empty());
}

#[test]
fn first_interrupt_in_endpoint_is_found() {
    let config = ConfigDescriptor {
        interfaces: vec![
            interface(Vec::new()),
            interface(vec![
                setting(1, &[(0x81, 2), (0x02, 3)]),
                setting(2, &[]),
                setting(3, &[(0x83, 0x13), (0x84, 3)]),
            ]),
            interface(vec![setting(4, &[(0x85, 3)])]),
        ],
    };
    assert!(matches!(
        find_interrupt_endpoint(0, &Some(config)),
        Ok((3, 0x83))
    ));
}

#[test]
fn endpoint_search_reports_its_failures() {
    assert!(matches!(
        find_interrupt_endpoint(-4, &Some(suitable_config())),
        Err(Error::Usb(-4))
    ));
    assert!(matches!(
        find_interrupt_endpoint(0, &None),
        Err(Error::InvalidConfigurationDescriptor)
    ));
    let unsuitable = ConfigDescriptor {
        interfaces: vec![interface(vec![setting(0, &[(0x01, 3), (0x81, 1)])])],
    };
    assert!(matches!(
        find_interrupt_endpoint(0, &Some(unsuitable)),
        Err(Error::InterruptEndpointNotFound)
    ));
}
