use std::time::Duration;

use xbox360bb::{duration_to_timeout_ms, usb_call, usb_error_name, Error};

#[test]
fn status_codes_become_results() {
    assert!(usb_call(0).is_ok());
    assert!(matches!(usb_call(-4), Err(Error::Usb(-4))));
    assert!(matches!(usb_call(3), Err(Error::Usb(3))));
}

#[test]
fn status_codes_have_names() {
    let names = [
        "success",
        "input/output error",
        "invalid parameter",
        "access denied",
        "device disconnected",
        "entity not found",
        "resource busy",
        "timeout",
        "overflow",
        "pipe error",
        "system call interrupted",
        "out of memory",
        "operation not supported",
    ];
    for (code, name) in names.iter().enumerate() {
        assert_eq!(usb_error_name(-(code as i32)), *name);
    }
    assert_eq!(usb_error_name(-13), "unknown error");
    assert_eq!(usb_error_name(1), "unknown error");
}

#[test]
fn timeouts_are_whole_milliseconds() {
    assert!(matches!(duration_to_timeout_ms(Duration::from_millis(50)), Ok(50)));
    assert!(matches!(duration_to_timeout_ms(Duration::from_micros(1_999)), Ok(1)));
    assert!(matches!(duration_to_timeout_ms(Duration::ZERO), Ok(0)));
    assert!(matches!(
        duration_to_timeout_ms(Duration::from_millis(u32::MAX as u64)),
        Ok(u32::MAX)
    ));
}

#[test]
fn long_timeouts_are_refused() {
    let long = Duration::from_millis(u32::MAX as u64 + 1);
    match duration_to_timeout_ms(long) {
        Err(Error::TimeoutTooLarge(timeout)) => assert_eq!(timeout, long),
        other => panic!("unexpected result {:?}", other),
    }
    assert!(matches!(
        duration_to_timeout_ms(Duration::MAX),
        Err(Error::TimeoutTooLarge(_))
    ));
}

#[test]
fn errors_have_messages() {
    assert_eq!(Error::DeviceNotFound.message(), "xbox360bb receiver not found");
    assert_eq!(
        Error::InvalidDeviceDescriptor.message(),
        "invalid USB device descriptor"
    );
    assert_eq!(
        Error::InvalidConfigurationDescriptor.message(),
        "invalid USB configuration descriptor"
    );
    assert_eq!(
        Error::InterruptEndpointNotFound.message(),
        "interrupt IN endpoint not found on receiver"
    );
    assert_eq!(Error::Usb(-7).message(), "libusb error -7 (timeout)");
    assert_eq!(Error::Usb(0).message(), "libusb error 0 (success)");
    assert_eq!(Error::Usb(120).message(), "libusb error 120 (unknown error)");
    assert_eq!(
        Error::Usb(i32::MIN).message(),
        "libusb error -2147483648 (unknown error)"
    );
    assert_eq!(
        Error::TimeoutTooLarge(Duration::from_secs(4_294_968)).message(),
        "timeout 4294968s exceeds libusb limits"
    );
    assert_eq!(
        Error::TimeoutTooLarge(Duration::from_millis(4_294_967_296)).message(),
        "timeout 4294967.296s exceeds libusb limits"
    );
}
