//! Errors, the status codes of libusb, and the text that describes them.
use std::time::Duration;
use vstd::prelude::*;
use vstd::string::*;

verus! {

pub const LIBUSB_ERROR_IO: i32 = -1;

pub const LIBUSB_ERROR_INVALID_PARAM: i32 = -2;

pub const LIBUSB_ERROR_ACCESS: i32 = -3;

pub const LIBUSB_ERROR_NO_DEVICE: i32 = -4;

pub const LIBUSB_ERROR_NOT_FOUND: i32 = -5;

pub const LIBUSB_ERROR_BUSY: i32 = -6;

pub const LIBUSB_ERROR_TIMEOUT: i32 = -7;

pub const LIBUSB_ERROR_OVERFLOW: i32 = -8;

pub const LIBUSB_ERROR_PIPE: i32 = -9;

pub const LIBUSB_ERROR_INTERRUPTED: i32 = -10;

pub const LIBUSB_ERROR_NO_MEM: i32 = -11;

pub const LIBUSB_ERROR_NOT_SUPPORTED: i32 = -12;

/// Errors returned by this crate.
#[derive(Debug, Clone, Copy)]
pub enum Error {
    DeviceNotFound,
    InvalidDeviceDescriptor,
    InvalidConfigurationDescriptor,
    InterruptEndpointNotFound,
    Usb(i32),
    TimeoutTooLarge(Duration),
}

/// What a libusb status code means, in words.
pub open spec fn usb_error_text(code: i32) -> Seq<char> {
    if code == 0 {
        "success"@
    } else if code == LIBUSB_ERROR_IO {
        "input/output error"@
    } else if code == LIBUSB_ERROR_INVALID_PARAM {
        "invalid parameter"@
    } else if code == LIBUSB_ERROR_ACCESS {
        "access denied"@
    } else if code == LIBUSB_ERROR_NO_DEVICE {
        "device disconnected"@
    } else if code == LIBUSB_ERROR_NOT_FOUND {
        "entity not found"@
    } else if code == LIBUSB_ERROR_BUSY {
        "resource busy"@
    } else if code == LIBUSB_ERROR_TIMEOUT {
        "timeout"@
    } else if code == LIBUSB_ERROR_OVERFLOW {
        "overflow"@
    } else if code == LIBUSB_ERROR_PIPE {
        "pipe error"@
    } else if code == LIBUSB_ERROR_INTERRUPTED {
        "system call interrupted"@
    } else if code == LIBUSB_ERROR_NO_MEM {
        "out of memory"@
    } else if code == LIBUSB_ERROR_NOT_SUPPORTED {
        "operation not supported"@
    } else {
        "unknown error"@
    }
}

/// The decimal digits of `n`, most significant first.
pub open spec fn decimal_digits(n: nat) -> Seq<char>
    decreases n,
{
    let digit = (('0' as nat) + n % 10) as char;
    if n < 10 {
        seq![digit]
    } else {
        decimal_digits(n / 10).push(digit)
    }
}

/// `n` in decimal notation, with a minus sign where it is negative.
pub open spec fn decimal(n: int) -> Seq<char> {
    if n < 0 {
        seq!['-'] + decimal_digits((-n) as nat)
    } else {
        decimal_digits(n as nat)
    }
}

/// What `Duration`'s `Debug` implementation writes, in its plain form.
pub uninterp spec fn duration_debug(duration: Duration) -> Seq<char>;

/// `format!` of an `i32`: its `Display` implementation writes the number in
/// decimal notation, with a minus sign where it is negative and no padding.
#[verifier::external_body]
fn i32_text(n: i32) -> (text: String)
    ensures
        text@ == decimal(n as int),
{
    format!("{}", n)
}

/// `format!` of a `Duration`: what its `Debug` implementation writes, which is
/// a function of the duration alone.
#[verifier::external_body]
fn duration_text(duration: Duration) -> (text: String)
    ensures
        text@ == duration_debug(duration),
{
    format!("{:?}", duration)
}

impl Error {
    /// The message of the error.
    pub open spec fn text(self) -> Seq<char> {
        match self {
            Error::DeviceNotFound => "xbox360bb receiver not found"@,
            Error::InvalidDeviceDescriptor => "invalid USB device descriptor"@,
            Error::InvalidConfigurationDescriptor => "invalid USB configuration descriptor"@,
            Error::InterruptEndpointNotFound => "interrupt IN endpoint not found on receiver"@,
            Error::Usb(code) => "libusb error "@ + decimal(code as int) + " ("@ + usb_error_text(
                code,
            ) + ")"@,
            Error::TimeoutTooLarge(timeout) => "timeout "@ + duration_debug(timeout)
                + " exceeds libusb limits"@,
        }
    }

    /// Describes the error for a user.
    pub fn message(&self) -> (message: String)
        ensures
            message@ == self.text(),
    {
        match self {
            Self::DeviceNotFound => "xbox360bb receiver not found".to_owned(),
            Self::InvalidDeviceDescriptor => "invalid USB device descriptor".to_owned(),
            Self::InvalidConfigurationDescriptor => {
                "invalid USB configuration descriptor".to_owned()
            },
            Self::InterruptEndpointNotFound => {
                "interrupt IN endpoint not found on receiver".to_owned()
            },
            Self::Usb(code) => {
                let number = i32_text(*code);
                let mut message = "libusb error ".to_owned();
                message.append(number.as_str());
                message.append(" (");
                message.append(usb_error_name(*code));
                message.append(")");
                message
            },
            Self::TimeoutTooLarge(timeout) => {
                let length = duration_text(*timeout);
                let mut message = "timeout ".to_owned();
                message.append(length.as_str());
                message.append(" exceeds libusb limits");
                message
            },
        }
    }
}

/// Turns a libusb status code into a result: `0` is success.
pub fn usb_call(code: i32) -> (result: Result<(), Error>)
    ensures
        result == (if code == 0 {
            Ok::<(), Error>(())
        } else {
            Err(Error::Usb(code))
        }),
{
    if code == 0 {
        Ok(())
    } else {
        Err(Error::Usb(code))
    }
}

/// The whole milliseconds of a duration.
pub open spec fn whole_millis(duration: Duration) -> nat {
    crate::clock::duration_nanos(duration) / 1_000_000
}

/// The whole milliseconds of a duration, where they fit in the 32 bits of a
/// libusb timeout. Zero is no timeout to libusb; what asks for a transfer has to
/// see to that.
pub fn duration_to_timeout_ms(duration: Duration) -> (millis: Result<u32, Error>)
    ensures
        match millis {
            Ok(timeout) => timeout == whole_millis(duration),
            Err(error) => error == Error::TimeoutTooLarge(duration) && whole_millis(duration)
                > u32::MAX,
        },
        millis is Err <==> crate::clock::duration_nanos(duration) >= 0x1_0000_0000 * 1_000_000,
        millis matches Ok(timeout) ==> timeout * 1_000_000 <= crate::clock::duration_nanos(duration)
            < (timeout + 1) * 1_000_000,
{
    let millis = duration.as_millis();
    if millis > u32::MAX as u128 {
        return Err(Error::TimeoutTooLarge(duration));
    }
    Ok(millis as u32)
}

/// Names a libusb status code.
pub fn usb_error_name(code: i32) -> (name: &'static str)
    ensures
        name@ == usb_error_text(code),
{
    match code {
        0 => "success",
        LIBUSB_ERROR_IO => "input/output error",
        LIBUSB_ERROR_INVALID_PARAM => "invalid parameter",
        LIBUSB_ERROR_ACCESS => "access denied",
        LIBUSB_ERROR_NO_DEVICE => "device disconnected",
        LIBUSB_ERROR_NOT_FOUND => "entity not found",
        LIBUSB_ERROR_BUSY => "resource busy",
        LIBUSB_ERROR_TIMEOUT => "timeout",
        LIBUSB_ERROR_OVERFLOW => "overflow",
        LIBUSB_ERROR_PIPE => "pipe error",
        LIBUSB_ERROR_INTERRUPTED => "system call interrupted",
        LIBUSB_ERROR_NO_MEM => "out of memory",
        LIBUSB_ERROR_NOT_SUPPORTED => "operation not supported",
        _ => "unknown error",
    }
}

/// The whole milliseconds of a duration are as many as fit into it.
pub proof fn law_whole_millis_fit(duration: Duration)
    ensures
        whole_millis(duration) * 1_000_000 <= crate::clock::duration_nanos(duration),
        crate::clock::duration_nanos(duration) < (whole_millis(duration) + 1) * 1_000_000,
{
}

/// Each libusb status code has its text, and any other code is unknown.
pub proof fn law_status_texts(code: i32)
    ensures
        code == 0 ==> usb_error_text(code) == "success"@,
        code == -1 ==> usb_error_text(code) == "input/output error"@,
        code == -2 ==> usb_error_text(code) == "invalid parameter"@,
        code == -3 ==> usb_error_text(code) == "access denied"@,
        code == -4 ==> usb_error_text(code) == "device disconnected"@,
        code == -5 ==> usb_error_text(code) == "entity not found"@,
        code == -6 ==> usb_error_text(code) == "resource busy"@,
        code == -7 ==> usb_error_text(code) == "timeout"@,
        code == -8 ==> usb_error_text(code) == "overflow"@,
        code == -9 ==> usb_error_text(code) == "pipe error"@,
        code == -10 ==> usb_error_text(code) == "system call interrupted"@,
        code == -11 ==> usb_error_text(code) == "out of memory"@,
        code == -12 ==> usb_error_text(code) == "operation not supported"@,
        code > 0 || code < -12 ==> usb_error_text(code) == "unknown error"@,
{
}

/// The value of a sequence of decimal digits.
pub open spec fn digits_value(digits: Seq<char>) -> int
    decreases digits.len(),
{
    if digits.len() == 0 {
        0
    } else {
        digits_value(digits.drop_last()) * 10 + (digits.last() as int - '0' as int)
    }
}

/// The decimal digits of a number are digits, read back as that number, and
/// have no leading zero.
pub proof fn law_decimal_digits_read_back(n: nat)
    ensures
        digits_value(decimal_digits(n)) == n,
        decimal_digits(n).len() > 0,
        forall|i: int|
            0 <= i < decimal_digits(n).len() ==> '0' <= #[trigger] decimal_digits(n)[i] <= '9',
        n > 0 ==> decimal_digits(n)[0] != '0',
    decreases n,
{
    let digits = decimal_digits(n);
    if n >= 10 {
        law_decimal_digits_read_back(n / 10);
        assert(digits.drop_last() =~= decimal_digits(n / 10));
    } else {
        assert(digits.drop_last() =~= Seq::<char>::empty());
        assert(digits_value(Seq::<char>::empty()) == 0);
    }
}

/// A number in decimal notation is its digits, behind a minus sign where it is
/// negative.
pub proof fn law_decimal_notation(n: int)
    ensures
        n >= 0 ==> decimal(n) == decimal_digits(n as nat),
        n < 0 ==> decimal(n) == seq!['-'] + decimal_digits((-n) as nat),
{
}

/// The messages of the errors, word for word.
pub proof fn law_error_messages(code: i32, timeout: Duration)
    ensures
        Error::DeviceNotFound.text() == "xbox360bb receiver not found"@,
        Error::InvalidDeviceDescriptor.text() == "invalid USB device descriptor"@,
        Error::InvalidConfigurationDescriptor.text() == "invalid USB configuration descriptor"@,
        Error::InterruptEndpointNotFound.text() == "interrupt IN endpoint not found on receiver"@,
        Error::Usb(code).text() == "libusb error "@ + decimal(code as int) + " ("@
            + usb_error_text(code) + ")"@,
        Error::TimeoutTooLarge(timeout).text() == "timeout "@ + duration_debug(timeout)
            + " exceeds libusb limits"@,
{
}

} // verus!
