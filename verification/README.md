# xbox360bb

Verified library for reading Xbox 360 Big Button controller events directly
from the USB receiver (`045e:02a0`).

The library in `src/` is written in Verus. It holds the decisions of a driver:

- which USB calls open a receiver, in which order, and what each reply leads to
- which endpoint of the device is read
- how a packet decodes to d-pad and button state
- which packets are repeats and give no event
- when a controller that stopped repeating a held button is released
- which calls give the receiver up again

It makes no USB call itself. Every operation that needs one returns a `Step`:
either the call to be made, whose reply is then handed back, or the result. The
crate in `app/` makes the calls with `libusb-1.0`.

## Layout

- `controller.rs`: controllers, their state, the decoding of button bytes
- `receiver.rs`: an open receiver; packets, silence, polling, events
- `descriptor.rs`: USB descriptors and the search for the interrupt endpoint
- `opening.rs`: opening and closing a receiver
- `error.rs`: errors, libusb status codes, messages
- `clock.rs`: what is relied on of `std::time`
- `step.rs`: operations that need USB calls on their way
- `receiver_laws.rs`, `opening_laws.rs`: what holds across calls

## Event model

Each event contains the controller that changed, its full state after the
change, and a kind. `StateChanged` follows from a packet. `Released` is
synthesized: the physical receiver repeats held buttons, but does not always
send a packet when they are let go, so after a configurable silence the
controller is reported as idle.

## Button mapping

- `dpad_x`: `-1` left, `0` center, `1` right
- `dpad_y`: `-1` up, `0` center, `1` down
- `start`, `back`, `guide`, `center`, `a`, `b`, `x`, `y`
