//! Controllers, their input state, and the decoding of button bytes.
use vstd::prelude::*;

verus! {

/// One of the four controller slots exposed by the receiver.
#[derive(Debug, Clone, Copy, PartialEq, Eq, Hash, Structural)]
pub enum ControllerId {
    Green,
    Red,
    Blue,
    Yellow,
}

impl ControllerId {
    /// Every controller, in slot order.
    pub const ALL: [ControllerId; 4] = [
        ControllerId::Green,
        ControllerId::Red,
        ControllerId::Blue,
        ControllerId::Yellow,
    ];

    /// The slot of the controller, `0` to `3`.
    pub open spec fn slot(self) -> int {
        match self {
            ControllerId::Green => 0,
            ControllerId::Red => 1,
            ControllerId::Blue => 2,
            ControllerId::Yellow => 3,
        }
    }

    /// The controller whose slot is `index`.
    pub open spec fn at(index: int) -> Option<ControllerId> {
        if index == 0 {
            Some(ControllerId::Green)
        } else if index == 1 {
            Some(ControllerId::Red)
        } else if index == 2 {
            Some(ControllerId::Blue)
        } else if index == 3 {
            Some(ControllerId::Yellow)
        } else {
            None
        }
    }

    /// The controller in slot `index`, if there is such a slot.
    pub fn from_index(index: u8) -> (controller: Option<Self>)
        ensures
            controller == ControllerId::at(index as int),
            index == 0 <==> controller == Some(ControllerId::Green),
            index == 1 <==> controller == Some(ControllerId::Red),
            index == 2 <==> controller == Some(ControllerId::Blue),
            index == 3 <==> controller == Some(ControllerId::Yellow),
            index >= 4 <==> controller is None,
    {
        match index {
            0 => Some(Self::Green),
            1 => Some(Self::Red),
            2 => Some(Self::Blue),
            3 => Some(Self::Yellow),
            _ => None,
        }
    }

    /// The slot of the controller as an array index.
    pub fn index(self) -> (index: usize)
        ensures
            index == self.slot(),
            index < 4,
            index == 0 <==> self == ControllerId::Green,
            index == 1 <==> self == ControllerId::Red,
            index == 2 <==> self == ControllerId::Blue,
            index == 3 <==> self == ControllerId::Yellow,
    {
        match self {
            Self::Green => 0,
            Self::Red => 1,
            Self::Blue => 2,
            Self::Yellow => 3,
        }
    }
}

/// Snapshot of all inputs for a single controller.
///
/// `dpad_x` and `dpad_y` are normalized to `-1`, `0`, or `1`.
#[derive(Debug, Clone, Copy, PartialEq, Eq, Structural)]
pub struct ControllerState {
    pub dpad_x: i8,
    pub dpad_y: i8,
    pub start: bool,
    pub back: bool,
    pub guide: bool,
    pub center: bool,
    pub a: bool,
    pub b: bool,
    pub x: bool,
    pub y: bool,
}

impl ControllerState {
    /// The state with no button pressed and the d-pad centered.
    pub open spec fn idle() -> ControllerState {
        ControllerState {
            dpad_x: 0,
            dpad_y: 0,
            start: false,
            back: false,
            guide: false,
            center: false,
            a: false,
            b: false,
            x: false,
            y: false,
        }
    }

    /// Returns `true` when no buttons are pressed and the d-pad is centered.
    pub fn is_idle(self) -> (idle: bool)
        ensures
            idle == (self == ControllerState::idle()),
            idle <==> {
                &&& self.dpad_x == 0 && self.dpad_y == 0
                &&& !self.start && !self.back && !self.guide && !self.center
                &&& !self.a && !self.b && !self.x && !self.y
            },
    {
        self == Self::default()
    }
}

impl Default for ControllerState {
    /// The idle state.
    fn default() -> (state: Self)
        ensures
            state == ControllerState::idle(),
            state.dpad_x == 0,
            state.dpad_y == 0,
            !(state.start || state.back || state.guide || state.center),
            !(state.a || state.b || state.x || state.y),
    {
        ControllerState {
            dpad_x: 0,
            dpad_y: 0,
            start: false,
            back: false,
            guide: false,
            center: false,
            a: false,
            b: false,
            x: false,
            y: false,
        }
    }
}

/// Describes why an event was emitted.
#[derive(Debug, Clone, Copy, PartialEq, Eq, Structural)]
pub enum EventKind {
    /// The receiver reported a new button state.
    StateChanged,
    /// The library synthesized a release after the repeat timeout elapsed.
    Released,
}

/// A decoded event for one controller.
#[derive(Debug, Clone, Copy, PartialEq, Eq, Structural)]
pub struct ControllerEvent {
    pub controller: ControllerId,
    pub state: ControllerState,
    pub kind: EventKind,
}

/// First button byte: d-pad up.
pub const DPAD_UP: u8 = 0x01;

/// First button byte: d-pad down.
pub const DPAD_DOWN: u8 = 0x02;

/// First button byte: d-pad left.
pub const DPAD_LEFT: u8 = 0x04;

/// First button byte: d-pad right.
pub const DPAD_RIGHT: u8 = 0x08;

/// First button byte: start.
pub const START: u8 = 0x10;

/// First button byte: back.
pub const BACK: u8 = 0x20;

/// Second button byte: guide.
pub const GUIDE: u8 = 0x04;

/// Second button byte: the big center button.
pub const CENTER: u8 = 0x08;

/// Second button byte: A.
pub const BUTTON_A: u8 = 0x10;

/// Second button byte: B.
pub const BUTTON_B: u8 = 0x20;

/// Second button byte: X.
pub const BUTTON_X: u8 = 0x40;

/// Second button byte: Y.
pub const BUTTON_Y: u8 = 0x80;

/// Whether the bit of `mask` is set in a button byte.
pub open spec fn pressed(byte: u8, mask: u8) -> bool {
    byte & mask != 0
}

/// Position of one d-pad axis: the negative direction wins over the positive.
pub open spec fn axis(negative: bool, positive: bool) -> i8 {
    if negative {
        (-1) as i8
    } else if positive {
        1
    } else {
        0
    }
}

/// The controller state that the two button bytes of a packet stand for.
pub open spec fn decoded(b3: u8, b4: u8) -> ControllerState {
    ControllerState {
        dpad_x: axis(pressed(b3, DPAD_LEFT), pressed(b3, DPAD_RIGHT)),
        dpad_y: axis(pressed(b3, DPAD_UP), pressed(b3, DPAD_DOWN)),
        start: pressed(b3, START),
        back: pressed(b3, BACK),
        guide: pressed(b4, GUIDE),
        center: pressed(b4, CENTER),
        a: pressed(b4, BUTTON_A),
        b: pressed(b4, BUTTON_B),
        x: pressed(b4, BUTTON_X),
        y: pressed(b4, BUTTON_Y),
    }
}

/// Decodes the two button bytes of a packet.
pub fn decode_state(b3: u8, b4: u8) -> (state: ControllerState)
    ensures
        state == decoded(b3, b4),
        state.dpad_x == (if b3 & 0x04 != 0 {
            -1int
        } else if b3 & 0x08 != 0 {
            1
        } else {
            0
        }),
        state.dpad_y == (if b3 & 0x01 != 0 {
            -1int
        } else if b3 & 0x02 != 0 {
            1
        } else {
            0
        }),
        state.start <==> b3 & 0x10 != 0,
        state.back <==> b3 & 0x20 != 0,
        state.guide <==> b4 & 0x04 != 0,
        state.center <==> b4 & 0x08 != 0,
        state.a <==> b4 & 0x10 != 0,
        state.b <==> b4 & 0x20 != 0,
        state.x <==> b4 & 0x40 != 0,
        state.y <==> b4 & 0x80 != 0,
{
    ControllerState {
        dpad_x: if b3 & DPAD_LEFT != 0 {
            -1
        } else if b3 & DPAD_RIGHT != 0 {
            1
        } else {
            0
        },
        dpad_y: if b3 & DPAD_UP != 0 {
            -1
        } else if b3 & DPAD_DOWN != 0 {
            1
        } else {
            0
        },
        start: b3 & START != 0,
        back: b3 & BACK != 0,
        guide: b4 & GUIDE != 0,
        center: b4 & CENTER != 0,
        a: b4 & BUTTON_A != 0,
        b: b4 & BUTTON_B != 0,
        x: b4 & BUTTON_X != 0,
        y: b4 & BUTTON_Y != 0,
    }
}

/// Slots and controllers correspond one to one, and `ALL` lists the
/// controllers in the order of their slots.
pub proof fn law_slots_name_controllers(controller: ControllerId, index: int)
    ensures
        0 <= controller.slot() < 4,
        ControllerId::at(controller.slot()) == Some(controller),
        ControllerId::at(index) == Some(controller) <==> index == controller.slot(),
        ControllerId::at(index) is Some <==> 0 <= index < 4,
        ControllerId::ALL[controller.slot()] == controller,
{
}

/// Green, red, blue and yellow have the slots `0` to `3`, in this order.
pub proof fn law_slot_numbers()
    ensures
        ControllerId::Green.slot() == 0,
        ControllerId::Red.slot() == 1,
        ControllerId::Blue.slot() == 2,
        ControllerId::Yellow.slot() == 3,
{
}

/// Idle means that the d-pad is centered and no button is pressed.
pub proof fn law_idle_state_has_no_input(state: ControllerState)
    ensures
        state == ControllerState::idle() <==> {
            &&& state.dpad_x == 0 && state.dpad_y == 0
            &&& !state.start && !state.back && !state.guide && !state.center
            &&& !state.a && !state.b && !state.x && !state.y
        },
{
}

/// Each axis and each button is read from bits of its own: up wins over down,
/// left over right, and a button is pressed exactly where its bit is set.
pub proof fn law_each_input_has_its_own_bits(b3: u8, b4: u8)
    ensures
        decoded(b3, b4).dpad_y == -1 <==> b3 & 0x01 != 0,
        decoded(b3, b4).dpad_y == 1 <==> b3 & 0x01 == 0 && b3 & 0x02 != 0,
        decoded(b3, b4).dpad_y == 0 <==> b3 & 0x01 == 0 && b3 & 0x02 == 0,
        decoded(b3, b4).dpad_x == -1 <==> b3 & 0x04 != 0,
        decoded(b3, b4).dpad_x == 1 <==> b3 & 0x04 == 0 && b3 & 0x08 != 0,
        decoded(b3, b4).dpad_x == 0 <==> b3 & 0x04 == 0 && b3 & 0x08 == 0,
        decoded(b3, b4).start <==> b3 & 0x10 != 0,
        decoded(b3, b4).back <==> b3 & 0x20 != 0,
        decoded(b3, b4).guide <==> b4 & 0x04 != 0,
        decoded(b3, b4).center <==> b4 & 0x08 != 0,
        decoded(b3, b4).a <==> b4 & 0x10 != 0,
        decoded(b3, b4).b <==> b4 & 0x20 != 0,
        decoded(b3, b4).x <==> b4 & 0x40 != 0,
        decoded(b3, b4).y <==> b4 & 0x80 != 0,
{
}

/// Two packets that agree in the bits of an input agree in that input, whatever
/// their other bits are.
pub proof fn law_inputs_do_not_disturb_each_other(b3: u8, b4: u8, c3: u8, c4: u8)
    ensures
        b3 & 0x03 == c3 & 0x03 ==> decoded(b3, b4).dpad_y == decoded(c3, c4).dpad_y,
        b3 & 0x0c == c3 & 0x0c ==> decoded(b3, b4).dpad_x == decoded(c3, c4).dpad_x,
        b3 & 0x10 == c3 & 0x10 ==> decoded(b3, b4).start == decoded(c3, c4).start,
        b3 & 0x20 == c3 & 0x20 ==> decoded(b3, b4).back == decoded(c3, c4).back,
        b4 & 0x04 == c4 & 0x04 ==> decoded(b3, b4).guide == decoded(c3, c4).guide,
        b4 & 0x08 == c4 & 0x08 ==> decoded(b3, b4).center == decoded(c3, c4).center,
        b4 & 0x10 == c4 & 0x10 ==> decoded(b3, b4).a == decoded(c3, c4).a,
        b4 & 0x20 == c4 & 0x20 ==> decoded(b3, b4).b == decoded(c3, c4).b,
        b4 & 0x40 == c4 & 0x40 ==> decoded(b3, b4).x == decoded(c3, c4).x,
        b4 & 0x80 == c4 & 0x80 ==> decoded(b3, b4).y == decoded(c3, c4).y,
{
    assert(b3 & 0x03 == c3 & 0x03 ==> b3 & 0x01 == c3 & 0x01 && b3 & 0x02 == c3 & 0x02)
        by (bit_vector);
    assert(b3 & 0x0c == c3 & 0x0c ==> b3 & 0x04 == c3 & 0x04 && b3 & 0x08 == c3 & 0x08)
        by (bit_vector);
}

/// Each d-pad axis is normalized to `-1`, `0` or `1`.
pub proof fn law_dpad_is_normalized(b3: u8, b4: u8)
    ensures
        -1 <= decoded(b3, b4).dpad_x <= 1,
        -1 <= decoded(b3, b4).dpad_y <= 1,
{
}

/// The button bytes decode to the idle state exactly where no bit is set that
/// stands for an input.
pub proof fn law_idle_means_no_input_bit(b3: u8, b4: u8)
    ensures
        decoded(b3, b4) == ControllerState::idle() <==> b3 & 0x3f == 0 && b4 & 0xfc == 0,
{
    assert(b3 & 0x3f == 0 <==> b3 & 0x01 == 0 && b3 & 0x02 == 0 && b3 & 0x04 == 0 && b3 & 0x08 == 0
        && b3 & 0x10 == 0 && b3 & 0x20 == 0) by (bit_vector);
    assert(b4 & 0xfc == 0 <==> b4 & 0x04 == 0 && b4 & 0x08 == 0 && b4 & 0x10 == 0 && b4 & 0x20 == 0
        && b4 & 0x40 == 0 && b4 & 0x80 == 0) by (bit_vector);
}

/// Bits that stand for no input do not matter.
pub proof fn law_other_bits_do_not_matter(b3: u8, b4: u8)
    ensures
        decoded(b3 & 0x3f, b4 & 0xfc) == decoded(b3, b4),
{
    assert((b3 & 0x3f) & 0x01 == b3 & 0x01 && (b3 & 0x3f) & 0x02 == b3 & 0x02 && (b3 & 0x3f) & 0x04
        == b3 & 0x04 && (b3 & 0x3f) & 0x08 == b3 & 0x08 && (b3 & 0x3f) & 0x10 == b3 & 0x10 && (b3
        & 0x3f) & 0x20 == b3 & 0x20) by (bit_vector);
    assert((b4 & 0xfc) & 0x04 == b4 & 0x04 && (b4 & 0xfc) & 0x08 == b4 & 0x08 && (b4 & 0xfc) & 0x10
        == b4 & 0x10 && (b4 & 0xfc) & 0x20 == b4 & 0x20 && (b4 & 0xfc) & 0x40 == b4 & 0x40 && (b4
        & 0xfc) & 0x80 == b4 & 0x80) by (bit_vector);
}

} // verus!
