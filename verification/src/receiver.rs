//! The state of an open receiver: what each controller last reported, and
//! which events follow from packets and from silence.
use std::time::{Duration, Instant};
use vstd::prelude::*;

use crate::controller::{decode_state, ControllerEvent, ControllerId, ControllerState, EventKind};
use crate::error::{duration_to_timeout_ms, usb_call, Error, LIBUSB_ERROR_TIMEOUT};
use crate::step::Step;

verus! {

/// Size of the buffer that an interrupt transfer fills.
pub const PACKET_LEN: usize = 32;

/// An interrupt transfer that is to be made.
#[derive(Debug, Clone, Copy, PartialEq, Eq, Structural)]
pub struct TransferRequest {
    pub endpoint_address: u8,
    pub length: usize,
    pub timeout_ms: u32,
}

/// What came back from an interrupt transfer.
#[derive(Debug, Clone, Copy)]
pub struct TransferReply {
    /// libusb's status code.
    pub code: i32,
    /// How many bytes of `packet` were filled.
    pub transferred: i32,
    pub packet: [u8; PACKET_LEN],
}

impl TransferReply {
    /// A transfer that succeeded filled no more than its buffer.
    pub open spec fn fits(self) -> bool {
        self.code == 0 ==> self.transferred <= PACKET_LEN
    }

    /// The bytes that were received.
    pub open spec fn received(self) -> Seq<u8> {
        self.packet@.take(self.transferred as int)
    }

    /// Whether nothing usable came: the transfer timed out, or succeeded with
    /// fewer bytes than a packet has.
    pub open spec fn is_silent(self) -> bool {
        ||| self.code == LIBUSB_ERROR_TIMEOUT
        ||| self.code == 0 && self.transferred < 5
    }
}

/// A poll: the transfer that it waits for, or the event, if there was one.
pub type PollStep = Step<TransferRequest, Result<Option<ControllerEvent>, Error>>;

/// A wait for an event: the transfer that it waits for, or the event.
pub type EventStep = Step<TransferRequest, Result<ControllerEvent, Error>>;

/// A wait for an item of [`Events`].
pub type ItemStep = Step<TransferRequest, Option<Result<ControllerEvent, Error>>>;

/// What is known of one controller.
#[derive(Debug, Clone, Copy)]
pub struct ControllerSlot {
    pub state: ControllerState,
    pub raw_b3: u8,
    pub raw_b4: u8,
    pub last_seen: Option<Instant>,
}

impl ControllerSlot {
    /// The slot of a controller that has reported nothing.
    pub open spec fn empty() -> ControllerSlot {
        ControllerSlot { state: ControllerState::idle(), raw_b3: 0, raw_b4: 0, last_seen: None }
    }

    /// The state is what the button bytes decode to, and a controller that has
    /// not been seen has reported no button.
    pub open spec fn wf(self) -> bool {
        &&& self.state == crate::controller::decoded(self.raw_b3, self.raw_b4)
        &&& self.last_seen is None ==> self.raw_b3 == 0 && self.raw_b4 == 0
    }
}

impl Default for ControllerSlot {
    /// The slot of a controller that has reported nothing.
    fn default() -> (slot: Self)
        ensures
            slot == ControllerSlot::empty(),
    {
        Self { state: ControllerState::default(), raw_b3: 0, raw_b4: 0, last_seen: None }
    }
}

/// An open receiver.
///
/// Holds the interface and endpoint that were found when the device was
/// opened, the two timeouts, and one slot for each controller.
#[derive(Debug)]
pub struct Receiver {
    pub interface_number: u8,
    pub endpoint_address: u8,
    pub read_timeout: Duration,
    pub release_timeout: Duration,
    pub slots: [ControllerSlot; 4],
}

/// The contents of a [`Receiver`].
#[verifier::ext_equal]
pub struct ReceiverView {
    pub interface_number: u8,
    pub endpoint_address: u8,
    pub read_timeout: Duration,
    pub release_timeout: Duration,
    pub slots: Seq<ControllerSlot>,
}

impl View for Receiver {
    type V = ReceiverView;

    open spec fn view(&self) -> ReceiverView {
        ReceiverView {
            interface_number: self.interface_number,
            endpoint_address: self.endpoint_address,
            read_timeout: self.read_timeout,
            release_timeout: self.release_timeout,
            slots: self.slots@,
        }
    }
}

impl ReceiverView {
    /// The slot of a controller.
    pub open spec fn slot(self, controller: ControllerId) -> ControllerSlot {
        self.slots[controller.slot()]
    }

    /// A receiver on which no controller has been seen.
    pub open spec fn fresh(
        interface_number: u8,
        endpoint_address: u8,
        read_timeout: Duration,
        release_timeout: Duration,
    ) -> ReceiverView {
        ReceiverView {
            interface_number,
            endpoint_address,
            read_timeout,
            release_timeout,
            slots: Seq::new(4, |i: int| ControllerSlot::empty()),
        }
    }

    /// There is a well-formed slot for each controller.
    pub open spec fn wf(self) -> bool {
        &&& self.slots.len() == 4
        &&& forall|controller: ControllerId| #[trigger] self.slot(controller).wf()
    }

    /// The receiver with the slot of one controller replaced.
    pub open spec fn with_slot(self, controller: ControllerId, slot: ControllerSlot) -> ReceiverView {
        ReceiverView { slots: self.slots.update(controller.slot(), slot), ..self }
    }

    /// The controller that a packet is about.
    pub open spec fn sender(packet: Seq<u8>) -> Option<ControllerId> {
        ControllerId::at(packet[2] as int)
    }

    /// Whether a packet repeats the button bytes that a controller last sent.
    pub open spec fn repeats(self, controller: ControllerId, packet: Seq<u8>) -> bool {
        &&& self.slot(controller).raw_b3 == packet[3]
        &&& self.slot(controller).raw_b4 == packet[4]
    }

    /// The event that a packet gives rise to: one if it comes from one of the
    /// four controllers and does not repeat what that controller last sent.
    pub open spec fn packet_event(self, packet: Seq<u8>) -> Option<ControllerEvent> {
        match ReceiverView::sender(packet) {
            Some(controller) if !self.repeats(controller, packet) => Some(
                ControllerEvent {
                    controller,
                    state: crate::controller::decoded(packet[3], packet[4]),
                    kind: EventKind::StateChanged,
                },
            ),
            _ => None,
        }
    }

    /// The receiver after a packet that was taken in at the instant `now`.
    pub open spec fn after_packet(self, packet: Seq<u8>, now: Instant) -> ReceiverView {
        match ReceiverView::sender(packet) {
            Some(controller) => if self.repeats(controller, packet) {
                self.with_slot(
                    controller,
                    ControllerSlot { last_seen: Some(now), ..self.slot(controller) },
                )
            } else {
                self.with_slot(
                    controller,
                    ControllerSlot {
                        state: crate::controller::decoded(packet[3], packet[4]),
                        raw_b3: packet[3],
                        raw_b4: packet[4],
                        last_seen: Some(now),
                    },
                )
            },
            None => self,
        }
    }

    /// For how many nanoseconds each controller has been silent at the instant
    /// `now`; nothing for a controller that has not been seen.
    pub open spec fn silences(self, now: Instant) -> Seq<Option<nat>> {
        self.slots.map_values(
            |slot: ControllerSlot|
                match slot.last_seen {
                    Some(last_seen) => Some(crate::clock::nanos_between(now, last_seen)),
                    None => None,
                },
        )
    }

    /// Whether a controller is to be released: it holds some input and has been
    /// silent for the release timeout or longer.
    pub open spec fn is_due(self, controller: ControllerId, silences: Seq<Option<nat>>) -> bool {
        &&& self.slot(controller).state != ControllerState::idle()
        &&& silences[controller.slot()] matches Some(silence)
        &&& silence >= crate::clock::duration_nanos(self.release_timeout)
    }

    /// The first controller, in slot order, that is to be released.
    pub open spec fn first_due(self, silences: Seq<Option<nat>>) -> Option<ControllerId> {
        if self.is_due(ControllerId::Green, silences) {
            Some(ControllerId::Green)
        } else if self.is_due(ControllerId::Red, silences) {
            Some(ControllerId::Red)
        } else if self.is_due(ControllerId::Blue, silences) {
            Some(ControllerId::Blue)
        } else if self.is_due(ControllerId::Yellow, silences) {
            Some(ControllerId::Yellow)
        } else {
            None
        }
    }

    /// The event that silence gives rise to.
    pub open spec fn release_event(self, silences: Seq<Option<nat>>) -> Option<ControllerEvent> {
        match self.first_due(silences) {
            Some(controller) => Some(
                ControllerEvent {
                    controller,
                    state: ControllerState::idle(),
                    kind: EventKind::Released,
                },
            ),
            None => None,
        }
    }

    /// The receiver after the first controller that is due was released.
    pub open spec fn after_release(self, silences: Seq<Option<nat>>) -> ReceiverView {
        match self.first_due(silences) {
            Some(controller) => self.with_slot(controller, ControllerSlot::empty()),
            None => self,
        }
    }

    /// The receiver after the answer to a transfer, and what the poll that
    /// asked for it returns.
    ///
    /// `seen` is the instant at which a packet was taken in, and `checked` the
    /// instant at which silence was measured.
    pub open spec fn polled(self, reply: TransferReply, seen: Instant, checked: Instant) -> (
        ReceiverView,
        Result<Option<ControllerEvent>, Error>,
    ) {
        if reply.is_silent() {
            let silences = self.silences(checked);
            (self.after_release(silences), Ok(self.release_event(silences)))
        } else if reply.code != 0 {
            (self, Err(Error::Usb(reply.code)))
        } else {
            let next = self.after_packet(reply.received(), seen);
            match self.packet_event(reply.received()) {
                Some(event) => (next, Ok(Some(event))),
                None => {
                    let silences = next.silences(checked);
                    (next.after_release(silences), Ok(next.release_event(silences)))
                },
            }
        }
    }

    /// A silent reply comes to a check for due releases.
    proof fn lemma_silent_reply(
        self,
        reply: TransferReply,
        next: ReceiverView,
        event: Option<ControllerEvent>,
    )
        requires
            reply.is_silent(),
            exists|now: Instant|
                call_ensures(Instant::now, (), now) && event == self.release_event(
                    #[trigger] self.silences(now),
                ) && next == self.after_release(self.silences(now)),
        ensures
            exists|seen: Instant, checked: Instant|
                #[trigger] self.polled(reply, seen, checked) == (next, Ok::<
                    Option<ControllerEvent>,
                    Error,
                >(event)) && call_ensures(Instant::now, (), seen) && call_ensures(
                    Instant::now,
                    (),
                    checked,
                ),
    {
        let now = choose|now: Instant|
            call_ensures(Instant::now, (), now) && event == self.release_event(
                #[trigger] self.silences(now),
            ) && next == self.after_release(self.silences(now));
        assert(self.polled(reply, now, now) == (next, Ok::<Option<ControllerEvent>, Error>(event)));
    }

    /// Whether waiting for an event, given the reply to the last transfer if
    /// one was made, may leave the receiver as `next` and come to `step`.
    pub open spec fn awaited(
        self,
        reply: Option<TransferReply>,
        next: ReceiverView,
        step: EventStep,
    ) -> bool {
        if crate::error::whole_millis(self.read_timeout) > u32::MAX {
            &&& step == EventStep::Done(Err(Error::TimeoutTooLarge(self.read_timeout)))
            &&& next == self
        } else {
            match reply {
                None => {
                    &&& step == EventStep::Call(self.request(self.read_timeout))
                    &&& next == self
                },
                Some(reply) => exists|seen: Instant, checked: Instant| {
                    let (after, result) = #[trigger] self.polled(reply, seen, checked);
                    &&& reply.code == 0 || reply.code == -7 ==> call_ensures(
                        Instant::now,
                        (),
                        seen,
                    ) && call_ensures(Instant::now, (), checked)
                    &&& next == after
                    &&& step == match result {
                        Ok(Some(event)) => Step::Done(Ok(event)),
                        Ok(None) => Step::Call(self.request(self.read_timeout)),
                        Err(error) => Step::Done(Err(error)),
                    }
                },
            }
        }
    }

    /// The transfer that a poll with this timeout asks for.
    ///
    /// It waits for the whole milliseconds of the timeout, but for one at
    /// least: libusb takes a timeout of zero as none at all, and the poll would
    /// wait for a packet without limit.
    pub open spec fn request(self, timeout: Duration) -> TransferRequest {
        TransferRequest {
            endpoint_address: self.endpoint_address,
            length: PACKET_LEN,
            timeout_ms: if crate::error::whole_millis(timeout) == 0 {
                1
            } else {
                crate::error::whole_millis(timeout) as u32
            },
        }
    }
}

/// Durations as nanoseconds.
pub open spec fn silence_nanos(silences: Seq<Option<Duration>>) -> Seq<Option<nat>> {
    silences.map_values(
        |silence: Option<Duration>|
            match silence {
                Some(duration) => Some(crate::clock::duration_nanos(duration)),
                None => None,
            },
    )
}

impl Receiver {
    /// Takes in a packet of the receiver: notes that its controller was seen at
    /// the instant that the clock reads, and returns an event if the controller sent something new.
    pub fn decode_packet(&mut self, packet: &[u8]) -> (event: Option<ControllerEvent>)
        requires
            packet.len() > 2,
            packet[2] < 4 ==> packet.len() > 4,
        ensures
            event == old(self)@.packet_event(packet@),
            exists|now: Instant|
                call_ensures(Instant::now, (), now) && final(self)@
                    == #[trigger] old(self)@.after_packet(packet@, now),
            old(self)@.wf() ==> final(self)@.wf(),
    {
        let now = Instant::now();
        self.decode_packet_at(packet, now)
    }

    /// Takes in a packet of the receiver, as [`Receiver::decode_packet`] does,
    /// at the instant `now`.
    pub fn decode_packet_at(&mut self, packet: &[u8], now: Instant) -> (event: Option<
        ControllerEvent,
    >)
        requires
            packet.len() > 2,
            packet[2] < 4 ==> packet.len() > 4,
        ensures
            event == old(self)@.packet_event(packet@),
            final(self)@ == old(self)@.after_packet(packet@, now),
            old(self)@.wf() ==> final(self)@.wf(),
    {
        proof {
            if self@.wf() {
                self@.law_slots_stay_well_formed(packet@, now, seq![]);
            }
        }
        let controller = match ControllerId::from_index(packet[2]) {
            Some(controller) => controller,
            None => return None,
        };
        let slot = controller.index();
        let b3 = packet[3];
        let b4 = packet[4];

        self.slots[slot].last_seen = Some(now);

        if self.slots[slot].raw_b3 == b3 && self.slots[slot].raw_b4 == b4 {
            return None;
        }
        self.slots[slot].raw_b3 = b3;
        self.slots[slot].raw_b4 = b4;
        self.slots[slot].state = decode_state(b3, b4);

        Some(
            ControllerEvent {
                controller,
                state: self.slots[slot].state,
                kind: EventKind::StateChanged,
            },
        )
    }

    /// Releases one controller that stopped repeating a held button, as of the
    /// instant that the clock reads.
    pub fn check_release_timeouts(&mut self) -> (event: Option<ControllerEvent>)
        ensures
            exists|now: Instant|
                call_ensures(Instant::now, (), now) && event == old(self)@.release_event(
                    #[trigger] old(self)@.silences(now),
                ) && final(self)@ == old(self)@.after_release(old(self)@.silences(now)),
            old(self)@.wf() ==> final(self)@.wf(),
    {
        let now = Instant::now();
        let silences = self.silences_at(now);
        self.release_silent(&silences)
    }

    /// For how long each controller has been silent at the instant `now`.
    pub fn silences_at(&self, now: Instant) -> (silences: [Option<Duration>; 4])
        ensures
            silence_nanos(silences@) == self@.silences(now),
    {
        let mut silences: [Option<Duration>; 4] = [None;4];
        let mut i: usize = 0;
        while i < 4
            invariant
                i <= 4,
                forall|j: int|
                    0 <= j < i ==> silence_nanos(silences@)[j] == #[trigger] self@.silences(now)[j],
            decreases 4 - i,
        {
            silences[i] = match self.slots[i].last_seen {
                Some(last_seen) => Some(now.duration_since(last_seen)),
                None => None,
            };
            i += 1;
        }
        silences
    }

    /// Releases the first controller, in slot order, that holds some input and
    /// has been silent for the release timeout or longer.
    ///
    /// `silences` says for how long each controller has been silent.
    pub fn release_silent(&mut self, silences: &[Option<Duration>; 4]) -> (event: Option<
        ControllerEvent,
    >)
        ensures
            event == old(self)@.release_event(silence_nanos(silences@)),
            final(self)@ == old(self)@.after_release(silence_nanos(silences@)),
            old(self)@.wf() ==> final(self)@.wf(),
    {
        proof {
            if self@.wf() {
                self@.law_slots_stay_well_formed(
                    seq![],
                    arbitrary(),
                    silence_nanos(silences@),
                );
            }
        }
        let mut i: usize = 0;
        while i < 4
            invariant
                i <= 4,
                *self == *old(self),
                self@.wf() ==> self@.after_release(silence_nanos(silences@)).wf(),
                forall|controller: ControllerId|
                    controller.slot() < i ==> !#[trigger] self@.is_due(
                        controller,
                        silence_nanos(silences@),
                    ),
            decreases 4 - i,
        {
            let controller = ControllerId::ALL[i];
            let slot = controller.index();
            let expired = match silences[slot] {
                Some(silence) => silence.as_nanos() >= self.release_timeout.as_nanos(),
                None => false,
            };

            if expired && !self.slots[slot].state.is_idle() {
                self.slots[slot].state = ControllerState::default();
                self.slots[slot].raw_b3 = 0;
                self.slots[slot].raw_b4 = 0;
                self.slots[slot].last_seen = None;
                assert(self@ =~= old(self)@.after_release(silence_nanos(silences@)));
                return Some(
                    ControllerEvent {
                        controller,
                        state: ControllerState::default(),
                        kind: EventKind::Released,
                    },
                );
            }
            i += 1;
        }
        None
    }

    /// Polls once for an event.
    ///
    /// Without a `reply`, asks for the transfer that waits for a packet. With
    /// the reply to that transfer, returns `Ok(None)` when no packet arrived
    /// within `timeout` and no synthesized release became due.
    ///
    /// The transfer waits for a millisecond where `timeout` is shorter.
    pub fn poll_event(&mut self, timeout: Duration, reply: Option<TransferReply>) -> (step: PollStep)
        requires
            reply matches Some(reply) ==> reply.fits(),
        ensures
            crate::error::whole_millis(timeout) > u32::MAX ==> {
                &&& step == PollStep::Done(Err(Error::TimeoutTooLarge(timeout)))
                &&& final(self)@ == old(self)@
            },
            crate::error::whole_millis(timeout) <= u32::MAX ==> match reply {
                None => {
                    &&& step == PollStep::Call(old(self)@.request(timeout))
                    &&& final(self)@ == old(self)@
                },
                Some(reply) => exists|seen: Instant, checked: Instant| {
                    let (next, result) = #[trigger] old(self)@.polled(reply, seen, checked);
                    &&& reply.code == 0 || reply.code == -7 ==> call_ensures(
                        Instant::now,
                        (),
                        seen,
                    ) && call_ensures(Instant::now, (), checked)
                    &&& step == PollStep::Done(result)
                    &&& final(self)@ == next
                },
            },
            old(self)@.wf() ==> final(self)@.wf(),
    {
        let timeout_ms = match duration_to_timeout_ms(timeout) {
            Ok(timeout_ms) => timeout_ms,
            Err(error) => return Step::Done(Err(error)),
        };
        match reply {
            None => Step::Call(
                TransferRequest {
                    endpoint_address: self.endpoint_address,
                    length: PACKET_LEN,
                    timeout_ms: if timeout_ms == 0 {
                        1
                    } else {
                        timeout_ms
                    },
                },
            ),
            Some(reply) => Step::Done(self.take_reply(&reply)),
        }
    }

    /// Takes in the answer to a transfer.
    fn take_reply(&mut self, reply: &TransferReply) -> (result: Result<
        Option<ControllerEvent>,
        Error,
    >)
        requires
            reply.fits(),
        ensures
            exists|seen: Instant, checked: Instant|
                #[trigger] old(self)@.polled(*reply, seen, checked) == (final(self)@, result) && (
                reply.code == 0 || reply.code == -7 ==> call_ensures(Instant::now, (), seen)
                    && call_ensures(Instant::now, (), checked)),
            old(self)@.wf() ==> final(self)@.wf(),
    {
        let ghost before = self@;
        if reply.code == LIBUSB_ERROR_TIMEOUT {
            let event = self.check_release_timeouts();
            proof {
                before.lemma_silent_reply(*reply, self@, event);
            }
            return Ok(event);
        }
        if let Err(error) = usb_call(reply.code) {
            assert(before.polled(*reply, arbitrary(), arbitrary()) == (self@, Err::<
                Option<ControllerEvent>,
                Error,
            >(error)));
            return Err(error);
        }
        if reply.transferred < 5 {
            let event = self.check_release_timeouts();
            proof {
                before.lemma_silent_reply(*reply, self@, event);
            }
            return Ok(event);
        }
        let packet = &reply.packet[0..reply.transferred as usize];
        let decoded = self.decode_packet(packet);
        let ghost seen = choose|seen: Instant|
            call_ensures(Instant::now, (), seen) && self@ == #[trigger] before.after_packet(
                reply.received(),
                seen,
            );
        if let Some(event) = decoded {
            assert(before.polled(*reply, seen, seen) == (self@, Ok::<
                Option<ControllerEvent>,
                Error,
            >(Some(event))));
            return Ok(Some(event));
        }
        let ghost middle = self@;
        let event = self.check_release_timeouts();
        proof {
            let checked = choose|checked: Instant|
                call_ensures(Instant::now, (), checked) && event == middle.release_event(
                    #[trigger] middle.silences(checked),
                ) && self@ == middle.after_release(middle.silences(checked));
            assert(before.polled(*reply, seen, checked) == (self@, Ok::<
                Option<ControllerEvent>,
                Error,
            >(event)));
        }
        Ok(event)
    }

    /// Waits for the next controller event.
    ///
    /// Without a `reply`, asks for the first transfer. With the reply to a
    /// transfer, returns the event or the error that it led to, or asks for
    /// another transfer where it led to neither.
    pub fn next_event(&mut self, reply: Option<TransferReply>) -> (step: EventStep)
        requires
            reply matches Some(reply) ==> reply.fits(),
        ensures
            old(self)@.awaited(reply, final(self)@, step),
            old(self)@.wf() ==> final(self)@.wf(),
    {
        let timeout = self.read_timeout;
        let mut pending = reply;
        loop
            invariant
                timeout == old(self).read_timeout,
                old(self)@.wf() ==> self@.wf(),
                pending matches Some(answer) ==> answer.fits() && reply == pending,
                if pending == reply {
                    self@ == old(self)@
                } else {
                    &&& crate::error::whole_millis(timeout) <= u32::MAX
                    &&& self.endpoint_address == old(self).endpoint_address
                    &&& exists|seen: Instant, checked: Instant|
                        #[trigger] old(self)@.polled(reply->0, seen, checked) == (self@, Ok::<
                            Option<ControllerEvent>,
                            Error,
                        >(None)) && (reply->0.code == 0 || reply->0.code == -7 ==> call_ensures(
                            Instant::now,
                            (),
                            seen,
                        ) && call_ensures(Instant::now, (), checked))
                },
            decreases (if pending is Some { 1int } else { 0int }),
        {
            match self.poll_event(timeout, pending) {
                Step::Call(request) => return Step::Call(request),
                Step::Done(Err(error)) => return Step::Done(Err(error)),
                Step::Done(Ok(Some(event))) => return Step::Done(Ok(event)),
                Step::Done(Ok(None)) => pending = None,
            }
        }
    }

    /// Returns the most recent known state for a controller.
    ///
    /// Before the first event for a controller, this is the idle state.
    pub fn state(&self, controller: ControllerId) -> (state: ControllerState)
        ensures
            state == self@.slot(controller).state,
    {
        self.slots[controller.index()].state
    }

    /// Returns an infinite iteration over events.
    pub fn events(&mut self) -> (events: Events<'_>)
        ensures
            *events.receiver == *old(self),
            *final(self) == *final(events.receiver),
    {
        Events { receiver: self }
    }

    /// A receiver on which no controller has been seen.
    pub fn new(
        interface_number: u8,
        endpoint_address: u8,
        read_timeout: Duration,
        release_timeout: Duration,
    ) -> (receiver: Self)
        ensures
            receiver@ == ReceiverView::fresh(
                interface_number,
                endpoint_address,
                read_timeout,
                release_timeout,
            ),
            receiver@.wf(),
    {
        proof {
            ReceiverView::law_fresh_receiver_is_idle(
                interface_number,
                endpoint_address,
                read_timeout,
                release_timeout,
                ControllerId::Green,
            );
        }
        Receiver {
            interface_number,
            endpoint_address,
            read_timeout,
            release_timeout,
            slots: [ControllerSlot::default();4],
        }
    }
}

/// Iteration returned by [`Receiver::events`].
pub struct Events<'a> {
    pub receiver: &'a mut Receiver,
}

impl<'a> Events<'a> {
    /// Waits for the next event, as [`Receiver::next_event`] does. The
    /// iteration never ends: what it comes to is always `Some`.
    pub fn next(&mut self, reply: Option<TransferReply>) -> (step: ItemStep)
        requires
            reply matches Some(reply) ==> reply.fits(),
        ensures
            step matches Step::Done(item) ==> item is Some,
            old(self).receiver@.awaited(
                reply,
                final(self).receiver@,
                match step {
                    Step::Call(request) => Step::Call(request),
                    Step::Done(item) => Step::Done(item->0),
                },
            ),
            old(self).receiver@.wf() ==> final(self).receiver@.wf(),
            *final(final(self).receiver) == *final(old(self).receiver),
    {
        match self.receiver.next_event(reply) {
            Step::Call(request) => Step::Call(request),
            Step::Done(result) => Step::Done(Some(result)),
        }
    }
}

} // verus!
