//! What packets, silence and polls do to each controller, told byte by byte.
use std::time::{Duration, Instant};
use vstd::prelude::*;

use crate::controller::{ControllerEvent, ControllerId, ControllerState, EventKind};
use crate::error::Error;
use crate::receiver::{
    EventStep, Receiver, ReceiverView, TransferReply,
};
use crate::receiver_laws::Polled;
use crate::step::Step;

verus! {

impl ReceiverView {
    /// The contents of a receiver are its fields.
    pub proof fn law_view_shows_every_field(receiver: Receiver, controller: ControllerId)
        ensures
            receiver@.interface_number == receiver.interface_number,
            receiver@.endpoint_address == receiver.endpoint_address,
            receiver@.read_timeout == receiver.read_timeout,
            receiver@.release_timeout == receiver.release_timeout,
            receiver@.slots == receiver.slots@,
            receiver@.slots.len() == 4,
            receiver@.slot(controller) == receiver.slots[controller.slot()],
    {
    }

    /// A new receiver has the endpoint and the timeouts that it was given, and
    /// has seen nothing of any controller.
    pub proof fn law_fresh_receiver_has_seen_nothing(
        interface_number: u8,
        endpoint_address: u8,
        read_timeout: Duration,
        release_timeout: Duration,
        i: int,
    )
        requires
            0 <= i < 4,
        ensures
            ({
                let fresh = ReceiverView::fresh(
                    interface_number,
                    endpoint_address,
                    read_timeout,
                    release_timeout,
                );
                &&& fresh.interface_number == interface_number
                &&& fresh.endpoint_address == endpoint_address
                &&& fresh.read_timeout == read_timeout
                &&& fresh.release_timeout == release_timeout
                &&& fresh.slots.len() == 4
                &&& fresh.slots[i].state == ControllerState::idle()
                &&& fresh.slots[i].raw_b3 == 0
                &&& fresh.slots[i].raw_b4 == 0
                &&& fresh.slots[i].last_seen is None
            }),
    {
    }

    /// A packet of a controller leaves its button bytes and its instant in the
    /// slot of that controller. It is an event exactly where the bytes differ
    /// from those that were there, and the event has the state that the new
    /// bytes stand for.
    pub proof fn law_packet_is_taken_in(
        self,
        packet: Seq<u8>,
        now: Instant,
        controller: ControllerId,
    )
        requires
            self.slots.len() == 4,
            packet[2] == controller.slot(),
        ensures
            ({
                let before = self.slots[controller.slot()];
                let after = self.after_packet(packet, now).slots[controller.slot()];
                let changed = before.raw_b3 != packet[3] || before.raw_b4 != packet[4];
                &&& after.raw_b3 == packet[3]
                &&& after.raw_b4 == packet[4]
                &&& after.last_seen == Some(now)
                &&& self.packet_event(packet) is Some <==> changed
                &&& changed ==> after.state == crate::controller::decoded(packet[3], packet[4])
                &&& !changed ==> after.state == before.state
                &&& self.packet_event(packet) matches Some(event) ==> {
                    &&& event.controller == controller
                    &&& event.state == after.state
                    &&& event.kind == EventKind::StateChanged
                }
            }),
    {
    }

    /// A packet of another controller, or of none, changes nothing of a
    /// controller and gives no event of it, and no packet changes the endpoint
    /// or the timeouts.
    pub proof fn law_packet_of_another_is_not_taken_in(
        self,
        packet: Seq<u8>,
        now: Instant,
        controller: ControllerId,
    )
        requires
            self.slots.len() == 4,
        ensures
            ({
                let after = self.after_packet(packet, now);
                &&& packet[2] != controller.slot() ==> {
                    &&& after.slots[controller.slot()] == self.slots[controller.slot()]
                    &&& self.packet_event(packet) matches Some(event) ==> event.controller
                        != controller
                }
                &&& packet[2] >= 4 ==> self.packet_event(packet) is None
                &&& after.slots.len() == 4
                &&& after.interface_number == self.interface_number
                &&& after.endpoint_address == self.endpoint_address
                &&& after.read_timeout == self.read_timeout
                &&& after.release_timeout == self.release_timeout
            }),
    {
    }

    /// Of two packets in a row from one controller, the second is an event
    /// exactly where its button bytes differ from those of the first, whatever
    /// the controller had sent before.
    pub proof fn law_second_packet_is_an_event_iff_it_differs(
        self,
        first: Seq<u8>,
        second: Seq<u8>,
        now: Instant,
        controller: ControllerId,
    )
        requires
            self.slots.len() == 4,
            first[2] == controller.slot(),
            second[2] == controller.slot(),
        ensures
            ({
                let event = self.after_packet(first, now).packet_event(second);
                &&& event is Some <==> first[3] != second[3] || first[4] != second[4]
                &&& event matches Some(event) ==> {
                    &&& event.controller == controller
                    &&& event.state == crate::controller::decoded(second[3], second[4])
                    &&& event.kind == EventKind::StateChanged
                }
            }),
    {
        self.law_packet_is_taken_in(first, now, controller);
        let once = self.after_packet(first, now);
        once.law_packet_is_taken_in(second, now, controller);
    }

    /// The silence of a controller is the time since it was last seen.
    pub proof fn law_silence_is_time_since_last_seen(self, now: Instant, i: int)
        requires
            0 <= i < self.slots.len(),
        ensures
            self.silences(now).len() == self.slots.len(),
            self.slots[i].last_seen is None ==> self.silences(now)[i] is None,
            self.slots[i].last_seen matches Some(last_seen) ==> self.silences(now)[i] == Some(
                crate::clock::nanos_between(now, last_seen),
            ),
    {
    }

    /// Silences in durations are silences in nanoseconds, one for one.
    pub proof fn law_silences_keep_their_places(silences: Seq<Option<Duration>>, i: int)
        requires
            0 <= i < silences.len(),
        ensures
            crate::receiver::silence_nanos(silences).len() == silences.len(),
            silences[i] is None ==> crate::receiver::silence_nanos(silences)[i] is None,
            silences[i] matches Some(silence) ==> crate::receiver::silence_nanos(silences)[i]
                == Some(crate::clock::duration_nanos(silence)),
    {
    }

    /// A controller is released where it holds some input, has been silent for
    /// the release timeout or longer, and no controller with a lower slot has.
    /// Its slot is then as if it had never been seen, and the others stay as
    /// they were.
    pub proof fn law_released_is_the_first_that_is_silent(
        self,
        silences: Seq<Option<nat>>,
        controller: ControllerId,
    )
        requires
            self.slots.len() == 4,
            silences.len() == 4,
        ensures
            ({
                let event = self.release_event(silences);
                let after = self.after_release(silences);
                let i = controller.slot();
                let timeout = crate::clock::duration_nanos(self.release_timeout);
                let released = event matches Some(event) && event.controller == controller;
                &&& released <==> {
                    &&& self.slots[i].state != ControllerState::idle()
                    &&& silences[i] matches Some(silence) && silence >= timeout
                    &&& forall|j: int|
                        0 <= j < i ==> {
                            ||| #[trigger] self.slots[j].state == ControllerState::idle()
                            ||| silences[j] is None
                            ||| silences[j]->0 < timeout
                        }
                }
                &&& released ==> {
                    &&& event->0.state == ControllerState::idle()
                    &&& event->0.kind == EventKind::Released
                    &&& after.slots[i].state == ControllerState::idle()
                    &&& after.slots[i].raw_b3 == 0
                    &&& after.slots[i].raw_b4 == 0
                    &&& after.slots[i].last_seen is None
                }
                &&& !released ==> after.slots[i] == self.slots[i]
                &&& after.slots.len() == 4
                &&& after.interface_number == self.interface_number
                &&& after.endpoint_address == self.endpoint_address
                &&& after.read_timeout == self.read_timeout
                &&& after.release_timeout == self.release_timeout
            }),
    {
        assert(self.slots[0] == self.slot(ControllerId::Green));
        assert(self.slots[1] == self.slot(ControllerId::Red));
        assert(self.slots[2] == self.slot(ControllerId::Blue));
    }

    /// A reply may be handed in where a transfer that succeeded filled at most
    /// the 32 bytes that it was given.
    pub proof fn law_reply_fits_its_buffer(reply: TransferReply)
        ensures
            reply.fits() <==> (reply.code == 0 ==> reply.transferred <= 32),
    {
    }

    /// A poll fails exactly where its transfer failed other than by a timeout,
    /// with libusb's code, and then changes nothing.
    pub proof fn law_poll_fails_iff_its_transfer_failed(
        self,
        reply: TransferReply,
        seen: Instant,
        checked: Instant,
    )
        ensures
            ({
                let (next, result) = self.polled(reply, seen, checked);
                &&& result is Err <==> reply.code != 0 && reply.code != -7
                &&& result matches Err(error) ==> error == Error::Usb(reply.code) && next == self
            }),
    {
    }

    /// A poll reports a new state of a controller exactly where the transfer
    /// brought a packet of that controller, of five bytes or more, with other
    /// button bytes than the controller had. The state is that of the new
    /// bytes.
    pub proof fn law_poll_reports_new_bytes(
        self,
        reply: TransferReply,
        seen: Instant,
        checked: Instant,
        controller: ControllerId,
    )
        requires
            self.slots.len() == 4,
            reply.code == 0 ==> reply.transferred <= 32,
        ensures
            ({
                let result = self.polled(reply, seen, checked).1;
                let before = self.slots[controller.slot()];
                let reported = result matches Ok(Some(event)) && event.controller == controller
                    && event.kind == EventKind::StateChanged;
                &&& reported <==> {
                    &&& reply.code == 0
                    &&& reply.transferred >= 5
                    &&& reply.packet[2] == controller.slot()
                    &&& reply.packet[3] != before.raw_b3 || reply.packet[4] != before.raw_b4
                }
                &&& reported ==> result->Ok_0->0.state == crate::controller::decoded(
                    reply.packet[3],
                    reply.packet[4],
                )
            }),
    {
        let packet = reply.received();
        if reply.code == 0 && reply.transferred >= 5 {
            assert(packet[2] == reply.packet[2] && packet[3] == reply.packet[3] && packet[4]
                == reply.packet[4]);
        }
    }

    /// A poll that does not fail and reports no new state releases a controller
    /// exactly where that controller holds some input, its own last packet,
    /// the one just received included, lies the release timeout back, and this
    /// holds of no controller with a lower slot.
    pub proof fn law_poll_releases_the_first_that_is_silent(
        self,
        reply: TransferReply,
        seen: Instant,
        checked: Instant,
        controller: ControllerId,
    )
        requires
            self.slots.len() == 4,
            reply.code == 0 ==> reply.transferred <= 32,
        ensures
            ({
                let result = self.polled(reply, seen, checked).1;
                let timeout = crate::clock::duration_nanos(self.release_timeout);
                let usable = reply.code == 0 && reply.transferred >= 5 && reply.packet[2] < 4;
                let sender = reply.packet[2] as int;
                let new_bytes = usable && (reply.packet[3] != self.slots[sender].raw_b3
                    || reply.packet[4] != self.slots[sender].raw_b4);
                let i = controller.slot();
                let released = result matches Ok(Some(event)) && event.controller == controller
                    && event.kind == EventKind::Released;
                &&& released <==> {
                    &&& reply.code == 0 || reply.code == -7
                    &&& !new_bytes
                    &&& self.slots[i].state != ControllerState::idle()
                    &&& if usable && i == sender {
                        crate::clock::nanos_between(checked, seen) >= timeout
                    } else {
                        self.slots[i].last_seen matches Some(last) && crate::clock::nanos_between(
                            checked,
                            last,
                        ) >= timeout
                    }
                    &&& forall|j: int|
                        0 <= j < i ==> {
                            ||| (#[trigger] self.slots[j]).state == ControllerState::idle()
                            ||| if usable && j == sender {
                                crate::clock::nanos_between(checked, seen) < timeout
                            } else {
                                self.slots[j].last_seen matches Some(last)
                                    ==> crate::clock::nanos_between(checked, last) < timeout
                            }
                        }
                }
                &&& released ==> result->Ok_0->0.state == ControllerState::idle()
            }),
    {
        let usable = reply.code == 0 && reply.transferred >= 5 && reply.packet[2] < 4;
        let packet = reply.received();
        let middle = if reply.is_silent() {
            self
        } else {
            self.after_packet(packet, seen)
        };
        if reply.code == 0 && reply.transferred >= 5 {
            assert(packet[2] == reply.packet[2] && packet[3] == reply.packet[3] && packet[4]
                == reply.packet[4]);
        }
        let sender = reply.packet[2] as int;
        let new_bytes = usable && (reply.packet[3] != self.slots[sender].raw_b3 || reply.packet[4]
            != self.slots[sender].raw_b4);
        if (reply.code == 0 || reply.code == -7) && !new_bytes {
            let silences = middle.silences(checked);
            middle.law_released_is_the_first_that_is_silent(silences, controller);
            assert forall|i: int| 0 <= i < 4 implies {
                &&& #[trigger] middle.slots[i].state == self.slots[i].state
                &&& middle.slots[i].last_seen == if usable && i == sender {
                    Some(seen)
                } else {
                    self.slots[i].last_seen
                }
            } by {}
            assert forall|i: int| 0 <= i < 4 implies #[trigger] silences[i] == (match
                middle.slots[i].last_seen {
                Some(last) => Some(crate::clock::nanos_between(checked, last)),
                None => None,
            }) by {
                middle.law_silence_is_time_since_last_seen(checked, i);
            }
            assert(middle.release_timeout == self.release_timeout);
            assert(self.polled(reply, seen, checked).1 == Ok::<Option<ControllerEvent>, Error>(
                middle.release_event(silences),
            ));
            let i = controller.slot();
            assert(middle.slots[i].state == self.slots[i].state);
            assert forall|j: int| 0 <= j < i implies {
                &&& (#[trigger] self.slots[j]).state == middle.slots[j].state
                &&& silences[j] == (match middle.slots[j].last_seen {
                    Some(last) => Some(crate::clock::nanos_between(checked, last)),
                    None => None,
                })
            } by {
                assert(middle.slots[j].state == self.slots[j].state);
            }
        }
    }

    /// Across a poll the slot of a controller is what its own last packet, or
    /// its release, made it. When it was last seen changes by a packet of that
    /// controller alone, to the instant at which it was taken in, or by its
    /// release; its button bytes become those of the packet, or zero; its state
    /// becomes that of new bytes, or idle. Whatever comes from other
    /// controllers leaves it alone.
    pub proof fn law_slot_changes_by_own_packet_or_release_alone(
        self,
        reply: TransferReply,
        seen: Instant,
        checked: Instant,
        controller: ControllerId,
    )
        requires
            self.slots.len() == 4,
            reply.code == 0 ==> reply.transferred <= 32,
        ensures
            ({
                let (next, result) = self.polled(reply, seen, checked);
                let before = self.slots[controller.slot()];
                let after = next.slots[controller.slot()];
                let came = reply.code == 0 && reply.transferred >= 5 && reply.packet[2]
                    == controller.slot();
                let released = result matches Ok(Some(event)) && event.controller == controller
                    && event.kind == EventKind::Released;
                &&& released ==> {
                    &&& after.last_seen is None
                    &&& after.raw_b3 == 0
                    &&& after.raw_b4 == 0
                    &&& after.state == ControllerState::idle()
                }
                &&& !released && came ==> {
                    &&& after.last_seen == Some(seen)
                    &&& after.raw_b3 == reply.packet[3]
                    &&& after.raw_b4 == reply.packet[4]
                    &&& after.state == if before.raw_b3 == reply.packet[3] && before.raw_b4
                        == reply.packet[4] {
                        before.state
                    } else {
                        crate::controller::decoded(reply.packet[3], reply.packet[4])
                    }
                }
                &&& !released && !came ==> after == before
                &&& next.slots.len() == 4
            }),
    {
        let packet = reply.received();
        if reply.code == 0 && reply.transferred >= 5 {
            assert(packet[2] == reply.packet[2] && packet[3] == reply.packet[3] && packet[4]
                == reply.packet[4]);
        }
    }

    /// Polls on which no packet of a controller arrives, and which give no
    /// event of it, leave its slot as it is, whatever other controllers send
    /// meanwhile.
    pub proof fn law_slot_waits_for_its_own_packet(
        self,
        polls: Seq<Polled>,
        controller: ControllerId,
    )
        requires
            self.slots.len() == 4,
            forall|k: int|
                0 <= k < polls.len() ==> {
                    let reply = (#[trigger] polls[k]).reply;
                    &&& reply.code == 0 ==> reply.transferred <= 32
                    &&& !(reply.code == 0 && reply.transferred >= 5 && reply.packet[2]
                        == controller.slot())
                },
            forall|k: int|
                0 <= k < self.history(polls).1.len() ==> (#[trigger] self.history(
                    polls,
                ).1[k]).controller != controller,
        ensures
            self.history(polls).0.slots.len() == 4,
            self.history(polls).0.slots[controller.slot()] == self.slots[controller.slot()],
            self.history(polls).0.release_timeout == self.release_timeout,
        decreases polls.len(),
    {
        if polls.len() > 0 {
            let shorter = polls.drop_last();
            let poll = polls.last();
            let (before, events) = self.history(shorter);
            let result = before.polled(poll.reply, poll.seen, poll.checked).1;
            assert(polls[polls.len() - 1] == poll);
            assert forall|k: int| 0 <= k < shorter.len() implies {
                let reply = (#[trigger] shorter[k]).reply;
                &&& reply.code == 0 ==> reply.transferred <= 32
                &&& !(reply.code == 0 && reply.transferred >= 5 && reply.packet[2]
                    == controller.slot())
            } by {
                assert(shorter[k] == polls[k]);
            }
            assert forall|k: int| 0 <= k < events.len() implies (#[trigger] events[k]).controller
                != controller by {
                assert(self.history(polls).1[k] == events[k]);
            }
            if let Ok(Some(event)) = result {
                assert(self.history(polls).1[events.len() as int] == event);
            }
            self.law_slot_waits_for_its_own_packet(shorter, controller);
            before.law_slot_changes_by_own_packet_or_release_alone(
                poll.reply,
                poll.seen,
                poll.checked,
                controller,
            );
            before.law_poll_keeps_configuration(poll.reply, poll.seen, poll.checked);
        }
    }

    /// A controller that holds some input and falls silent is released by the
    /// first poll that brings no new packet and is made when the release
    /// timeout has passed since its own last packet, whatever other controllers
    /// sent meanwhile, unless a controller with a lower slot is released by
    /// that poll.
    pub proof fn law_silent_holder_is_released_in_time(
        self,
        polls: Seq<Polled>,
        poll: Polled,
        controller: ControllerId,
        last_seen: Instant,
    )
        requires
            self.slots.len() == 4,
            self.slots[controller.slot()].state != ControllerState::idle(),
            self.slots[controller.slot()].last_seen == Some(last_seen),
            forall|k: int|
                0 <= k < polls.len() ==> {
                    let reply = (#[trigger] polls[k]).reply;
                    &&& reply.code == 0 ==> reply.transferred <= 32
                    &&& !(reply.code == 0 && reply.transferred >= 5 && reply.packet[2]
                        == controller.slot())
                },
            forall|k: int|
                0 <= k < self.history(polls).1.len() ==> (#[trigger] self.history(
                    polls,
                ).1[k]).controller != controller,
            poll.reply.code == 0 ==> poll.reply.transferred <= 32,
            poll.reply.code == 0 || poll.reply.code == -7,
            poll.reply.code == 0 && poll.reply.transferred >= 5 ==> {
                let sender = poll.reply.packet[2] as int;
                &&& sender != controller.slot()
                &&& sender < 4 ==> {
                    let known = self.history(polls).0.slots[sender];
                    &&& known.raw_b3 == poll.reply.packet[3]
                    &&& known.raw_b4 == poll.reply.packet[4]
                }
            },
            crate::clock::nanos_between(poll.checked, last_seen) >= crate::clock::duration_nanos(
                self.release_timeout,
            ),
        ensures
            ({
                let result = self.history(polls).0.polled(
                    poll.reply,
                    poll.seen,
                    poll.checked,
                ).1;
                &&& result matches Ok(Some(event)) && event.kind == EventKind::Released
                    && event.state == ControllerState::idle() && event.controller.slot()
                    <= controller.slot()
            }),
    {
        self.law_slot_waits_for_its_own_packet(polls, controller);
        let before = self.history(polls).0;
        let reply = poll.reply;
        let packet = reply.received();
        if reply.code == 0 && reply.transferred >= 5 {
            assert(packet[2] == reply.packet[2] && packet[3] == reply.packet[3] && packet[4]
                == reply.packet[4]);
        }
        let middle = if reply.is_silent() {
            before
        } else {
            before.after_packet(packet, poll.seen)
        };
        let silences = middle.silences(poll.checked);
        middle.law_silence_is_time_since_last_seen(poll.checked, controller.slot());
        assert(middle.slots[controller.slot()] == self.slots[controller.slot()]);
        assert(middle.is_due(controller, silences));
        middle.law_first_due_controller_is_released(silences);
        assert(before.polled(reply, poll.seen, poll.checked).1 == Ok::<
            Option<ControllerEvent>,
            Error,
        >(middle.release_event(silences)));
    }

    /// A poll asks for 32 bytes from the receiver's endpoint, and waits for the
    /// whole milliseconds of its timeout, but for one at least.
    pub proof fn law_requested_transfer(self, timeout: Duration)
        requires
            crate::clock::duration_nanos(timeout) < 0x1_0000_0000 * 1_000_000,
        ensures
            ({
                let nanos = crate::clock::duration_nanos(timeout);
                let request = self.request(timeout);
                &&& request.endpoint_address == self.endpoint_address
                &&& request.length == 32
                &&& nanos < 1_000_000 ==> request.timeout_ms == 1
                &&& nanos >= 1_000_000 ==> request.timeout_ms * 1_000_000 <= nanos < (
                request.timeout_ms + 1) * 1_000_000
            }),
    {
    }

    /// What waiting for an event comes to is what the poll of the same reply
    /// comes to: its event, unchanged, or its error, or, where it had neither,
    /// another transfer.
    pub proof fn law_waiting_hands_on_what_the_poll_gave(
        self,
        reply: TransferReply,
        next: ReceiverView,
        step: EventStep,
    )
        requires
            self.awaited(Some(reply), next, step),
            crate::clock::duration_nanos(self.read_timeout) < 0x1_0000_0000 * 1_000_000,
        ensures
            exists|seen: Instant, checked: Instant|
                {
                    let polled = #[trigger] self.polled(reply, seen, checked);
                    &&& polled.0 == next
                    &&& reply.code == 0 || reply.code == -7 ==> call_ensures(
                        Instant::now,
                        (),
                        seen,
                    ) && call_ensures(Instant::now, (), checked)
                    &&& match step {
                        Step::Done(Ok(event)) => polled.1 == Ok::<
                            Option<ControllerEvent>,
                            Error,
                        >(Some(event)),
                        Step::Done(Err(error)) => polled.1 == Err::<
                            Option<ControllerEvent>,
                            Error,
                        >(error),
                        Step::Call(request) => polled.1 == Ok::<Option<ControllerEvent>, Error>(
                            None,
                        ) && request == self.request(self.read_timeout),
                    }
                },
    {
        crate::error::law_whole_millis_fit(self.read_timeout);
        let (seen, checked) = choose|seen: Instant, checked: Instant|
            {
                let (after, result) = #[trigger] self.polled(reply, seen, checked);
                &&& reply.code == 0 || reply.code == -7 ==> call_ensures(Instant::now, (), seen)
                    && call_ensures(Instant::now, (), checked)
                &&& next == after
                &&& step == match result {
                    Ok(Some(event)) => Step::Done(Ok(event)),
                    Ok(None) => Step::Call(self.request(self.read_timeout)),
                    Err(error) => Step::Done(Err(error)),
                }
            };
        let polled = self.polled(reply, seen, checked);
    }

    /// Where waiting ends with an event, the event tells of the controller that
    /// the packet or the silence concerned: that controller then has the state
    /// of the event, and every other keeps its state. A changed state is that
    /// of the bytes in the packet, and the controller is the packet's.
    pub proof fn law_awaited_event_tells_what_happened(
        self,
        reply: TransferReply,
        next: ReceiverView,
        event: ControllerEvent,
        other: ControllerId,
    )
        requires
            self.slots.len() == 4,
            reply.code == 0 ==> reply.transferred <= 32,
            crate::clock::duration_nanos(self.read_timeout) < 0x1_0000_0000 * 1_000_000,
            self.awaited(Some(reply), next, Step::Done(Ok(event))),
        ensures
            next.slots[event.controller.slot()].state == event.state,
            other != event.controller ==> next.slots[other.slot()].state
                == self.slots[other.slot()].state,
            event.kind == EventKind::StateChanged ==> {
                &&& reply.code == 0
                &&& reply.transferred >= 5
                &&& reply.packet[2] == event.controller.slot()
                &&& event.state == crate::controller::decoded(reply.packet[3], reply.packet[4])
                &&& self.slots[event.controller.slot()].raw_b3 != reply.packet[3]
                    || self.slots[event.controller.slot()].raw_b4 != reply.packet[4]
            },
            event.kind == EventKind::Released ==> {
                &&& event.state == ControllerState::idle()
                &&& self.slots[event.controller.slot()].state != ControllerState::idle()
                &&& next.slots[event.controller.slot()].last_seen is None
            },
    {
        let step: EventStep = Step::Done(Ok(event));
        self.law_waiting_hands_on_what_the_poll_gave(reply, next, step);
        let (seen, checked) = choose|seen: Instant, checked: Instant|
            #[trigger] self.polled(reply, seen, checked) == (next, Ok::<
                Option<ControllerEvent>,
                Error,
            >(Some(event)));
        self.law_states_change_by_events_alone(reply, seen, checked, event.controller);
        self.law_states_change_by_events_alone(reply, seen, checked, other);
        self.law_poll_reports_new_bytes(reply, seen, checked, event.controller);
        self.law_poll_releases_the_first_that_is_silent(reply, seen, checked, event.controller);
        self.law_slot_changes_by_own_packet_or_release_alone(
            reply,
            seen,
            checked,
            event.controller,
        );
    }

    /// Waiting begins with a transfer and leaves the receiver as it is; a read
    /// timeout that libusb cannot take is refused, before and after a transfer.
    pub proof fn law_waiting_begins_with_a_transfer(
        self,
        reply: Option<TransferReply>,
        next: ReceiverView,
        step: EventStep,
    )
        requires
            self.awaited(reply, next, step),
        ensures
            crate::clock::duration_nanos(self.read_timeout) >= 0x1_0000_0000 * 1_000_000 ==> {
                &&& step == EventStep::Done(Err(Error::TimeoutTooLarge(self.read_timeout)))
                &&& next == self
            },
            crate::clock::duration_nanos(self.read_timeout) < 0x1_0000_0000 * 1_000_000 && reply
                is None ==> {
                &&& step == EventStep::Call(self.request(self.read_timeout))
                &&& next == self
            },
    {
        crate::error::law_whole_millis_fit(self.read_timeout);
    }

    /// At all times the state of a controller is what its button bytes stand
    /// for, and a controller that is not seen has no input.
    pub proof fn law_state_is_what_the_bytes_stand_for(
        self,
        polls: Seq<Polled>,
        controller: ControllerId,
    )
        requires
            self == ReceiverView::fresh(
                self.interface_number,
                self.endpoint_address,
                self.read_timeout,
                self.release_timeout,
            ),
        ensures
            ({
                let slot = self.history(polls).0.slots[controller.slot()];
                &&& slot.state == crate::controller::decoded(slot.raw_b3, slot.raw_b4)
                &&& slot.last_seen is None ==> slot.state == ControllerState::idle()
            }),
    {
        self.law_state_is_that_of_latest_event(polls, controller);
        let receiver = self.history(polls).0;
        assert(receiver.slot(controller).wf());
        crate::controller::law_idle_means_no_input_bit(0, 0);
        assert(0u8 & 0x3f == 0 && 0u8 & 0xfc == 0) by (bit_vector);
    }
}

} // verus!
