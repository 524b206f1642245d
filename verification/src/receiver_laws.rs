//! What holds of a receiver across packets, silence and events.
use std::time::{Duration, Instant};
use vstd::prelude::*;

use crate::controller::{ControllerEvent, ControllerId, ControllerState, EventKind};
use crate::error::Error;
use crate::receiver::{ControllerSlot, EventStep, ReceiverView, TransferReply};

verus! {

impl ReceiverView {
    /// On a receiver on which no controller has been seen, all are idle.
    pub proof fn law_fresh_receiver_is_idle(
        interface_number: u8,
        endpoint_address: u8,
        read_timeout: Duration,
        release_timeout: Duration,
        controller: ControllerId,
    )
        ensures
            ({
                let fresh = ReceiverView::fresh(
                    interface_number,
                    endpoint_address,
                    read_timeout,
                    release_timeout,
                );
                &&& fresh.wf()
                &&& fresh.slot(controller).state == ControllerState::idle()
            }),
    {
        crate::controller::law_idle_means_no_input_bit(0, 0);
        assert(0u8 & 0x3f == 0 && 0u8 & 0xfc == 0) by (bit_vector);
    }

    /// Packets and releases keep a receiver well-formed.
    pub proof fn law_slots_stay_well_formed(
        self,
        packet: Seq<u8>,
        now: Instant,
        silences: Seq<Option<nat>>,
    )
        requires
            self.wf(),
        ensures
            self.after_packet(packet, now).wf(),
            self.after_release(silences).wf(),
    {
        crate::controller::law_idle_means_no_input_bit(0, 0);
        assert(0u8 & 0x3f == 0 && 0u8 & 0xfc == 0) by (bit_vector);
        assert forall|controller: ControllerId| #[trigger]
            self.after_packet(packet, now).slot(controller).wf() by {
            assert(self.slot(controller).wf());
        }
        assert forall|controller: ControllerId| #[trigger]
            self.after_release(silences).slot(controller).wf() by {
            assert(self.slot(controller).wf());
        }
    }

    /// Polling keeps a receiver well-formed.
    pub proof fn law_poll_keeps_well_formed(
        self,
        reply: TransferReply,
        seen: Instant,
        checked: Instant,
    )
        requires
            self.wf(),
        ensures
            self.polled(reply, seen, checked).0.wf(),
    {
        let next = self.after_packet(reply.received(), seen);
        self.law_slots_stay_well_formed(reply.received(), seen, self.silences(checked));
        next.law_slots_stay_well_formed(reply.received(), seen, next.silences(checked));
    }

    /// A packet that repeats what its controller last sent gives no event and
    /// changes nothing but when the controller was last seen.
    pub proof fn law_repeated_packet_is_suppressed(
        self,
        first: Seq<u8>,
        repeat: Seq<u8>,
        seen: Instant,
        again: Instant,
    )
        requires
            self.slots.len() == 4,
            ReceiverView::sender(first) is Some,
            repeat[2] == first[2],
            repeat[3] == first[3],
            repeat[4] == first[4],
        ensures
            ({
                let controller = ReceiverView::sender(first)->0;
                let once = self.after_packet(first, seen);
                &&& once.packet_event(repeat) is None
                &&& once.after_packet(repeat, again) == once.with_slot(
                    controller,
                    ControllerSlot { last_seen: Some(again), ..once.slot(controller) },
                )
            }),
    {
    }

    /// A packet that is not from one of the four controllers has no effect.
    pub proof fn law_foreign_packet_has_no_effect(self, packet: Seq<u8>, now: Instant)
        requires
            packet[2] >= 4,
        ensures
            self.packet_event(packet) is None,
            self.after_packet(packet, now) == self,
    {
    }

    /// A packet touches the slot of its controller alone.
    pub proof fn law_packet_touches_its_controller_alone(
        self,
        packet: Seq<u8>,
        now: Instant,
        other: ControllerId,
    )
        requires
            self.slots.len() == 4,
            ReceiverView::sender(packet) != Some(other),
        ensures
            self.after_packet(packet, now).slot(other) == self.slot(other),
    {
    }

    /// There is a release exactly where some controller is due, and it is that
    /// of the first such controller.
    pub proof fn law_first_due_controller_is_released(self, silences: Seq<Option<nat>>)
        ensures
            self.release_event(silences) is Some <==> exists|controller: ControllerId|
                self.is_due(controller, silences),
            self.release_event(silences) matches Some(event) ==> {
                &&& self.is_due(event.controller, silences)
                &&& event.kind == EventKind::Released
                &&& event.state == ControllerState::idle()
                &&& forall|earlier: ControllerId|
                    earlier.slot() < event.controller.slot() ==> !#[trigger] self.is_due(
                        earlier,
                        silences,
                    )
            },
    {
        if let Some(controller) = self.first_due(silences) {
            assert(self.is_due(controller, silences));
        }
    }

    /// A check for releases at an instant settles one controller: those that
    /// are still due at that instant are those that were, without it.
    pub proof fn law_release_settles_one_controller(self, now: Instant, controller: ControllerId)
        requires
            self.slots.len() == 4,
        ensures
            ({
                let after = self.after_release(self.silences(now));
                after.is_due(controller, after.silences(now)) <==> self.is_due(
                    controller,
                    self.silences(now),
                ) && self.first_due(self.silences(now)) != Some(controller)
            }),
    {
    }

    /// The receiver after a number of checks for releases at one instant.
    pub open spec fn after_checks(self, now: Instant, checks: nat) -> ReceiverView
        decreases checks,
    {
        if checks == 0 {
            self
        } else {
            self.after_release(self.silences(now)).after_checks(now, (checks - 1) as nat)
        }
    }

    /// Four checks at one instant release every controller that is due then.
    pub proof fn law_four_checks_release_all(self, now: Instant, controller: ControllerId)
        requires
            self.slots.len() == 4,
        ensures
            ({
                let after = self.after_checks(now, 4);
                &&& !after.is_due(controller, after.silences(now))
                &&& self.is_due(controller, self.silences(now)) ==> after.slot(controller)
                    == ControllerSlot::empty()
            }),
    {
        let once = self.after_release(self.silences(now));
        let twice = once.after_release(once.silences(now));
        let thrice = twice.after_release(twice.silences(now));
        reveal_with_fuel(ReceiverView::after_checks, 5);
        assert forall|any: ControllerId| true implies {
            &&& #[trigger] once.is_due(any, once.silences(now)) <==> self.is_due(
                any,
                self.silences(now),
            ) && self.first_due(self.silences(now)) != Some(any)
            &&& twice.is_due(any, twice.silences(now)) <==> once.is_due(any, once.silences(now))
                && once.first_due(once.silences(now)) != Some(any)
            &&& thrice.is_due(any, thrice.silences(now)) <==> twice.is_due(
                any,
                twice.silences(now),
            ) && twice.first_due(twice.silences(now)) != Some(any)
        } by {
            self.law_release_settles_one_controller(now, any);
            once.law_release_settles_one_controller(now, any);
            twice.law_release_settles_one_controller(now, any);
        }
        thrice.law_release_settles_one_controller(now, controller);
    }

    /// A controller that sent a packet is not released before it has been
    /// silent for the release timeout.
    pub proof fn law_no_release_before_timeout(
        self,
        packet: Seq<u8>,
        seen: Instant,
        now: Instant,
    )
        requires
            self.slots.len() == 4,
            ReceiverView::sender(packet) is Some,
            crate::clock::nanos_between(now, seen) < crate::clock::duration_nanos(
                self.release_timeout,
            ),
        ensures
            ({
                let next = self.after_packet(packet, seen);
                !next.is_due(ReceiverView::sender(packet)->0, next.silences(now))
            }),
    {
    }

    /// A controller that holds some input is due for release once it has been
    /// silent for the release timeout, whether its last packet was new or a
    /// repeat.
    pub proof fn law_held_input_is_due_after_timeout(
        self,
        packet: Seq<u8>,
        seen: Instant,
        now: Instant,
    )
        requires
            self.wf(),
            ReceiverView::sender(packet) is Some,
            crate::controller::decoded(packet[3], packet[4]) != ControllerState::idle(),
            crate::clock::nanos_between(now, seen) >= crate::clock::duration_nanos(
                self.release_timeout,
            ),
        ensures
            ({
                let next = self.after_packet(packet, seen);
                &&& next.is_due(ReceiverView::sender(packet)->0, next.silences(now))
                &&& next.release_event(next.silences(now)) is Some
            }),
    {
        let next = self.after_packet(packet, seen);
        let controller = ReceiverView::sender(packet)->0;
        assert(self.slot(controller).wf());
        assert(next.is_due(controller, next.silences(now)));
        next.law_first_due_controller_is_released(next.silences(now));
    }

    /// An idle controller is never released.
    pub proof fn law_idle_controller_is_not_released(
        self,
        controller: ControllerId,
        silences: Seq<Option<nat>>,
    )
        requires
            self.slot(controller).state == ControllerState::idle(),
        ensures
            self.release_event(silences) matches Some(event) ==> event.controller != controller,
    {
    }

    /// A controller that was released is idle, is not released again before it
    /// sends something, and the next input that it sends is an event, also
    /// where it is the input that was released.
    pub proof fn law_released_controller_starts_over(
        self,
        silences: Seq<Option<nat>>,
        packet: Seq<u8>,
        now: Instant,
    )
        requires
            self.slots.len() == 4,
            self.first_due(silences) is Some,
            ReceiverView::sender(packet) == self.first_due(silences),
            packet[3] != 0 || packet[4] != 0,
        ensures
            ({
                let controller = self.first_due(silences)->0;
                let after = self.after_release(silences);
                &&& after.slot(controller) == ControllerSlot::empty()
                &&& !after.is_due(controller, after.silences(now))
                &&& after.packet_event(packet) == Some(
                    ControllerEvent {
                        controller,
                        state: crate::controller::decoded(packet[3], packet[4]),
                        kind: EventKind::StateChanged,
                    },
                )
            }),
    {
    }

    /// An event carries the state that its controller then has, and leaves the
    /// state of every other controller as it was; without an event, no state
    /// changes, and a transfer that failed changes nothing at all.
    pub proof fn law_states_change_by_events_alone(
        self,
        reply: TransferReply,
        seen: Instant,
        checked: Instant,
        controller: ControllerId,
    )
        requires
            self.slots.len() == 4,
        ensures
            ({
                let (next, result) = self.polled(reply, seen, checked);
                &&& next.slots.len() == 4
                &&& next.slot(controller).state == match result {
                    Ok(Some(event)) if event.controller == controller => event.state,
                    _ => self.slot(controller).state,
                }
                &&& result is Err ==> next == self
            }),
    {
    }

    /// Polling leaves interface, endpoint and timeouts as they are.
    pub proof fn law_poll_keeps_configuration(
        self,
        reply: TransferReply,
        seen: Instant,
        checked: Instant,
    )
        ensures
            ({
                let next = self.polled(reply, seen, checked).0;
                &&& next.interface_number == self.interface_number
                &&& next.endpoint_address == self.endpoint_address
                &&& next.read_timeout == self.read_timeout
                &&& next.release_timeout == self.release_timeout
            }),
    {
    }

    /// A poll on which no packet arrived comes to nothing exactly where no
    /// controller was due for release.
    pub proof fn law_silent_poll_is_empty_unless_due(
        self,
        reply: TransferReply,
        seen: Instant,
        checked: Instant,
    )
        requires
            reply.is_silent(),
        ensures
            self.polled(reply, seen, checked).1 == Ok::<Option<ControllerEvent>, Error>(None)
                <==> forall|controller: ControllerId|
                !self.is_due(controller, self.silences(checked)),
    {
        self.law_first_due_controller_is_released(self.silences(checked));
    }

    /// A poll whose timeout is not too large asks for a transfer that comes to
    /// an end: it waits for a millisecond or longer, and for no longer than
    /// the timeout where that is a millisecond or longer.
    pub proof fn law_requested_transfer_has_a_limit(self, timeout: Duration)
        requires
            crate::error::whole_millis(timeout) <= u32::MAX,
        ensures
            self.request(timeout).timeout_ms >= 1,
            crate::error::whole_millis(timeout) >= 1 ==> self.request(timeout).timeout_ms
                * 1_000_000 <= crate::clock::duration_nanos(timeout),
            self.request(timeout).timeout_ms <= crate::error::whole_millis(timeout) + 1,
    {
    }

    /// As long as waiting for an event asks for another transfer, no state
    /// changes.
    pub proof fn law_waiting_changes_no_state(
        self,
        reply: Option<TransferReply>,
        next: ReceiverView,
        step: EventStep,
        controller: ControllerId,
    )
        requires
            self.slots.len() == 4,
            self.awaited(reply, next, step),
            step is Call,
        ensures
            next.slot(controller).state == self.slot(controller).state,
            step->Call_0 == next.request(next.read_timeout),
    {
        if let Some(reply) = reply {
            let (seen, checked) = choose|seen: Instant, checked: Instant|
                (#[trigger] self.polled(reply, seen, checked)).0 == next && self.polled(
                    reply,
                    seen,
                    checked,
                ).1 == Ok::<Option<ControllerEvent>, Error>(None);
            self.law_states_change_by_events_alone(reply, seen, checked, controller);
        }
    }
}

/// The answer to one transfer, with the instants at which a packet was taken in
/// and silence was measured.
pub struct Polled {
    pub reply: TransferReply,
    pub seen: Instant,
    pub checked: Instant,
}

impl ReceiverView {
    /// The receiver after a number of polls, and the events that they gave.
    pub open spec fn history(self, polls: Seq<Polled>) -> (ReceiverView, Seq<ControllerEvent>)
        decreases polls.len(),
    {
        if polls.len() == 0 {
            (self, seq![])
        } else {
            let (before, events) = self.history(polls.drop_last());
            let poll = polls.last();
            let (after, result) = before.polled(poll.reply, poll.seen, poll.checked);
            match result {
                Ok(Some(event)) => (after, events.push(event)),
                _ => (after, events),
            }
        }
    }

    /// At all times the state of a controller is that of its latest event, or
    /// the idle state before its first event, and the receiver is well-formed.
    pub proof fn law_state_is_that_of_latest_event(
        self,
        polls: Seq<Polled>,
        controller: ControllerId,
    )
        requires
            self == ReceiverView::fresh(
                self.interface_number,
                self.endpoint_address,
                self.read_timeout,
                self.release_timeout,
            ),
        ensures
            ({
                let (receiver, events) = self.history(polls);
                &&& receiver.wf()
                &&& receiver.slot(controller).state == latest_state(events, controller)
            }),
        decreases polls.len(),
    {
        if polls.len() == 0 {
            ReceiverView::law_fresh_receiver_is_idle(
                self.interface_number,
                self.endpoint_address,
                self.read_timeout,
                self.release_timeout,
                controller,
            );
        } else {
            self.law_state_is_that_of_latest_event(polls.drop_last(), controller);
            let (before, events) = self.history(polls.drop_last());
            let poll = polls.last();
            before.law_states_change_by_events_alone(
                poll.reply,
                poll.seen,
                poll.checked,
                controller,
            );
            before.law_poll_keeps_well_formed(poll.reply, poll.seen, poll.checked);
            if let Ok(Some(event)) = before.polled(poll.reply, poll.seen, poll.checked).1 {
                assert(events.push(event).drop_last() =~= events);
            }
        }
    }
}

/// The state in the latest event of a controller, or the idle state where it
/// has none.
pub open spec fn latest_state(
    events: Seq<ControllerEvent>,
    controller: ControllerId,
) -> ControllerState
    decreases events.len(),
{
    if events.len() == 0 {
        ControllerState::idle()
    } else if events.last().controller == controller {
        events.last().state
    } else {
        latest_state(events.drop_last(), controller)
    }
}

} // verus!
