//! What the opening of a receiver comes to as a whole, and what it leaves
//! behind.
use vstd::prelude::*;

use crate::descriptor::ConfigDescriptor;
use crate::error::Error;
use crate::opening::{
    DeviceProbe, Search, Stage, UsbCall, UsbReply, PRODUCT_ID, VENDOR_ID,
};

verus! {

/// How libusb answers, call by call; sequences are indexed by device.
pub struct Usb {
    pub init_code: i32,
    pub count: isize,
    pub probes: Seq<DeviceProbe>,
    pub open_codes: Seq<i32>,
    pub configs: Seq<(i32, Option<ConfigDescriptor>)>,
    pub claim_code: i32,
}

/// What one device means to the search for the receiver.
pub enum Verdict {
    /// It is not the receiver.
    Ignored,
    /// It cannot be used, for this reason.
    Unusable(Error),
    /// It ends the search, with an endpoint or with an error.
    Decisive(Result<(u8, u8), Error>),
}

impl Usb {
    /// The reply to a call.
    pub open spec fn reply(self, call: UsbCall) -> UsbReply {
        match call {
            UsbCall::InitContext => UsbReply::Status(self.init_code),
            UsbCall::GetDeviceList => UsbReply::DeviceCount(self.count),
            UsbCall::GetDeviceDescriptor { device } => UsbReply::Probe(self.probes[device as int]),
            UsbCall::OpenDevice { device } => UsbReply::Status(self.open_codes[device as int]),
            UsbCall::GetActiveConfig { device } => UsbReply::ActiveConfig(
                self.configs[device as int].0,
                self.configs[device as int].1,
            ),
            UsbCall::ClaimInterface { interface_number } => UsbReply::Status(self.claim_code),
            _ => UsbReply::Made,
        }
    }

    /// What a device means to the search.
    pub open spec fn verdict(self, device: int) -> Verdict {
        let probe = self.probes[device];
        if !probe.present {
            Verdict::Ignored
        } else if probe.code != 0 {
            Verdict::Unusable(Error::InvalidDeviceDescriptor)
        } else if probe.vendor_id != VENDOR_ID || probe.product_id != PRODUCT_ID {
            Verdict::Ignored
        } else if self.open_codes[device] != 0 {
            Verdict::Decisive(Err(Error::Usb(self.open_codes[device])))
        } else {
            match crate::descriptor::endpoint_search(
                self.configs[device].0,
                self.configs[device].1,
            ) {
                Ok(endpoint) => Verdict::Decisive(Ok(endpoint)),
                Err(error) => Verdict::Unusable(error),
            }
        }
    }

    /// What the search among the devices from `device` up to `count` comes to,
    /// where `failure` says why no earlier device was accepted.
    pub open spec fn search(self, device: int, count: int, failure: Error) -> Result<
        (u8, u8),
        Error,
    >
        decreases count - device,
    {
        if device >= count {
            Err(failure)
        } else {
            match self.verdict(device) {
                Verdict::Ignored => self.search(device + 1, count, failure),
                Verdict::Unusable(error) => self.search(device + 1, count, error),
                Verdict::Decisive(result) => result,
            }
        }
    }

    /// What becomes of an endpoint that was found: its interface is claimed.
    pub open spec fn claimed(self, found: Result<(u8, u8), Error>) -> Result<(u8, u8), Error> {
        match found {
            Ok(endpoint) if self.claim_code != 0 => Err(Error::Usb(self.claim_code)),
            _ => found,
        }
    }

    /// What listing and searching the devices comes to.
    pub open spec fn listed(self) -> Result<(u8, u8), Error> {
        if self.count < 0 {
            Err(Error::Usb(self.count as i32))
        } else {
            self.claimed(self.search(0, self.count as int, Error::DeviceNotFound))
        }
    }

    /// What opening a receiver comes to: interface number and endpoint address
    /// of the receiver, or the error.
    pub open spec fn outcome(self) -> Result<(u8, u8), Error> {
        if self.init_code != 0 {
            Err(Error::Usb(self.init_code))
        } else {
            self.listed()
        }
    }

    /// What is still to come of the device at hand once it was searched.
    spec fn examined(self, search: Search, found: Result<(u8, u8), Error>) -> Result<
        (u8, u8),
        Error,
    > {
        match found {
            Ok(endpoint) => Ok(endpoint),
            Err(error) => self.search(search.device + 1, search.count as int, error),
        }
    }

    /// What is still to come of the device at hand once it is open.
    spec fn configured(self, search: Search) -> Result<(u8, u8), Error> {
        let (code, config) = self.configs[search.device as int];
        self.examined(search, crate::descriptor::endpoint_search(code, config))
    }

    /// What an opening that has come to a stage ends in.
    spec fn destined(self, stage: Stage) -> Result<(u8, u8), Error> {
        match stage {
            Stage::Init => self.outcome(),
            Stage::List => self.listed(),
            Stage::Descriptor(search) => self.claimed(
                self.search(search.device as int, search.count as int, search.failure),
            ),
            Stage::Open(search) => if self.open_codes[search.device as int] != 0 {
                Err(Error::Usb(self.open_codes[search.device as int]))
            } else {
                self.claimed(self.configured(search))
            },
            Stage::Config(search) => self.claimed(self.configured(search)),
            Stage::FreeConfig(search, found) => self.claimed(self.examined(search, found)),
            Stage::Reject(search) => self.claimed(
                self.search(search.device + 1, search.count as int, search.failure),
            ),
            Stage::FreeList(found) => self.claimed(found),
            Stage::AutoDetach(interface, endpoint) => self.claimed(Ok((interface, endpoint))),
            Stage::Claim(interface, endpoint) => self.claimed(Ok((interface, endpoint))),
            Stage::Unclaimed(error) => Err(error),
            Stage::Exit(error) => Err(error),
            Stage::Finished(result) => result,
        }
    }

    /// An upper bound on the calls that are still to be made.
    spec fn bound(self, stage: Stage) -> nat {
        let listed = if self.count < 0 {
            0
        } else {
            self.count as nat
        };
        match stage {
            Stage::Init => 8 + 5 * listed,
            Stage::List => 7 + 5 * listed,
            Stage::Descriptor(search) => (6 + 5 * (search.count - search.device)) as nat,
            Stage::Open(search) => (5 + 5 * (search.count - search.device)) as nat,
            Stage::Config(search) => (4 + 5 * (search.count - search.device)) as nat,
            Stage::FreeConfig(search, _) => (3 + 5 * (search.count - search.device)) as nat,
            Stage::Reject(search) => (2 + 5 * (search.count - search.device)) as nat,
            Stage::FreeList(_) => 5,
            Stage::AutoDetach(_, _) => 4,
            Stage::Claim(_, _) => 3,
            Stage::Unclaimed(_) => 2,
            Stage::Exit(_) => 1,
            Stage::Finished(_) => 0,
        }
    }

    /// The stage after at most `steps` calls were answered.
    pub open spec fn run(self, stage: Stage, steps: nat) -> Stage
        decreases steps,
    {
        match stage.call() {
            Some(call) if steps > 0 => self.run(
                stage.after(self.reply(call)),
                (steps - 1) as nat,
            ),
            _ => stage,
        }
    }

    /// A reply changes nothing about where the opening ends, and brings it
    /// closer.
    proof fn lemma_step(self, stage: Stage)
        requires
            stage.wf(),
            stage.call() is Some,
        ensures
            ({
                let next = stage.after(self.reply(stage.call()->0));
                &&& next.wf()
                &&& self.destined(next) == self.destined(stage)
                &&& self.bound(next) < self.bound(stage)
            }),
    {
        reveal_with_fuel(Usb::search, 3);
    }

    /// An opening that is answered ends where it is destined to.
    proof fn lemma_run(self, stage: Stage)
        requires
            stage.wf(),
        ensures
            self.run(stage, self.bound(stage)) == Stage::Finished(self.destined(stage)),
        decreases self.bound(stage),
    {
        if stage.call() is Some {
            let next = stage.after(self.reply(stage.call()->0));
            self.lemma_step(stage);
            self.lemma_run(next);
            self.lemma_run_longer(next, self.bound(next), (self.bound(stage) - 1) as nat);
        }
    }

    /// An opening that has finished stays so.
    proof fn lemma_run_longer(self, stage: Stage, steps: nat, more: nat)
        requires
            self.run(stage, steps) is Finished,
            steps <= more,
        ensures
            self.run(stage, more) == self.run(stage, steps),
        decreases steps,
    {
        if stage.call() is Some && steps > 0 {
            self.lemma_run_longer(
                stage.after(self.reply(stage.call()->0)),
                (steps - 1) as nat,
                (more - 1) as nat,
            );
        }
    }

    /// Opening a receiver always comes to an end, after at most five calls for
    /// each device and eight more, and its result is the outcome.
    pub proof fn law_opening_ends_in_outcome(self)
        ensures
            ({
                let devices = if self.count < 0 {
                    0
                } else {
                    self.count as nat
                };
                self.run(Stage::Init, 8 + 5 * devices) == Stage::Finished(self.outcome())
            }),
    {
        self.lemma_run(Stage::Init);
    }

    /// The first decisive device settles the search.
    pub proof fn law_first_decisive_device_settles(
        self,
        device: int,
        count: int,
        failure: Error,
        decisive: int,
    )
        requires
            device <= decisive < count,
            self.verdict(decisive) is Decisive,
            forall|earlier: int|
                device <= earlier < decisive ==> !(#[trigger] self.verdict(earlier) is Decisive),
        ensures
            self.search(device, count, failure) == self.verdict(decisive)->Decisive_0,
        decreases decisive - device,
    {
        if device < decisive {
            assert(!(self.verdict(device) is Decisive));
            let failure = match self.verdict(device) {
                Verdict::Unusable(error) => error,
                _ => failure,
            };
            self.law_first_decisive_device_settles(device + 1, count, failure, decisive);
        }
    }

    /// Without a decisive device, the search fails for the reason for which
    /// the last unusable device was not accepted.
    pub proof fn law_last_unusable_device_names_failure(
        self,
        device: int,
        count: int,
        failure: Error,
        unusable: int,
    )
        requires
            device <= unusable < count,
            self.verdict(unusable) is Unusable,
            forall|any: int|
                device <= any < count ==> !(#[trigger] self.verdict(any) is Decisive),
            forall|later: int|
                unusable < later < count ==> #[trigger] self.verdict(later) is Ignored,
        ensures
            self.search(device, count, failure) == Err::<(u8, u8), Error>(
                self.verdict(unusable)->Unusable_0,
            ),
        decreases unusable - device,
    {
        assert(!(self.verdict(device) is Decisive));
        if device < unusable {
            let failure = match self.verdict(device) {
                Verdict::Unusable(error) => error,
                _ => failure,
            };
            self.law_last_unusable_device_names_failure(device + 1, count, failure, unusable);
        } else {
            self.law_ignored_devices_change_nothing(
                device + 1,
                count,
                self.verdict(unusable)->Unusable_0,
            );
        }
    }

    /// A search that meets only devices that are not the receiver leaves the
    /// failure as it was.
    pub proof fn law_ignored_devices_change_nothing(self, device: int, count: int, failure: Error)
        requires
            forall|any: int| device <= any < count ==> #[trigger] self.verdict(any) is Ignored,
        ensures
            self.search(device, count, failure) == Err::<(u8, u8), Error>(failure),
        decreases count - device,
    {
        if device < count {
            assert(self.verdict(device) is Ignored);
            self.law_ignored_devices_change_nothing(device + 1, count, failure);
        }
    }

    /// A search that finds an endpoint finds it on a decisive device.
    proof fn lemma_found_on_a_device(self, device: int, count: int, failure: Error) -> (found: int)
        requires
            self.search(device, count, failure) is Ok,
        ensures
            device <= found < count,
            self.verdict(found) == Verdict::Decisive(self.search(device, count, failure)),
            forall|earlier: int|
                device <= earlier < found ==> !(#[trigger] self.verdict(earlier) is Decisive),
        decreases count - device,
    {
        match self.verdict(device) {
            Verdict::Decisive(_) => device,
            Verdict::Unusable(error) => self.lemma_found_on_a_device(device + 1, count, error),
            Verdict::Ignored => self.lemma_found_on_a_device(device + 1, count, failure),
        }
    }

    /// What is opened is a Big Button receiver: a device of the list with the
    /// receiver's vendor and product, which could be opened, on the first
    /// interrupt IN endpoint of its active configuration.
    pub proof fn law_opened_device_is_a_receiver(self) -> (device: int)
        requires
            self.outcome() is Ok,
        ensures
            self.init_code == 0,
            0 <= device < self.count,
            self.probes[device].present,
            self.probes[device].code == 0,
            self.probes[device].vendor_id == VENDOR_ID,
            self.probes[device].product_id == PRODUCT_ID,
            self.open_codes[device] == 0,
            self.configs[device].0 == 0,
            self.configs[device].1 matches Some(config) && config.interrupt_endpoint() == Some(
                self.outcome()->Ok_0,
            ),
            self.claim_code == 0,
    {
        self.lemma_found_on_a_device(0, self.count as int, Error::DeviceNotFound)
    }

    /// A receiver that can be used is opened, whatever devices that are not the
    /// receiver, or cannot be used, stand before it in the list.
    pub proof fn law_usable_receiver_is_opened(self, device: int)
        requires
            self.init_code == 0,
            0 <= device < self.count,
            self.verdict(device) matches Verdict::Decisive(Ok(_)),
            forall|earlier: int|
                0 <= earlier < device ==> !(#[trigger] self.verdict(earlier) is Decisive),
            self.claim_code == 0,
        ensures
            self.outcome() == self.verdict(device)->Decisive_0,
    {
        self.law_first_decisive_device_settles(
            0,
            self.count as int,
            Error::DeviceNotFound,
            device,
        );
    }

    /// Without any device that could be the receiver, the receiver is reported
    /// as not found.
    pub proof fn law_no_receiver_is_not_found(self)
        requires
            self.init_code == 0,
            self.count >= 0,
            forall|any: int| 0 <= any < self.count ==> #[trigger] self.verdict(any) is Ignored,
        ensures
            self.outcome() == Err::<(u8, u8), Error>(Error::DeviceNotFound),
    {
        self.law_ignored_devices_change_nothing(0, self.count as int, Error::DeviceNotFound);
    }
}

/// What is held of libusb's resources.
pub struct Held {
    pub contexts: int,
    pub lists: int,
    pub handles: int,
    pub configs: int,
    pub claims: int,
    /// Whether a device of the list could not be opened.
    pub refused: bool,
}

impl Held {
    /// Nothing is held.
    pub open spec fn nothing() -> Held {
        Held { contexts: 0, lists: 0, handles: 0, configs: 0, claims: 0, refused: false }
    }

    /// What is held after a call was answered.
    pub open spec fn after(self, call: UsbCall, reply: UsbReply) -> Held {
        match (call, reply) {
            (UsbCall::InitContext, UsbReply::Status(code)) if code == 0 => Held {
                contexts: self.contexts + 1,
                ..self
            },
            (UsbCall::GetDeviceList, UsbReply::DeviceCount(count)) if count >= 0 => Held {
                lists: self.lists + 1,
                ..self
            },
            (UsbCall::OpenDevice { device }, UsbReply::Status(code)) => if code == 0 {
                Held { handles: self.handles + 1, ..self }
            } else {
                Held { refused: true, ..self }
            },
            (UsbCall::GetActiveConfig { device }, UsbReply::ActiveConfig(code, Some(config))) if code
                == 0 => Held { configs: self.configs + 1, ..self },
            (UsbCall::FreeActiveConfig, UsbReply::Made) => Held {
                configs: self.configs - 1,
                ..self
            },
            (UsbCall::FreeDeviceList, UsbReply::Made) => Held { lists: self.lists - 1, ..self },
            (UsbCall::ClaimInterface { interface_number }, UsbReply::Status(code)) if code
                == 0 => Held { claims: self.claims + 1, ..self },
            (UsbCall::ReleaseInterface { interface_number }, UsbReply::Made) => Held {
                claims: self.claims - 1,
                ..self
            },
            (UsbCall::CloseHandle, UsbReply::Made) => Held { handles: self.handles - 1, ..self },
            (UsbCall::ExitContext, UsbReply::Made) => Held { contexts: self.contexts - 1, ..self },
            _ => self,
        }
    }

    /// What is held after calls whose results do not matter were made.
    pub open spec fn after_all(self, calls: Seq<UsbCall>) -> Held
        decreases calls.len(),
    {
        if calls.len() == 0 {
            self
        } else {
            self.after(calls[0], UsbReply::Made).after_all(calls.drop_first())
        }
    }

    /// What is held at a stage of an opening that began with nothing.
    pub open spec fn at(self, stage: Stage) -> bool {
        let (contexts, lists, handles, claims): (int, int, int, int) = match stage {
            Stage::Init => (0, 0, 0, 0),
            Stage::List => (1, 0, 0, 0),
            Stage::Descriptor(_) => (1, 1, 0, 0),
            Stage::Open(_) => (1, 1, 0, 0),
            Stage::Config(_) => (1, 1, 1, 0),
            Stage::FreeConfig(_, _) => (1, 1, 1, 0),
            Stage::Reject(_) => (1, 1, 1, 0),
            Stage::FreeList(Ok(_)) => (1, 1, 1, 0),
            Stage::FreeList(Err(_)) => (1, 1, 0, 0),
            Stage::AutoDetach(_, _) => (1, 0, 1, 0),
            Stage::Claim(_, _) => (1, 0, 1, 0),
            Stage::Unclaimed(_) => (1, 0, 1, 0),
            Stage::Exit(_) => (1, if self.refused { 1 } else { 0 }, 0, 0),
            Stage::Finished(Ok(_)) => (1, 0, 1, 1),
            Stage::Finished(Err(_)) => (0, if self.refused { 1 } else { 0 }, 0, 0),
        };
        &&& self.contexts == contexts
        &&& self.lists == lists
        &&& self.handles == handles
        &&& self.configs == if stage is FreeConfig {
            1int
        } else {
            0
        }
        &&& self.claims == claims
        &&& self.refused ==> stage is Exit || stage matches Stage::Finished(Err(_))
    }
}

/// Stage and holdings of an opening after some replies, whatever they are.
pub open spec fn trace(stage: Stage, held: Held, replies: Seq<UsbReply>) -> (Stage, Held)
    decreases replies.len(),
{
    match stage.call() {
        Some(call) if replies.len() > 0 => trace(
            stage.after(replies[0]),
            held.after(call, replies[0]),
            replies.drop_first(),
        ),
        _ => (stage, held),
    }
}

/// Each reply keeps the holdings those of the stage.
proof fn lemma_trace_holds(stage: Stage, held: Held, replies: Seq<UsbReply>)
    requires
        held.at(stage),
    ensures
        ({
            let (stage, held) = trace(stage, held, replies);
            held.at(stage)
        }),
    decreases replies.len(),
{
    if stage.call() is Some && replies.len() > 0 {
        lemma_trace_holds(
            stage.after(replies[0]),
            held.after(stage.call()->0, replies[0]),
            replies.drop_first(),
        );
    }
}

/// At every stage of an opening, whatever libusb replied, exactly what the
/// stage accounts for is held.
pub proof fn law_opening_holds_what_its_stage_says(replies: Seq<UsbReply>)
    ensures
        ({
            let (stage, held) = trace(Stage::Init, Held::nothing(), replies);
            held.at(stage)
        }),
{
    lemma_trace_holds(Stage::Init, Held::nothing(), replies);
}

/// An opening that failed, whatever libusb replied, has closed every handle,
/// freed every configuration and left the context. It has freed the device list too, except where a device of
/// the list could not be opened.
pub proof fn law_failed_opening_leaves_nothing_open(replies: Seq<UsbReply>)
    requires
        trace(Stage::Init, Held::nothing(), replies).0 matches Stage::Finished(Err(_)),
    ensures
        ({
            let held = trace(Stage::Init, Held::nothing(), replies).1;
            &&& held.contexts == 0
            &&& held.handles == 0
            &&& held.configs == 0
            &&& held.claims == 0
            &&& held.lists == if held.refused { 1int } else { 0 }
        }),
{
    law_opening_holds_what_its_stage_says(replies);
}

/// An opening that succeeded holds one context, one handle and one claimed
/// interface, and giving the receiver up releases all of them.
pub proof fn law_closing_undoes_opening(replies: Seq<UsbReply>)
    requires
        trace(Stage::Init, Held::nothing(), replies).0 matches Stage::Finished(Ok(_)),
    ensures
        ({
            let (stage, held) = trace(Stage::Init, Held::nothing(), replies);
            let interface_number = stage->Finished_0->Ok_0.0;
            &&& held == Held {
                contexts: 1,
                lists: 0,
                handles: 1,
                configs: 0,
                claims: 1,
                refused: false,
            }
            &&& held.after_all(crate::opening::closing_calls(interface_number, true, true))
                == Held::nothing()
        }),
{
    law_opening_holds_what_its_stage_says(replies);
    let (stage, held) = trace(Stage::Init, Held::nothing(), replies);
    let calls = crate::opening::closing_calls(stage->Finished_0->Ok_0.0, true, true);
    reveal_with_fuel(Held::after_all, 4);
    assert(calls.drop_first().drop_first() =~= seq![UsbCall::ExitContext]);
}

/// Whatever libusb replied, each configuration that was read is freed by the
/// very next call that is answered: one is held while that call is at hand, and
/// none at any other stage.
pub proof fn law_read_configuration_is_freed_once(replies: Seq<UsbReply>)
    ensures
        ({
            let (stage, held) = trace(Stage::Init, Held::nothing(), replies);
            held.configs == if stage.call() == Some(UsbCall::FreeActiveConfig) {
                1int
            } else {
                0
            }
        }),
{
    law_opening_holds_what_its_stage_says(replies);
}

/// A configuration is to be freed exactly where libusb gave one: not where it
/// could not be read, and not where there was none. Whether an endpoint was
/// found does not matter.
pub proof fn law_only_a_read_configuration_is_freed(search: Search, reply: UsbReply)
    ensures
        Stage::Config(search).after(reply).call() == Some(UsbCall::FreeActiveConfig) <==> (
        reply matches UsbReply::ActiveConfig(code, config) && code == 0 && config is Some),
        forall|stage: Stage|
            !(stage is Config) && stage.call() != Some(UsbCall::FreeActiveConfig)
                ==> #[trigger] stage.after(reply).call() != Some(UsbCall::FreeActiveConfig),
{
}

/// The kernel driver is asked to detach right before the interface is claimed.
pub proof fn law_auto_detach_comes_before_claim(stage: Stage, reply: UsbReply)
    requires
        stage.after(reply).call() matches Some(UsbCall::ClaimInterface { .. }),
        !(stage.call() matches Some(UsbCall::ClaimInterface { .. })),
    ensures
        stage.call() == Some(UsbCall::SetAutoDetach),
        reply == UsbReply::Made,
{
}

impl Usb {
    /// The replies of a bus are what it holds, device by device.
    pub proof fn law_replies_are_those_of_the_bus(self, device: usize, interface_number: u8)
        ensures
            self.reply(UsbCall::InitContext) == UsbReply::Status(self.init_code),
            self.reply(UsbCall::GetDeviceList) == UsbReply::DeviceCount(self.count),
            self.reply(UsbCall::GetDeviceDescriptor { device }) == UsbReply::Probe(
                self.probes[device as int],
            ),
            self.reply(UsbCall::OpenDevice { device }) == UsbReply::Status(
                self.open_codes[device as int],
            ),
            self.reply(UsbCall::GetActiveConfig { device }) == UsbReply::ActiveConfig(
                self.configs[device as int].0,
                self.configs[device as int].1,
            ),
            self.reply(UsbCall::ClaimInterface { interface_number }) == UsbReply::Status(
                self.claim_code,
            ),
            self.reply(UsbCall::FreeActiveConfig) == UsbReply::Made,
            self.reply(UsbCall::FreeDeviceList) == UsbReply::Made,
            self.reply(UsbCall::SetAutoDetach) == UsbReply::Made,
            self.reply(UsbCall::CloseHandle) == UsbReply::Made,
            self.reply(UsbCall::ExitContext) == UsbReply::Made,
    {
    }

    /// An opening is run by answering one call after the other, until none is
    /// left.
    pub proof fn law_run_answers_one_call_after_the_other(self, stage: Stage, steps: nat)
        ensures
            self.run(stage, 0) == stage,
            stage.call() is None ==> self.run(stage, steps) == stage,
            stage.call() matches Some(call) ==> self.run(stage, steps + 1) == self.run(
                stage.after(self.reply(call)),
                steps,
            ),
    {
    }

    /// A library that cannot be started and a list that cannot be read are
    /// reported with libusb's code.
    pub proof fn law_failed_start_is_reported(self)
        ensures
            self.init_code != 0 ==> self.outcome() == Err::<(u8, u8), Error>(
                Error::Usb(self.init_code),
            ),
            self.init_code == 0 && self.count < 0 ==> self.outcome() == Err::<(u8, u8), Error>(
                Error::Usb(self.count as i32),
            ),
    {
    }

    /// A receiver at any place of the device list is opened on its endpoint:
    /// a device that is present, whose descriptor reads with vendor `045e` and
    /// product `02a0`, which opens and has an interrupt IN endpoint. Devices
    /// before it do not matter, but for a receiver that cannot be opened or has
    /// an endpoint too.
    pub proof fn law_listed_receiver_is_opened(self, device: int)
        requires
            self.init_code == 0,
            0 <= device < self.count,
            self.probes[device].present,
            self.probes[device].code == 0,
            self.probes[device].vendor_id == 0x045e,
            self.probes[device].product_id == 0x02a0,
            self.open_codes[device] == 0,
            crate::descriptor::endpoint_search(self.configs[device].0, self.configs[device].1)
                is Ok,
            forall|e: int|
                0 <= e < device ==> {
                    let probe = #[trigger] self.probes[e];
                    ||| !probe.present || probe.code != 0
                    ||| probe.vendor_id != 0x045e || probe.product_id != 0x02a0
                    ||| self.open_codes[e] == 0 && crate::descriptor::endpoint_search(
                        self.configs[e].0,
                        self.configs[e].1,
                    ) is Err
                },
        ensures
            ({
                let found = crate::descriptor::endpoint_search(
                    self.configs[device].0,
                    self.configs[device].1,
                );
                let result = if self.claim_code == 0 {
                    found
                } else {
                    Err(Error::Usb(self.claim_code))
                };
                &&& self.outcome() == result
                &&& self.run(Stage::Init, 8 + 5 * self.count as nat) == Stage::Finished(result)
            }),
    {
        assert forall|e: int| 0 <= e < device implies !(#[trigger] self.verdict(e) is Decisive) by {
            let probe = self.probes[e];
        }
        self.law_first_decisive_device_settles(
            0,
            self.count as int,
            Error::DeviceNotFound,
            device,
        );
        self.law_opening_ends_in_outcome();
    }

    /// A receiver at any place of the device list that cannot be opened is
    /// reported with libusb's code, and ends the opening.
    pub proof fn law_refusing_receiver_is_reported(self, device: int)
        requires
            self.init_code == 0,
            0 <= device < self.count,
            self.probes[device].present,
            self.probes[device].code == 0,
            self.probes[device].vendor_id == 0x045e,
            self.probes[device].product_id == 0x02a0,
            self.open_codes[device] != 0,
            forall|e: int|
                0 <= e < device ==> {
                    let probe = #[trigger] self.probes[e];
                    ||| !probe.present || probe.code != 0
                    ||| probe.vendor_id != 0x045e || probe.product_id != 0x02a0
                    ||| self.open_codes[e] == 0 && crate::descriptor::endpoint_search(
                        self.configs[e].0,
                        self.configs[e].1,
                    ) is Err
                },
        ensures
            self.outcome() == Err::<(u8, u8), Error>(Error::Usb(self.open_codes[device])),
            self.run(Stage::Init, 8 + 5 * self.count as nat) == Stage::Finished(
                Err(Error::Usb(self.open_codes[device])),
            ),
    {
        assert forall|e: int| 0 <= e < device implies !(#[trigger] self.verdict(e) is Decisive) by {
            let probe = self.probes[e];
        }
        self.law_first_decisive_device_settles(
            0,
            self.count as int,
            Error::DeviceNotFound,
            device,
        );
        self.law_opening_ends_in_outcome();
    }

    /// Where no receiver could be used or refused to open, the last device that
    /// could not be read, or that is a receiver without a suitable endpoint,
    /// names the error.
    pub proof fn law_last_failure_is_reported(self, device: int)
        requires
            self.init_code == 0,
            0 <= device < self.count,
            self.probes[device].present,
            self.probes[device].code != 0 || self.probes[device].vendor_id == 0x045e
                && self.probes[device].product_id == 0x02a0,
            forall|e: int|
                0 <= e < self.count ==> {
                    let probe = #[trigger] self.probes[e];
                    ||| !probe.present || probe.code != 0
                    ||| probe.vendor_id != 0x045e || probe.product_id != 0x02a0
                    ||| self.open_codes[e] == 0 && crate::descriptor::endpoint_search(
                        self.configs[e].0,
                        self.configs[e].1,
                    ) is Err
                },
            forall|e: int|
                device < e < self.count ==> {
                    let probe = #[trigger] self.probes[e];
                    ||| !probe.present
                    ||| probe.code == 0 && (probe.vendor_id != 0x045e || probe.product_id != 0x02a0)
                },
        ensures
            ({
                let result = if self.probes[device].code != 0 {
                    Err(Error::InvalidDeviceDescriptor)
                } else {
                    crate::descriptor::endpoint_search(
                        self.configs[device].0,
                        self.configs[device].1,
                    )
                };
                &&& self.outcome() == result
                &&& self.run(Stage::Init, 8 + 5 * self.count as nat) == Stage::Finished(result)
            }),
    {
        assert(self.verdict(device) is Unusable) by {
            let probe = self.probes[device];
        }
        assert forall|e: int| 0 <= e < self.count implies !(#[trigger] self.verdict(
            e,
        ) is Decisive) by {
            let probe = self.probes[e];
        }
        assert forall|e: int| device < e < self.count implies #[trigger] self.verdict(
            e,
        ) is Ignored by {
            let probe = self.probes[e];
        }
        self.law_last_unusable_device_names_failure(
            0,
            self.count as int,
            Error::DeviceNotFound,
            device,
        );
        self.law_opening_ends_in_outcome();
    }

    /// Where every device of the list is missing or reads with another vendor
    /// or product, the receiver is reported as not found.
    pub proof fn law_other_devices_are_not_the_receiver(self)
        requires
            self.init_code == 0,
            self.count >= 0,
            forall|e: int|
                0 <= e < self.count ==> {
                    let probe = #[trigger] self.probes[e];
                    ||| !probe.present
                    ||| probe.code == 0 && (probe.vendor_id != 0x045e || probe.product_id != 0x02a0)
                },
        ensures
            self.outcome() == Err::<(u8, u8), Error>(Error::DeviceNotFound),
            self.run(Stage::Init, 8 + 5 * self.count as nat) == Stage::Finished(
                Err(Error::DeviceNotFound),
            ),
    {
        assert forall|e: int| 0 <= e < self.count implies #[trigger] self.verdict(e) is Ignored by {
            let probe = self.probes[e];
        }
        self.law_no_receiver_is_not_found();
        self.law_opening_ends_in_outcome();
    }
}

/// Replies are taken in one after the other, and what is held is counted call by
/// call.
pub proof fn law_trace_counts_call_by_call(
    stage: Stage,
    held: Held,
    reply: UsbReply,
    replies: Seq<UsbReply>,
)
    ensures
        trace(stage, held, seq![]) == (stage, held),
        stage.call() is None ==> trace(stage, held, replies) == (stage, held),
        stage.call() matches Some(call) ==> trace(stage, held, seq![reply] + replies) == trace(
            stage.after(reply),
            held.after(call, reply),
            replies,
        ),
{
    assert((seq![reply] + replies).drop_first() =~= replies);
}

/// A device is opened where its descriptor was just read with the vendor and
/// product of the receiver, and only there.
pub proof fn law_receivers_alone_are_opened(stage: Stage, reply: UsbReply, device: usize)
    requires
        stage.call() != Some(UsbCall::OpenDevice { device }),
    ensures
        stage.after(reply).call() == Some(UsbCall::OpenDevice { device }) <==> {
            &&& stage.call() == Some(UsbCall::GetDeviceDescriptor { device })
            &&& reply matches UsbReply::Probe(probe)
            &&& probe.present
            &&& probe.code == 0
            &&& probe.vendor_id == 0x045e
            &&& probe.product_id == 0x02a0
        },
{
}

/// The search looks at the first device of a list that has any, and from each
/// device that it passes over or rejects it goes on to the next, up to the last.
pub proof fn law_every_device_is_looked_at(search: Search, reply: UsbReply, count: isize)
    requires
        search.device < search.count,
    ensures
        count > 0 ==> Stage::List.after(UsbReply::DeviceCount(count)).call() == Some(
            UsbCall::GetDeviceDescriptor { device: 0 },
        ),
        count == 0 ==> Stage::List.after(UsbReply::DeviceCount(count)).call() == Some(
            UsbCall::FreeDeviceList,
        ),
        ({
            let passed_over = reply matches UsbReply::Probe(probe) && (!probe.present || probe.code
                != 0 || probe.vendor_id != 0x045e || probe.product_id != 0x02a0);
            let next = if search.device + 1 < search.count {
                UsbCall::GetDeviceDescriptor { device: (search.device + 1) as usize }
            } else {
                UsbCall::FreeDeviceList
            };
            &&& passed_over ==> Stage::Descriptor(search).after(reply).call() == Some(next)
            &&& reply == UsbReply::Made ==> Stage::Reject(search).after(reply).call() == Some(next)
        }),
{
}

/// A device is read where it was just opened, and its handle stays open exactly
/// where an endpoint was found.
pub proof fn law_opened_device_is_read(
    search: Search,
    code: i32,
    read_code: i32,
    config: Option<ConfigDescriptor>,
)
    ensures
        Stage::Open(search).after(UsbReply::Status(code)).call() == (if code == 0 {
            Some(UsbCall::GetActiveConfig { device: search.device })
        } else {
            Some(UsbCall::ExitContext)
        }),
        ({
            let read = Stage::Config(search).after(UsbReply::ActiveConfig(read_code, config));
            let examined = if read_code == 0 && config is Some {
                read.after(UsbReply::Made)
            } else {
                read
            };
            examined.call() == if crate::descriptor::endpoint_search(read_code, config) is Ok {
                Some(UsbCall::FreeDeviceList)
            } else {
                Some(UsbCall::CloseHandle)
            }
        }),
{
}

/// An opening succeeds by the claim of the very interface that it reports, and
/// in no other way.
pub proof fn law_success_is_a_claim(
    stage: Stage,
    reply: UsbReply,
    interface_number: u8,
    endpoint_address: u8,
)
    requires
        stage.call() is Some,
        stage.after(reply) == Stage::Finished(Ok((interface_number, endpoint_address))),
    ensures
        stage.call() == Some(UsbCall::ClaimInterface { interface_number }),
        reply == UsbReply::Status(0),
{
}

/// Giving a receiver up releases its interface and closes its handle, in this
/// order, where there is a handle, and then exits the context, where there is
/// one.
pub proof fn law_closing_order(interface_number: u8, has_handle: bool, has_context: bool)
    ensures
        ({
            let calls = crate::opening::closing_calls(interface_number, has_handle, has_context);
            &&& calls.len() == (if has_handle { 2int } else { 0 }) + (if has_context {
                1int
            } else {
                0
            })
            &&& has_handle ==> calls[0] == UsbCall::ReleaseInterface { interface_number }
            &&& has_handle ==> calls[1] == UsbCall::CloseHandle
            &&& has_context ==> calls[calls.len() - 1] == UsbCall::ExitContext
        }),
{
}

/// A call adds to what is held, or takes from it, where it succeeds, and
/// changes nothing else.
pub proof fn law_calls_change_what_is_held(held: Held, code: i32, count: isize, device: usize)
    ensures
        held.after(UsbCall::InitContext, UsbReply::Status(code)).contexts == held.contexts + (
        if code == 0 { 1int } else { 0 }),
        held.after(UsbCall::GetDeviceList, UsbReply::DeviceCount(count)).lists == held.lists + (
        if count >= 0 { 1int } else { 0 }),
        held.after(UsbCall::OpenDevice { device }, UsbReply::Status(code)).handles == held.handles
            + (if code == 0 { 1int } else { 0 }),
        held.after(UsbCall::OpenDevice { device }, UsbReply::Status(code)).refused == (held.refused
            || code != 0),
        held.after(UsbCall::CloseHandle, UsbReply::Made) == (Held {
            handles: held.handles - 1,
            ..held
        }),
        held.after(UsbCall::FreeDeviceList, UsbReply::Made) == (Held {
            lists: held.lists - 1,
            ..held
        }),
        held.after(UsbCall::FreeActiveConfig, UsbReply::Made) == (Held {
            configs: held.configs - 1,
            ..held
        }),
        held.after(UsbCall::ExitContext, UsbReply::Made) == (Held {
            contexts: held.contexts - 1,
            ..held
        }),
{
}

/// Reading a configuration and claiming or releasing an interface change what
/// is held where they succeed.
pub proof fn law_configurations_and_claims_are_held(
    held: Held,
    code: i32,
    config: Option<ConfigDescriptor>,
    device: usize,
    interface_number: u8,
)
    ensures
        held.after(
            UsbCall::GetActiveConfig { device },
            UsbReply::ActiveConfig(code, config),
        ).configs == held.configs + (if code == 0 && config is Some { 1int } else { 0 }),
        held.after(UsbCall::ClaimInterface { interface_number }, UsbReply::Status(code)).claims
            == held.claims + (if code == 0 { 1int } else { 0 }),
        held.after(UsbCall::ReleaseInterface { interface_number }, UsbReply::Made) == (Held {
            claims: held.claims - 1,
            ..held
        }),
{
}

} // verus!
