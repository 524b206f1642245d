//! USB descriptors of the receiver and the search for its interrupt endpoint.
use vstd::prelude::*;

use crate::error::{usb_call, Error};

verus! {

/// Direction bit of an endpoint address.
pub const LIBUSB_ENDPOINT_DIR_MASK: u8 = 0x80;

/// Direction of an endpoint that the device sends on.
pub const LIBUSB_ENDPOINT_IN: u8 = 0x80;

/// Transfer type bits of an endpoint's attributes.
pub const LIBUSB_TRANSFER_TYPE_MASK: u8 = 0x03;

/// Transfer type of an interrupt endpoint.
pub const LIBUSB_TRANSFER_TYPE_INTERRUPT: u8 = 0x03;

/// One endpoint of an interface.
#[derive(Debug)]
pub struct EndpointDescriptor {
    /// `bEndpointAddress`.
    pub address: u8,
    /// `bmAttributes`.
    pub attributes: u8,
}

/// One alternate setting of an interface.
#[derive(Debug)]
pub struct InterfaceDescriptor {
    /// `bInterfaceNumber`.
    pub interface_number: u8,
    pub endpoints: Vec<EndpointDescriptor>,
}

/// An interface with its alternate settings.
#[derive(Debug)]
pub struct Interface {
    pub altsettings: Vec<InterfaceDescriptor>,
}

/// A device configuration.
#[derive(Debug)]
pub struct ConfigDescriptor {
    pub interfaces: Vec<Interface>,
}

impl EndpointDescriptor {
    /// An interrupt endpoint that the device sends on.
    pub open spec fn is_interrupt_in(self) -> bool {
        &&& self.attributes & LIBUSB_TRANSFER_TYPE_MASK == LIBUSB_TRANSFER_TYPE_INTERRUPT
        &&& self.address & LIBUSB_ENDPOINT_DIR_MASK == LIBUSB_ENDPOINT_IN
    }
}

/// The place of an endpoint in a configuration.
pub struct Place {
    pub interface: int,
    pub altsetting: int,
    pub endpoint: int,
}

impl Place {
    /// Interfaces come first in the order of places, then alternate settings,
    /// then endpoints.
    pub open spec fn precedes(self, other: Place) -> bool {
        ||| self.interface < other.interface
        ||| {
            &&& self.interface == other.interface
            &&& self.altsetting < other.altsetting
        }
        ||| {
            &&& self.interface == other.interface
            &&& self.altsetting == other.altsetting
            &&& self.endpoint < other.endpoint
        }
    }
}

impl ConfigDescriptor {
    /// The alternate setting at a place.
    pub open spec fn setting_at(self, place: Place) -> InterfaceDescriptor {
        self.interfaces[place.interface].altsettings[place.altsetting]
    }

    /// The endpoint at a place.
    pub open spec fn endpoint_at(self, place: Place) -> EndpointDescriptor {
        self.setting_at(place).endpoints[place.endpoint]
    }

    /// Whether the configuration has an endpoint at a place.
    pub open spec fn has_place(self, place: Place) -> bool {
        &&& 0 <= place.interface < self.interfaces.len()
        &&& 0 <= place.altsetting < self.interfaces[place.interface].altsettings.len()
        &&& 0 <= place.endpoint < self.setting_at(place).endpoints.len()
    }

    /// Whether an interrupt IN endpoint stands at a place.
    pub open spec fn matches_at(self, place: Place) -> bool {
        self.has_place(place) && self.endpoint_at(place).is_interrupt_in()
    }

    /// Whether the first interrupt IN endpoint stands at a place.
    pub open spec fn first_match(self, place: Place) -> bool {
        &&& self.matches_at(place)
        &&& forall|earlier: Place| earlier.precedes(place) ==> !#[trigger] self.matches_at(earlier)
    }

    /// Interface number and address of the first interrupt IN endpoint.
    pub open spec fn interrupt_endpoint(self) -> Option<(u8, u8)> {
        if exists|place: Place| self.first_match(place) {
            let place = choose|place: Place| self.first_match(place);
            Some((self.setting_at(place).interface_number, self.endpoint_at(place).address))
        } else {
            None
        }
    }

    /// The first interrupt IN endpoint has one place.
    pub proof fn lemma_first_match_is_unique(self, one: Place, other: Place)
        requires
            self.first_match(one),
            self.first_match(other),
        ensures
            one == other,
    {
        assert(!one.precedes(other));
        assert(!other.precedes(one));
    }

    /// Where there is an interrupt IN endpoint, there is a first one.
    proof fn lemma_first_match_exists(self, place: Place)
        requires
            self.matches_at(place),
        ensures
            exists|first: Place| self.first_match(first),
        decreases place.interface, place.altsetting, place.endpoint,
    {
        if !self.first_match(place) {
            let earlier = choose|earlier: Place|
                earlier.precedes(place) && #[trigger] self.matches_at(earlier);
            self.lemma_first_match_exists(earlier);
        }
    }

    /// An endpoint is found exactly where the configuration has one that
    /// matches.
    pub proof fn law_found_iff_present(self)
        ensures
            self.interrupt_endpoint() is Some <==> exists|place: Place| self.matches_at(place),
    {
        if exists|place: Place| self.matches_at(place) {
            self.lemma_first_match_exists(choose|place: Place| self.matches_at(place));
        }
        if exists|place: Place| self.first_match(place) {
            assert(self.matches_at(choose|place: Place| self.first_match(place)));
        }
    }
}

/// What the search for the receiver's endpoint comes to, given libusb's status
/// code and the active configuration.
pub open spec fn endpoint_search(code: i32, config: Option<ConfigDescriptor>) -> Result<
    (u8, u8),
    Error,
> {
    if code != 0 {
        Err(Error::Usb(code))
    } else {
        match config {
            None => Err(Error::InvalidConfigurationDescriptor),
            Some(config) => match config.interrupt_endpoint() {
                Some(found) => Ok(found),
                None => Err(Error::InterruptEndpointNotFound),
            },
        }
    }
}

/// Finds the first interrupt IN endpoint of a device.
///
/// `code` is the status with which libusb read the active configuration, and
/// `config` the configuration, if libusb gave one. The result is the number of
/// the interface that the endpoint belongs to, and the endpoint's address.
pub fn find_interrupt_endpoint(code: i32, config: &Option<ConfigDescriptor>) -> (result: Result<
    (u8, u8),
    Error,
>)
    ensures
        result == endpoint_search(code, *config),
{
    usb_call(code)?;
    let active = match config {
        None => return Err(Error::InvalidConfigurationDescriptor),
        Some(active) => active,
    };
    let mut i: usize = 0;
    while i < active.interfaces.len()
        invariant
            code == 0,
            *config == Some(*active),
            i <= active.interfaces.len(),
            forall|place: Place| place.interface < i ==> !#[trigger] active.matches_at(place),
        decreases active.interfaces.len() - i,
    {
        let altsettings = &active.interfaces[i].altsettings;
        let mut j: usize = 0;
        while j < altsettings.len()
            invariant
                code == 0,
                *config == Some(*active),
                i < active.interfaces.len(),
                *altsettings == active.interfaces[i as int].altsettings,
                j <= altsettings.len(),
                forall|place: Place|
                    place.precedes(Place { interface: i as int, altsetting: j as int, endpoint: 0 })
                        ==> !#[trigger] active.matches_at(place),
            decreases altsettings.len() - j,
        {
            let descriptor = &altsettings[j];
            let mut k: usize = 0;
            while k < descriptor.endpoints.len()
                invariant
                    code == 0,
                    *config == Some(*active),
                    i < active.interfaces.len(),
                    j < altsettings.len(),
                    *altsettings == active.interfaces[i as int].altsettings,
                    *descriptor == altsettings[j as int],
                    k <= descriptor.endpoints.len(),
                    forall|place: Place|
                        place.precedes(
                            Place {
                                interface: i as int,
                                altsetting: j as int,
                                endpoint: k as int,
                            },
                        ) ==> !#[trigger] active.matches_at(place),
                decreases descriptor.endpoints.len() - k,
            {
                let endpoint = &descriptor.endpoints[k];
                let transfer_type = endpoint.attributes & LIBUSB_TRANSFER_TYPE_MASK;
                let direction = endpoint.address & LIBUSB_ENDPOINT_DIR_MASK;
                if transfer_type == LIBUSB_TRANSFER_TYPE_INTERRUPT && direction
                    == LIBUSB_ENDPOINT_IN {
                    proof {
                        let here = Place {
                            interface: i as int,
                            altsetting: j as int,
                            endpoint: k as int,
                        };
                        assert(active.first_match(here));
                        active.lemma_first_match_is_unique(
                            here,
                            choose|place: Place| active.first_match(place),
                        );
                    }
                    return Ok((descriptor.interface_number, endpoint.address));
                }
                k += 1;
            }
            j += 1;
        }
        i += 1;
    }
    proof {
        active.law_found_iff_present();
    }
    Err(Error::InterruptEndpointNotFound)
}

/// A configuration that could not be read is reported with libusb's code, and
/// one that is not there as invalid.
pub proof fn law_missing_configuration_is_reported(code: i32, config: Option<ConfigDescriptor>)
    ensures
        code != 0 ==> endpoint_search(code, config) == Err::<(u8, u8), Error>(Error::Usb(code)),
        code == 0 && config is None ==> endpoint_search(code, config) == Err::<(u8, u8), Error>(
            Error::InvalidConfigurationDescriptor,
        ),
{
}

/// The endpoint that is found is an interrupt IN endpoint of the configuration,
/// with the number of the interface that it belongs to, and no interrupt IN
/// endpoint stands before it.
pub proof fn law_first_interrupt_in_endpoint_is_found(config: ConfigDescriptor)
    requires
        endpoint_search(0, Some(config)) is Ok,
    ensures
        exists|i: int, j: int, k: int|
            #![trigger config.interfaces[i].altsettings[j].endpoints[k]]
            {
                &&& 0 <= i < config.interfaces.len()
                &&& 0 <= j < config.interfaces[i].altsettings.len()
                &&& 0 <= k < config.interfaces[i].altsettings[j].endpoints.len()
                &&& config.interfaces[i].altsettings[j].endpoints[k].attributes & 0x03 == 0x03
                &&& config.interfaces[i].altsettings[j].endpoints[k].address & 0x80 == 0x80
                &&& endpoint_search(0, Some(config)) == Ok::<(u8, u8), Error>(
                    (
                        config.interfaces[i].altsettings[j].interface_number,
                        config.interfaces[i].altsettings[j].endpoints[k].address,
                    ),
                )
                &&& forall|u: int, v: int, w: int|
                    #![trigger config.interfaces[u].altsettings[v].endpoints[w]]
                    {
                        &&& 0 <= u < config.interfaces.len()
                        &&& 0 <= v < config.interfaces[u].altsettings.len()
                        &&& 0 <= w < config.interfaces[u].altsettings[v].endpoints.len()
                        &&& u < i || u == i && v < j || u == i && v == j && w < k
                    } ==> {
                        ||| config.interfaces[u].altsettings[v].endpoints[w].attributes & 0x03
                            != 0x03
                        ||| config.interfaces[u].altsettings[v].endpoints[w].address & 0x80 != 0x80
                    }
            },
{
    let place = choose|place: Place| config.first_match(place);
    let (i, j, k) = (place.interface, place.altsetting, place.endpoint);
    let endpoint = config.interfaces[i].altsettings[j].endpoints[k];
    assert forall|u: int, v: int, w: int|
        #![trigger config.interfaces[u].altsettings[v].endpoints[w]]
        {
            &&& 0 <= u < config.interfaces.len()
            &&& 0 <= v < config.interfaces[u].altsettings.len()
            &&& 0 <= w < config.interfaces[u].altsettings[v].endpoints.len()
            &&& u < i || u == i && v < j || u == i && v == j && w < k
        } implies {
        ||| config.interfaces[u].altsettings[v].endpoints[w].attributes & 0x03 != 0x03
        ||| config.interfaces[u].altsettings[v].endpoints[w].address & 0x80 != 0x80
    } by {
        let earlier = Place { interface: u, altsetting: v, endpoint: w };
        assert(earlier.precedes(place));
        assert(!config.matches_at(earlier));
    }
}

/// A configuration that has an interrupt IN endpoint anywhere is never reported
/// as one without.
pub proof fn law_any_interrupt_in_endpoint_is_enough(
    config: ConfigDescriptor,
    i: int,
    j: int,
    k: int,
)
    requires
        0 <= i < config.interfaces.len(),
        0 <= j < config.interfaces[i].altsettings.len(),
        0 <= k < config.interfaces[i].altsettings[j].endpoints.len(),
        config.interfaces[i].altsettings[j].endpoints[k].attributes & 0x03 == 0x03,
        config.interfaces[i].altsettings[j].endpoints[k].address & 0x80 == 0x80,
    ensures
        endpoint_search(0, Some(config)) is Ok,
{
    assert(config.matches_at(Place { interface: i, altsetting: j, endpoint: k }));
    config.law_found_iff_present();
}

/// A configuration in which no endpoint is found is reported as one without an
/// interrupt IN endpoint.
pub proof fn law_missing_endpoint_is_reported(config: ConfigDescriptor)
    ensures
        endpoint_search(0, Some(config)) matches Err(error) ==> error
            == Error::InterruptEndpointNotFound,
{
}

} // verus!
