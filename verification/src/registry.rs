//! The tablets that are known, by device number, and what each event of the
//! display server does to them.

use std::collections::HashMap;
use vstd::prelude::*;
use crate::fixed_point::Fp3232;
use crate::tablet::{
    apply_axis, role_of_name, setup_tablet_device, spec_apply_event, ButtonPressEvent,
    TabletDevice, TabletDeviceView, TabletPointerState,
};
use crate::valuators::{
    contributes, has_pressure_axis, lemma_valuators_of_absent, valuators_of,
    AtomCollection, DeviceClass,
};

verus! {

broadcast use vstd::std_specs::hash::group_hash_axioms;

/// The device type of a pointer that is attached to a master pointer.
pub const SLAVE_POINTER: u16 = 3;

/// What the display server tells of one input device when the devices are
/// listed.
#[derive(Debug)]
pub struct XIDeviceInfo {
    pub deviceid: u16,
    pub type_: u16,
    pub name: String,
    pub classes: Vec<DeviceClass>,
}

/// The news that a device has changed the classes it reports.
#[derive(Debug)]
pub struct DeviceChangedEvent {
    pub deviceid: u16,
    pub classes: Vec<DeviceClass>,
}

/// An event of the display server, as far as the tablets are concerned.
#[derive(Debug)]
pub enum Event {
    /// An event that the protocol layer could not make out.
    Unknown,
    /// An error that the display server reports.
    Error,
    XinputDeviceChanged(DeviceChangedEvent),
    XinputMotion(ButtonPressEvent),
    XinputButtonPress(ButtonPressEvent),
    XinputButtonRelease(ButtonPressEvent),
    /// Any other event.
    Other,
}

/// What became of an event.
#[derive(Clone, Copy, Debug, PartialEq, Eq)]
pub enum Reaction {
    /// The event could not be made out; it is to be reported as unknown.
    UnknownEvent,
    /// The display server reported an error; it is to be reported.
    ProtocolError,
    /// The tablet of this number has a new axis map.
    Configured(u16),
    /// The pen of the tablet of this number is in a new state.
    Sampled(u16, TabletPointerState),
    /// The event belongs to a device that is no tablet; nothing happened.
    Ignored,
    /// The event is of a kind that is not dealt with; it is to be reported.
    Unhandled,
}

/// The tablets that are known, each under its device number.
#[derive(Debug)]
pub struct DeviceRegistry {
    atoms: AtomCollection,
    tablets: HashMap<u16, TabletDevice>,
}

/// The tablet that `classify` makes of a device with this name and these
/// classes.
pub open spec fn is_classified(
    device: TabletDeviceView,
    atoms: AtomCollection,
    name: Seq<char>,
    classes: Seq<DeviceClass>,
) -> bool {
    &&& device.valuators == valuators_of(atoms, classes)
    &&& device.role == role_of_name(name)
    &&& device.state.is_initial()
}

/// A tablet after its axis map has been replaced by that of `classes`.
pub open spec fn reconfigured(
    device: TabletDeviceView,
    atoms: AtomCollection,
    classes: Seq<DeviceClass>,
) -> TabletDeviceView {
    TabletDeviceView { valuators: valuators_of(atoms, classes), ..device }
}

/// A tablet after one sample.
pub open spec fn sampled(device: TabletDeviceView, event: ButtonPressEvent) -> TabletDeviceView {
    TabletDeviceView { state: spec_apply_event(device.state, device.valuators, event), ..device }
}

impl DeviceRegistry {
    /// The tablets that are known, by device number.
    pub closed spec fn devices(&self) -> Map<u16, TabletDeviceView> {
        self.tablets@.map_values(|device: TabletDevice| device@)
    }

    /// The identifiers by which the axis labels are told apart.
    pub closed spec fn spec_atoms(&self) -> AtomCollection {
        self.atoms
    }

    /// A registry that knows no tablet yet.
    pub fn new(atoms: AtomCollection) -> (r: Self)
        ensures
            r.devices() == Map::<u16, TabletDeviceView>::empty(),
            r.spec_atoms() == atoms,
    {
        let r = DeviceRegistry { atoms, tablets: HashMap::new() };
        assert(r.devices() =~= Map::<u16, TabletDeviceView>::empty());
        r
    }

    /// The identifiers by which the axis labels are told apart.
    #[verifier::when_used_as_spec(spec_atoms)]
    pub fn atoms(&self) -> (r: AtomCollection)
        ensures
            r == self.spec_atoms(),
    {
        self.atoms
    }

    /// Makes a tablet of a device if it is one: a device is a tablet exactly
    /// when it reports a pressure axis. The registry itself is not changed.
    pub fn classify(&self, name: &str, classes: &[DeviceClass]) -> (r: Option<TabletDevice>)
        ensures
            r is Some <==> has_pressure_axis(self.spec_atoms(), classes@),
            r matches Some(device) ==> is_classified(
                device@,
                self.spec_atoms(),
                name@,
                classes@,
            ),
    {
        setup_tablet_device(&self.atoms, name, classes)
    }

    /// Takes note of a device that the display server lists. A pointer that
    /// is attached to a master pointer and is a tablet is entered under its
    /// device number, in place of any tablet known under that number before;
    /// any other device changes nothing. Returns whether a tablet was entered.
    pub fn enroll(&mut self, info: &XIDeviceInfo) -> (entered: bool)
        ensures
            final(self).spec_atoms() == old(self).spec_atoms(),
            entered <==> info.type_ == SLAVE_POINTER && has_pressure_axis(
                old(self).spec_atoms(),
                info.classes@,
            ),
            !entered ==> final(self).devices() == old(self).devices(),
            entered ==> {
                &&& final(self).devices().contains_key(info.deviceid)
                &&& is_classified(
                    final(self).devices()[info.deviceid],
                    old(self).spec_atoms(),
                    info.name@,
                    info.classes@,
                )
                &&& final(self).devices().remove(info.deviceid) == old(self).devices().remove(
                    info.deviceid,
                )
            },
    {
        if info.type_ != SLAVE_POINTER {
            return false;
        }
        match setup_tablet_device(&self.atoms, info.name.as_str(), info.classes.as_slice()) {
            Some(tablet) => {
                self.tablets.insert(info.deviceid, tablet);
                assert(self.devices().remove(info.deviceid) =~= old(self).devices().remove(
                    info.deviceid,
                ));
                true
            },
            None => false,
        }
    }

    /// Replaces the axis map of a known tablet by the one that `classes`
    /// describe; its role and the state of its pen stay as they are. A device
    /// number under which no tablet is known changes nothing. Returns whether
    /// the tablet was known.
    pub fn update_axis_map(&mut self, deviceid: u16, classes: &[DeviceClass]) -> (known: bool)
        ensures
            final(self).spec_atoms() == old(self).spec_atoms(),
            known == old(self).devices().contains_key(deviceid),
            !known ==> final(self).devices() == old(self).devices(),
            known ==> final(self).devices() == old(self).devices().insert(
                deviceid,
                reconfigured(old(self).devices()[deviceid], old(self).spec_atoms(), classes@),
            ),
    {
        match self.tablets.remove(&deviceid) {
            Some(tablet) => {
                let mut tablet = tablet;
                tablet.rebuild_valuators(&self.atoms, classes);
                self.tablets.insert(deviceid, tablet);
                assert(self.devices() =~= old(self).devices().insert(
                    deviceid,
                    reconfigured(old(self).devices()[deviceid], old(self).spec_atoms(), classes@),
                ));
                true
            },
            None => {
                assert(self.devices() =~= old(self).devices());
                false
            },
        }
    }

    /// Applies a sample to the pen of the tablet it belongs to and returns
    /// the new state of the pen. The axis map and the role of the tablet stay
    /// as they are, and so does every other tablet. A sample of a device that
    /// is no known tablet changes nothing.
    pub fn apply_sample(&mut self, event: &ButtonPressEvent) -> (r: Option<TabletPointerState>)
        ensures
            final(self).spec_atoms() == old(self).spec_atoms(),
            r is Some <==> old(self).devices().contains_key(event.deviceid),
            r is None ==> final(self).devices() == old(self).devices(),
            r matches Some(state) ==> {
                &&& state == sampled(old(self).devices()[event.deviceid], *event).state
                &&& final(self).devices() == old(self).devices().insert(
                    event.deviceid,
                    sampled(old(self).devices()[event.deviceid], *event),
                )
            },
    {
        match self.tablets.remove(&event.deviceid) {
            Some(tablet) => {
                let mut tablet = tablet;
                let state = tablet.advance(event);
                self.tablets.insert(event.deviceid, tablet);
                assert(self.devices() =~= old(self).devices().insert(
                    event.deviceid,
                    sampled(old(self).devices()[event.deviceid], *event),
                ));
                Some(state)
            },
            None => {
                assert(self.devices() =~= old(self).devices());
                None
            },
        }
    }

    /// The tablet that is known under a device number, if there is one.
    pub fn get(&self, deviceid: u16) -> (r: Option<&TabletDevice>)
        ensures
            r is Some <==> self.devices().contains_key(deviceid),
            r matches Some(device) ==> device@ == self.devices()[deviceid],
    {
        self.tablets.get(&deviceid)
    }

    /// Deals with one event of the display server.
    ///
    /// A change of classes rebuilds the axis map of the tablet it names, and
    /// a motion or a button going down or up is applied to the pen of the
    /// tablet it names; either is passed by if no tablet is known under that
    /// number. Events that cannot be made out, errors, and events of any other
    /// kind change nothing and are handed back to be reported.
    pub fn handle_event(&mut self, event: &Event) -> (r: Reaction)
        ensures
            final(self).spec_atoms() == old(self).spec_atoms(),
            r == reaction_to(old(self).devices(), *event),
            final(self).devices() == devices_after(
                old(self).devices(),
                old(self).spec_atoms(),
                *event,
            ),
    {
        match event {
            Event::Unknown => Reaction::UnknownEvent,
            Event::Error => Reaction::ProtocolError,
            Event::XinputDeviceChanged(change) => {
                if self.update_axis_map(change.deviceid, change.classes.as_slice()) {
                    Reaction::Configured(change.deviceid)
                } else {
                    Reaction::Ignored
                }
            },
            Event::XinputMotion(sample) | Event::XinputButtonPress(sample)
            | Event::XinputButtonRelease(sample) => {
                match self.apply_sample(sample) {
                    Some(state) => Reaction::Sampled(sample.deviceid, state),
                    None => Reaction::Ignored,
                }
            },
            Event::Other => Reaction::Unhandled,
        }
    }
}

/// The sample that an event carries, if it is a motion or a button going
/// down or up.
pub open spec fn sample_of(event: Event) -> Option<ButtonPressEvent> {
    match event {
        Event::XinputMotion(sample) => Some(sample),
        Event::XinputButtonPress(sample) => Some(sample),
        Event::XinputButtonRelease(sample) => Some(sample),
        _ => None,
    }
}

/// What becomes of an event, given the tablets that are known.
pub open spec fn reaction_to(devices: Map<u16, TabletDeviceView>, event: Event) -> Reaction {
    match event {
        Event::Unknown => Reaction::UnknownEvent,
        Event::Error => Reaction::ProtocolError,
        Event::XinputDeviceChanged(change) => if devices.contains_key(change.deviceid) {
            Reaction::Configured(change.deviceid)
        } else {
            Reaction::Ignored
        },
        Event::Other => Reaction::Unhandled,
        _ => {
            let sample = sample_of(event).unwrap();
            if devices.contains_key(sample.deviceid) {
                Reaction::Sampled(sample.deviceid, sampled(devices[sample.deviceid], sample).state)
            } else {
                Reaction::Ignored
            }
        },
    }
}

/// The tablets that are known after an event.
pub open spec fn devices_after(
    devices: Map<u16, TabletDeviceView>,
    atoms: AtomCollection,
    event: Event,
) -> Map<u16, TabletDeviceView> {
    match event {
        Event::Unknown => devices,
        Event::Error => devices,
        Event::XinputDeviceChanged(change) => if devices.contains_key(change.deviceid) {
            devices.insert(
                change.deviceid,
                reconfigured(devices[change.deviceid], atoms, change.classes@),
            )
        } else {
            devices
        },
        Event::Other => devices,
        _ => {
            let sample = sample_of(event).unwrap();
            if devices.contains_key(sample.deviceid) {
                devices.insert(sample.deviceid, sampled(devices[sample.deviceid], sample))
            } else {
                devices
            }
        },
    }
}

/// Replacing an axis map leaves nothing of the old one behind: once the map
/// has been rebuilt from classes of which none contributes an entry for a
/// valuator number, that number is unknown to the tablet, whatever it stood for
/// before, and a raw value that arrives for it changes nothing.
pub proof fn lemma_reconfigured_forgets(
    device: TabletDeviceView,
    atoms: AtomCollection,
    classes: Seq<DeviceClass>,
    number: u16,
    raw: Fp3232,
)
    requires
        forall|i: int| !#[trigger] contributes(atoms, classes, i, number),
    ensures
        !reconfigured(device, atoms, classes).valuators.contains_key(number),
        apply_axis(
            reconfigured(device, atoms, classes).state,
            reconfigured(device, atoms, classes).valuators,
            number,
            raw,
        ) == device.state,
        reconfigured(device, atoms, classes).role == device.role,
{
    lemma_valuators_of_absent(atoms, classes, number);
}

} // verus!
