//! The axes of a device: which of its valuator classes are recognised, and the
//! map from valuator number to recognised axis.

use std::collections::HashMap;
use vstd::prelude::*;
use crate::fixed_point::{fp3232_to_i64, fp3232_value, Fp3232};
use crate::range::ValuatorRange;

verus! {

broadcast use vstd::std_specs::hash::group_hash_axioms;

/// The identifiers under which the display server knows the axis labels.
///
/// The two relative axes are resolved along with the others but stand for no
/// tablet axis.
#[allow(non_snake_case)]
#[derive(Clone, Copy, Debug, PartialEq, Eq, Structural)]
pub struct AtomCollection {
    pub ABS_X: u32,
    pub ABS_Y: u32,
    pub ABS_PRESSURE: u32,
    pub ABS_TILT_X: u32,
    pub ABS_TILT_Y: u32,
    pub ABS_WHEEL: u32,
    pub REL_X: u32,
    pub REL_Y: u32,
}

/// What a device reports of one valuator: its number, the identifier of its
/// label, and the bounds of its raw values.
#[derive(Clone, Copy, Debug, PartialEq, Eq, Structural)]
pub struct DeviceClassDataValuator {
    pub number: u16,
    pub label: u32,
    pub min: Fp3232,
    pub max: Fp3232,
}

/// The payload of a device class. Only valuators matter here; keys, buttons,
/// scroll wheels and touch surfaces are all `Other`.
#[derive(Clone, Copy, Debug, PartialEq, Eq, Structural)]
pub enum DeviceClassData {
    Valuator(DeviceClassDataValuator),
    Other,
}

/// One capability that a device reports.
#[derive(Clone, Copy, Debug, PartialEq, Eq, Structural)]
pub struct DeviceClass {
    pub data: DeviceClassData,
}

/// What an axis measures.
#[derive(Clone, Copy, Debug, PartialEq, Eq, Structural)]
pub enum AxisKind {
    PositionX,
    PositionY,
    Pressure,
    TiltX,
    TiltY,
    Wheel,
}

/// A recognised axis together with the range of its raw values.
#[derive(Clone, Copy, Debug, PartialEq, Eq, Structural)]
pub enum TabletValuator {
    AbsX(ValuatorRange),
    AbsY(ValuatorRange),
    AbsPressure(ValuatorRange),
    AbsTiltX(ValuatorRange),
    AbsTiltY(ValuatorRange),
    AbsWheel(ValuatorRange),
}

impl TabletValuator {
    /// What this axis measures.
    pub open spec fn spec_kind(&self) -> AxisKind {
        match *self {
            TabletValuator::AbsX(_) => AxisKind::PositionX,
            TabletValuator::AbsY(_) => AxisKind::PositionY,
            TabletValuator::AbsPressure(_) => AxisKind::Pressure,
            TabletValuator::AbsTiltX(_) => AxisKind::TiltX,
            TabletValuator::AbsTiltY(_) => AxisKind::TiltY,
            TabletValuator::AbsWheel(_) => AxisKind::Wheel,
        }
    }

    /// What this axis measures.
    #[verifier::when_used_as_spec(spec_kind)]
    pub fn kind(&self) -> (r: AxisKind)
        ensures
            r == self.spec_kind(),
    {
        match *self {
            TabletValuator::AbsX(_) => AxisKind::PositionX,
            TabletValuator::AbsY(_) => AxisKind::PositionY,
            TabletValuator::AbsPressure(_) => AxisKind::Pressure,
            TabletValuator::AbsTiltX(_) => AxisKind::TiltX,
            TabletValuator::AbsTiltY(_) => AxisKind::TiltY,
            TabletValuator::AbsWheel(_) => AxisKind::Wheel,
        }
    }

    /// The range of raw values of this axis.
    pub open spec fn spec_range(&self) -> ValuatorRange {
        match *self {
            TabletValuator::AbsX(range) => range,
            TabletValuator::AbsY(range) => range,
            TabletValuator::AbsPressure(range) => range,
            TabletValuator::AbsTiltX(range) => range,
            TabletValuator::AbsTiltY(range) => range,
            TabletValuator::AbsWheel(range) => range,
        }
    }

    /// The range of raw values of this axis.
    #[verifier::when_used_as_spec(spec_range)]
    pub fn range(&self) -> (r: ValuatorRange)
        ensures
            r == self.spec_range(),
    {
        match *self {
            TabletValuator::AbsX(range) => range,
            TabletValuator::AbsY(range) => range,
            TabletValuator::AbsPressure(range) => range,
            TabletValuator::AbsTiltX(range) => range,
            TabletValuator::AbsTiltY(range) => range,
            TabletValuator::AbsWheel(range) => range,
        }
    }
}

/// The range that a valuator class reports, in 64-bit form.
pub open spec fn spec_valuator_range(valuator_class: DeviceClassDataValuator) -> ValuatorRange {
    ValuatorRange {
        min: fp3232_value(valuator_class.min) as i64,
        max: fp3232_value(valuator_class.max) as i64,
    }
}

/// The axis that a valuator class stands for, if any: its label must be one of
/// the six absolute axes, the first that matches in the order X, Y, pressure,
/// tilt X, tilt Y, wheel, and its range must have a span. A class with a
/// range of equal bounds is turned away here, so that no such range is
/// ever rescaled.
pub open spec fn recognize(atoms: AtomCollection, valuator_class: DeviceClassDataValuator) -> Option<
    TabletValuator,
> {
    let range = spec_valuator_range(valuator_class);
    if !range.has_span() {
        None
    } else if valuator_class.label == atoms.ABS_X {
        Some(TabletValuator::AbsX(range))
    } else if valuator_class.label == atoms.ABS_Y {
        Some(TabletValuator::AbsY(range))
    } else if valuator_class.label == atoms.ABS_PRESSURE {
        Some(TabletValuator::AbsPressure(range))
    } else if valuator_class.label == atoms.ABS_TILT_X {
        Some(TabletValuator::AbsTiltX(range))
    } else if valuator_class.label == atoms.ABS_TILT_Y {
        Some(TabletValuator::AbsTiltY(range))
    } else if valuator_class.label == atoms.ABS_WHEEL {
        Some(TabletValuator::AbsWheel(range))
    } else {
        None
    }
}

/// One entry of an axis map: a valuator number and the axis found under it.
pub struct AxisEntry {
    pub number: u16,
    pub valuator: TabletValuator,
}

/// The map entry that a device class contributes, if it contributes one.
pub open spec fn class_entry(atoms: AtomCollection, class: DeviceClass) -> Option<AxisEntry> {
    match class.data {
        DeviceClassData::Valuator(valuator_class) => match recognize(atoms, valuator_class) {
            Some(valuator) => Some(AxisEntry { number: valuator_class.number, valuator }),
            None => None,
        },
        DeviceClassData::Other => None,
    }
}

/// Whether `classes[i]` contributes an entry for valuator `number`.
pub open spec fn contributes(
    atoms: AtomCollection,
    classes: Seq<DeviceClass>,
    i: int,
    number: u16,
) -> bool {
    0 <= i < classes.len() && class_entry(atoms, classes[i]) is Some && class_entry(
        atoms,
        classes[i],
    ).unwrap().number == number
}

/// The axis map of a list of device classes: every class that contributes an
/// entry is entered under its valuator number, a later class replacing an
/// earlier one of the same number.
pub open spec fn valuators_of(atoms: AtomCollection, classes: Seq<DeviceClass>) -> Map<
    u16,
    TabletValuator,
>
    decreases classes.len(),
{
    if classes.len() == 0 {
        Map::empty()
    } else {
        let earlier = valuators_of(atoms, classes.drop_last());
        match class_entry(atoms, classes.last()) {
            Some(entry) => earlier.insert(entry.number, entry.valuator),
            None => earlier,
        }
    }
}

/// Every range in the map has a span.
pub open spec fn all_have_span(valuators: Map<u16, TabletValuator>) -> bool {
    forall|number: u16| #[trigger]
        valuators.contains_key(number) ==> valuators[number].spec_range().has_span()
}

/// Whether some class is a valuator labelled as the pressure axis.
pub open spec fn has_pressure_axis(atoms: AtomCollection, classes: Seq<DeviceClass>) -> bool {
    exists|i: int|
        0 <= i < classes.len() && is_pressure_class(atoms, #[trigger] classes[i])
}

/// Whether `class` is a valuator labelled as the pressure axis.
pub open spec fn is_pressure_class(atoms: AtomCollection, class: DeviceClass) -> bool {
    class.data matches DeviceClassData::Valuator(valuator_class) && valuator_class.label
        == atoms.ABS_PRESSURE
}

/// Whether `classes[i]` is the last class that contributes an entry for
/// valuator `number`.
pub open spec fn contributes_last(
    atoms: AtomCollection,
    classes: Seq<DeviceClass>,
    i: int,
    number: u16,
) -> bool {
    contributes(atoms, classes, i, number) && forall|j: int|
        i < j ==> !#[trigger] contributes(atoms, classes, j, number)
}

/// Dropping the last class leaves the contributions of the others as they
/// were.
proof fn lemma_contributes_earlier(
    atoms: AtomCollection,
    classes: Seq<DeviceClass>,
    i: int,
    number: u16,
)
    requires
        classes.len() > 0,
    ensures
        contributes(atoms, classes.drop_last(), i, number) <==> (i < classes.len() - 1
            && contributes(atoms, classes, i, number)),
{
}

/// A valuator number is in the axis map exactly when some class contributes
/// an entry for it.
pub proof fn lemma_valuators_of_contains(
    atoms: AtomCollection,
    classes: Seq<DeviceClass>,
    number: u16,
)
    ensures
        valuators_of(atoms, classes).contains_key(number) <==> exists|i: int| #[trigger]
            contributes(atoms, classes, i, number),
    decreases classes.len(),
{
    if classes.len() > 0 {
        let earlier = classes.drop_last();
        let last = classes.len() - 1;
        lemma_valuators_of_contains(atoms, earlier, number);
        if contributes(atoms, classes, last, number) {
        } else {
            if exists|i: int| #[trigger] contributes(atoms, earlier, i, number) {
                let i = choose|i: int| #[trigger] contributes(atoms, earlier, i, number);
                lemma_contributes_earlier(atoms, classes, i, number);
            }
            if exists|i: int| #[trigger] contributes(atoms, classes, i, number) {
                let i = choose|i: int| #[trigger] contributes(atoms, classes, i, number);
                lemma_contributes_earlier(atoms, classes, i, number);
            }
        }
    }
}

/// Under a valuator number the axis map holds the entry of the last class
/// that contributes one for that number.
pub proof fn lemma_valuators_of_last_wins(
    atoms: AtomCollection,
    classes: Seq<DeviceClass>,
    i: int,
    number: u16,
)
    requires
        contributes_last(atoms, classes, i, number),
    ensures
        valuators_of(atoms, classes).contains_key(number),
        valuators_of(atoms, classes)[number] == class_entry(atoms, classes[i]).unwrap().valuator,
    decreases classes.len(),
{
    let earlier = classes.drop_last();
    let last = classes.len() - 1;
    if i != last {
        assert(!contributes(atoms, classes, last, number));
        lemma_contributes_earlier(atoms, classes, i, number);
        assert forall|j: int| i < j implies !#[trigger] contributes(
            atoms,
            earlier,
            j,
            number,
        ) by {
            lemma_contributes_earlier(atoms, classes, j, number);
        }
        lemma_valuators_of_last_wins(atoms, earlier, i, number);
    }
}

/// A valuator number for which no class contributes an entry is absent from
/// the axis map, whatever an earlier map of the device held.
pub proof fn lemma_valuators_of_absent(atoms: AtomCollection, classes: Seq<DeviceClass>, number: u16)
    requires
        forall|i: int| !#[trigger] contributes(atoms, classes, i, number),
    ensures
        !valuators_of(atoms, classes).contains_key(number),
{
    lemma_valuators_of_contains(atoms, classes, number);
}

/// No range of equal bounds ever enters an axis map.
pub proof fn lemma_valuators_of_have_span(atoms: AtomCollection, classes: Seq<DeviceClass>)
    ensures
        all_have_span(valuators_of(atoms, classes)),
    decreases classes.len(),
{
    if classes.len() > 0 {
        lemma_valuators_of_have_span(atoms, classes.drop_last());
    }
}

/// The range that a valuator class reports, in 64-bit form.
pub fn make_valuator_range(valuator_class: &DeviceClassDataValuator) -> (r: ValuatorRange)
    ensures
        r == spec_valuator_range(*valuator_class),
{
    ValuatorRange { min: fp3232_to_i64(&valuator_class.min), max: fp3232_to_i64(&valuator_class.max) }
}

/// The axis that a valuator class stands for, if any.
pub fn recognize_valuator(atoms: &AtomCollection, valuator_class: &DeviceClassDataValuator) -> (r:
    Option<TabletValuator>)
    ensures
        r == recognize(*atoms, *valuator_class),
{
    let range = make_valuator_range(valuator_class);
    if range.min == range.max {
        None
    } else if valuator_class.label == atoms.ABS_X {
        Some(TabletValuator::AbsX(range))
    } else if valuator_class.label == atoms.ABS_Y {
        Some(TabletValuator::AbsY(range))
    } else if valuator_class.label == atoms.ABS_PRESSURE {
        Some(TabletValuator::AbsPressure(range))
    } else if valuator_class.label == atoms.ABS_TILT_X {
        Some(TabletValuator::AbsTiltX(range))
    } else if valuator_class.label == atoms.ABS_TILT_Y {
        Some(TabletValuator::AbsTiltY(range))
    } else if valuator_class.label == atoms.ABS_WHEEL {
        Some(TabletValuator::AbsWheel(range))
    } else {
        None
    }
}

/// Builds the axis map of a device from the classes it reports. Classes that
/// are no valuators, valuators with a label that stands for no tablet axis,
/// and valuators whose range has no span are left out without complaint.
pub fn build_valuators_map(atoms: &AtomCollection, classes: &[DeviceClass]) -> (result: HashMap<
    u16,
    TabletValuator,
>)
    ensures
        result@ == valuators_of(*atoms, classes@),
        all_have_span(result@),
{
    let mut result: HashMap<u16, TabletValuator> = HashMap::new();
    let mut i: usize = 0;
    assert(classes@.take(0) =~= Seq::empty());
    while i < classes.len()
        invariant
            i <= classes.len(),
            result@ == valuators_of(*atoms, classes@.take(i as int)),
        decreases classes.len() - i,
    {
        assert(classes@.take(i + 1).drop_last() =~= classes@.take(i as int));
        match classes[i].data {
            DeviceClassData::Valuator(valuator_class) => {
                match recognize_valuator(atoms, &valuator_class) {
                    Some(valuator) => {
                        result.insert(valuator_class.number, valuator);
                    },
                    None => {},
                }
            },
            DeviceClassData::Other => {},
        }
        i += 1;
    }
    proof {
        assert(classes@.take(classes.len() as int) =~= classes@);
        lemma_valuators_of_have_span(*atoms, classes@);
    }
    result
}

/// Whether a device reports a pressure axis, which is what makes it a tablet.
/// Only the label counts: the range of the axis is not looked at.
pub fn is_tablet_device(atoms: &AtomCollection, classes: &[DeviceClass]) -> (r: bool)
    ensures
        r == has_pressure_axis(*atoms, classes@),
{
    let mut i: usize = 0;
    while i < classes.len()
        invariant
            i <= classes.len(),
            forall|j: int| 0 <= j < i ==> !is_pressure_class(*atoms, #[trigger] classes@[j]),
        decreases classes.len() - i,
    {
        match classes[i].data {
            DeviceClassData::Valuator(valuator_class) => {
                if valuator_class.label == atoms.ABS_PRESSURE {
                    assert(is_pressure_class(*atoms, classes@[i as int]));
                    return true;
                }
            },
            DeviceClassData::Other => {},
        }
        i += 1;
    }
    false
}

} // verus!
