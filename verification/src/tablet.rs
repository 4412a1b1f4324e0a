//! Tablet devices and their pointer state: how a device is told from an
//! ordinary pointer, and how one sample changes what is known of the pen.

use std::collections::HashMap;
use vstd::prelude::*;
use crate::fixed_point::{fp3232_to_i64, fp3232_value, Fp3232};
use crate::text::chars_of;
use crate::range::{between, lemma_remap_within, remap_exact, ValuatorRange};
use crate::valuators::{
    all_have_span, build_valuators_map, has_pressure_axis, is_tablet_device, valuators_of,
    AtomCollection, AxisKind, DeviceClass, TabletValuator,
};

verus! {

broadcast use vstd::std_specs::hash::group_hash_axioms;

/// The lower bound of the pressure that a sample is rescaled to.
pub const PRESSURE_MIN: i64 = 0;

/// The upper bound of the pressure that a sample is rescaled to.
pub const PRESSURE_MAX: i64 = 1024;

/// The lower bound of the tilt, in degrees, that a sample is rescaled to.
pub const TILT_MIN: i64 = -90;

/// The upper bound of the tilt, in degrees, that a sample is rescaled to.
pub const TILT_MAX: i64 = 90;

/// Which end of the pen a tablet device stands for.
#[derive(Clone, Copy, Debug, PartialEq, Eq, Structural)]
pub enum TabletRole {
    Default,
    Eraser,
}

impl Default for TabletRole {
    fn default() -> (r: Self)
        ensures
            r == TabletRole::Default,
    {
        TabletRole::Default
    }
}

/// What is known of a pen after the samples seen so far.
#[derive(Clone, Copy, Debug, PartialEq, Eq)]
pub struct TabletPointerState {
    pub x: i32,
    pub y: i32,
    pub pressure: i32,
    pub tilt_x: i32,
    pub tilt_y: i32,
    pub button: [bool; 5],
}

impl TabletPointerState {
    /// The state of a pen of which no sample has been seen: every number zero
    /// and no button held.
    pub open spec fn is_initial(&self) -> bool {
        &&& self.x == 0
        &&& self.y == 0
        &&& self.pressure == 0
        &&& self.tilt_x == 0
        &&& self.tilt_y == 0
        &&& forall|i: int| 0 <= i < 5 ==> !self.button[i]
    }
}

impl Default for TabletPointerState {
    fn default() -> (r: Self)
        ensures
            r.is_initial(),
    {
        TabletPointerState {
            x: 0,
            y: 0,
            pressure: 0,
            tilt_x: 0,
            tilt_y: 0,
            button: [false, false, false, false, false],
        }
    }
}

/// One sample of a pointer device: a motion, or a button going down or up.
///
/// Each set bit of `valuator_mask` names a valuator, bit `b` of word `w`
/// standing for valuator `32 * w + b`; `axisvalues` holds one raw value for
/// each set bit, in ascending order of the valuators.
#[derive(Clone, Debug, PartialEq, Eq)]
pub struct ButtonPressEvent {
    pub deviceid: u16,
    pub root_x: i32,
    pub root_y: i32,
    pub valuator_mask: Vec<u32>,
    pub axisvalues: Vec<Fp3232>,
}

/// Whether the bit at `position` of a valuator mask is set.
pub open spec fn mask_bit(mask: Seq<u32>, position: int) -> bool
    recommends
        0 <= position < 32 * mask.len(),
{
    mask[position / 32] & (1u32 << ((position % 32) as u32)) != 0
}

/// The positions below `upto` at which a valuator mask has a set bit, in
/// ascending order.
pub open spec fn set_axes(mask: Seq<u32>, upto: int) -> Seq<int>
    decreases upto,
{
    if upto <= 0 {
        Seq::empty()
    } else if mask_bit(mask, upto - 1) {
        set_axes(mask, upto - 1).push(upto - 1)
    } else {
        set_axes(mask, upto - 1)
    }
}

/// The positions that `set_axes` lists are the set bits below `upto`, each
/// once and in ascending order.
pub proof fn lemma_set_axes_lists_set_bits(mask: Seq<u32>, upto: int)
    ensures
        forall|k: int|
            0 <= k < set_axes(mask, upto).len() ==> 0 <= #[trigger] set_axes(mask, upto)[k] < upto
                && mask_bit(mask, set_axes(mask, upto)[k]),
        forall|j: int, k: int|
            0 <= j < k < set_axes(mask, upto).len() ==> set_axes(mask, upto)[j] < set_axes(
                mask,
                upto,
            )[k],
        forall|position: int|
            0 <= position < upto && mask_bit(mask, position) ==> set_axes(mask, upto).contains(
                position,
            ),
    decreases upto,
{
    if upto > 0 {
        lemma_set_axes_lists_set_bits(mask, upto - 1);
        let earlier = set_axes(mask, upto - 1);
        let all = set_axes(mask, upto);
        assert forall|position: int|
            0 <= position < upto && mask_bit(mask, position) implies all.contains(position) by {
            if position < upto - 1 {
                let k = choose|k: int| 0 <= k < earlier.len() && earlier[k] == position;
                assert(all[k] == position);
            } else {
                assert(all[all.len() - 1] == position);
            }
        }
    }
}

/// The valuator number that a mask position stands for. Valuator numbers have
/// 16 bits; a position beyond them is cut down to its low 16 bits.
pub open spec fn valuator_number(position: int) -> u16 {
    (position % 0x1_0000) as u16
}

/// The 32-bit two's-complement reading of the low 32 bits of `x`.
pub open spec fn wrap_i32(x: int) -> int {
    (x + 0x8000_0000) % 0x1_0000_0000 - 0x8000_0000
}

/// The raw value `raw` of an axis with range `range`, rescaled to
/// `[new_min, new_max]` and cut down to 32 bits.
pub open spec fn canonical_value(range: ValuatorRange, raw: Fp3232, new_min: i64, new_max: i64) -> i32 {
    wrap_i32(range.spec_convert_range(fp3232_value(raw) as i64, new_min, new_max)) as i32
}

/// The state after one raw value has arrived for valuator `number`. Pressure
/// and the two tilts are taken over, each rescaled to its own bounds; a
/// valuator that the axis map does not know, or that stands for another
/// axis, changes nothing.
pub open spec fn apply_axis(
    state: TabletPointerState,
    valuators: Map<u16, TabletValuator>,
    number: u16,
    raw: Fp3232,
) -> TabletPointerState {
    if valuators.contains_key(number) {
        match valuators[number] {
            TabletValuator::AbsPressure(range) => TabletPointerState {
                pressure: canonical_value(range, raw, PRESSURE_MIN, PRESSURE_MAX),
                ..state
            },
            TabletValuator::AbsTiltX(range) => TabletPointerState {
                tilt_x: canonical_value(range, raw, TILT_MIN, TILT_MAX),
                ..state
            },
            TabletValuator::AbsTiltY(range) => TabletPointerState {
                tilt_y: canonical_value(range, raw, TILT_MIN, TILT_MAX),
                ..state
            },
            _ => state,
        }
    } else {
        state
    }
}

/// The state after the first `count` raw values have arrived, the `k`-th of
/// them for the valuator at mask position `positions[k]`.
pub open spec fn apply_axes(
    state: TabletPointerState,
    valuators: Map<u16, TabletValuator>,
    positions: Seq<int>,
    values: Seq<Fp3232>,
    count: int,
) -> TabletPointerState
    decreases count,
{
    if count <= 0 {
        state
    } else {
        apply_axis(
            apply_axes(state, valuators, positions, values, count - 1),
            valuators,
            valuator_number(positions[count - 1]),
            values[count - 1],
        )
    }
}

/// How many raw values of a sample are applied: one for each set bit of the
/// mask, as far as the values reach.
pub open spec fn applied_count(mask: Seq<u32>, values: Seq<Fp3232>) -> int {
    let selected = set_axes(mask, 32 * (mask.len() as int)).len();
    if selected <= values.len() {
        selected as int
    } else {
        values.len() as int
    }
}

/// The state of a pen after one sample: the position is taken from the
/// sample as it is, then the raw values are applied in order.
pub open spec fn spec_apply_event(
    state: TabletPointerState,
    valuators: Map<u16, TabletValuator>,
    event: ButtonPressEvent,
) -> TabletPointerState {
    apply_axes(
        TabletPointerState { x: event.root_x, y: event.root_y, ..state },
        valuators,
        set_axes(event.valuator_mask@, 32 * (event.valuator_mask@.len() as int)),
        event.axisvalues@,
        applied_count(event.valuator_mask@, event.axisvalues@),
    )
}

/// Whether one of the first `count` raw values of a sample arrives for a
/// valuator that the axis map holds as an axis of kind `kind`.
pub open spec fn addresses(
    valuators: Map<u16, TabletValuator>,
    positions: Seq<int>,
    count: int,
    kind: AxisKind,
) -> bool {
    exists|k: int| #[trigger] addresses_at(valuators, positions, k, kind) && 0 <= k < count
}

/// Whether the `k`-th raw value of a sample arrives for a valuator that the
/// axis map holds as an axis of kind `kind`.
pub open spec fn addresses_at(
    valuators: Map<u16, TabletValuator>,
    positions: Seq<int>,
    k: int,
    kind: AxisKind,
) -> bool {
    valuators.contains_key(valuator_number(positions[k])) && valuators[valuator_number(
        positions[k],
    )].spec_kind() == kind
}

/// Whether a sample brings a raw value for an axis of kind `kind`.
pub open spec fn event_addresses(
    valuators: Map<u16, TabletValuator>,
    event: ButtonPressEvent,
    kind: AxisKind,
) -> bool {
    addresses(
        valuators,
        set_axes(event.valuator_mask@, 32 * (event.valuator_mask@.len() as int)),
        applied_count(event.valuator_mask@, event.axisvalues@),
        kind,
    )
}

/// Raw values leave alone what they do not address: the position and the
/// buttons always, and the pressure and each tilt unless a value arrives for
/// an axis of that kind.
pub proof fn lemma_apply_axes_frame(
    state: TabletPointerState,
    valuators: Map<u16, TabletValuator>,
    positions: Seq<int>,
    values: Seq<Fp3232>,
    count: int,
)
    ensures
        ({
            let after = apply_axes(state, valuators, positions, values, count);
            &&& after.x == state.x
            &&& after.y == state.y
            &&& after.button == state.button
            &&& !addresses(valuators, positions, count, AxisKind::Pressure) ==> after.pressure
                == state.pressure
            &&& !addresses(valuators, positions, count, AxisKind::TiltX) ==> after.tilt_x
                == state.tilt_x
            &&& !addresses(valuators, positions, count, AxisKind::TiltY) ==> after.tilt_y
                == state.tilt_y
        }),
    decreases count,
{
    if count > 0 {
        lemma_apply_axes_frame(state, valuators, positions, values, count - 1);
        assert forall|kind: AxisKind| !addresses(valuators, positions, count, kind) implies (
        !addresses(valuators, positions, count - 1, kind) && !addresses_at(
            valuators,
            positions,
            count - 1,
            kind,
        )) by {
            if addresses(valuators, positions, count - 1, kind) {
                let k = choose|k: int| #[trigger]
                    addresses_at(valuators, positions, k, kind) && 0 <= k < count - 1;
                assert(addresses_at(valuators, positions, k, kind) && 0 <= k < count);
            }
            if addresses_at(valuators, positions, count - 1, kind) {
                assert(addresses_at(valuators, positions, count - 1, kind) && 0 <= count - 1
                    < count);
            }
        }
    }
}

/// A sample leaves alone what it does not address: the position comes from
/// the sample, the buttons stay, and the pressure and each tilt stay unless
/// the sample brings a raw value for an axis of that kind.
pub proof fn lemma_apply_event_frame(
    state: TabletPointerState,
    valuators: Map<u16, TabletValuator>,
    event: ButtonPressEvent,
)
    ensures
        ({
            let after = spec_apply_event(state, valuators, event);
            &&& after.x == event.root_x
            &&& after.y == event.root_y
            &&& after.button == state.button
            &&& !event_addresses(valuators, event, AxisKind::Pressure) ==> after.pressure
                == state.pressure
            &&& !event_addresses(valuators, event, AxisKind::TiltX) ==> after.tilt_x
                == state.tilt_x
            &&& !event_addresses(valuators, event, AxisKind::TiltY) ==> after.tilt_y
                == state.tilt_y
        }),
{
    lemma_apply_axes_frame(
        TabletPointerState { x: event.root_x, y: event.root_y, ..state },
        valuators,
        set_axes(event.valuator_mask@, 32 * (event.valuator_mask@.len() as int)),
        event.axisvalues@,
        applied_count(event.valuator_mask@, event.axisvalues@),
    );
}

/// The state after a sample depends on nothing but the state before, the axis
/// map and what the sample holds: two samples that hold the same position,
/// mask and raw values lead from the same state to the same state.
pub proof fn lemma_apply_event_deterministic(
    state: TabletPointerState,
    valuators: Map<u16, TabletValuator>,
    first: ButtonPressEvent,
    second: ButtonPressEvent,
)
    requires
        first.root_x == second.root_x,
        first.root_y == second.root_y,
        first.valuator_mask@ == second.valuator_mask@,
        first.axisvalues@ == second.axisvalues@,
    ensures
        spec_apply_event(state, valuators, first) == spec_apply_event(state, valuators, second),
{
}

/// A raw value inside the range of its axis is rescaled without loss: the
/// result is the exact rescaled value, and it lies within the new bounds.
pub proof fn lemma_canonical_value_within(
    range: ValuatorRange,
    raw: Fp3232,
    new_min: i64,
    new_max: i64,
)
    requires
        range.has_span(),
        between(fp3232_value(raw), range.min as int, range.max as int),
        i32::MIN <= new_min <= i32::MAX,
        i32::MIN <= new_max <= i32::MAX,
    ensures
        canonical_value(range, raw, new_min, new_max) == remap_exact(
            fp3232_value(raw),
            range.min as int,
            range.max as int,
            new_min as int,
            new_max as int,
        ),
        between(
            canonical_value(range, raw, new_min, new_max) as int,
            new_min as int,
            new_max as int,
        ),
{
    lemma_remap_within(
        fp3232_value(raw),
        range.min as int,
        range.max as int,
        new_min as int,
        new_max as int,
    );
}

/// A tablet: its axis map, the end of the pen it stands for, and the state of
/// the pen.
#[derive(Debug)]
pub struct TabletDevice {
    valuators: HashMap<u16, TabletValuator>,
    role: TabletRole,
    state: TabletPointerState,
}

/// A tablet as the contracts see it.
pub struct TabletDeviceView {
    pub valuators: Map<u16, TabletValuator>,
    pub role: TabletRole,
    pub state: TabletPointerState,
}

impl View for TabletDevice {
    type V = TabletDeviceView;

    closed spec fn view(&self) -> TabletDeviceView {
        TabletDeviceView { valuators: self.valuators@, role: self.role, state: self.state }
    }
}

impl Default for TabletDevice {
    fn default() -> (r: Self)
        ensures
            r@.valuators == Map::<u16, TabletValuator>::empty(),
            r@.role == TabletRole::Default,
            r@.state.is_initial(),
    {
        TabletDevice {
            valuators: HashMap::new(),
            role: TabletRole::Default,
            state: TabletPointerState::default(),
        }
    }
}

impl TabletDevice {
    /// Every range in the axis map has a span, so that each can be rescaled.
    #[verifier::type_invariant]
    spec fn ranges_have_span(&self) -> bool {
        all_have_span(self.valuators@)
    }

    /// The end of the pen that this device stands for.
    pub fn role(&self) -> (r: TabletRole)
        ensures
            r == self@.role,
    {
        self.role
    }

    /// The state of the pen after the samples applied so far.
    pub fn state(&self) -> (r: TabletPointerState)
        ensures
            r == self@.state,
    {
        self.state
    }

    /// The axis that the device reports under a valuator number, if it is one
    /// that the axis map holds.
    pub fn valuator(&self, number: u16) -> (r: Option<TabletValuator>)
        ensures
            r == if self@.valuators.contains_key(number) {
                Some(self@.valuators[number])
            } else {
                None
            },
    {
        match self.valuators.get(&number) {
            Some(valuator) => Some(*valuator),
            None => None,
        }
    }

    /// Replaces the axis map by the one that `classes` describe. Nothing of
    /// the old map is kept; the role and the state stay as they are.
    pub fn rebuild_valuators(&mut self, atoms: &AtomCollection, classes: &[DeviceClass])
        ensures
            final(self)@.valuators == valuators_of(*atoms, classes@),
            final(self)@.role == old(self)@.role,
            final(self)@.state == old(self)@.state,
    {
        self.valuators = build_valuators_map(atoms, classes);
    }

    /// Applies one sample to the state of the pen and returns the new state.
    /// The axis map and the role stay as they are.
    pub fn advance(&mut self, event: &ButtonPressEvent) -> (r: TabletPointerState)
        ensures
            r == spec_apply_event(old(self)@.state, old(self)@.valuators, *event),
            final(self)@.state == r,
            final(self)@.valuators == old(self)@.valuators,
            final(self)@.role == old(self)@.role,
    {
        proof {
            use_type_invariant(&*self);
        }
        let next = self.state.apply_event(self, event);
        self.state = next;
        next
    }
}

/// The lower-case form of an ASCII capital letter; any other character as it
/// is.
pub open spec fn ascii_lowercase(c: char) -> char {
    if 'A' <= c <= 'Z' {
        ((c as u32) + 32) as char
    } else {
        c
    }
}

/// Whether the word "eraser" stands in `name` from `start` on, in any mix of
/// upper and lower case.
pub open spec fn eraser_at(name: Seq<char>, start: int) -> bool {
    &&& 0 <= start
    &&& start + 6 <= name.len()
    &&& ascii_lowercase(name[start]) == 'e'
    &&& ascii_lowercase(name[start + 1]) == 'r'
    &&& ascii_lowercase(name[start + 2]) == 'a'
    &&& ascii_lowercase(name[start + 3]) == 's'
    &&& ascii_lowercase(name[start + 4]) == 'e'
    &&& ascii_lowercase(name[start + 5]) == 'r'
}

/// Whether a device name holds the word "eraser", in any mix of upper and
/// lower case.
pub open spec fn names_eraser(name: Seq<char>) -> bool {
    exists|start: int| eraser_at(name, start)
}

/// The role that a device of this name has.
pub open spec fn role_of_name(name: Seq<char>) -> TabletRole {
    if names_eraser(name) {
        TabletRole::Eraser
    } else {
        TabletRole::Default
    }
}

fn is_eraser_at(name: &Vec<char>, start: usize) -> (r: bool)
    requires
        start + 6 <= name.len(),
    ensures
        r == eraser_at(name@, start as int),
{
    let c0 = name[start];
    let c1 = name[start + 1];
    let c2 = name[start + 2];
    let c3 = name[start + 3];
    let c4 = name[start + 4];
    let c5 = name[start + 5];
    (c0 == 'e' || c0 == 'E') && (c1 == 'r' || c1 == 'R') && (c2 == 'a' || c2 == 'A') && (c3 == 's'
        || c3 == 'S') && (c4 == 'e' || c4 == 'E') && (c5 == 'r' || c5 == 'R')
}

/// Whether a device name holds the word "eraser", in any mix of upper and
/// lower case.
pub fn name_has_eraser(name: &str) -> (r: bool)
    ensures
        r == names_eraser(name@),
{
    let chars = chars_of(name);
    if chars.len() < 6 {
        return false;
    }
    let last: usize = chars.len() - 6;
    let mut start: usize = 0;
    while start <= last
        invariant
            chars@ == name@,
            last + 6 == chars.len(),
            start <= last + 1,
            forall|earlier: int| 0 <= earlier < start ==> !eraser_at(name@, earlier),
        decreases last + 1 - start,
    {
        if is_eraser_at(&chars, start) {
            assert(eraser_at(name@, start as int));
            return true;
        }
        start += 1;
    }
    false
}

/// Sets a device up as a tablet if it is one. A device is a tablet exactly
/// when it reports a pressure axis. Its role follows from its name, its axis
/// map from its classes, and its pen starts out in the initial state.
pub fn setup_tablet_device(atoms: &AtomCollection, name: &str, classes: &[DeviceClass]) -> (r:
    Option<TabletDevice>)
    ensures
        r is Some <==> has_pressure_axis(*atoms, classes@),
        r matches Some(device) ==> {
            &&& device@.valuators == valuators_of(*atoms, classes@)
            &&& device@.role == role_of_name(name@)
            &&& device@.state.is_initial()
        },
{
    if !is_tablet_device(atoms, classes) {
        None
    } else {
        let role = if name_has_eraser(name) {
            TabletRole::Eraser
        } else {
            TabletRole::Default
        };
        let valuators = build_valuators_map(atoms, classes);
        Some(TabletDevice { valuators, role, state: TabletPointerState::default() })
    }
}

/// Cuts a 64-bit value down to its low 32 bits, read as signed.
fn narrow_to_i32(v: i64) -> (r: i32)
    ensures
        r == wrap_i32(v as int),
{
    let lifted: u128 = (v as i128 + 0x8000_0000_8000_0000) as u128;
    let reduced: u128 = lifted % 0x1_0000_0000;
    (reduced as i64 - 0x8000_0000) as i32
}

/// The raw value of an axis, rescaled to `[new_min, new_max]` and cut down to
/// 32 bits.
fn rescale(range: &ValuatorRange, raw: &Fp3232, new_min: i64, new_max: i64) -> (r: i32)
    requires
        range.has_span(),
    ensures
        r == canonical_value(*range, *raw, new_min, new_max),
{
    narrow_to_i32(range.convert_range(fp3232_to_i64(raw), new_min, new_max))
}

/// The positions below `upto` are a leading part of the positions below any
/// larger bound.
proof fn lemma_set_axes_prefix(mask: Seq<u32>, upto: int, beyond: int)
    requires
        0 <= upto <= beyond,
    ensures
        set_axes(mask, upto).len() <= set_axes(mask, beyond).len(),
        set_axes(mask, upto) == set_axes(mask, beyond).take(set_axes(mask, upto).len() as int),
    decreases beyond - upto,
{
    if upto < beyond {
        lemma_set_axes_prefix(mask, upto, beyond - 1);
        assert(set_axes(mask, upto) =~= set_axes(mask, beyond).take(
            set_axes(mask, upto).len() as int,
        ));
    } else {
        assert(set_axes(mask, upto) =~= set_axes(mask, beyond).take(
            set_axes(mask, upto).len() as int,
        ));
    }
}

/// Only the first `count` positions matter to the state after `count` raw
/// values.
proof fn lemma_apply_axes_prefix(
    state: TabletPointerState,
    valuators: Map<u16, TabletValuator>,
    positions: Seq<int>,
    longer: Seq<int>,
    values: Seq<Fp3232>,
    count: int,
)
    requires
        count <= positions.len() <= longer.len(),
        positions == longer.take(positions.len() as int),
    ensures
        apply_axes(state, valuators, positions, values, count) == apply_axes(
            state,
            valuators,
            longer,
            values,
            count,
        ),
    decreases count,
{
    if count > 0 {
        lemma_apply_axes_prefix(state, valuators, positions, longer, values, count - 1);
        assert(positions[count - 1] == longer[count - 1]);
    }
}

impl TabletPointerState {
    /// The state of the pen after one sample of `device`.
    ///
    /// The position is taken from the sample as it is. Then the raw values are
    /// gone through in order, each belonging to the next set bit of the
    /// valuator mask: a value for the pressure axis or for one of the two tilt
    /// axes is rescaled and taken over, any other is passed by. Buttons are
    /// never touched.
    pub fn apply_event(&self, device: &TabletDevice, event: &ButtonPressEvent) -> (r:
        TabletPointerState)
        ensures
            r == spec_apply_event(*self, device@.valuators, *event),
            r.x == event.root_x,
            r.y == event.root_y,
            r.button == self.button,
    {
        proof {
            use_type_invariant(device);
        }
        let mut new_state = *self;
        new_state.x = event.root_x;
        new_state.y = event.root_y;
        let ghost start = new_state;
        let ghost mask = event.valuator_mask@;
        let ghost values = event.axisvalues@;
        let words: usize = event.valuator_mask.len();
        let mut index: usize = 0;
        let mut word: usize = 0;
        let mut bit: u32 = 0;
        while word < words && index < event.axisvalues.len()
            invariant
                all_have_span(device@.valuators),
                mask == event.valuator_mask@,
                values == event.axisvalues@,
                words == mask.len(),
                word <= words,
                bit < 32,
                index <= values.len(),
                index == set_axes(mask, 32 * word + bit).len(),
                new_state == apply_axes(
                    start,
                    device@.valuators,
                    set_axes(mask, 32 * word + bit),
                    values,
                    index as int,
                ),
                new_state.x == event.root_x,
                new_state.y == event.root_y,
                new_state.button == self.button,
                word == words ==> bit == 0,
            decreases 32 * (words - word) - bit,
        {
            let ghost position = 32 * word + bit;
            let ghost before = set_axes(mask, position);
            assert(position / 32 == word && position % 32 == bit);
            if event.valuator_mask[word] & (1u32 << bit) != 0 {
                let number: u16 = ((word % 2048) * 32 + bit as usize) as u16;
                assert(number == valuator_number(position));
                let ghost after = set_axes(mask, position + 1);
                assert(after == before.push(position));
                proof {
                    assert(before =~= after.take(before.len() as int));
                    lemma_apply_axes_prefix(
                        start,
                        device@.valuators,
                        before,
                        after,
                        values,
                        index as int,
                    );
                }
                let raw = event.axisvalues[index];
                match device.valuators.get(&number) {
                    Some(valuator) => {
                        match valuator {
                            TabletValuator::AbsPressure(range) => {
                                new_state.pressure = rescale(range, &raw, PRESSURE_MIN, PRESSURE_MAX);
                            },
                            TabletValuator::AbsTiltX(range) => {
                                new_state.tilt_x = rescale(range, &raw, TILT_MIN, TILT_MAX);
                            },
                            TabletValuator::AbsTiltY(range) => {
                                new_state.tilt_y = rescale(range, &raw, TILT_MIN, TILT_MAX);
                            },
                            _ => {},
                        }
                    },
                    None => {},
                }
                index += 1;
            }
            bit += 1;
            if bit == 32 {
                bit = 0;
                word += 1;
            }
        }
        proof {
            let total = 32 * (mask.len() as int);
            let seen = set_axes(mask, 32 * word + bit);
            lemma_set_axes_prefix(mask, 32 * word + bit, total);
            lemma_apply_axes_prefix(
                start,
                device@.valuators,
                seen,
                set_axes(mask, total),
                values,
                index as int,
            );
        }
        new_state
    }
}

} // verus!
