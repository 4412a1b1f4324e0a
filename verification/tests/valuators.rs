use tablet_host::fixed_point::Fp3232;
use tablet_host::range::ValuatorRange;
use tablet_host::valuators::{
    build_valuators_map, is_tablet_device, make_valuator_range, recognize_valuator,
    AtomCollection, AxisKind, DeviceClass, DeviceClassData, DeviceClassDataValuator,
    TabletValuator,
};

fn atoms() -> AtomCollection {
    AtomCollection {
        ABS_X: 101,
        ABS_Y: 102,
        ABS_PRESSURE: 103,
        ABS_TILT_X: 104,
        ABS_TILT_Y: 105,
        ABS_WHEEL: 106,
        REL_X: 107,
        REL_Y: 108,
    }
}

fn whole(integral: i32) -> Fp3232 {
    Fp3232 { integral, frac: 0 }
}

fn valuator(number: u16, label: u32, min: i32, max: i32) -> DeviceClass {
    DeviceClass {
        data: DeviceClassData::Valuator(DeviceClassDataValuator {
            number,
            label,
            min: whole(min),
            max: whole(max),
        }),
    }
}

fn other() -> DeviceClass {
    DeviceClass { data: DeviceClassData::Other }
}

fn scaled(min: i64, max: i64) -> ValuatorRange {
    ValuatorRange { min: min << 32, max: max << 32 }
}

#[test]
fn valuator_range_is_the_decoded_pair() {
    let class = DeviceClassDataValuator {
        number: 0,
        label: 103,
        min: Fp3232 { integral: -1, frac: 5 },
        max: Fp3232 { integral: 2047, frac: 0 },
    };
    assert_eq!(
        make_valuator_range(&class),
        ValuatorRange { min: -4294967291, max: 8791798054912 }
    );
}

#[test]
fn each_label_gives_its_axis() {
    let a = atoms();
    let class = |label: u32| DeviceClassDataValuator {
        number: 9,
        label,
        min: whole(0),
        max: whole(10),
    };
    let range = scaled(0, 10);
    assert_eq!(recognize_valuator(&a, &class(101)), Some(TabletValuator::AbsX(range)));
    assert_eq!(recognize_valuator(&a, &class(102)), Some(TabletValuator::AbsY(range)));
    assert_eq!(recognize_valuator(&a, &class(103)), Some(TabletValuator::AbsPressure(range)));
    assert_eq!(recognize_valuator(&a, &class(104)), Some(TabletValuator::AbsTiltX(range)));
    assert_eq!(recognize_valuator(&a, &class(105)), Some(TabletValuator::AbsTiltY(range)));
    assert_eq!(recognize_valuator(&a, &class(106)), Some(TabletValuator::AbsWheel(range)));
}

#[test]
fn relative_and_unknown_labels_give_no_axis() {
    let a = atoms();
    let class = |label: u32| DeviceClassDataValuator {
        number: 9,
        label,
        min: whole(0),
        max: whole(10),
    };
    assert_eq!(recognize_valuator(&a, &class(107)), None);
    assert_eq!(recognize_valuator(&a, &class(108)), None);
    assert_eq!(recognize_valuator(&a, &class(0)), None);
    assert_eq!(recognize_valuator(&a, &class(999)), None);
}

#[test]
fn a_range_without_span_gives_no_axis() {
    let a = atoms();
    let class = DeviceClassDataValuator { number: 2, label: 103, min: whole(7), max: whole(7) };
    assert_eq!(recognize_valuator(&a, &class), None);
    let by_fraction = DeviceClassDataValuator {
        number: 2,
        label: 103,
        min: Fp3232 { integral: 7, frac: 0 },
        max: Fp3232 { integral: 7, frac: 1 },
    };
    assert!(recognize_valuator(&a, &by_fraction).is_some());
}

#[test]
fn the_first_matching_label_wins_when_labels_coincide() {
    let mut a = atoms();
    a.ABS_Y = a.ABS_X;
    a.ABS_PRESSURE = a.ABS_X;
    let class = DeviceClassDataValuator { number: 0, label: 101, min: whole(0), max: whole(1) };
    assert_eq!(recognize_valuator(&a, &class), Some(TabletValuator::AbsX(scaled(0, 1))));
}

#[test]
fn kind_and_range_of_an_axis() {
    let range = scaled(-64, 63);
    assert_eq!(TabletValuator::AbsX(range).kind(), AxisKind::PositionX);
    assert_eq!(TabletValuator::AbsY(range).kind(), AxisKind::PositionY);
    assert_eq!(TabletValuator::AbsPressure(range).kind(), AxisKind::Pressure);
    assert_eq!(TabletValuator::AbsTiltX(range).kind(), AxisKind::TiltX);
    assert_eq!(TabletValuator::AbsTiltY(range).kind(), AxisKind::TiltY);
    assert_eq!(TabletValuator::AbsWheel(range).kind(), AxisKind::Wheel);
    assert_eq!(TabletValuator::AbsTiltY(range).range(), range);
}

#[test]
fn map_keeps_only_recognised_axes() {
    let classes = vec![
        other(),
        valuator(0, 101, 0, 15200),
        valuator(1, 102, 0, 9500),
        valuator(2, 103, 0, 2047),
        valuator(3, 104, -64, 63),
        valuator(4, 105, -64, 63),
        valuator(5, 106, 0, 71),
        valuator(6, 107, -1, 1),
        valuator(7, 108, -1, 1),
        valuator(8, 555, 0, 10),
        other(),
    ];
    let map = build_valuators_map(&atoms(), &classes);
    assert_eq!(map.len(), 6);
    assert_eq!(map.get(&0), Some(&TabletValuator::AbsX(scaled(0, 15200))));
    assert_eq!(map.get(&1), Some(&TabletValuator::AbsY(scaled(0, 9500))));
    assert_eq!(map.get(&2), Some(&TabletValuator::AbsPressure(scaled(0, 2047))));
    assert_eq!(map.get(&3), Some(&TabletValuator::AbsTiltX(scaled(-64, 63))));
    assert_eq!(map.get(&4), Some(&TabletValuator::AbsTiltY(scaled(-64, 63))));
    assert_eq!(map.get(&5), Some(&TabletValuator::AbsWheel(scaled(0, 71))));
    assert_eq!(map.get(&6), None);
    assert_eq!(map.get(&7), None);
    assert_eq!(map.get(&8), None);
}

#[test]
fn map_of_no_classes_is_empty() {
    let map = build_valuators_map(&atoms(), &[]);
    assert!(map.is_empty());
}

#[test]
fn a_later_class_replaces_an_earlier_one_of_the_same_number() {
    let classes = vec![valuator(2, 103, 0, 2047), valuator(2, 104, -64, 63)];
    let map = build_valuators_map(&atoms(), &classes);
    assert_eq!(map.len(), 1);
    assert_eq!(map.get(&2), Some(&TabletValuator::AbsTiltX(scaled(-64, 63))));
}

#[test]
fn a_later_class_that_is_turned_away_replaces_nothing() {
    let classes = vec![
        valuator(2, 103, 0, 2047),
        valuator(2, 107, 0, 1),
        valuator(2, 104, 5, 5),
        other(),
    ];
    let map = build_valuators_map(&atoms(), &classes);
    assert_eq!(map.len(), 1);
    assert_eq!(map.get(&2), Some(&TabletValuator::AbsPressure(scaled(0, 2047))));
}

#[test]
fn map_leaves_out_ranges_without_span() {
    let classes = vec![valuator(2, 103, 9, 9), valuator(3, 104, -64, 63)];
    let map = build_valuators_map(&atoms(), &classes);
    assert_eq!(map.len(), 1);
    assert_eq!(map.get(&2), None);
    assert!(map.get(&3).is_some());
}

#[test]
fn map_keeps_reversed_ranges() {
    let classes = vec![valuator(2, 103, 2047, 0)];
    let map = build_valuators_map(&atoms(), &classes);
    assert_eq!(map.get(&2), Some(&TabletValuator::AbsPressure(scaled(2047, 0))));
}

#[test]
fn tablet_is_told_by_its_pressure_axis() {
    let a = atoms();
    assert!(is_tablet_device(&a, &[valuator(2, 103, 0, 2047)]));
    assert!(is_tablet_device(&a, &[other(), valuator(0, 101, 0, 1), valuator(2, 103, 0, 2047)]));
    assert!(!is_tablet_device(&a, &[]));
    assert!(!is_tablet_device(&a, &[other()]));
    assert!(!is_tablet_device(&a, &[valuator(0, 101, 0, 1), valuator(1, 102, 0, 1)]));
    assert!(!is_tablet_device(&a, &[valuator(3, 104, -64, 63), valuator(6, 107, 0, 1)]));
}

#[test]
fn pressure_label_counts_whatever_the_range() {
    let a = atoms();
    assert!(is_tablet_device(&a, &[valuator(2, 103, 5, 5)]));
}
