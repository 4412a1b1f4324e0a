use tablet_host::event::{
    PenFlags, PenInfo, Point, PointerFlags, PointerInfo, PointerType, Rect, TouchInfo,
};

#[test]
fn pen_flags_sit_at_their_bits() {
    assert_eq!(PenFlags::NONE, 0);
    assert_eq!(PenFlags::BARREL, 1);
    assert_eq!(PenFlags::INVERTED, 2);
    assert_eq!(PenFlags::ERASER, 4);
    assert_eq!(PenFlags::ALL, 7);
}

#[test]
fn pointer_flags_sit_at_their_bits() {
    assert_eq!(PointerFlags::NONE, 0x00);
    assert_eq!(PointerFlags::NEW, 0x01);
    assert_eq!(PointerFlags::IN_RANGE, 0x02);
    assert_eq!(PointerFlags::IN_CONTACT, 0x04);
    assert_eq!(PointerFlags::FIRST_BUTTON, 0x10);
    assert_eq!(PointerFlags::SECOND_BUTTON, 0x20);
    assert_eq!(PointerFlags::THIRD_BUTTON, 0x40);
    assert_eq!(PointerFlags::FORTH_BUTTON, 0x80);
    assert_eq!(PointerFlags::FIFTH_BUTTON, 0x100);
    assert_eq!(PointerFlags::PRIMARY, 0x2000);
    assert_eq!(PointerFlags::CONFIDENCE, 0x4000);
    assert_eq!(PointerFlags::CANCELED, 0x8000);
    assert_eq!(PointerFlags::DOWN, 0x10000);
    assert_eq!(PointerFlags::UPDATE, 0x20000);
    assert_eq!(PointerFlags::UP, 0x40000);
    assert_eq!(PointerFlags::WHEEL, 0x80000);
    assert_eq!(PointerFlags::HWHEEL, 0x100000);
    let named = [
        PointerFlags::NEW,
        PointerFlags::IN_RANGE,
        PointerFlags::IN_CONTACT,
        PointerFlags::FIRST_BUTTON,
        PointerFlags::SECOND_BUTTON,
        PointerFlags::THIRD_BUTTON,
        PointerFlags::FORTH_BUTTON,
        PointerFlags::FIFTH_BUTTON,
        PointerFlags::PRIMARY,
        PointerFlags::CONFIDENCE,
        PointerFlags::CANCELED,
        PointerFlags::DOWN,
        PointerFlags::UPDATE,
        PointerFlags::UP,
        PointerFlags::WHEEL,
        PointerFlags::HWHEEL,
    ];
    let mut union = 0u32;
    let mut sum = 0u32;
    for flag in named.iter() {
        union |= *flag;
        sum += *flag;
    }
    assert_eq!(union, PointerFlags::ALL);
    assert_eq!(sum, PointerFlags::ALL);
}

#[test]
fn pen_flags_from_bits() {
    assert_eq!(PenFlags::empty().bits(), 0);
    assert_eq!(PenFlags::from_bits(5).map(|f| f.bits()), Some(5));
    assert_eq!(PenFlags::from_bits(0).map(|f| f.bits()), Some(0));
    assert_eq!(PenFlags::from_bits(7).map(|f| f.bits()), Some(7));
    assert_eq!(PenFlags::from_bits(8), None);
    assert_eq!(PenFlags::from_bits(0x8000_0001), None);
    assert_eq!(PenFlags::from_bits_truncate(0xffff_fffd).bits(), 5);
    assert_eq!(PenFlags::from_bits_truncate(8).bits(), 0);
}

#[test]
fn pen_flags_contain_and_unite() {
    let eraser = PenFlags::from_bits_truncate(PenFlags::ERASER);
    let barrel = PenFlags::from_bits_truncate(PenFlags::BARREL);
    assert!(eraser.contains(PenFlags::ERASER));
    assert!(!eraser.contains(PenFlags::BARREL));
    assert!(eraser.contains(PenFlags::NONE));
    let both = eraser.union(barrel);
    assert_eq!(both.bits(), 5);
    assert!(both.contains(PenFlags::ERASER | PenFlags::BARREL));
    assert!(!both.contains(PenFlags::INVERTED));
    assert!(!both.contains(PenFlags::ALL));
    assert_eq!(both.union(both), both);
}

#[test]
fn pointer_flags_from_bits() {
    assert_eq!(PointerFlags::empty().bits(), 0);
    let down = PointerFlags::DOWN | PointerFlags::IN_CONTACT | PointerFlags::IN_RANGE;
    assert_eq!(PointerFlags::from_bits(down).map(|f| f.bits()), Some(0x10006));
    assert_eq!(PointerFlags::from_bits(0x08), None);
    assert_eq!(PointerFlags::from_bits(0x200), None);
    assert_eq!(PointerFlags::from_bits(0x1000), None);
    assert_eq!(PointerFlags::from_bits(0x200000), None);
    assert_eq!(PointerFlags::from_bits(PointerFlags::ALL).map(|f| f.bits()), Some(0x1fe1f7));
    assert_eq!(PointerFlags::from_bits_truncate(u32::MAX).bits(), 0x1fe1f7);
    assert_eq!(PointerFlags::from_bits_truncate(0x1208).bits(), 0);
}

#[test]
fn pointer_flags_contain_and_unite() {
    let update = PointerFlags::from_bits_truncate(PointerFlags::UPDATE | PointerFlags::IN_RANGE);
    let primary = PointerFlags::from_bits_truncate(PointerFlags::PRIMARY);
    assert!(update.contains(PointerFlags::UPDATE));
    assert!(update.contains(PointerFlags::IN_RANGE));
    assert!(!update.contains(PointerFlags::PRIMARY));
    let both = update.union(primary);
    assert_eq!(both.bits(), 0x22002);
    assert!(both.contains(PointerFlags::PRIMARY | PointerFlags::UPDATE));
    assert!(!both.contains(PointerFlags::DOWN));
}

#[test]
fn pointer_record_holds_its_parts() {
    let pen = PointerInfo {
        pointer_type: PointerType::Pen(PenInfo {
            flags: PenFlags::from_bits_truncate(PenFlags::ERASER),
            pressure: 511,
            rotation: 0,
            tilt_x: 12,
            tilt_y: 3,
        }),
        id: 9,
        frame_id: 1,
        flags: PointerFlags::from_bits_truncate(PointerFlags::IN_RANGE),
        location_px: Point { x: 640, y: 480 },
    };
    assert_eq!(pen.location_px, Point { x: 640, y: 480 });
    match pen.pointer_type {
        PointerType::Pen(info) => {
            assert!(info.flags.contains(PenFlags::ERASER));
            assert_eq!(info.pressure, 511);
        }
        PointerType::Touch(_) => panic!("a pen was recorded"),
    }
    let touch = PointerType::Touch(TouchInfo {
        contact: Rect { left: 1, top: 2, right: 3, bottom: 4 },
        orientation: 90,
        pressure: 100,
    });
    assert_ne!(touch, pen.pointer_type);
}
