//! The uniform pointer record that a sample is reported as, whatever device it
//! came from.

use vstd::prelude::*;

verus! {

/// What is known of the pen itself: a set of flags, each with a bit of its
/// own.
#[derive(Clone, Copy, Debug, PartialEq, Eq)]
pub struct PenFlags {
    bits: u32,
}

impl View for PenFlags {
    type V = u32;

    closed spec fn view(&self) -> u32 {
        self.bits
    }
}

impl PenFlags {
    pub const NONE: u32 = 0;

    /// The barrel button is held.
    pub const BARREL: u32 = 1;

    /// The pen is held upside down.
    pub const INVERTED: u32 = 2;

    /// The eraser end of the pen is in use.
    pub const ERASER: u32 = 4;

    /// Every flag there is.
    pub const ALL: u32 = 7;

    /// No bit is set that stands for no flag.
    #[verifier::type_invariant]
    spec fn only_flags(&self) -> bool {
        self.bits & !Self::ALL == 0
    }

    /// Whether every flag of `mask` is in the set.
    pub open spec fn spec_contains(&self, mask: u32) -> bool {
        self@ & mask == mask
    }

    /// The set without any flag.
    pub fn empty() -> (r: Self)
        ensures
            r@ == 0,
    {
        assert(0u32 & !7u32 == 0) by (bit_vector);
        PenFlags { bits: 0 }
    }

    /// The set whose flags are the bits of `bits`, if each of them stands for a
    /// flag.
    pub fn from_bits(bits: u32) -> (r: Option<Self>)
        ensures
            r is Some <==> bits & !Self::ALL == 0,
            r matches Some(flags) ==> flags@ == bits,
    {
        if bits & !Self::ALL == 0 {
            Some(PenFlags { bits })
        } else {
            None
        }
    }

    /// The set whose flags are the bits of `bits`, without those that stand
    /// for no flag.
    pub fn from_bits_truncate(bits: u32) -> (r: Self)
        ensures
            r@ == bits & Self::ALL,
    {
        assert((bits & 7u32) & !7u32 == 0) by (bit_vector);
        PenFlags { bits: bits & Self::ALL }
    }

    /// The flags of the set, each at its own bit. No other bit is set.
    pub fn bits(&self) -> (r: u32)
        ensures
            r == self@,
            r & !Self::ALL == 0,
    {
        proof {
            use_type_invariant(self);
        }
        self.bits
    }

    /// Whether every flag of `mask` is in the set.
    #[verifier::when_used_as_spec(spec_contains)]
    pub fn contains(&self, mask: u32) -> (r: bool)
        ensures
            r == self.spec_contains(mask),
    {
        self.bits & mask == mask
    }

    /// The set of the flags that are in either of two sets.
    pub fn union(self, other: Self) -> (r: Self)
        ensures
            r@ == self@ | other@,
            r@ & !Self::ALL == 0,
    {
        proof {
            use_type_invariant(&self);
            use_type_invariant(&other);
        }
        let a: u32 = self.bits;
        let b: u32 = other.bits;
        assert((a | b) & !7u32 == 0) by (bit_vector)
            requires
                a & !7u32 == 0,
                b & !7u32 == 0,
        ;
        PenFlags { bits: a | b }
    }
}

/// What is known of a pointer at the moment of a record: a set of flags, each
/// with a bit of its own.
#[derive(Clone, Copy, Debug, PartialEq, Eq)]
pub struct PointerFlags {
    bits: u32,
}

impl View for PointerFlags {
    type V = u32;

    closed spec fn view(&self) -> u32 {
        self.bits
    }
}

impl PointerFlags {
    pub const NONE: u32 = 0x00;

    /// The pointer has not been seen before.
    pub const NEW: u32 = 0x01;

    /// The pointer is within reach of the surface.
    pub const IN_RANGE: u32 = 0x02;

    /// The pointer touches the surface.
    pub const IN_CONTACT: u32 = 0x04;

    pub const FIRST_BUTTON: u32 = 0x10;

    pub const SECOND_BUTTON: u32 = 0x20;

    pub const THIRD_BUTTON: u32 = 0x40;

    pub const FORTH_BUTTON: u32 = 0x80;

    pub const FIFTH_BUTTON: u32 = 0x100;

    /// The pointer is the primary one.
    pub const PRIMARY: u32 = 0x2000;

    /// The contact is meant, not an accident of the palm.
    pub const CONFIDENCE: u32 = 0x4000;

    /// The pointer leaves without completing what it began.
    pub const CANCELED: u32 = 0x8000;

    /// The pointer went down.
    pub const DOWN: u32 = 0x10000;

    /// The pointer moved, or something else about it changed.
    pub const UPDATE: u32 = 0x20000;

    /// The pointer went up.
    pub const UP: u32 = 0x40000;

    /// The wheel turned.
    pub const WHEEL: u32 = 0x80000;

    /// The horizontal wheel turned.
    pub const HWHEEL: u32 = 0x100000;

    /// Every flag there is.
    pub const ALL: u32 = 0x1fe1f7;

    /// No bit is set that stands for no flag.
    #[verifier::type_invariant]
    spec fn only_flags(&self) -> bool {
        self.bits & !Self::ALL == 0
    }

    /// Whether every flag of `mask` is in the set.
    pub open spec fn spec_contains(&self, mask: u32) -> bool {
        self@ & mask == mask
    }

    /// The set without any flag.
    pub fn empty() -> (r: Self)
        ensures
            r@ == 0,
    {
        assert(0u32 & !0x1fe1f7u32 == 0) by (bit_vector);
        PointerFlags { bits: 0 }
    }

    /// The set whose flags are the bits of `bits`, if each of them stands for a
    /// flag.
    pub fn from_bits(bits: u32) -> (r: Option<Self>)
        ensures
            r is Some <==> bits & !Self::ALL == 0,
            r matches Some(flags) ==> flags@ == bits,
    {
        if bits & !Self::ALL == 0 {
            Some(PointerFlags { bits })
        } else {
            None
        }
    }

    /// The set whose flags are the bits of `bits`, without those that stand
    /// for no flag.
    pub fn from_bits_truncate(bits: u32) -> (r: Self)
        ensures
            r@ == bits & Self::ALL,
    {
        assert((bits & 0x1fe1f7u32) & !0x1fe1f7u32 == 0) by (bit_vector);
        PointerFlags { bits: bits & Self::ALL }
    }

    /// The flags of the set, each at its own bit. No other bit is set.
    pub fn bits(&self) -> (r: u32)
        ensures
            r == self@,
            r & !Self::ALL == 0,
    {
        proof {
            use_type_invariant(self);
        }
        self.bits
    }

    /// Whether every flag of `mask` is in the set.
    #[verifier::when_used_as_spec(spec_contains)]
    pub fn contains(&self, mask: u32) -> (r: bool)
        ensures
            r == self.spec_contains(mask),
    {
        self.bits & mask == mask
    }

    /// The set of the flags that are in either of two sets.
    pub fn union(self, other: Self) -> (r: Self)
        ensures
            r@ == self@ | other@,
            r@ & !Self::ALL == 0,
    {
        proof {
            use_type_invariant(&self);
            use_type_invariant(&other);
        }
        let a: u32 = self.bits;
        let b: u32 = other.bits;
        assert((a | b) & !0x1fe1f7u32 == 0) by (bit_vector)
            requires
                a & !0x1fe1f7u32 == 0,
                b & !0x1fe1f7u32 == 0,
        ;
        PointerFlags { bits: a | b }
    }
}

/// The named flags of a pointer keep clear of each other: no two share a bit,
/// and together they make up `ALL`.
pub proof fn lemma_pointer_flags_disjoint()
    ensures
        PointerFlags::NEW | PointerFlags::IN_RANGE | PointerFlags::IN_CONTACT
            | PointerFlags::FIRST_BUTTON | PointerFlags::SECOND_BUTTON
            | PointerFlags::THIRD_BUTTON | PointerFlags::FORTH_BUTTON
            | PointerFlags::FIFTH_BUTTON | PointerFlags::PRIMARY | PointerFlags::CONFIDENCE
            | PointerFlags::CANCELED | PointerFlags::DOWN | PointerFlags::UPDATE
            | PointerFlags::UP | PointerFlags::WHEEL | PointerFlags::HWHEEL == PointerFlags::ALL,
        PointerFlags::NEW + PointerFlags::IN_RANGE + PointerFlags::IN_CONTACT
            + PointerFlags::FIRST_BUTTON + PointerFlags::SECOND_BUTTON
            + PointerFlags::THIRD_BUTTON + PointerFlags::FORTH_BUTTON
            + PointerFlags::FIFTH_BUTTON + PointerFlags::PRIMARY + PointerFlags::CONFIDENCE
            + PointerFlags::CANCELED + PointerFlags::DOWN + PointerFlags::UPDATE
            + PointerFlags::UP + PointerFlags::WHEEL + PointerFlags::HWHEEL == PointerFlags::ALL,
{
    assert(0x01u32 | 0x02u32 | 0x04u32 | 0x10u32 | 0x20u32 | 0x40u32 | 0x80u32 | 0x100u32
        | 0x2000u32 | 0x4000u32 | 0x8000u32 | 0x10000u32 | 0x20000u32 | 0x40000u32 | 0x80000u32
        | 0x100000u32 == 0x1fe1f7u32) by (bit_vector);
}

/// A point of the plane.
#[derive(Clone, Copy, Debug, PartialEq, Eq)]
pub struct Point<T> {
    pub x: T,
    pub y: T,
}

/// A rectangle with sides along the axes.
#[derive(Clone, Copy, Debug, PartialEq, Eq)]
pub struct Rect<T> {
    pub left: T,
    pub top: T,
    pub right: T,
    pub bottom: T,
}

/// What a touch adds to a pointer record.
#[derive(Clone, Copy, Debug, PartialEq, Eq)]
pub struct TouchInfo {
    pub contact: Rect<u32>,
    pub orientation: u16,
    pub pressure: u32,
}

/// What a pen adds to a pointer record.
#[derive(Clone, Copy, Debug, PartialEq, Eq)]
pub struct PenInfo {
    pub flags: PenFlags,
    pub pressure: u32,
    pub rotation: u32,
    pub tilt_x: u32,
    pub tilt_y: u32,
}

/// The kind of pointer that a record is about, with what is known of that
/// kind alone.
#[derive(Clone, Copy, Debug, PartialEq, Eq)]
pub enum PointerType {
    Touch(TouchInfo),
    Pen(PenInfo),
}

/// One pointer record.
#[derive(Clone, Copy, Debug, PartialEq, Eq)]
pub struct PointerInfo {
    pub pointer_type: PointerType,
    pub id: u32,
    pub frame_id: u32,
    pub flags: PointerFlags,
    pub location_px: Point<u32>,
}

} // verus!
