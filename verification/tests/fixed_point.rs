use tablet_host::fixed_point::{fp3232_to_i64, i64_to_fp3232, Fp3232};

#[test]
fn decode_places_integral_above_fraction() {
    assert_eq!(fp3232_to_i64(&Fp3232 { integral: 0, frac: 0 }), 0);
    assert_eq!(fp3232_to_i64(&Fp3232 { integral: 0, frac: 1 }), 1);
    assert_eq!(fp3232_to_i64(&Fp3232 { integral: 1, frac: 0 }), 4294967296);
    assert_eq!(fp3232_to_i64(&Fp3232 { integral: 2047, frac: 0 }), 8791798054912);
    assert_eq!(fp3232_to_i64(&Fp3232 { integral: 3, frac: 0x8000_0000 }), 15032385536);
}

#[test]
fn decode_reads_the_bit_pattern_as_signed() {
    assert_eq!(fp3232_to_i64(&Fp3232 { integral: -1, frac: 0 }), -4294967296);
    assert_eq!(fp3232_to_i64(&Fp3232 { integral: -1, frac: 5 }), -4294967291);
    assert_eq!(fp3232_to_i64(&Fp3232 { integral: -1, frac: u32::MAX }), -1);
    assert_eq!(fp3232_to_i64(&Fp3232 { integral: i32::MIN, frac: 0 }), i64::MIN);
    assert_eq!(fp3232_to_i64(&Fp3232 { integral: i32::MAX, frac: u32::MAX }), i64::MAX);
}

#[test]
fn decode_matches_shift_and_or() {
    let samples = [
        Fp3232 { integral: 0, frac: 0 },
        Fp3232 { integral: 17, frac: 0xdead_beef },
        Fp3232 { integral: -17, frac: 0xdead_beef },
        Fp3232 { integral: i32::MIN, frac: u32::MAX },
        Fp3232 { integral: i32::MAX, frac: 0 },
    ];
    for v in samples.iter() {
        let by_bits = (((v.integral as u64) << 32) | (v.frac as u64)) as i64;
        assert_eq!(fp3232_to_i64(v), by_bits);
    }
}

#[test]
fn decode_then_encode_gives_back_the_pair() {
    let integrals = [i32::MIN, -2047, -1, 0, 1, 1023, 2047, i32::MAX];
    let fracs = [0u32, 1, 0x7fff_ffff, 0x8000_0000, u32::MAX];
    for integral in integrals.iter() {
        for frac in fracs.iter() {
            let v = Fp3232 { integral: *integral, frac: *frac };
            assert_eq!(i64_to_fp3232(fp3232_to_i64(&v)), v);
        }
    }
}

#[test]
fn encode_then_decode_gives_back_the_value() {
    let values = [i64::MIN, -4294967297, -4294967296, -1, 0, 1, 4294967295, 4294967296, i64::MAX];
    for value in values.iter() {
        assert_eq!(fp3232_to_i64(&i64_to_fp3232(*value)), *value);
    }
}

#[test]
fn encode_splits_at_bit_32() {
    assert_eq!(i64_to_fp3232(-1), Fp3232 { integral: -1, frac: u32::MAX });
    assert_eq!(i64_to_fp3232(4294967296 + 7), Fp3232 { integral: 1, frac: 7 });
    assert_eq!(i64_to_fp3232(i64::MIN), Fp3232 { integral: i32::MIN, frac: 0 });
}
