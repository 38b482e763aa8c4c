use cube_scrambler::face_rotation::{is_double_turn_move, move_duration, FaceRotation};
use std::collections::HashSet;

const ALL: [FaceRotation; 20] = [
    FaceRotation::R,
    FaceRotation::R2,
    FaceRotation::R2Prime,
    FaceRotation::RPrime,
    FaceRotation::F,
    FaceRotation::F2,
    FaceRotation::F2Prime,
    FaceRotation::FPrime,
    FaceRotation::D,
    FaceRotation::D2,
    FaceRotation::D2Prime,
    FaceRotation::DPrime,
    FaceRotation::L,
    FaceRotation::L2,
    FaceRotation::L2Prime,
    FaceRotation::LPrime,
    FaceRotation::B,
    FaceRotation::B2,
    FaceRotation::B2Prime,
    FaceRotation::BPrime,
];

fn is_half(m: FaceRotation) -> bool {
    m.name().contains('2')
}

#[test]
fn wire_codes_cover_zero_to_fourteen() {
    let codes: Vec<u8> = ALL.iter().map(|&m| m.wire_code()).collect();
    assert_eq!(
        codes,
        vec![0, 1, 1, 2, 3, 4, 4, 5, 6, 7, 7, 8, 9, 10, 10, 11, 12, 13, 13, 14]
    );
    let distinct: HashSet<u8> = codes.iter().copied().collect();
    assert_eq!(distinct.len(), 15);
    assert!(codes.iter().all(|&c| c <= 14));
}

#[test]
fn half_turn_aliases_share_a_code() {
    assert_eq!(FaceRotation::R2.wire_code(), FaceRotation::R2Prime.wire_code());
    assert_eq!(FaceRotation::F2.wire_code(), FaceRotation::F2Prime.wire_code());
    assert_eq!(FaceRotation::D2.wire_code(), FaceRotation::D2Prime.wire_code());
    assert_eq!(FaceRotation::L2.wire_code(), FaceRotation::L2Prime.wire_code());
    assert_eq!(FaceRotation::B2.wire_code(), FaceRotation::B2Prime.wire_code());
}

#[test]
fn from_conversion_gives_the_wire_code() {
    assert_eq!(u8::from(FaceRotation::DPrime), 8);
    assert_eq!(u8::from(FaceRotation::L2Prime), 10);
    let b: u8 = FaceRotation::BPrime.into();
    assert_eq!(b, 14);
}

#[test]
fn half_turn_classification_matches_codes() {
    for m in ALL {
        assert_eq!(is_double_turn_move(m.wire_code()), is_half(m), "{:?}", m);
    }
    assert!(is_double_turn_move(1));
    assert!(!is_double_turn_move(0));
    assert!(!is_double_turn_move(2));
    assert!(is_double_turn_move(13));
}

#[test]
fn durations_by_turn_kind() {
    assert_eq!(move_duration(0), 150);
    assert_eq!(move_duration(4), 250);
    assert_eq!(move_duration(14), 150);
    assert_eq!(move_duration(FaceRotation::B2Prime.wire_code()), 250);
}

#[test]
fn names_of_rotations() {
    assert_eq!(FaceRotation::R.name(), "R");
    assert_eq!(FaceRotation::F2.name(), "F2");
    assert_eq!(FaceRotation::D2Prime.name(), "D2'");
    assert_eq!(FaceRotation::LPrime.name(), "L'");
    let names: HashSet<&str> = ALL.iter().map(|m| m.name()).collect();
    assert_eq!(names.len(), 20);
}

#[test]
fn draws_select_rotations_in_enum_order() {
    for (i, &m) in ALL.iter().enumerate() {
        assert_eq!(FaceRotation::from_draw(i as u32), m);
        assert_eq!(FaceRotation::from_draw(i as u32 + 20), m);
    }
    assert_eq!(FaceRotation::from_draw(u32::MAX), FaceRotation::LPrime);
}
