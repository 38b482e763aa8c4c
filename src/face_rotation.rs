use vstd::prelude::*;

verus! {

/// One face rotation of the puzzle: a face (R, F, D, L, B) turned a quarter
/// clockwise, half a turn (written two ways), or a quarter counter-clockwise.
#[derive(Debug, PartialEq, Eq, Structural, Hash, Clone, Copy)]
pub enum FaceRotation {
    R,
    R2,
    R2Prime,
    RPrime,
    F,
    F2,
    F2Prime,
    FPrime,
    D,
    D2,
    D2Prime,
    DPrime,
    L,
    L2,
    L2Prime,
    LPrime,
    B,
    B2,
    B2Prime,
    BPrime,
}

/// Number of symbolic face rotations.
pub const ROTATION_COUNT: u32 = 20;

/// Largest wire code a rotation can have.
pub const MAX_WIRE_CODE: u8 = 14;

/// Index of the rotated face: R, F, D, L, B in that order.
pub open spec fn face_of(m: FaceRotation) -> nat {
    match m {
        FaceRotation::R | FaceRotation::R2 | FaceRotation::R2Prime | FaceRotation::RPrime => 0,
        FaceRotation::F | FaceRotation::F2 | FaceRotation::F2Prime | FaceRotation::FPrime => 1,
        FaceRotation::D | FaceRotation::D2 | FaceRotation::D2Prime | FaceRotation::DPrime => 2,
        FaceRotation::L | FaceRotation::L2 | FaceRotation::L2Prime | FaceRotation::LPrime => 3,
        FaceRotation::B | FaceRotation::B2 | FaceRotation::B2Prime | FaceRotation::BPrime => 4,
    }
}

/// Whether the rotation turns its face by 180 degrees.
pub open spec fn is_half_turn(m: FaceRotation) -> bool {
    match m {
        FaceRotation::R2 | FaceRotation::R2Prime | FaceRotation::F2 | FaceRotation::F2Prime
        | FaceRotation::D2 | FaceRotation::D2Prime | FaceRotation::L2 | FaceRotation::L2Prime
        | FaceRotation::B2 | FaceRotation::B2Prime => true,
        _ => false,
    }
}

/// Whether the rotation is a counter-clockwise quarter turn.
pub open spec fn is_counter_clockwise(m: FaceRotation) -> bool {
    match m {
        FaceRotation::RPrime | FaceRotation::FPrime | FaceRotation::DPrime
        | FaceRotation::LPrime | FaceRotation::BPrime => true,
        _ => false,
    }
}

/// Position of the turn among its face's three codes: quarter clockwise,
/// half turn, quarter counter-clockwise.
pub open spec fn turn_slot(m: FaceRotation) -> nat {
    if is_half_turn(m) {
        1
    } else if is_counter_clockwise(m) {
        2
    } else {
        0
    }
}

/// The code that identifies a rotation on the wire: three consecutive codes
/// per face.
pub open spec fn code_of(m: FaceRotation) -> u8 {
    (3 * face_of(m) + turn_slot(m)) as u8
}

/// Whether a wire code stands for a half turn.
pub open spec fn is_half_turn_code(code: u8) -> bool {
    code % 3 == 1
}

/// The rotation that a draw index selects, in the order of the enum.
pub open spec fn rotation_at(i: int) -> FaceRotation {
    if i == 0 { FaceRotation::R }
    else if i == 1 { FaceRotation::R2 }
    else if i == 2 { FaceRotation::R2Prime }
    else if i == 3 { FaceRotation::RPrime }
    else if i == 4 { FaceRotation::F }
    else if i == 5 { FaceRotation::F2 }
    else if i == 6 { FaceRotation::F2Prime }
    else if i == 7 { FaceRotation::FPrime }
    else if i == 8 { FaceRotation::D }
    else if i == 9 { FaceRotation::D2 }
    else if i == 10 { FaceRotation::D2Prime }
    else if i == 11 { FaceRotation::DPrime }
    else if i == 12 { FaceRotation::L }
    else if i == 13 { FaceRotation::L2 }
    else if i == 14 { FaceRotation::L2Prime }
    else if i == 15 { FaceRotation::LPrime }
    else if i == 16 { FaceRotation::B }
    else if i == 17 { FaceRotation::B2 }
    else if i == 18 { FaceRotation::B2Prime }
    else { FaceRotation::BPrime }
}

/// The label a rotation is shown under: the face letter, then `2` for a half
/// turn, then `'` for the counter-clockwise and the reverse-labelled forms.
pub open spec fn name_of(m: FaceRotation) -> Seq<char> {
    match m {
        FaceRotation::R => "R"@,
        FaceRotation::R2 => "R2"@,
        FaceRotation::R2Prime => "R2'"@,
        FaceRotation::RPrime => "R'"@,
        FaceRotation::F => "F"@,
        FaceRotation::F2 => "F2"@,
        FaceRotation::F2Prime => "F2'"@,
        FaceRotation::FPrime => "F'"@,
        FaceRotation::D => "D"@,
        FaceRotation::D2 => "D2"@,
        FaceRotation::D2Prime => "D2'"@,
        FaceRotation::DPrime => "D'"@,
        FaceRotation::L => "L"@,
        FaceRotation::L2 => "L2"@,
        FaceRotation::L2Prime => "L2'"@,
        FaceRotation::LPrime => "L'"@,
        FaceRotation::B => "B"@,
        FaceRotation::B2 => "B2"@,
        FaceRotation::B2Prime => "B2'"@,
        FaceRotation::BPrime => "B'"@,
    }
}

impl FaceRotation {
    /// The human-readable label of this rotation, for diagnostics.
    pub fn name(self) -> (r: &'static str)
        ensures
            r@ == name_of(self),
    {
        match self {
            FaceRotation::R => "R",
            FaceRotation::R2 => "R2",
            FaceRotation::R2Prime => "R2'",
            FaceRotation::RPrime => "R'",
            FaceRotation::F => "F",
            FaceRotation::F2 => "F2",
            FaceRotation::F2Prime => "F2'",
            FaceRotation::FPrime => "F'",
            FaceRotation::D => "D",
            FaceRotation::D2 => "D2",
            FaceRotation::D2Prime => "D2'",
            FaceRotation::DPrime => "D'",
            FaceRotation::L => "L",
            FaceRotation::L2 => "L2",
            FaceRotation::L2Prime => "L2'",
            FaceRotation::LPrime => "L'",
            FaceRotation::B => "B",
            FaceRotation::B2 => "B2",
            FaceRotation::B2Prime => "B2'",
            FaceRotation::BPrime => "B'",
        }
    }

    /// The wire code of this rotation.
    pub fn wire_code(self) -> (r: u8)
        ensures
            r == code_of(self),
            r <= MAX_WIRE_CODE,
    {
        match self {
            FaceRotation::R => 0,
            FaceRotation::R2 => 1,
            FaceRotation::R2Prime => 1,
            FaceRotation::RPrime => 2,
            FaceRotation::F => 3,
            FaceRotation::F2 => 4,
            FaceRotation::F2Prime => 4,
            FaceRotation::FPrime => 5,
            FaceRotation::D => 6,
            FaceRotation::D2 => 7,
            FaceRotation::D2Prime => 7,
            FaceRotation::DPrime => 8,
            FaceRotation::L => 9,
            FaceRotation::L2 => 10,
            FaceRotation::L2Prime => 10,
            FaceRotation::LPrime => 11,
            FaceRotation::B => 12,
            FaceRotation::B2 => 13,
            FaceRotation::B2Prime => 13,
            FaceRotation::BPrime => 14,
        }
    }

    /// The rotation a random draw selects: the draw modulo the number of
    /// rotations, as an index into the enum's order.
    pub fn from_draw(draw: u32) -> (r: FaceRotation)
        ensures
            r == rotation_at((draw % ROTATION_COUNT) as int),
    {
        let i: u32 = draw % ROTATION_COUNT;
        if i == 0 { FaceRotation::R }
        else if i == 1 { FaceRotation::R2 }
        else if i == 2 { FaceRotation::R2Prime }
        else if i == 3 { FaceRotation::RPrime }
        else if i == 4 { FaceRotation::F }
        else if i == 5 { FaceRotation::F2 }
        else if i == 6 { FaceRotation::F2Prime }
        else if i == 7 { FaceRotation::FPrime }
        else if i == 8 { FaceRotation::D }
        else if i == 9 { FaceRotation::D2 }
        else if i == 10 { FaceRotation::D2Prime }
        else if i == 11 { FaceRotation::DPrime }
        else if i == 12 { FaceRotation::L }
        else if i == 13 { FaceRotation::L2 }
        else if i == 14 { FaceRotation::L2Prime }
        else if i == 15 { FaceRotation::LPrime }
        else if i == 16 { FaceRotation::B }
        else if i == 17 { FaceRotation::B2 }
        else if i == 18 { FaceRotation::B2Prime }
        else { FaceRotation::BPrime }
    }
}

/// Whether a wire code stands for a half turn: the middle code of its face.
pub fn is_double_turn_move(m: u8) -> (r: bool)
    ensures
        r == is_half_turn_code(m),
{
    m % 3 == 1
}

/// Time a quarter turn takes to actuate, in milliseconds.
pub const QUARTER_TURN_DURATION_MS: usize = 150;

/// Time a half turn takes to actuate, in milliseconds.
pub const DOUBLE_TURN_DURATION_MS: usize = 250;

/// Estimated actuation time of the rotation with this wire code.
pub open spec fn code_duration(code: u8) -> nat {
    if is_half_turn_code(code) {
        DOUBLE_TURN_DURATION_MS as nat
    } else {
        QUARTER_TURN_DURATION_MS as nat
    }
}

/// Estimated actuation time, in milliseconds, of the rotation with wire code `m`.
pub fn move_duration(m: u8) -> (r: usize)
    ensures
        r == code_duration(m),
{
    if is_double_turn_move(m) {
        DOUBLE_TURN_DURATION_MS
    } else {
        QUARTER_TURN_DURATION_MS
    }
}

/// Every rotation has a wire code in `0..=14`; the two labels of each half
/// turn share one code; two rotations share a code only when they are those
/// two labels; and every code in `0..=14` is taken. So the twenty rotations
/// use exactly fifteen codes.
pub proof fn lemma_wire_codes(m: FaceRotation, n: FaceRotation, c: u8)
    ensures
        code_of(m) <= MAX_WIRE_CODE,
        code_of(FaceRotation::R2) == code_of(FaceRotation::R2Prime),
        code_of(FaceRotation::F2) == code_of(FaceRotation::F2Prime),
        code_of(FaceRotation::D2) == code_of(FaceRotation::D2Prime),
        code_of(FaceRotation::L2) == code_of(FaceRotation::L2Prime),
        code_of(FaceRotation::B2) == code_of(FaceRotation::B2Prime),
        code_of(m) == code_of(n) ==> m == n || (is_half_turn(m) && is_half_turn(n) && face_of(m)
            == face_of(n)),
        c <= MAX_WIRE_CODE ==> exists|k: FaceRotation| code_of(k) == c,
{
    if c <= MAX_WIRE_CODE {
        let k = rotation_at(c as int + (c as int + 2) / 3);
        assert(code_of(k) == c);
    }
}

/// A rotation's wire code is classified as a half turn exactly when the
/// rotation turns its face by 180 degrees.
pub proof fn lemma_half_turn_code(m: FaceRotation)
    ensures
        is_half_turn_code(code_of(m)) == is_half_turn(m),
{
}

impl From<FaceRotation> for u8 {
    fn from(mv: FaceRotation) -> (r: u8) {
        mv.wire_code()
    }
}

impl vstd::std_specs::convert::FromSpecImpl<FaceRotation> for u8 {
    open spec fn obeys_from_spec() -> bool {
        true
    }

    open spec fn from_spec(mv: FaceRotation) -> u8 {
        code_of(mv)
    }
}

} // verus!
