use vstd::prelude::*;
use crate::face_rotation::{
    code_of, code_duration, move_duration, FaceRotation, DOUBLE_TURN_DURATION_MS,
};

verus! {

/// Size of the buffer written to the move characteristic.
pub const BUFFER_LEN: usize = 18;

/// Most moves one buffer carries.
pub const MAX_MOVES: usize = 8;

/// Byte value of a buffer slot that holds no move.
pub const SENTINEL: u8 = 0xFF;

/// Low nibble of the last used byte when the number of moves is odd.
pub const TERMINATOR: u8 = 0x0F;

/// Byte `j` of the buffer for `moves`: move `2j` in the high nibble, move
/// `2j + 1` (or the terminator when there is none) in the low nibble, and the
/// sentinel past the moves.
pub open spec fn encoded_byte(moves: Seq<FaceRotation>, j: int) -> u8 {
    if 2 * j + 1 < moves.len() {
        (code_of(moves[2 * j]) * 16 + code_of(moves[2 * j + 1])) as u8
    } else if 2 * j < moves.len() {
        (code_of(moves[2 * j]) * 16 + TERMINATOR) as u8
    } else {
        SENTINEL
    }
}

/// The whole buffer for `moves`.
pub open spec fn encoding(moves: Seq<FaceRotation>) -> Seq<u8> {
    Seq::new(BUFFER_LEN as nat, |j: int| encoded_byte(moves, j))
}

/// Packs a batch of moves into the buffer the peripheral expects, two moves
/// per byte in execution order.
pub fn encode(moves: &[FaceRotation]) -> (r: [u8; 18])
    requires
        moves@.len() <= MAX_MOVES,
    ensures
        r@ == encoding(moves@),
{
    let mut bytes: [u8; 18] = [SENTINEL; 18];
    let n: usize = moves.len();
    let mut j: usize = 0;
    while 2 * j < n
        invariant
            n == moves@.len(),
            n <= MAX_MOVES,
            j <= 4,
            2 * j <= n + 1,
            bytes@.len() == BUFFER_LEN,
            forall|k: int| 0 <= k < j ==> bytes@[k] == encoded_byte(moves@, k),
            forall|k: int| j <= k < BUFFER_LEN ==> bytes@[k] == SENTINEL,
        decreases n + 1 - 2 * j,
    {
        let high: u8 = moves[2 * j].wire_code();
        let low: u8 = if 2 * j + 1 < n {
            moves[2 * j + 1].wire_code()
        } else {
            TERMINATOR
        };
        bytes[j] = high * 16 + low;
        j = j + 1;
    }
    assert(bytes@ =~= encoding(moves@));
    bytes
}

/// The wire code of move `i` as read back from a buffer: the high nibble of
/// byte `i / 2` for even `i`, its low nibble for odd `i`.
pub open spec fn code_at(bytes: Seq<u8>, i: int) -> u8 {
    if i % 2 == 0 {
        bytes[i / 2] / 16
    } else {
        bytes[i / 2] % 16
    }
}

/// Given the number of moves, every move's wire code reads back from the
/// buffer; so two batches of one length with the same buffer agree move by
/// move, up to the two labels of a half turn.
pub proof fn lemma_encoding_decodes(moves: Seq<FaceRotation>, other: Seq<FaceRotation>)
    requires
        moves.len() <= MAX_MOVES,
        other.len() == moves.len(),
    ensures
        forall|i: int| 0 <= i < moves.len() ==> code_at(encoding(moves), i) == code_of(moves[i]),
        encoding(moves) == encoding(other) ==> forall|i: int|
            0 <= i < moves.len() ==> code_of(moves[i]) == code_of(other[i]),
{
    assert forall|i: int| 0 <= i < moves.len() implies code_at(encoding(moves), i) == code_of(
        moves[i],
    ) by {
        lemma_byte_nibbles(moves, i);
    }
    if encoding(moves) == encoding(other) {
        assert forall|i: int| 0 <= i < moves.len() implies code_of(moves[i]) == code_of(
            other[i],
        ) by {
            lemma_byte_nibbles(moves, i);
            lemma_byte_nibbles(other, i);
        }
    }
}

proof fn lemma_byte_nibbles(moves: Seq<FaceRotation>, i: int)
    requires
        moves.len() <= MAX_MOVES,
        0 <= i < moves.len(),
    ensures
        code_at(encoding(moves), i) == code_of(moves[i]),
{
    let j = i / 2;
    let h = code_of(moves[2 * j]);
    let l: u8 = if 2 * j + 1 < moves.len() {
        code_of(moves[2 * j + 1])
    } else {
        TERMINATOR
    };
    assert(h <= 14 && l <= 15);
    assert(encoding(moves)[j] == (h * 16 + l) as u8);
    assert((h * 16 + l) / 16 == h && (h * 16 + l) % 16 == l) by (nonlinear_arith)
        requires
            h <= 14,
            l <= 15,
    ;
}

/// Estimated actuation time of a batch: the sum of each move's duration.
pub open spec fn duration_of(moves: Seq<FaceRotation>) -> nat
    decreases moves.len(),
{
    if moves.len() == 0 {
        0
    } else {
        duration_of(moves.drop_last()) + code_duration(code_of(moves.last()))
    }
}

/// Estimated time, in milliseconds, that the peripheral needs to perform `moves`.
pub fn estimated_duration_ms(moves: &[FaceRotation]) -> (r: usize)
    requires
        moves@.len() * DOUBLE_TURN_DURATION_MS <= usize::MAX,
    ensures
        r == duration_of(moves@),
{
    let mut total: usize = 0;
    let mut i: usize = 0;
    while i < moves.len()
        invariant
            i <= moves@.len(),
            moves@.len() * DOUBLE_TURN_DURATION_MS <= usize::MAX,
            total == duration_of(moves@.subrange(0, i as int)),
            total <= i * DOUBLE_TURN_DURATION_MS,
        decreases moves@.len() - i,
    {
        assert(moves@.subrange(0, i + 1).drop_last() =~= moves@.subrange(0, i as int));
        total = total + move_duration(moves[i].wire_code());
        i = i + 1;
    }
    assert(moves@.subrange(0, i as int) =~= moves@);
    total
}

/// The pause before the first completion check: three quarters of the
/// estimated duration, rounded down.
pub fn completion_pause_ms(duration_ms: usize) -> (r: usize)
    ensures
        r == duration_ms * 3 / 4,
{
    let q: usize = duration_ms / 4;
    let rem: usize = duration_ms % 4;
    assert(q * 3 <= duration_ms) by (nonlinear_arith)
        requires
            q == duration_ms / 4,
    ;
    assert(q * 3 + rem * 3 / 4 == duration_ms * 3 / 4) by (nonlinear_arith)
        requires
            q == duration_ms / 4,
            rem == duration_ms % 4,
    ;
    q * 3 + rem * 3 / 4
}

/// The estimated duration of two batches run one after the other is the sum
/// of their estimated durations.
pub proof fn lemma_duration_additive(a: Seq<FaceRotation>, b: Seq<FaceRotation>)
    ensures
        duration_of(a + b) == duration_of(a) + duration_of(b),
    decreases b.len(),
{
    if b.len() == 0 {
        assert(a + b =~= a);
    } else {
        lemma_duration_additive(a, b.drop_last());
        assert((a + b).drop_last() =~= a + b.drop_last());
        assert((a + b).last() == b.last());
    }
}

} // verus!
