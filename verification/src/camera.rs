//! The camera transform as the device sees it, and the motions a key asks
//! of the camera.
//!
//! The pose of the camera and the arithmetic on it live with the caller; the
//! library takes the finished transform, as sixteen bit patterns, and keeps
//! the uniform that mirrors it.
use crate::pod::{le_bytes_u32, lemma_u32_round_trip, push_u32, Pod};
use vstd::prelude::*;

verus! {

/// The bit pattern of the single-precision number 1.
pub const ONE: u32 = 0x3F80_0000;

/// A key of the keyboard, as far as the camera cares.
#[derive(Clone, Copy, Debug, PartialEq, Eq, Structural)]
pub enum KeyCode {
    W,
    A,
    S,
    D,
    Up,
    Down,
    Left,
    Right,
    /// Any other key.
    Other,
}

/// One of the four motions of the camera.
#[derive(Clone, Copy, Debug, PartialEq, Eq, Structural)]
pub enum Direction {
    /// Towards the target.
    Forward,
    /// Away from the target.
    Backward,
    /// Sideways, to the right of the line of sight.
    Right,
    /// Sideways, to the left of the line of sight.
    Left,
}

impl Direction {
    /// `W` and `Up` move forward, `S` and `Down` backward, `D` and `Right`
    /// to the right, `A` and `Left` to the left; no other key moves the
    /// camera.
    pub open spec fn spec_from_key(key: KeyCode) -> Option<Direction> {
        match key {
            KeyCode::W | KeyCode::Up => Some(Direction::Forward),
            KeyCode::S | KeyCode::Down => Some(Direction::Backward),
            KeyCode::D | KeyCode::Right => Some(Direction::Right),
            KeyCode::A | KeyCode::Left => Some(Direction::Left),
            KeyCode::Other => None,
        }
    }

    /// The motion that `key` asks for, if any.
    pub fn from_key(key: KeyCode) -> (direction: Option<Direction>)
        ensures
            direction == Self::spec_from_key(key),
    {
        match key {
            KeyCode::W | KeyCode::Up => Some(Direction::Forward),
            KeyCode::S | KeyCode::Down => Some(Direction::Backward),
            KeyCode::D | KeyCode::Right => Some(Direction::Right),
            KeyCode::A | KeyCode::Left => Some(Direction::Left),
            KeyCode::Other => None,
        }
    }
}

/// The identity transform: 1 on the diagonal, 0 elsewhere.
pub open spec fn identity() -> [[u32; 4]; 4] {
    [[ONE, 0, 0, 0], [0, ONE, 0, 0], [0, 0, ONE, 0], [0, 0, 0, ONE]]
}

/// The bytes of one column: its four words, top row first.
pub open spec fn column_bytes(column: [u32; 4]) -> Seq<u8> {
    le_bytes_u32(column[0]) + le_bytes_u32(column[1]) + le_bytes_u32(column[2]) + le_bytes_u32(
        column[3],
    )
}

/// The transform from model space to clip space, as the vertex stage reads
/// it: a 4 by 4 matrix of single-precision numbers, one column after
/// another, so that `mvp[c][r]` is the entry in column `c` and row `r`.
#[derive(Clone, Copy, Debug, PartialEq, Eq)]
pub struct CameraBufferData {
    pub mvp: [[u32; 4]; 4],
}

impl Pod for CameraBufferData {
    open spec fn spec_size() -> nat {
        64
    }

    /// The four columns, first to last.
    open spec fn bytes(&self) -> Seq<u8> {
        column_bytes(self.mvp[0]) + column_bytes(self.mvp[1]) + column_bytes(self.mvp[2])
            + column_bytes(self.mvp[3])
    }

    proof fn lemma_bytes_len(&self) {
    }

    proof fn lemma_bytes_injective(&self, other: &Self) {
        assert forall|c: int, r: int| 0 <= c < 4 && 0 <= r < 4 implies self.mvp[c][r]
            == other.mvp[c][r] by {
            lemma_entry_bytes(*self, c, r);
            lemma_entry_bytes(*other, c, r);
            lemma_u32_round_trip(self.mvp[c][r]);
            lemma_u32_round_trip(other.mvp[c][r]);
        }
        assert forall|c: int| 0 <= c < 4 implies self.mvp[c] == other.mvp[c] by {
            assert(self.mvp[c] =~= other.mvp[c]);
        }
        assert(self.mvp =~= other.mvp);
    }

    fn size() -> (n: usize) {
        64
    }

    fn write_bytes(&self, out: &mut Vec<u8>) {
        let mut c: usize = 0;
        while c < 4
            invariant
                0 <= c <= 4,
                c == 0 ==> out@ == old(out)@,
                c == 1 ==> out@ == old(out)@ + column_bytes(self.mvp[0]),
                c == 2 ==> out@ == old(out)@ + column_bytes(self.mvp[0]) + column_bytes(
                    self.mvp[1],
                ),
                c == 3 ==> out@ == old(out)@ + column_bytes(self.mvp[0]) + column_bytes(
                    self.mvp[1],
                ) + column_bytes(self.mvp[2]),
                c == 4 ==> out@ == old(out)@ + self.bytes(),
            decreases 4 - c,
        {
            let ghost before = out@;
            let column = self.mvp[c];
            push_u32(out, column[0]);
            push_u32(out, column[1]);
            push_u32(out, column[2]);
            push_u32(out, column[3]);
            assert(out@ =~= before + column_bytes(column));
            c += 1;
            assert(c == 4 ==> out@ =~= old(out)@ + self.bytes());
        }
    }
}

/// The entry in column `c` and row `r` occupies the four bytes from
/// `16 * c + 4 * r` on.
pub proof fn lemma_entry_bytes(data: CameraBufferData, c: int, r: int)
    requires
        0 <= c < 4,
        0 <= r < 4,
    ensures
        data.bytes().subrange(16 * c + 4 * r, 16 * c + 4 * r + 4) == le_bytes_u32(data.mvp[c][r]),
{
    assert(data.bytes().subrange(16 * c + 4 * r, 16 * c + 4 * r + 4) =~= le_bytes_u32(
        data.mvp[c][r],
    ));
}

impl CameraBufferData {
    /// The identity transform.
    pub fn new() -> (data: Self)
        ensures
            data.mvp == identity(),
    {
        CameraBufferData {
            mvp: [[ONE, 0, 0, 0], [0, ONE, 0, 0], [0, 0, ONE, 0], [0, 0, 0, ONE]],
        }
    }

    /// The transform with the given columns.
    pub fn new_with_data(data: [[u32; 4]; 4]) -> (result: Self)
        ensures
            result.mvp == data,
    {
        CameraBufferData { mvp: data }
    }

    /// Replaces the transform.
    pub fn set_mvp(&mut self, mvp: [[u32; 4]; 4])
        ensures
            final(self).mvp == mvp,
    {
        self.mvp = mvp;
    }
}

} // verus!
