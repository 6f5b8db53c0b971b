//! The move wire format, moves paired with a synchronization counter, and the
//! codec between the wire format and the safe move value.

use vstd::prelude::*;

verus! {

/// Counter value used by games without hidden information or randomness.
pub const SYNC_CTR_DEFAULT: u64 = 0;

/// Move code that signals "no move".
pub const MOVE_NONE: u64 = 0xFFFF_FFFF_FFFF_FFFF;

/// Player id that signals "no player".
pub const PLAYER_NONE: u8 = 0;

/// Player id of the random-move "player".
pub const PLAYER_RAND: u8 = 0xFF;

/// A move paired with a synchronization counter.
#[derive(Clone, Copy, Debug)]
pub struct MoveDataSync<M> {
    pub md: M,
    pub sync_ctr: u64,
}

impl<M> MoveDataSync<M> {
    /// Pairs `md` with the default synchronization counter.
    pub fn with_default(md: M) -> (r: Self)
        ensures
            r.md == md,
            r.sync_ctr == SYNC_CTR_DEFAULT,
    {
        MoveDataSync { md, sync_ctr: SYNC_CTR_DEFAULT }
    }
}

/// A move as it crosses the boundary: a union discriminated by whether a
/// payload is present.
///
/// Without a payload (`data` is `None`, the null pointer), `cl` is a move
/// code. With one (possibly empty), `cl` is the payload's length.
#[derive(Clone, Debug)]
pub struct RawMoveData {
    pub cl: u64,
    pub data: Option<Vec<u8>>,
}

/// Mathematical value of a move: a fixed code or a byte sequence.
pub enum MoveValue {
    Code(u64),
    Bytes(Seq<u8>),
}

/// Mathematical content of a wire move.
pub struct RawMoveView {
    pub cl: u64,
    pub data: Option<Seq<u8>>,
}

impl View for RawMoveData {
    type V = RawMoveView;

    open spec fn view(&self) -> RawMoveView {
        RawMoveView {
            cl: self.cl,
            data: match self.data {
                Some(b) => Some(b@),
                None => None,
            },
        }
    }
}

impl RawMoveData {
    /// The length field agrees with the payload, where there is one.
    pub open spec fn wf(&self) -> bool {
        self.data is Some ==> self.cl == self.data->Some_0@.len()
    }
}

/// Reading a wire move: no payload means a fixed code, any payload (also an
/// empty one) means a variable-length move.
pub open spec fn spec_decode(raw: RawMoveView) -> MoveValue {
    match raw.data {
        None => MoveValue::Code(raw.cl),
        Some(b) => MoveValue::Bytes(b),
    }
}

/// Writing a wire move: a code goes into `cl` with no payload; bytes go into
/// the payload with their length in `cl`.
pub open spec fn spec_encode(m: MoveValue) -> RawMoveView {
    match m {
        MoveValue::Code(c) => RawMoveView { cl: c, data: None },
        MoveValue::Bytes(b) => RawMoveView { cl: b.len() as u64, data: Some(b) },
    }
}

/// The pair of a wire move and its synchronization counter.
pub type RawMoveDataSync = MoveDataSync<RawMoveData>;

} // verus!
