use vstd::prelude::*;
use crate::rank::Rank;

verus! {

/// A piece on the board: its rank and whether the opponent has seen it.
#[derive(Debug, Clone, Copy, PartialEq, Eq, Structural)]
pub struct Piece {
    pub rank: Rank,
    pub revealed: bool,
}

impl Piece {
    /// The piece after its rank has been shown to the opponent.
    pub open spec fn shown(self) -> Piece {
        Piece { rank: self.rank, revealed: true }
    }

    /// A hidden piece of the given rank.
    pub fn new(rank: Rank) -> (r: Self)
        ensures
            r.rank == rank,
            !r.revealed,
    {
        Piece { rank, revealed: false }
    }

    /// Shows the piece to the opponent; a revealed piece stays revealed.
    pub fn mark_revealed(&mut self)
        ensures
            *final(self) == old(self).shown(),
    {
        self.revealed = true;
    }
}

/// Revealing a piece a second time changes nothing: the piece stays revealed
/// with the same rank.
pub proof fn lemma_reveal_idempotent(p: Piece)
    ensures
        p.shown().shown() == p.shown(),
        p.shown().revealed,
        p.shown().rank == p.rank,
{
}

} // verus!
