use std::collections::HashMap;
use vstd::prelude::*;
use crate::piece::Piece;
use crate::position::Position;
use crate::team::Team;

verus! {

broadcast use vstd::std_specs::hash::group_hash_axioms;

/// The key under which a square is stored: its row and column as the high and
/// low byte of a `u16`.
pub open spec fn square_key(p: Position) -> u16 {
    (p.row as int * 256 + p.col as int) as u16
}

/// Distinct squares have distinct keys.
proof fn lemma_square_key_injective(p: Position, q: Position)
    ensures
        square_key(p) == square_key(q) ==> p == q,
{
    assert(0 <= p.row as int * 256 + p.col as int <= 65535) by (nonlinear_arith);
    assert(0 <= q.row as int * 256 + q.col as int <= 65535) by (nonlinear_arith);
    if square_key(p) == square_key(q) {
        let (a, b, c, d) = (p.row as int, p.col as int, q.row as int, q.col as int);
        assert(a * 256 + b == c * 256 + d);
        assert(a == c) by (nonlinear_arith)
            requires
                a * 256 + b == c * 256 + d,
                0 <= b < 256,
                0 <= d < 256,
        ;
    }
}

/// A game session: the board, which holds at most one piece per square, and
/// the side whose turn it is.
#[derive(Debug)]
pub struct Game {
    board: HashMap<u16, Piece>,
    current_player: Team,
}

impl View for Game {
    type V = Map<Position, Piece>;

    /// The board as a map from squares to the pieces that stand on them.
    closed spec fn view(&self) -> Map<Position, Piece> {
        Map::new(
            |p: Position| self.board@.contains_key(square_key(p)),
            |p: Position| self.board@[square_key(p)],
        )
    }
}

/// What a lookup of `p` on a board `b` yields.
pub open spec fn piece_on(b: Map<Position, Piece>, p: Position) -> Option<Piece> {
    if b.contains_key(p) {
        Some(b[p])
    } else {
        None
    }
}

impl Game {
    /// The side whose turn it is.
    pub closed spec fn turn(&self) -> Team {
        self.current_player
    }

    /// An empty board, with Red to move.
    pub fn new() -> (r: Self)
        ensures
            r@ == Map::<Position, Piece>::empty(),
            r.turn() == Team::Red,
    {
        let r = Game { board: HashMap::new(), current_player: Team::Red };
        assert(r@ =~= Map::<Position, Piece>::empty());
        r
    }

    fn key(position: Position) -> (k: u16)
        ensures
            k == square_key(position),
    {
        assert(position.row as int * 256 + position.col as int <= 65535) by (nonlinear_arith)
            requires
                position.row < 256,
                position.col < 256,
        ;
        (position.row as u16) * 256 + (position.col as u16)
    }

    /// Puts `piece` on `position`, replacing whatever stood there. Nothing is
    /// refused: checking the square is the caller's part.
    pub fn add_piece(&mut self, piece: Piece, position: Position)
        ensures
            final(self)@ == old(self)@.insert(position, piece),
            final(self).turn() == old(self).turn(),
    {
        let k = Game::key(position);
        self.board.insert(k, piece);
        assert forall|p: Position| #[trigger] square_key(p) == k implies p == position by {
            lemma_square_key_injective(p, position);
        }
        assert(self@ =~= old(self)@.insert(position, piece));
    }

    /// The side whose turn it is.
    pub fn current_player(&self) -> (r: Team)
        ensures
            r == self.turn(),
    {
        self.current_player
    }

    /// The piece on `position`, if any.
    pub fn get(&self, position: Position) -> (r: Option<Piece>)
        ensures
            r == piece_on(self@, position),
    {
        match self.board.get(&Game::key(position)) {
            Some(p) => Some(*p),
            None => None,
        }
    }
}

/// A lookup right after a placement yields the placed piece, and a second
/// placement on the same square replaces the first.
pub proof fn lemma_place_then_get(b: Map<Position, Piece>, p: Position, first: Piece, second: Piece)
    ensures
        piece_on(b.insert(p, first), p) == Some(first),
        piece_on(b.insert(p, first).insert(p, second), p) == Some(second),
{
}

} // verus!
