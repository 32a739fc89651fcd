//! Combat rules and board geometry for a two-player hidden-information grid
//! strategy game: which rank may capture which under a chosen ranking system,
//! where a square lies on the board, and a board that maps squares to pieces.

mod game;
mod piece;
mod position;
mod rank;
mod team;

pub use game::{Game, lemma_place_then_get, piece_on};
pub use piece::Piece;
pub use piece::lemma_reveal_idempotent;
pub use position::Position;
pub use rank::Rank;
pub use rank::RankingSystem;
pub use rank::{
    lemma_bomb_never_attacks, lemma_classic_band_monotone, lemma_classic_cross_band,
    lemma_equal_ranks_capture, lemma_flag_never_in_combat, lemma_only_miner_defuses_bomb,
    lemma_spy_takes_marshal, lemma_us_eu_monotone,
};
pub use team::Team;
