use vstd::prelude::*;

verus! {

/// The twelve ranks a piece can have, listed from the weakest to the
/// strongest, with the two immovable pieces (Flag, Bomb) at the ends.
#[derive(Debug, Clone, Copy, PartialEq, Eq, Structural)]
pub enum Rank {
    Flag,
    Spy,
    Scout,
    Miner,
    Sergeant,
    Lieutenant,
    Captain,
    Major,
    Colonel,
    General,
    Marshal,
    Bomb,
}

/// The ruleset that decides how ranks compare in combat.
#[derive(Debug, Clone, Copy, PartialEq, Eq, Structural)]
pub enum RankingSystem {
    UsEu,
    ClassicUs,
}

/// The largest strength of the ordinary band under `ClassicUs`; General and
/// Marshal sit above it and lose to every piece of the band.
pub const CLASSIC_BAND_MAX: u8 = 8;

impl Rank {
    /// Strength of a rank under a ranking system; Flag and Bomb have none.
    pub open spec fn strength(self, system: RankingSystem) -> Option<u8> {
        match system {
            RankingSystem::UsEu => match self {
                Rank::Flag => None,
                Rank::Spy => Some(1),
                Rank::Scout => Some(2),
                Rank::Miner => Some(3),
                Rank::Sergeant => Some(4),
                Rank::Lieutenant => Some(5),
                Rank::Captain => Some(6),
                Rank::Major => Some(7),
                Rank::Colonel => Some(8),
                Rank::General => Some(9),
                Rank::Marshal => Some(10),
                Rank::Bomb => None,
            },
            RankingSystem::ClassicUs => match self {
                Rank::Flag => None,
                Rank::Spy => Some(8),
                Rank::Scout => Some(7),
                Rank::Miner => Some(6),
                Rank::Sergeant => Some(5),
                Rank::Lieutenant => Some(4),
                Rank::Captain => Some(3),
                Rank::Major => Some(2),
                Rank::Colonel => Some(1),
                Rank::General => Some(10),
                Rank::Marshal => Some(11),
                Rank::Bomb => None,
            },
        }
    }

    /// Position of the rank in the listing of the enumeration.
    pub open spec fn listed(self) -> nat {
        match self {
            Rank::Flag => 0,
            Rank::Spy => 1,
            Rank::Scout => 2,
            Rank::Miner => 3,
            Rank::Sergeant => 4,
            Rank::Lieutenant => 5,
            Rank::Captain => 6,
            Rank::Major => 7,
            Rank::Colonel => 8,
            Rank::General => 9,
            Rank::Marshal => 10,
            Rank::Bomb => 11,
        }
    }

    /// A rank that fights by strength: neither Flag nor Bomb.
    pub open spec fn is_ordinary(self) -> bool {
        self != Rank::Flag && self != Rank::Bomb
    }

    /// An ordinary rank other than General and Marshal.
    pub open spec fn in_classic_band(self) -> bool {
        self.is_ordinary() && self != Rank::General && self != Rank::Marshal
    }

    /// The comparison of two strengths once no special case applies.
    pub open spec fn strength_wins(v1: u8, v2: u8, system: RankingSystem) -> bool {
        match system {
            RankingSystem::UsEu => v1 >= v2,
            RankingSystem::ClassicUs => if v1 <= CLASSIC_BAND_MAX && v2 <= CLASSIC_BAND_MAX {
                v1 <= v2
            } else {
                v1 <= CLASSIC_BAND_MAX && v2 > CLASSIC_BAND_MAX
            },
        }
    }

    /// Whether an attack of `self` on `defender` succeeds: the special cases
    /// first (Spy on Marshal, attacks on a Bomb, Flag on either side, Bomb as
    /// attacker), then the comparison of strengths.
    pub open spec fn captures(self, defender: Rank, system: RankingSystem) -> bool {
        if self == Rank::Spy && defender == Rank::Marshal {
            true
        } else if defender == Rank::Bomb {
            self == Rank::Miner
        } else if self == Rank::Flag || defender == Rank::Flag {
            false
        } else if self == Rank::Bomb {
            false
        } else {
            match (self.strength(system), defender.strength(system)) {
                (Some(v1), Some(v2)) => Rank::strength_wins(v1, v2, system),
                _ => false,
            }
        }
    }

    /// The strength of this rank under `system`, `None` for Flag and Bomb.
    pub fn value(&self, system: RankingSystem) -> (r: Option<u8>)
        ensures
            r == self.strength(system),
    {
        match system {
            RankingSystem::UsEu => match self {
                Rank::Flag => None,
                Rank::Bomb => None,
                Rank::Spy => Some(1),
                Rank::Scout => Some(2),
                Rank::Miner => Some(3),
                Rank::Sergeant => Some(4),
                Rank::Lieutenant => Some(5),
                Rank::Captain => Some(6),
                Rank::Major => Some(7),
                Rank::Colonel => Some(8),
                Rank::General => Some(9),
                Rank::Marshal => Some(10),
            },
            RankingSystem::ClassicUs => match self {
                Rank::Flag => None,
                Rank::Bomb => None,
                Rank::Spy => Some(8),
                Rank::Scout => Some(7),
                Rank::Miner => Some(6),
                Rank::Sergeant => Some(5),
                Rank::Lieutenant => Some(4),
                Rank::Captain => Some(3),
                Rank::Major => Some(2),
                Rank::Colonel => Some(1),
                Rank::General => Some(10),
                Rank::Marshal => Some(11),
            },
        }
    }

    /// Whether this rank, attacking, captures `other` under `system`.
    pub fn can_capture(&self, other: &Rank, system: RankingSystem) -> (r: bool)
        ensures
            r == self.captures(*other, system),
    {
        match (self, other) {
            (Rank::Spy, Rank::Marshal) => true,
            (Rank::Miner, Rank::Bomb) => true,
            (Rank::Flag, _) => false,
            (Rank::Bomb, _) => false,
            _ => {
                if let (Some(v1), Some(v2)) = (self.value(system), other.value(system)) {
                    match system {
                        RankingSystem::ClassicUs => {
                            if v1 <= CLASSIC_BAND_MAX && v2 <= CLASSIC_BAND_MAX {
                                v1 <= v2
                            } else if v1 <= CLASSIC_BAND_MAX {
                                true
                            } else {
                                false
                            }
                        },
                        RankingSystem::UsEu => v1 >= v2,
                    }
                } else {
                    false
                }
            },
        }
    }
}

/// A Flag neither captures nor is captured, whatever the other rank and the system.
pub proof fn lemma_flag_never_in_combat(r: Rank, system: RankingSystem)
    ensures
        !Rank::Flag.captures(r, system),
        !r.captures(Rank::Flag, system),
{
}

/// Only a Miner captures a Bomb, and a Miner always does.
pub proof fn lemma_only_miner_defuses_bomb(r: Rank, system: RankingSystem)
    ensures
        r.captures(Rank::Bomb, system) <==> r == Rank::Miner,
{
}

/// A Bomb never captures anything.
pub proof fn lemma_bomb_never_attacks(r: Rank, system: RankingSystem)
    ensures
        !Rank::Bomb.captures(r, system),
{
}

/// A Spy that attacks a Marshal captures it, under either system.
pub proof fn lemma_spy_takes_marshal(system: RankingSystem)
    ensures
        Rank::Spy.captures(Rank::Marshal, system),
{
}

/// Two pieces of the same ordinary rank capture each other; under `ClassicUs`
/// this holds for the ranks of the ordinary band only, since General and
/// Marshal lie outside it and lose every comparison of strengths.
pub proof fn lemma_equal_ranks_capture(r: Rank, system: RankingSystem)
    requires
        r.is_ordinary(),
        system == RankingSystem::ClassicUs ==> r.in_classic_band(),
    ensures
        r.captures(r, system),
{
}

/// Under `UsEu`, of two ordinary ranks the one listed higher captures the one
/// listed lower and not the other way round, except for a Spy attacking a
/// Marshal.
pub proof fn lemma_us_eu_monotone(hi: Rank, lo: Rank)
    requires
        hi.is_ordinary(),
        lo.is_ordinary(),
        hi.listed() > lo.listed(),
    ensures
        hi.captures(lo, RankingSystem::UsEu),
        !(lo == Rank::Spy && hi == Rank::Marshal) ==> !lo.captures(hi, RankingSystem::UsEu),
{
}

/// Under `ClassicUs`, within the ordinary band the rank listed higher captures
/// the rank listed lower and not the other way round.
pub proof fn lemma_classic_band_monotone(hi: Rank, lo: Rank)
    requires
        hi.in_classic_band(),
        lo.in_classic_band(),
        hi.listed() > lo.listed(),
    ensures
        hi.captures(lo, RankingSystem::ClassicUs),
        !lo.captures(hi, RankingSystem::ClassicUs),
{
}

/// Under `ClassicUs`, every rank of the ordinary band captures a General or a
/// Marshal, and a General or a Marshal captures no rank of the band.
pub proof fn lemma_classic_cross_band(band: Rank, top: Rank)
    requires
        band.in_classic_band(),
        top == Rank::General || top == Rank::Marshal,
    ensures
        band.captures(top, RankingSystem::ClassicUs),
        !top.captures(band, RankingSystem::ClassicUs),
{
}

} // verus!
