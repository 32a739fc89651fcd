use stratego_rs::{Rank, RankingSystem};

#[test]
fn test_special_cases() {
    assert_eq!(
        Rank::Spy.can_capture(&Rank::Marshal, RankingSystem::UsEu),
        true,
        "Spy should capture Marshal in UsEu"
    );
    assert_eq!(
        Rank::Spy.can_capture(&Rank::Marshal, RankingSystem::ClassicUs),
        true,
        "Spy should capture Marshal in ClassicUs"
    );
    assert_eq!(
        Rank::Miner.can_capture(&Rank::Bomb, RankingSystem::UsEu),
        true,
        "Miner should capture Bomb in UsEu"
    );
    assert_eq!(
        Rank::Miner.can_capture(&Rank::Bomb, RankingSystem::ClassicUs),
        true,
        "Miner should capture Bomb in ClassicUs"
    );
    assert_eq!(
        Rank::Flag.can_capture(&Rank::Scout, RankingSystem::UsEu),
        false,
        "Flag cannot capture in UsEu"
    );
    assert_eq!(
        Rank::Flag.can_capture(&Rank::Scout, RankingSystem::ClassicUs),
        false,
        "Flag cannot capture in ClassicUs"
    );
    assert_eq!(
        Rank::Bomb.can_capture(&Rank::Scout, RankingSystem::UsEu),
        false,
        "Bomb cannot capture in UsEu"
    );
    assert_eq!(
        Rank::Bomb.can_capture(&Rank::Scout, RankingSystem::ClassicUs),
        false,
        "Bomb cannot capture in ClassicUs"
    );
}

#[test]
fn test_invalid_captures() {
    assert_eq!(
        Rank::Marshal.can_capture(&Rank::Bomb, RankingSystem::UsEu),
        false,
        "Marshal cannot capture Bomb in UsEu"
    );
    assert_eq!(
        Rank::Scout.can_capture(&Rank::Bomb, RankingSystem::ClassicUs),
        false,
        "Scout cannot capture Bomb in ClassicUs"
    );
    assert_eq!(
        Rank::Marshal.can_capture(&Rank::Flag, RankingSystem::UsEu),
        false,
        "Marshal cannot capture Flag in UsEu"
    );
    assert_eq!(
        Rank::Scout.can_capture(&Rank::Flag, RankingSystem::ClassicUs),
        false,
        "Scout cannot capture Flag in ClassicUs"
    );
}

#[test]
fn test_equal_rank_captures() {
    assert_eq!(
        Rank::Scout.can_capture(&Rank::Scout, RankingSystem::UsEu),
        true,
        "Equal ranks can capture in UsEu"
    );
    assert_eq!(
        Rank::Captain.can_capture(&Rank::Captain, RankingSystem::UsEu),
        true,
        "Equal ranks can capture in UsEu"
    );
    assert_eq!(
        Rank::Scout.can_capture(&Rank::Scout, RankingSystem::ClassicUs),
        true,
        "Equal regular ranks can capture in ClassicUs"
    );
    assert_eq!(
        Rank::Captain.can_capture(&Rank::Captain, RankingSystem::ClassicUs),
        true,
        "Equal regular ranks can capture in ClassicUs"
    );
}

#[test]
fn test_us_eu_regular_captures() {
    assert_eq!(
        Rank::Marshal.can_capture(&Rank::General, RankingSystem::UsEu),
        true,
        "Marshal should capture General"
    );
    assert_eq!(
        Rank::General.can_capture(&Rank::Colonel, RankingSystem::UsEu),
        true,
        "General should capture Colonel"
    );
    assert_eq!(
        Rank::Colonel.can_capture(&Rank::Major, RankingSystem::UsEu),
        true,
        "Colonel should capture Major"
    );
    assert_eq!(
        Rank::Scout.can_capture(&Rank::Marshal, RankingSystem::UsEu),
        false,
        "Scout cannot capture Marshal"
    );
    assert_eq!(
        Rank::Sergeant.can_capture(&Rank::Colonel, RankingSystem::UsEu),
        false,
        "Sergeant cannot capture Colonel"
    );
}

#[test]
fn test_classic_us_regular_captures() {
    assert_eq!(
        Rank::Colonel.can_capture(&Rank::Major, RankingSystem::ClassicUs),
        true,
        "Colonel (1) should capture Major (2)"
    );
    assert_eq!(
        Rank::Major.can_capture(&Rank::Captain, RankingSystem::ClassicUs),
        true,
        "Major (2) should capture Captain (3)"
    );
    assert_eq!(
        Rank::Captain.can_capture(&Rank::Lieutenant, RankingSystem::ClassicUs),
        true,
        "Captain (3) should capture Lieutenant (4)"
    );
    assert_eq!(
        Rank::Colonel.can_capture(&Rank::General, RankingSystem::ClassicUs),
        true,
        "Colonel should capture General"
    );
    assert_eq!(
        Rank::Major.can_capture(&Rank::Marshal, RankingSystem::ClassicUs),
        true,
        "Major should capture Marshal"
    );
    assert_eq!(
        Rank::General.can_capture(&Rank::Colonel, RankingSystem::ClassicUs),
        false,
        "General cannot capture Colonel"
    );
    assert_eq!(
        Rank::Marshal.can_capture(&Rank::Major, RankingSystem::ClassicUs),
        false,
        "Marshal cannot capture Major"
    );
}
