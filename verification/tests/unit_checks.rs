use wars_core::attack_pattern::AttackPatternType;
use wars_core::config::movement_type_config::MovementPattern;
use wars_core::config::unit_filter::UnitFilter;
use wars_core::config::global_events::GlobalEventType;
use wars_core::config::kind_filter::KindFilter;
use wars_core::config::unit_filter_check::{KindFacts, LocalFacts, LocalTarget, UnitFacts};
use wars_core::config::CommanderType;
use wars_core::fog::FogIntensity;
use wars_core::fraction::Fraction;
use wars_core::tags::FlagKey;
use wars_core::terrain::TerrainType;
use wars_core::tokens::TokenType;
use wars_core::units::{HeroType, MovementType, UnitType};

fn facts() -> UnitFacts {
    UnitFacts {
        typ: UnitType(1),
        owner: 0,
        current_owner: 1,
        flags: vec![FlagKey(2)],
        tags: vec![],
        movement_type: MovementType(0),
        sub_movement_type: MovementType(1),
        movement_pattern: MovementPattern::Standard,
        attack_pattern: AttackPatternType::Custom("cone".to_string()),
        terrain: TerrainType(3),
        tokens: vec![TokenType(0)],
        nearby_heroes: vec![(HeroType(1), 2)],
        owned_heroes: vec![(HeroType(1), 2), (HeroType(4), 0)],
        hero: Some((HeroType(5), 1, 3, 4)),
        commander: (CommanderType(2), 1, 50),
        fog: FogIntensity::Light,
        moved: true,
        carried: false,
    }
}

fn no_script(_: usize, _: (), _: bool) -> bool {
    false
}

#[test]
fn unit_filter_checks_the_unit() {
    let u = facts();
    assert!(UnitFilter::Unit(vec![UnitType(0), UnitType(1)]).check(&u, None, false, (), false, &no_script));
    assert!(!UnitFilter::Unit(vec![UnitType(0)]).check(&u, None, false, (), false, &no_script));
    assert!(UnitFilter::Flag(vec![FlagKey(2)]).check(&u, None, false, (), false, &no_script));
    assert!(!UnitFilter::Flag(vec![FlagKey(1)]).check(&u, None, false, (), false, &no_script));
    assert!(UnitFilter::Token(vec![TokenType(0)]).check(&u, None, false, (), false, &no_script));
    assert!(UnitFilter::Terrain(vec![TerrainType(3)]).check(&u, None, false, (), false, &no_script));
    assert!(UnitFilter::SubMovement(vec![MovementType(1)]).check(&u, None, false, (), false, &no_script));
    assert!(UnitFilter::Moved.check(&u, None, false, (), false, &no_script));
    assert!(!UnitFilter::Carried.check(&u, None, false, (), false, &no_script));
    assert!(!UnitFilter::Unowned.check(&u, None, false, (), false, &no_script));
    assert!(!UnitFilter::OwnerTurn.check(&u, None, false, (), false, &no_script));
    assert!(UnitFilter::Counter.check(&u, None, true, (), false, &no_script));
    assert!(UnitFilter::Fog(vec![FogIntensity::Light]).check(&u, None, false, (), false, &no_script));
    assert!(UnitFilter::AttackPattern(vec![AttackPatternType::Custom("cone".to_string())]).check(&u, None, false, (), false, &no_script));
    assert!(!UnitFilter::AttackPattern(vec![AttackPatternType::Adjacent]).check(&u, None, false, (), false, &no_script));
}

#[test]
fn unit_filter_checks_heroes_and_commanders() {
    let u = facts();
    assert!(UnitFilter::Hero(vec![(HeroType(1), None)]).check(&u, None, false, (), false, &no_script));
    assert!(UnitFilter::Hero(vec![(HeroType(1), Some(2))]).check(&u, None, false, (), false, &no_script));
    assert!(!UnitFilter::Hero(vec![(HeroType(1), Some(1))]).check(&u, None, false, (), false, &no_script));
    assert!(UnitFilter::HeroGlobal(vec![(HeroType(4), Some(0))]).check(&u, None, false, (), false, &no_script));
    assert!(UnitFilter::IsHero(vec![]).check(&u, None, false, (), false, &no_script));
    assert!(!UnitFilter::IsHero(vec![(HeroType(5), Some(0))]).check(&u, None, false, (), false, &no_script));
    // 3 / 4 against 3 / 4 and 4 / 5
    assert!(UnitFilter::HeroCharge(Fraction::new(3, 4)).check(&u, None, false, (), false, &no_script));
    assert!(!UnitFilter::HeroCharge(Fraction::new(4, 5)).check(&u, None, false, (), false, &no_script));
    assert!(UnitFilter::Commander(CommanderType(2), None).check(&u, None, false, (), false, &no_script));
    assert!(UnitFilter::Commander(CommanderType(2), Some(1)).check(&u, None, false, (), false, &no_script));
    assert!(!UnitFilter::Commander(CommanderType(2), Some(0)).check(&u, None, false, (), false, &no_script));
    assert!(UnitFilter::CommanderCharge(50).check(&u, None, false, (), false, &no_script));
    assert!(!UnitFilter::CommanderCharge(51).check(&u, None, false, (), false, &no_script));
}

#[test]
fn unit_filter_combines_and_runs_scripts() {
    let u = facts();
    let mut other = facts();
    other.typ = UnitType(7);
    // script 3 holds only for the unit itself, not with the roles exchanged
    let run = |i: usize, _: (), swapped: bool| i == 3 && !swapped;
    assert!(UnitFilter::Rhai(3).check(&u, None, false, (), false, &run));
    assert!(!UnitFilter::Rhai(4).check(&u, None, false, (), false, &run));
    let about_other = UnitFilter::OtherUnit(vec![UnitFilter::Unit(vec![UnitType(7)])]);
    assert!(about_other.check(&u, Some(&other), false, (), false, &run));
    assert!(!about_other.check(&u, None, false, (), false, &run));
    assert!(!UnitFilter::OtherUnit(vec![UnitFilter::Rhai(3)]).check(&u, Some(&other), false, (), false, &run));
    let not = UnitFilter::Not(vec![UnitFilter::Moved, UnitFilter::Carried]);
    assert!(not.check(&u, None, false, (), false, &run));
    assert!(!UnitFilter::Not(vec![UnitFilter::Moved]).check(&u, None, false, (), false, &run));
}

fn kind<T>(typ: T, owner: i8) -> KindFacts<T> {
    KindFacts { typ, ownable: true, owner, current_owner: 0, flags: vec![FlagKey(1)], commander: (CommanderType(0), 0) }
}

#[test]
fn terrain_and_token_filters_check_facts() {
    let k = kind(TerrainType(2), -1);
    let run = |i: usize, _: ()| i == 9;
    assert!(KindFilter::Type(vec![TerrainType(2)]).check(&k, (), &run));
    assert!(KindFilter::Unowned.check(&k, (), &run));
    assert!(!KindFilter::OwnerTurn.check(&k, (), &run));
    assert!(KindFilter::Flag(vec![FlagKey(1)]).check(&k, (), &run));
    assert!(KindFilter::<TerrainType>::Rhai(9).check(&k, (), &run));
    assert!(KindFilter::Not(vec![KindFilter::Unowned, KindFilter::Type(vec![TerrainType(1)])]).check(&k, (), &run));
    assert!(!KindFilter::<TerrainType>::Not(vec![KindFilter::Ownable]).check(&k, (), &run));
    assert!(KindFilter::<TerrainType>::Commander(CommanderType(0), Some(0)).check(&k, (), &run));
}

#[test]
fn global_event_targets_on_a_field() {
    let mut carried = facts();
    carried.typ = UnitType(9);
    let facts = LocalFacts {
        terrain: kind(TerrainType(2), 0),
        tokens: vec![kind(TokenType(0), 0), kind(TokenType(1), -1)],
        unit: Some((facts(), vec![carried])),
    };
    let run_kind = |_: usize, _: LocalTarget| false;
    let run_unit = |_: usize, _: LocalTarget, _: bool| false;
    let terrain = GlobalEventType::Terrain(vec![KindFilter::OwnerTurn]);
    assert_eq!(terrain.test_local(&facts, &run_kind, &run_unit), vec![LocalTarget::Terrain]);
    let tokens = GlobalEventType::Token(vec![KindFilter::Unowned]);
    assert_eq!(tokens.test_local(&facts, &run_kind, &run_unit), vec![LocalTarget::Token(1)]);
    let units = GlobalEventType::Unit(vec![UnitFilter::Unit(vec![UnitType(9)])]);
    assert_eq!(units.test_local(&facts, &run_kind, &run_unit), vec![LocalTarget::Unit(Some(0))]);
    let all_units = GlobalEventType::Unit(vec![]);
    assert_eq!(all_units.test_local(&facts, &run_kind, &run_unit), vec![LocalTarget::Unit(None), LocalTarget::Unit(Some(0))]);
    let empty = LocalFacts { terrain: kind(TerrainType(2), 0), tokens: vec![], unit: None };
    assert_eq!(all_units.test_local(&empty, &run_kind, &run_unit), vec![]);
}

#[test]
fn unit_filter_with_scripts_that_answer_differently() {
    let u = facts();
    let calls = std::cell::Cell::new(0usize);
    // the first run of a script holds, every later one fails
    let first_only = |_: usize, _: (), _: bool| {
        calls.set(calls.get() + 1);
        calls.get() == 1
    };
    let f = UnitFilter::Not(vec![UnitFilter::Rhai(0), UnitFilter::Rhai(0)]);
    assert!(f.check(&u, None, false, (), false, &first_only));
    assert_eq!(calls.get(), 2);
    // a filter that fails stops the checking: the second script never runs
    calls.set(1);
    let f = UnitFilter::Not(vec![UnitFilter::Rhai(0), UnitFilter::Rhai(0)]);
    assert!(f.check(&u, None, false, (), false, &first_only));
    assert_eq!(calls.get(), 2);
    let kind_calls = std::cell::Cell::new(0usize);
    let kind_first_only = |_: usize, _: ()| {
        kind_calls.set(kind_calls.get() + 1);
        kind_calls.get() == 1
    };
    let f: KindFilter<TerrainType> = KindFilter::Not(vec![KindFilter::Rhai(0), KindFilter::Rhai(0)]);
    assert!(f.check(&kind(TerrainType(0), 0), (), &kind_first_only));
    assert_eq!(kind_calls.get(), 2);
}
