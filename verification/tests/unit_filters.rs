use wars_core::attack_pattern::AttackPatternType;
use wars_core::combat::AttackType;
use wars_core::config::attack_config::AttackConfig;
use wars_core::config::attack_filter::AttackFilter;
use wars_core::config::custom_action_config::CustomActionConfig;
use wars_core::config::global_events::{GlobalEventConfig, GlobalEventType};
use wars_core::config::kind_filter::{KindFilter, TerrainFilter, TokenFilter};
use wars_core::config::table_file::table_with_headers;
use wars_core::tags::FlagKey;
use wars_core::terrain::TerrainType;
use wars_core::config::file_loader::{FileLoader, ScriptModule};
use wars_core::config::parse::FromConfig;
use wars_core::config::unit_filter::UnitFilter;
use wars_core::config::{CommanderType, ConfigParseError};
use wars_core::fog::FogIntensity;
use wars_core::fraction::Fraction;
use wars_core::tokens::TokenType;
use wars_core::units::{HeroType, UnitType};

fn chars(s: &str) -> Vec<char> {
    s.chars().collect()
}

fn text(s: &[char]) -> String {
    s.iter().collect()
}

fn loader() -> FileLoader {
    let mut loader = FileLoader::new(vec![ScriptModule {
        filename: chars("filters"),
        functions: Ok(vec![(chars("is_big"), 0)]),
    }]);
    loader.unit_types.push(chars("Tank"));
    loader.unit_types.push(chars("Plane"));
    loader.hero_types.push(chars("Knight"));
    loader.token_types.push(chars("Coin"));
    loader.commander_types.push(chars("Vlad"));
    loader
}

#[test]
fn unit_filter_lists() {
    let mut loader = loader();
    let input = chars("Unit(Plane, Tank) rest");
    let (f, rest) = UnitFilter::from_conf(&input, &mut loader).unwrap();
    match f {
        UnitFilter::Unit(v) => assert_eq!(v, vec![UnitType(1), UnitType(0)]),
        other => panic!("{other:?}"),
    }
    assert_eq!(text(rest), "rest");
    match UnitFilter::from_conf(&chars("Token(Coin)"), &mut loader).unwrap().0 {
        UnitFilter::Token(v) => assert_eq!(v, vec![TokenType(0)]),
        other => panic!("{other:?}"),
    }
    match UnitFilter::from_conf(&chars("Fog(Dark, Light)"), &mut loader).unwrap().0 {
        UnitFilter::Fog(v) => assert_eq!(v, vec![FogIntensity::Dark, FogIntensity::Light]),
        other => panic!("{other:?}"),
    }
    assert!(matches!(UnitFilter::from_conf(&chars("Unit()"), &mut loader), Err(ConfigParseError::EmptyList)));
    assert!(matches!(UnitFilter::from_conf(&chars("Unit(Ship)"), &mut loader), Err(ConfigParseError::MissingUnit(ref m)) if m == "Ship"));
    assert!(matches!(UnitFilter::from_conf(&chars("Token(Gem)"), &mut loader), Err(ConfigParseError::MissingToken(ref m)) if m == "Gem"));
}

#[test]
fn unit_filter_heroes_and_commanders() {
    let mut loader = loader();
    match UnitFilter::from_conf(&chars("Hero((Knight, 1), Knight)"), &mut loader).unwrap().0 {
        UnitFilter::Hero(v) => assert_eq!(v, vec![(HeroType(0), Some(1)), (HeroType(0), None)]),
        other => panic!("{other:?}"),
    }
    match UnitFilter::from_conf(&chars("IsHero()"), &mut loader).unwrap().0 {
        UnitFilter::IsHero(v) => assert!(v.is_empty()),
        other => panic!("{other:?}"),
    }
    match UnitFilter::from_conf(&chars("Co(Vlad, 2)"), &mut loader).unwrap().0 {
        UnitFilter::Commander(c, p) => assert_eq!((c, p), (CommanderType(0), Some(2))),
        other => panic!("{other:?}"),
    }
    match UnitFilter::from_conf(&chars("Commander(Vlad)"), &mut loader).unwrap().0 {
        UnitFilter::Commander(c, p) => assert_eq!((c, p), (CommanderType(0), None)),
        other => panic!("{other:?}"),
    }
    match UnitFilter::from_conf(&chars("HC(3/2)"), &mut loader).unwrap().0 {
        UnitFilter::HeroCharge(c) => assert_eq!(c, Fraction::new(3, 2)),
        other => panic!("{other:?}"),
    }
    match UnitFilter::from_conf(&chars("CC(300)"), &mut loader).unwrap().0 {
        UnitFilter::CommanderCharge(c) => assert_eq!(c, 300),
        other => panic!("{other:?}"),
    }
    assert!(matches!(UnitFilter::from_conf(&chars("Co(Zombie)"), &mut loader), Err(ConfigParseError::UnknownEnumMember(ref m)) if m == "CommanderType::Zombie"));
}

#[test]
fn unit_filter_attack_patterns() {
    let mut loader = loader();
    match UnitFilter::from_conf(&chars("AP(None, Straight, ring)"), &mut loader).unwrap().0 {
        UnitFilter::AttackPattern(v) => assert_eq!(
            v,
            vec![AttackPatternType::NoAttack, AttackPatternType::Straight, AttackPatternType::Custom("ring".to_string())]
        ),
        other => panic!("{other:?}"),
    }
}

#[test]
fn unit_filter_scripts_and_nesting() {
    let mut loader = loader();
    match UnitFilter::from_conf(&chars("Rhai(filters > is_big)"), &mut loader).unwrap().0 {
        UnitFilter::Rhai(i) => assert_eq!(i, 0),
        other => panic!("{other:?}"),
    }
    let input = chars("Not(Unit(Tank), OU(Moved, Counter)) tail");
    let (f, rest) = UnitFilter::from_conf(&input, &mut loader).unwrap();
    assert_eq!(text(rest), "tail");
    match f {
        UnitFilter::Not(v) => {
            assert_eq!(v.len(), 2);
            assert!(matches!(&v[0], UnitFilter::Unit(u) if u == &vec![UnitType(0)]));
            match &v[1] {
                UnitFilter::OtherUnit(inner) => {
                    assert_eq!(inner.len(), 2);
                    assert!(matches!(inner[0], UnitFilter::Moved));
                    assert!(matches!(inner[1], UnitFilter::Counter));
                }
                other => panic!("{other:?}"),
            }
        }
        other => panic!("{other:?}"),
    }
    match UnitFilter::from_conf(&chars("OU()"), &mut loader).unwrap().0 {
        UnitFilter::OtherUnit(v) => assert!(v.is_empty()),
        other => panic!("{other:?}"),
    }
    assert!(matches!(UnitFilter::from_conf(&chars("Not()"), &mut loader), Err(ConfigParseError::EmptyList)));
    assert!(matches!(UnitFilter::from_conf(&chars("Script(other > f)"), &mut loader), Err(ConfigParseError::FileMissing(_))));
    assert!(matches!(UnitFilter::from_conf(&chars("Flying"), &mut loader), Err(ConfigParseError::UnknownEnumMember(ref m)) if m == "UnitFilter::Flying"));
}

#[test]
fn heroes_with_optional_power() {
    let loader = loader();
    let input = chars("(Knight, 3)");
    let ((h, p), _) = <(HeroType, Option<u8>)>::from_conf(&input, &loader).unwrap();
    assert_eq!((h, p), (HeroType(0), Some(3)));
    let ((h, p), _) = <(HeroType, Option<u8>)>::from_conf(&chars("Knight"), &loader).unwrap();
    assert_eq!((h, p), (HeroType(0), None));
    assert!(<(HeroType, Option<u8>)>::from_conf(&chars("Mage"), &loader).is_err());
}

fn action_loader() -> FileLoader {
    let mut loader = FileLoader::new(vec![ScriptModule {
        filename: chars("actions"),
        functions: Ok(vec![(chars("heal"), 1), (chars("heal_input"), 0), (chars("wait"), 0), (chars("tick"), 0)]),
    }]);
    loader.unit_types.push(chars("Tank"));
    loader.terrain_types.push(chars("Grass"));
    loader.terrain_types.push(chars("City"));
    loader.token_types.push(chars("Coin"));
    loader.flags.push(chars("Burning"));
    loader.attack_types.push(chars("Melee"));
    loader.attack_types.push(chars("Ranged"));
    loader
}

#[test]
fn attack_filters() {
    let mut loader = action_loader();
    match AttackFilter::from_conf(&chars("AT(Ranged, Melee)"), &mut loader).unwrap().0 {
        AttackFilter::Attack(v) => assert_eq!(v, vec![AttackType(Some(1)), AttackType(Some(0))]),
        other => panic!("{other:?}"),
    }
    assert!(matches!(AttackFilter::from_conf(&chars("AttackPriority(1, 5)"), &mut loader).unwrap().0, AttackFilter::AttackPriority(1, 5)));
    assert!(matches!(AttackFilter::from_conf(&chars("AttackPriority(3)"), &mut loader).unwrap().0, AttackFilter::AttackPriority(3, 3)));
    assert!(matches!(AttackFilter::from_conf(&chars("SplashDistance(-1)"), &mut loader).unwrap().0, AttackFilter::SplashDistance(-1, -1)));
    assert!(matches!(AttackFilter::from_conf(&chars("Script(actions > wait)"), &mut loader).unwrap().0, AttackFilter::Rhai(0)));
    match AttackFilter::from_conf(&chars("Not(Unit(Tank), AT(Melee))"), &mut loader).unwrap().0 {
        AttackFilter::Not(v) => {
            assert_eq!(v.len(), 2);
            assert!(matches!(&v[0], AttackFilter::UnitFilter(UnitFilter::Unit(u)) if u == &vec![UnitType(0)]));
            assert!(matches!(&v[1], AttackFilter::Attack(t) if t == &vec![AttackType(Some(0))]));
        }
        other => panic!("{other:?}"),
    }
    assert!(matches!(AttackFilter::from_conf(&chars("Counter"), &mut loader).unwrap().0, AttackFilter::UnitFilter(UnitFilter::Counter)));
    assert!(matches!(AttackFilter::from_conf(&chars("Sideways"), &mut loader), Err(ConfigParseError::UnknownEnumMember(ref m)) if m == "UnitFilter::Sideways"));
    assert!(matches!(AttackFilter::from_conf(&chars("AT(Magic)"), &mut loader), Err(ConfigParseError::UnknownEnumMember(ref m)) if m == "AttackType::Magic"));
}

#[test]
fn terrain_and_token_filters() {
    let mut loader = action_loader();
    match TerrainFilter::from_conf(&chars("Type(City, Grass)"), &mut loader).unwrap().0 {
        KindFilter::Type(v) => assert_eq!(v, vec![TerrainType(1), TerrainType(0)]),
        other => panic!("{other:?}"),
    }
    match TokenFilter::from_conf(&chars("Not(T(Coin), Flag(Burning))"), &mut loader).unwrap().0 {
        KindFilter::Not(v) => {
            assert_eq!(v.len(), 2);
            assert!(matches!(&v[0], KindFilter::Type(t) if t == &vec![TokenType(0)]));
            assert!(matches!(&v[1], KindFilter::Flag(f) if f == &vec![FlagKey(0)]));
        }
        other => panic!("{other:?}"),
    }
    assert!(matches!(TerrainFilter::from_conf(&chars("Ownable"), &mut loader).unwrap().0, KindFilter::Ownable));
    assert!(matches!(TokenFilter::from_conf(&chars("Co(Vlad)"), &mut loader), Err(ConfigParseError::UnknownEnumMember(_))));
    assert!(matches!(TerrainFilter::from_conf(&chars(" Sea(1)"), &mut loader), Err(ConfigParseError::UnknownEnumMember(ref m)) if m == "TerrainFilter:: Sea(1)"));
    assert!(matches!(TokenFilter::from_conf(&chars("Gold"), &mut loader), Err(ConfigParseError::UnknownEnumMember(ref m)) if m == "TokenFilter::Gold"));
    assert!(matches!(TerrainFilter::from_conf(&chars("T(Lava)"), &mut loader), Err(ConfigParseError::MissingTerrain(ref m)) if m == "Lava"));
}

#[test]
fn custom_action_table() {
    let mut loader = action_loader();
    let data = "Name;UnitFilter;Script\nHeal;Unit(Tank);actions > heal\nWait;;actions > wait\n";
    let actions: Vec<CustomActionConfig> = table_with_headers(data, &mut loader).unwrap();
    assert_eq!(actions.len(), 2);
    assert_eq!(actions[0].get_name(), "Heal");
    assert_eq!(actions[0].get_script(), (Some(1), 0));
    assert_eq!(actions[0].unit_filter.len(), 1);
    assert_eq!(actions[1].get_script(), (None, 2));
    assert!(actions[1].unit_filter.is_empty());
    let mut loader = action_loader();
    let missing: Result<Vec<CustomActionConfig>, _> = table_with_headers("Name;Script\nNap;\n", &mut loader);
    assert!(matches!(missing, Err(ConfigParseError::CustomActionScriptMissing(ref n)) if n == "Nap"));
    let mut loader = action_loader();
    let unnamed: Result<Vec<CustomActionConfig>, _> = table_with_headers("Name;Script\n  ;actions > wait\n", &mut loader);
    assert!(matches!(unnamed, Err(ConfigParseError::NameTooShort)));
}

#[test]
fn global_event_table() {
    let mut loader = action_loader();
    let data = "Type;Filter;StartTurn;EndTurn\n Terrain ;Type(City);actions > tick;\nUNIT;;;actions > wait\n";
    let events: Vec<GlobalEventConfig> = table_with_headers(data, &mut loader).unwrap();
    assert_eq!(events.len(), 2);
    assert!(matches!(&events[0].typ, GlobalEventType::Terrain(f) if f.len() == 1));
    assert_eq!(events[0].on_start_turn, Some(0));
    assert_eq!(events[0].on_end_turn, None);
    assert!(matches!(&events[1].typ, GlobalEventType::Unit(f) if f.is_empty()));
    assert_eq!(events[1].on_end_turn, Some(1));
    let mut loader = action_loader();
    let weather: Result<Vec<GlobalEventConfig>, _> = table_with_headers("Type\nWeather\n", &mut loader);
    assert!(matches!(weather, Err(ConfigParseError::UnknownEnumMember(ref m)) if m == "GlobalEventType::weather"));
}

#[test]
fn attack_conditions_are_read_later() {
    let mut loader = action_loader();
    loader.register_splash_type(&chars("Fire"));
    let data = "AttackType;SplashType;Condition\nBlast;Fire;AT(Blast)\n";
    let mut attacks: Vec<AttackConfig> = table_with_headers(data, &mut loader).unwrap();
    assert!(attacks[0].condition.is_empty());
    attacks[0].parse_deferred(&mut loader).unwrap();
    assert_eq!(attacks[0].unparsed_condition, "");
    assert_eq!(attacks[0].condition.len(), 1);
    assert!(matches!(&attacks[0].condition[0], AttackFilter::Attack(t) if t == &vec![AttackType(Some(2))]));
}
