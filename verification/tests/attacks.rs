use wars_core::attack_pattern::{AllowedAttackInputDirectionSource, AttackPattern, AttackPatternType};
use wars_core::combat::{AttackTargetingFocus, AttackType};
use wars_core::config::attack_config::AttackConfig;
use wars_core::config::file_loader::{FileLoader, ScriptModule};
use wars_core::config::parse::{parse_tuple3, FromConfig};
use wars_core::config::table_file::table_with_headers;
use wars_core::config::ConfigParseError;
use wars_core::direction::{Direction4, Direction6};
use wars_core::fraction::Fraction;
use wars_core::movement::TBallast;
use wars_core::point::{OrientedPoint, Point};
use wars_core::splash_damage::{SplashDamageDirectionSource, SplashDamagePointSource, SplashType};
use wars_core::tags::TagKey;

fn chars(s: &str) -> Vec<char> {
    s.chars().collect()
}

fn text(s: &[char]) -> String {
    s.iter().collect()
}

fn script(file: &str, functions: &[(&str, usize)]) -> ScriptModule {
    ScriptModule {
        filename: chars(file),
        functions: Ok(functions.iter().map(|(n, c)| (chars(n), *c)).collect()),
    }
}

#[test]
fn three_values_in_brackets() {
    let loader = FileLoader::new(Vec::new());
    let input = chars("(3, -4; true) rest");
    let (a, b, c, rest) = parse_tuple3::<u8, i8, bool>(&input, &loader).unwrap();
    assert_eq!((a, b, c), (3, -4, true));
    assert_eq!(text(rest), "rest");
    let input = chars("1,2,3");
    let (a, b, c, rest) = parse_tuple3::<u8, u8, u8>(&input, &loader).unwrap();
    assert_eq!((a, b, c), (1, 2, 3));
    assert_eq!(text(rest), "");
    assert!(matches!(parse_tuple3::<u8, u8, u8>(&chars("(1, 2"), &loader), Err(ConfigParseError::NotEnoughValues(ref m)) if m == "(1, 2"));
    assert!(matches!(parse_tuple3::<u8, u8, u8>(&chars("1, x, 2"), &loader), Err(ConfigParseError::InvalidInteger(_))));
}

#[test]
fn new_attack_types_are_registered_once() {
    let mut loader = FileLoader::new(Vec::new());
    assert_eq!(AttackType::parse_new(&chars("Melee"), &mut loader).unwrap(), AttackType(Some(0)));
    assert_eq!(AttackType::parse_new(&chars("Ranged"), &mut loader).unwrap(), AttackType(Some(1)));
    assert_eq!(AttackType::parse_new(&chars("Melee"), &mut loader).unwrap(), AttackType(Some(0)));
    assert_eq!(loader.attack_types, vec![chars("Melee"), chars("Ranged")]);
    assert!(matches!(AttackType::parse_new(&chars(""), &mut loader), Err(ConfigParseError::NameTooShort)));
    assert!(matches!(
        AttackType::parse_new(&chars("None"), &mut loader),
        Err(ConfigParseError::InvalidColumnValue(ref a, ref b)) if a == "AttackType" && b == "None"
    ));
    assert_eq!(loader.attack_types.len(), 2);
}

#[test]
fn splash_types_by_name() {
    let mut loader = FileLoader::new(Vec::new());
    assert_eq!(loader.register_splash_type(&chars("Fire")), 0);
    assert_eq!(loader.register_splash_type(&chars("Push")), 1);
    assert_eq!(loader.register_splash_type(&chars("Fire")), 0);
    let input = chars("Push, more");
    let (t, rest) = SplashType::from_conf(&input, &loader).unwrap();
    assert_eq!(t, SplashType(1));
    assert_eq!(text(rest), ", more");
    assert!(matches!(SplashType::from_conf(&chars("Ice"), &loader), Err(ConfigParseError::UnknownEnumMember(ref m)) if m == "SplashType::Ice"));
}

#[test]
fn splash_point_sources() {
    let mut loader = FileLoader::new(vec![script("splash", &[("cone", 0), ("wide", 2)])]);
    assert_eq!(SplashDamagePointSource::from_conf(&chars(" Straight "), &mut loader).unwrap().0, SplashDamagePointSource::Straight);
    assert_eq!(SplashDamagePointSource::from_conf(&chars("AttackPattern"), &mut loader).unwrap().0, SplashDamagePointSource::AttackPattern);
    assert_eq!(SplashDamagePointSource::from_conf(&chars("TriangleDiagonal"), &mut loader).unwrap().0, SplashDamagePointSource::TriangleDiagonal);
    assert_eq!(SplashDamagePointSource::from_conf(&chars("TriangleStraight"), &mut loader).unwrap().0, SplashDamagePointSource::TriangleStraight);
    assert_eq!(SplashDamagePointSource::from_conf(&chars("splash > cone"), &mut loader).unwrap().0, SplashDamagePointSource::Rhai(0));
    assert!(matches!(
        SplashDamagePointSource::from_conf(&chars("splash > wide"), &mut loader),
        Err(ConfigParseError::ScriptFunctionNotFound(ref f, ref n)) if f == "splash" && n == "wide"
    ));
    assert!(matches!(SplashDamagePointSource::from_conf(&chars("Round"), &mut loader), Err(ConfigParseError::ScriptNeedsFileAndFunctionName(ref m)) if m == "Round"));
}

#[test]
fn splash_direction_sources() {
    let mut loader = FileLoader::new(Vec::new());
    loader.tags.push(chars("Facing"));
    assert_eq!(SplashDamageDirectionSource::from_conf(&chars("AttackInput"), &loader).unwrap().0, SplashDamageDirectionSource::AttackInput);
    assert_eq!(SplashDamageDirectionSource::from_conf(&chars("AllDirections"), &loader).unwrap().0, SplashDamageDirectionSource::AllDirections);
    let input = chars("UnitAttribute Facing");
    let (source, rest) = SplashDamageDirectionSource::from_conf(&input, &loader).unwrap();
    assert_eq!(source, SplashDamageDirectionSource::UnitAttribute(TagKey(0)));
    assert_eq!(text(rest), "");
    assert!(matches!(SplashDamageDirectionSource::from_conf(&chars("UnitAttribute Speed"), &loader), Err(ConfigParseError::UnknownEnumMember(ref m)) if m == "Tag::Speed"));
    assert!(matches!(
        SplashDamageDirectionSource::from_conf(&chars("Sideways"), &loader),
        Err(ConfigParseError::UnknownEnumMember(ref m)) if m == "SplashDamageDirectionSource::Sideways"
    ));
}

#[test]
fn splash_directions() {
    let input = OrientedPoint::new(Point::new(2, 3), false, Direction4::D90);
    let tags = [(0usize, Direction4::D180), (2usize, Direction4::D270)];
    assert_eq!(SplashDamageDirectionSource::AttackInput.get_dirs(&tags, input), vec![Direction4::D90]);
    assert_eq!(
        SplashDamageDirectionSource::AllDirections.get_dirs(&tags, input),
        vec![Direction4::D0, Direction4::D90, Direction4::D180, Direction4::D270]
    );
    assert_eq!(SplashDamageDirectionSource::UnitAttribute(TagKey(2)).get_dirs(&tags, input), vec![Direction4::D270]);
    assert_eq!(SplashDamageDirectionSource::UnitAttribute(TagKey(1)).get_dirs(&tags, input), Vec::<Direction4>::new());
}

#[test]
fn attack_patterns() {
    let mut loader = FileLoader::new(vec![script("atk", &[("ring", 2)])]);
    assert_eq!(AttackPattern::from_conf(&chars("None"), &mut loader).unwrap().0, AttackPattern::NoAttack);
    assert_eq!(AttackPattern::from_conf(&chars("Adjacent"), &mut loader).unwrap().0, AttackPattern::Adjacent);
    let input = chars("Straight(2, 3) x");
    let (p, rest) = AttackPattern::from_conf(&input, &mut loader).unwrap();
    assert_eq!(p, AttackPattern::Straight { min: Fraction::from_integer(2), max: Fraction::from_integer(3) });
    assert_eq!(text(rest), "x");
    let (p, _) = AttackPattern::from_conf(&chars("TriangleDiagonal(1, 5/2)"), &mut loader).unwrap();
    assert_eq!(p, AttackPattern::TriangleDiagonal { min: Fraction::from_integer(1), max: Fraction::new(5, 2) });
    let (p, _) = AttackPattern::from_conf(&chars("TriangleStraight(1, 4)"), &mut loader).unwrap();
    assert_eq!(p, AttackPattern::TriangleStraight { min: Fraction::from_integer(1), max: Fraction::from_integer(4) });
    assert!(matches!(AttackPattern::from_conf(&chars("Straight(2"), &mut loader), Err(ConfigParseError::NotEnoughValues(_))));
    // the leading word is taken as the script reference, which names no file
    assert!(matches!(AttackPattern::from_conf(&chars("ring(1, 2)"), &mut loader), Err(ConfigParseError::ScriptNeedsFileAndFunctionName(ref m)) if m == "ring"));
    assert!(matches!(AttackPattern::from_conf(&chars("ring(1, x)"), &mut loader), Err(ConfigParseError::InvalidNumber(_)) | Err(ConfigParseError::InvalidInteger(_))));
}

#[test]
fn attack_direction_sources() {
    let mut loader = FileLoader::new(Vec::new());
    loader.tags.push(chars("Hp"));
    loader.tags.push(chars("Facing"));
    assert_eq!(AllowedAttackInputDirectionSource::from_conf(&chars("AllDirections"), &loader).unwrap().0, AllowedAttackInputDirectionSource::AllDirections);
    assert_eq!(AllowedAttackInputDirectionSource::from_conf(&chars("Movement"), &loader).unwrap().0, AllowedAttackInputDirectionSource::Movement);
    let input = chars("Tag(Facing) rest");
    let (source, rest) = AllowedAttackInputDirectionSource::from_conf(&input, &loader).unwrap();
    assert_eq!(source, AllowedAttackInputDirectionSource::UnitTag(TagKey(1)));
    assert_eq!(text(rest), "rest");
    assert!(matches!(AllowedAttackInputDirectionSource::from_conf(&chars("Tag(Speed)"), &loader), Err(ConfigParseError::UnknownEnumMember(ref m)) if m == "Tag::Speed"));
    assert!(matches!(
        AllowedAttackInputDirectionSource::from_conf(&chars("Behind"), &loader),
        Err(ConfigParseError::UnknownEnumMember(ref m)) if m == "AllowedAttackInputDirectionSource::Behind"
    ));
}

#[test]
fn attack_directions_after_moving() {
    let ballast = [
        TBallast::MovementPoints(3),
        TBallast::ForbiddenDirection(Some(Direction6::D0)),
        TBallast::Direction(Some(Direction6::D240)),
        TBallast::DiagonalDirection(Some(Direction6::D60)),
        TBallast::Direction(Some(Direction6::D180)),
        TBallast::Direction(None),
    ];
    let tags: [(usize, Direction6); 0] = [];
    // the opposite of D0 is D180, which also comes as a direction: it is listed once
    assert_eq!(
        AllowedAttackInputDirectionSource::Movement.get_dirs(&tags, &ballast),
        vec![Direction6::D60, Direction6::D180, Direction6::D240]
    );
    assert_eq!(AllowedAttackInputDirectionSource::Movement.get_dirs(&tags, &[]), Vec::<Direction6>::new());
    assert_eq!(AllowedAttackInputDirectionSource::AllDirections.get_dirs(&tags, &ballast).len(), 6);
    let tags = [(4usize, Direction6::D300)];
    assert_eq!(AllowedAttackInputDirectionSource::UnitTag(TagKey(4)).get_dirs(&tags, &ballast), vec![Direction6::D300]);
}

#[test]
fn targeting_focus_by_name() {
    let loader = FileLoader::new(Vec::new());
    assert_eq!(AttackTargetingFocus::from_conf(&chars("Position"), &loader).unwrap().0, AttackTargetingFocus::Position);
    assert!(matches!(AttackTargetingFocus::from_conf(&chars("Nearest"), &loader), Err(ConfigParseError::UnknownEnumMember(_))));
}

#[test]
fn attack_table_with_own_columns() {
    let mut loader = FileLoader::new(vec![script("splash", &[("cone", 0)])]);
    loader.register_splash_type(&chars("Fire"));
    let data = "AttackType;Priority;SplashPattern;SplashType;Damage;Targeting;Condition\n\
                Melee;2;;Fire; 50 ;Position;Unit(Tank), Hp\n\
                Ranged;;splash > cone;Fire;30;;\n";
    let attacks: Vec<AttackConfig> = table_with_headers(data, &mut loader).unwrap();
    assert_eq!(attacks.len(), 2);
    assert_eq!(attacks[0].attack_type, AttackType(Some(0)));
    assert_eq!(attacks[0].priority, 2);
    assert_eq!(attacks[0].splash_pattern.points, SplashDamagePointSource::AttackPattern);
    assert_eq!(attacks[0].splash_pattern.directions, SplashDamageDirectionSource::AttackInput);
    assert_eq!(attacks[0].splash_type, SplashType(0));
    assert_eq!(attacks[0].splash_range, 0);
    assert_eq!(attacks[0].focus, AttackTargetingFocus::Position);
    assert_eq!(attacks[0].unparsed_condition, "Unit(Tank");
    assert_eq!(attacks[0].custom_columns, vec![("Damage".to_string(), "50".to_string())]);
    assert_eq!(attacks[1].attack_type, AttackType(Some(1)));
    assert_eq!(attacks[1].priority, 0);
    assert_eq!(attacks[1].splash_pattern.points, SplashDamagePointSource::Rhai(0));
    assert_eq!(attacks[1].focus, AttackTargetingFocus::Unit);
    assert_eq!(attacks[1].unparsed_condition, "");
    assert_eq!(loader.attack_types, vec![chars("Melee"), chars("Ranged")]);
}

#[test]
fn attack_table_errors() {
    let mut loader = FileLoader::new(Vec::new());
    let missing_splash: Result<Vec<AttackConfig>, _> = table_with_headers("AttackType;Priority\nMelee;1\n", &mut loader);
    assert!(matches!(missing_splash, Err(ConfigParseError::MissingColumn(7))));
    let mut loader = FileLoader::new(Vec::new());
    let twice: Result<Vec<AttackConfig>, _> = table_with_headers("AttackType;Damage;Damage\nMelee;1;2\n", &mut loader);
    assert!(matches!(twice, Err(ConfigParseError::DuplicateHeader(ref h)) if h == "Damage"));
    let mut loader = FileLoader::new(Vec::new());
    let no_type: Result<Vec<AttackConfig>, _> = table_with_headers("Priority;SplashType\n1;Fire\n", &mut loader);
    assert!(matches!(no_type, Err(ConfigParseError::MissingColumn(0))));
    let mut loader = FileLoader::new(Vec::new());
    let none: Result<Vec<AttackConfig>, _> = table_with_headers("AttackType;SplashType\nNone;Fire\n", &mut loader);
    assert!(matches!(none, Err(ConfigParseError::InvalidColumnValue(_, _))));
    let mut loader = FileLoader::new(Vec::new());
    let unknown_splash: Result<Vec<AttackConfig>, _> = table_with_headers("AttackType;SplashType\nMelee;Ice\n", &mut loader);
    assert!(matches!(unknown_splash, Err(ConfigParseError::UnknownEnumMember(ref m)) if m == "SplashType::Ice"));
}

#[test]
fn finished_loader_lists_script_files_once() {
    let mut loader = FileLoader::new(vec![script("b", &[("f", 0), ("g", 0)]), script("a", &[("h", 0)])]);
    assert_eq!(SplashDamagePointSource::from_conf(&chars("b > f"), &mut loader).unwrap().0, SplashDamagePointSource::Rhai(0));
    assert_eq!(SplashDamagePointSource::from_conf(&chars("a > h"), &mut loader).unwrap().0, SplashDamagePointSource::Rhai(1));
    assert_eq!(SplashDamagePointSource::from_conf(&chars("b > g"), &mut loader).unwrap().0, SplashDamagePointSource::Rhai(2));
    assert_eq!(SplashDamagePointSource::from_conf(&chars("b > f"), &mut loader).unwrap().0, SplashDamagePointSource::Rhai(0));
    let (files, functions) = loader.finish();
    assert_eq!(files, vec![chars("b"), chars("a")]);
    assert_eq!(functions, vec![(0, chars("f")), (1, chars("h")), (0, chars("g"))]);
}

#[test]
fn attack_pattern_kinds() {
    let functions = vec![(0usize, chars("ring")), (1usize, chars("cross"))];
    assert_eq!(AttackPattern::Adjacent.typ(&functions), AttackPatternType::Adjacent);
    let straight = AttackPattern::Straight { min: Fraction::from_integer(1), max: Fraction::from_integer(2) };
    assert_eq!(straight.typ(&functions), AttackPatternType::Straight);
    let script = AttackPattern::Rhai { function_index: 1, parameter_values: vec![] };
    assert_eq!(script.typ(&functions), AttackPatternType::Custom("cross".to_string()));
}
