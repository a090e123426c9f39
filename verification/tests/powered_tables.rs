use wars_core::attack_pattern::{AllowedAttackInputDirectionSource, AttackPattern};
use wars_core::combat::{AttackTargetingFocus, AttackType, DisplaceDirectionModifier, ValidAttackTargets};
use wars_core::config::attack_config::{AttackInstanceScript, AttackSplashConfig};
use wars_core::config::attack_filter::AttackFilter;
use wars_core::config::attack_powered::AttackPoweredConfig;
use wars_core::config::commander_unit_config::CommanderPowerUnitConfig;
use wars_core::config::file_loader::{FileLoader, ScriptModule};
use wars_core::config::kind_filter::KindFilter;
use wars_core::config::number_modification::NumberMod;
use wars_core::config::table_file::table_with_headers;
use wars_core::config::terrain_powered::TerrainPoweredConfig;
use wars_core::config::unit_filter::UnitFilter;
use wars_core::config::ConfigParseError;
use wars_core::fraction::Fraction;
use wars_core::splash_damage::SplashType;
use wars_core::terrain::TerrainType;
use wars_core::units::{UnitType, UnitVisibility};

fn chars(s: &str) -> Vec<char> {
    s.chars().collect()
}

fn loader() -> FileLoader {
    let mut loader = FileLoader::new(vec![ScriptModule {
        filename: chars("powers"),
        functions: Ok(vec![
            (chars("build"), 1),
            (chars("build_input"), 0),
            (chars("defend"), 0),
            (chars("bonus"), 1),
            (chars("die"), 0),
        ]),
    }]);
    loader.unit_types.push(chars("Tank"));
    loader.unit_types.push(chars("Plane"));
    loader.terrain_types.push(chars("City"));
    loader.attack_types.push(chars("Melee"));
    loader.commander_types.push(chars("Vlad"));
    loader
}

#[test]
fn powered_terrain_table() {
    let mut loader = loader();
    let data = "Power;Affects;Vision;IncomeFactor;ActionScript\nCo(Vlad);T(City), Unowned;+1;*3/2;powers > build\n;;;;\n";
    let lines: Vec<TerrainPoweredConfig> = table_with_headers(data, &mut loader).unwrap();
    assert_eq!(lines.len(), 2);
    assert_eq!(lines[0].affects.len(), 3);
    assert!(matches!(&lines[0].affects[0], KindFilter::Commander(_, None)));
    assert!(matches!(&lines[0].affects[1], KindFilter::Type(t) if t == &vec![TerrainType(0)]));
    assert!(matches!(&lines[0].affects[2], KindFilter::Unowned));
    assert!(matches!(lines[0].vision, NumberMod::Add(1)));
    assert!(matches!(lines[0].income_factor, NumberMod::Mul(f) if f == Fraction::new(3, 2)));
    assert_eq!(lines[0].action_script, Some((1, 0)));
    assert!(lines[1].affects.is_empty());
    assert!(matches!(lines[1].vision, NumberMod::Keep));
    assert_eq!(lines[1].action_script, None);
    let mut loader = self::loader();
    let wrong: Result<Vec<TerrainPoweredConfig>, _> = table_with_headers("ActionScript\npowers > defend\n", &mut loader);
    assert!(matches!(wrong, Err(ConfigParseError::ScriptFunctionNotFound(_, _))));
}

#[test]
fn powered_attack_table() {
    let mut loader = loader();
    let data = "Filter;AttackPriority;Targeting;AllowsCounterAttack;SplashPriority;DirectionModifier;OnDefend;Damage;Range\n\
                AT(Melee);=3;Position;true;-1/2;Reverse;powers > defend;*2; \n";
    let lines: Vec<AttackPoweredConfig> = table_with_headers(data, &mut loader).unwrap();
    assert_eq!(lines.len(), 1);
    let line = &lines[0];
    assert!(matches!(&line.affects[0], AttackFilter::Attack(t) if t == &vec![AttackType(Some(0))]));
    assert!(matches!(line.attack_priority, NumberMod::Replace(3)));
    assert!(matches!(line.splash_range, NumberMod::Keep));
    assert_eq!(line.focus, Some(AttackTargetingFocus::Position));
    assert_eq!(line.allows_counter_attack, Some(true));
    assert!(matches!(line.splash_priority, NumberMod::Sub(f) if f == Fraction::new(1, 2)));
    assert_eq!(line.direction_modifier, Some(DisplaceDirectionModifier::Reverse));
    assert_eq!(line.on_defend, Some(0));
    assert_eq!(line.custom_columns.len(), 1);
    assert!(matches!(line.get_fraction("Damage"), NumberMod::Mul(f) if f == Fraction::from_integer(2)));
    assert!(matches!(line.get_fraction("Range"), NumberMod::Keep));
    let mut loader = self::loader();
    let bad: Result<Vec<AttackPoweredConfig>, _> = table_with_headers("AllowsCounterAttack\nyes\n", &mut loader);
    assert!(matches!(bad, Err(ConfigParseError::InvalidBool(ref s)) if s == "yes"));
    let mut loader = self::loader();
    let bad_custom: Result<Vec<AttackPoweredConfig>, _> = table_with_headers("Damage\n%2\n", &mut loader);
    assert!(matches!(bad_custom, Err(ConfigParseError::InvalidNumberModifier(_))));
}

#[test]
fn powered_unit_table() {
    let mut loader = loader();
    let data = "Power;Affects;Visibility;MovementPoints;Vision;PassEnemyUnits;AttackPattern;AttackType;Targeting;AttackDirection;CanBeDisplaced;OnDeath;AuraRange;Armor\n\
                Co(Vlad);Unit(Plane);Stealth;+1/2;-1;false;Straight(1, 3);Melee;Friendly;Movement;true;powers > die;=2;Script(powers > bonus)\n";
    let lines: Vec<CommanderPowerUnitConfig> = table_with_headers(data, &mut loader).unwrap();
    assert_eq!(lines.len(), 1);
    let line = &lines[0];
    assert_eq!(line.affects.len(), 2);
    assert!(matches!(&line.affects[0], UnitFilter::Commander(_, None)));
    assert!(matches!(&line.affects[1], UnitFilter::Unit(u) if u == &vec![UnitType(1)]));
    assert_eq!(line.visibility, Some(UnitVisibility::Stealth));
    assert!(matches!(line.movement_points, NumberMod::Add(f) if f == Fraction::new(1, 2)));
    assert!(matches!(line.vision, NumberMod::Sub(1)));
    assert!(matches!(line.true_vision, NumberMod::Keep));
    assert_eq!(line.pass_enemy_units, Some(false));
    assert_eq!(line.attack_pattern, Some(AttackPattern::Straight { min: Fraction::from_integer(1), max: Fraction::from_integer(3) }));
    assert_eq!(line.attack_type, Some(AttackType(Some(0))));
    assert_eq!(line.attack_targets, Some(ValidAttackTargets::Friendly));
    assert_eq!(line.attack_direction, Some(AllowedAttackInputDirectionSource::Movement));
    assert_eq!(line.can_be_displaced, Some(true));
    assert_eq!(line.on_death, Some(1));
    assert_eq!(line.on_normal_action, None);
    assert!(matches!(line.aura_range, NumberMod::Replace(2)));
    assert!(matches!(line.get_fraction("Armor"), NumberMod::Rhai(0)));
}

#[test]
fn splash_table_and_conditions() {
    let mut loader = loader();
    let data = "SplashType;Priority;AllowsCounterAttack;DirectionModifier;Condition;Script;PushDistance;Throw;Knock\n\
                Push;2;true;SharpLeft;AT(Melee);Displace;3;true;*1/2\n\
                Burn;;;;;powers > defend;;;\n\
                Push;;;;;Displace;;;\n";
    let mut lines: Vec<AttackSplashConfig> = table_with_headers(data, &mut loader).unwrap();
    assert_eq!(lines.len(), 3);
    assert_eq!(lines[0].splash_type, SplashType(0));
    assert_eq!(lines[0].priority, Fraction::from_integer(2));
    assert!(lines[0].allows_counter_attack);
    assert_eq!(lines[0].direction_modifier, DisplaceDirectionModifier::SharpLeft);
    assert_eq!(
        lines[0].script,
        AttackInstanceScript::Displace { distance: Fraction::from_integer(3), push_limit: Fraction::from_integer(0), throw: true }
    );
    assert!(matches!(lines[0].get_fraction("Knock"), NumberMod::Mul(f) if f == Fraction::new(1, 2)));
    assert_eq!(lines[1].splash_type, SplashType(1));
    assert_eq!(lines[1].script, AttackInstanceScript::Rhai { build_script: 0 });
    assert_eq!(lines[1].direction_modifier, DisplaceDirectionModifier::Keep);
    assert_eq!(lines[2].splash_type, SplashType(0));
    assert_eq!(
        lines[2].script,
        AttackInstanceScript::Displace { distance: Fraction::from_integer(1), push_limit: Fraction::from_integer(0), throw: false }
    );
    assert_eq!(loader.splash_types, vec![chars("Push"), chars("Burn")]);
    assert_eq!(lines[0].unparsed_condition, "AT(Melee");
    lines[0].parse_deferred(&mut loader).unwrap();
    assert_eq!(lines[0].unparsed_condition, "");
    assert!(matches!(&lines[0].condition[0], AttackFilter::Attack(t) if t == &vec![AttackType(Some(0))]));
    let mut loader = self::loader();
    let no_script: Result<Vec<AttackSplashConfig>, _> = table_with_headers("SplashType\nPush\n", &mut loader);
    assert!(matches!(no_script, Err(ConfigParseError::MissingColumn(5))));
    let mut loader = self::loader();
    let unnamed: Result<Vec<AttackSplashConfig>, _> = table_with_headers("SplashType;Script\n;Displace\n", &mut loader);
    assert!(matches!(unnamed, Err(ConfigParseError::NameTooShort)));
}
