use wars_core::attack_pattern::{AllowedAttackInputDirectionSource, AttackPattern};
use wars_core::combat::{AttackType, ValidAttackTargets};
use wars_core::config::file_loader::{FileLoader, ScriptModule};
use wars_core::config::movement_type_config::MovementPattern;
use wars_core::config::table_file::table_with_headers;
use wars_core::config::terrain_type_config::TerrainTypeConfig;
use wars_core::config::unit_type_config::UnitTypeConfig;
use wars_core::config::{ConfigParseError, OwnershipPredicate};
use wars_core::fog::VisionMode;
use wars_core::fraction::Fraction;
use wars_core::movement::ExtraMovementOptions;
use wars_core::units::{MovementType, UnitVisibility};

fn chars(s: &str) -> Vec<char> {
    s.chars().collect()
}

fn loader() -> FileLoader {
    let mut loader = FileLoader::new(vec![ScriptModule {
        filename: chars("units"),
        functions: Ok(vec![(chars("targets"), 0)]),
    }]);
    loader.movement_types.push(chars("Foot"));
    loader.movement_types.push(chars("Wheel"));
    loader.attack_types.push(chars("Melee"));
    loader
}

#[test]
fn terrain_table_reads_cells_and_defaults() {
    let mut loader = loader();
    let data = "Id;Owned;OwnerPlayable;VisionRange;IncomeFactor;Chess;MovementOptions;Preview\n\
                City;Always;true;2;1/2;false;Jump;x\n\
                Grass;;;;;;;\n";
    let lines: Vec<TerrainTypeConfig> = table_with_headers(data, &mut loader).unwrap();
    assert_eq!(lines.len(), 2);
    assert_eq!(lines[0].name, "City");
    assert_eq!(lines[0].owned, OwnershipPredicate::Always);
    assert!(lines[0].owner_is_playable);
    assert_eq!(lines[0].vision_range, 2);
    assert_eq!(lines[0].income_factor, Fraction::new(1, 2));
    assert!(!lines[0].chess);
    assert_eq!(lines[0].extra_movement_options, ExtraMovementOptions::Jump);
    assert_eq!(lines[1].name, "Grass");
    assert_eq!(lines[1].owned, OwnershipPredicate::Either);
    assert!(!lines[1].owner_is_playable);
    assert_eq!(lines[1].vision_range, -1);
    assert_eq!(lines[1].income_factor, Fraction::from_integer(0));
    assert_eq!(lines[1].extra_movement_options, ExtraMovementOptions::NoExtra);
}

#[test]
fn terrain_table_errors() {
    let mut loader = loader();
    let missing: Result<Vec<TerrainTypeConfig>, _> = table_with_headers("Owned\nAlways\n", &mut loader);
    assert!(matches!(missing, Err(ConfigParseError::MissingColumn(_))));
    let blank: Result<Vec<TerrainTypeConfig>, _> = table_with_headers("Id;Chess\n  ;true\n", &mut loader);
    assert!(matches!(blank, Err(ConfigParseError::NameTooShort)));
    let owned: Result<Vec<TerrainTypeConfig>, _> = table_with_headers("Id;Owned\nCity;Sometimes\n", &mut loader);
    assert!(matches!(owned, Err(ConfigParseError::UnknownEnumMember(_))));
}

#[test]
fn unit_table_reads_cells_and_defaults() {
    let mut loader = loader();
    let data = "Id;MovementType;MovementPoints;Vision;Visibility;AttackPattern;AttackTargets;AttackType;TransportCapacity;CanBeTaken;Cost\n\
                 Tank ;Wheel;6;2;Stealth;Straight(2, 3);units > targets;Melee;1;true; 7 \n\
                Scout;Foot;;;Normal;;;;;;\n";
    let lines: Vec<UnitTypeConfig> = table_with_headers(data, &mut loader).unwrap();
    assert_eq!(lines.len(), 2);
    let tank = &lines[0];
    assert_eq!(tank.name, "Tank");
    assert_eq!(tank.movement_type, MovementType(1));
    assert_eq!(tank.movement_points, Fraction::from_integer(6));
    assert_eq!(tank.vision, 2);
    assert_eq!(tank.visibility, UnitVisibility::Stealth);
    assert_eq!(tank.attack_pattern, AttackPattern::Straight { min: Fraction::from_integer(2), max: Fraction::from_integer(3) });
    assert_eq!(tank.attack_targets, ValidAttackTargets::Rhai(0));
    assert_eq!(tank.attack_type, AttackType(Some(0)));
    assert_eq!(tank.transport_capacity, 1);
    assert!(tank.can_be_taken);
    assert_eq!(tank.custom_columns, vec![("Cost".to_string(), "7".to_string())]);
    let scout = &lines[1];
    assert_eq!(scout.movement_type, MovementType(0));
    assert_eq!(scout.movement_pattern, MovementPattern::Standard);
    assert_eq!(scout.vision_mode, VisionMode::Normal);
    assert_eq!(scout.visibility, UnitVisibility::Normal);
    assert_eq!(scout.attack_pattern, AttackPattern::NoAttack);
    assert_eq!(scout.attack_targets, ValidAttackTargets::Enemy);
    assert_eq!(scout.attack_type, AttackType(None));
    assert_eq!(scout.attack_direction, AllowedAttackInputDirectionSource::AllDirections);
    assert_eq!(scout.owned, OwnershipPredicate::Either);
    assert_eq!(scout.transport_capacity, 0);
    assert_eq!(scout.custom_columns, vec![("Cost".to_string(), "".to_string())]);
}

#[test]
fn unit_table_errors() {
    let mut loader = loader();
    let no_movement: Result<Vec<UnitTypeConfig>, _> = table_with_headers("Id;Vision\nTank;2\n", &mut loader);
    assert!(matches!(no_movement, Err(ConfigParseError::MissingColumn(_))));
    let unknown: Result<Vec<UnitTypeConfig>, _> = table_with_headers("Id;MovementType\nTank;Hover\n", &mut loader);
    assert!(matches!(unknown, Err(ConfigParseError::UnknownEnumMember(ref m)) if m == "MovementType::Hover"));
    let blank: Result<Vec<UnitTypeConfig>, _> = table_with_headers("Id;MovementType\n ;Foot\n", &mut loader);
    assert!(matches!(blank, Err(ConfigParseError::NameTooShort)));
}

#[test]
fn unit_table_empty_visibility_is_an_error() {
    let mut loader = loader();
    let empty: Result<Vec<UnitTypeConfig>, _> = table_with_headers("Id;MovementType;Visibility\nTank;Foot;\n", &mut loader);
    assert!(matches!(empty, Err(ConfigParseError::UnknownEnumMember(_))));
}
