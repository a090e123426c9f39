use wars_core::config::config::{parse_config, ConfigTexts};
use wars_core::config::editor_tag_config::TagEditorVisibility;
use wars_core::config::file_loader::{FileLoader, ScriptModule};
use wars_core::config::CommanderType;
use wars_core::config::ConfigParseError;
use wars_core::fraction::Fraction;
use wars_core::terrain::TerrainType;
use wars_core::units::{HeroType, MovementType, UnitType};

fn chars(s: &str) -> Vec<char> {
    s.chars().collect()
}

fn loader() -> FileLoader {
    FileLoader::new(vec![
        ScriptModule {
            filename: chars("rules"),
            functions: Ok(vec![(chars("dead"), 2), (chars("movable"), 0), (chars("damage"), 2), (chars("power"), 0)]),
        },
        ScriptModule { filename: chars("global"), functions: Ok(vec![]) },
    ])
}

fn text(s: &str) -> Option<String> {
    Some(s.to_string())
}

fn texts() -> ConfigTexts {
    ConfigTexts {
        name: "Test".to_string(),
        tags: text("Id;Type;MinValue;MaxValue\nZombie;flag;;\nhp;int;0;10\n"),
        movement_types: text("Name;SubTypes\nFoot;\nWheel;\nAmphibious;Foot, Wheel\n"),
        ruleset: text("NeutralColor;#808080\nPlayerColors;#ff0000, #00f\nUnknownUnit;Unknown\nDefaultTerrain;Grass\nUnitDeathTest;rules > dead\nUnitMovableTest;rules > movable\nDealDamageToUnit;rules > damage\n"),
        units: text("Id;MovementType;TransportCapacity\nUnknown;Foot;0\nTank;Wheel;2\nInf;Foot;1\n"),
        terrain: text("Id;VisionRange\nGrass;-1\nCity;2\n"),
        tokens: text(""),
        effects: text(""),
        commanders: text("Id;Charge;TransportCapacity\nVlad;100;1\nTapio;300;0\n"),
        heroes: text("Id;Charge;TransportCapacity\nKnight;5;3\n"),
        unit_transport: text("x;Inf;Tank\nTank;x;\nTank;;x\n"),
        unit_damage: text("x;Inf;Tank\nTank;55;+70\n"),
        custom_actions: text(""),
        hero_powers: text("Hero;Name;PreventsCharging\nKnight;Rally;true\n"),
        movement: text("x;Foot;Wheel\nGrass;1;3/2\nCity;;1\n"),
        sub_movement: vec![("sub_mt_Amphibious.csv".to_string(), "x;Foot;Wheel\nGrass;;Foot\nCity;Wheel;\n".to_string())],
        commander_powers: text("Id;Name;RequiredCharge;Script;PreventsCharging\nVlad;Normal;0;;\nVlad;Night;50;rules > power;true\nTapio;Normal;0;;\n"),
        unit_powered: text(""),
        terrain_powered: text(""),
        global_events: text(""),
        tables: text("Id;Path;Type;DefaultValue;Left;Top\ndamage;dmg.csv;Int;0;Unit;Terrain\n"),
        custom_tables: vec![("dmg.csv".to_string(), "x;Grass;City\nInf;1;0\n".to_string())],
        terrain_tags: text("x;Zombie;hp\nCity;Always;Advanced\nCity;Normal;\n"),
        token_tags: text(""),
        unit_tags: text(""),
    }
}

#[test]
fn whole_config_is_read() {
    let mut loader = loader();
    let config = parse_config(&texts(), &mut loader).unwrap();
    assert_eq!(config.get_name(), "Test");
    assert_eq!(config.owner_colors().len(), 3);
    assert_eq!(config.flag_count(), 1);
    assert_eq!(config.tag_count(), 1);
    assert_eq!(config.unit_count(), 3);
    assert_eq!(config.unknown_unit(), UnitType(0));
    assert_eq!(config.find_unit_by_name("Inf"), Some(UnitType(2)));
    assert_eq!(config.find_unit_by_name("Plane"), None);
    assert_eq!(config.base_movement_type(UnitType(1)), MovementType(1));
    assert_eq!(config.default_terrain(), TerrainType(0));
    assert_eq!(config.terrain_vision_range_base(TerrainType(0)), None);
    assert_eq!(config.terrain_vision_range_base(TerrainType(1)), Some(2));
    // units 2, commanders 1, heroes 3
    assert_eq!(config.max_transported(), 6);
    assert_eq!(config.max_commander_charge(), 300);
    assert_eq!(config.max_hero_charge(), 5);
    // the later line of a unit type counts
    assert_eq!(config.unit_transportable(UnitType(1)), vec![UnitType(1)]);
    assert_eq!(config.unit_transportable(UnitType(2)), vec![]);
    assert_eq!(config.base_damage(UnitType(1), UnitType(2)), Some(55));
    assert_eq!(config.base_damage(UnitType(1), UnitType(1)), Some(70));
    assert_eq!(config.base_damage(UnitType(2), UnitType(1)), None);
    assert!(config.can_attack(UnitType(1)));
    assert!(!config.can_attack(UnitType(0)));
    assert_eq!(config.terrain_movement_cost(TerrainType(0), MovementType(1)), Some(Fraction::new(3, 2)));
    assert_eq!(config.terrain_movement_cost(TerrainType(1), MovementType(0)), None);
    assert_eq!(config.hero_powers(HeroType(0)).len(), 1);
    assert!(!config.hero_can_gain_charge(HeroType(0), 0));
    assert!(!config.hero_can_gain_charge(HeroType(0), 1));
    assert_eq!(config.find_hero_by_name("Knight"), Some(HeroType(0)));
    assert_eq!(config.is_terrain_flag_normal(TerrainType(1), 0), TagEditorVisibility::Normal);
    assert_eq!(config.is_terrain_tag_normal(TerrainType(1), 0), TagEditorVisibility::Advanced);
    assert_eq!(config.is_terrain_flag_normal(TerrainType(0), 0), TagEditorVisibility::Hidden);
    assert_eq!(config.effect_count(), 3);
    assert_eq!(config.find_effect_by_name("GLITCH"), Some(0));
    assert_eq!(config.custom_tables().len(), 1);
    assert_eq!(config.commander_name(1), "Tapio");
    assert_eq!(config.movement_type_count(), 3);
    assert_eq!(config.movement_type_name(MovementType(2)), "Amphibious");
    assert_eq!(config.find_movement_by_name("Wheel"), Some(MovementType(1)));
    assert_eq!(config.sub_movement_types(MovementType(2)), &[MovementType(0), MovementType(1)]);
    assert_eq!(config.sub_movement_types(MovementType(0)), &[]);
    assert_eq!(config.commander_powers(CommanderType(0)).len(), 2);
    assert_eq!(config.commander_powers(CommanderType(1)).len(), 1);
    assert_eq!(config.commander_powers(CommanderType(2)).len(), 0);
    assert_eq!(config.commander_powers(CommanderType(0))[1].name, "Night");
    assert!(config.commander_powers(CommanderType(0))[1].script.is_some());
    assert!(config.commander_can_gain_charge(CommanderType(0), 0));
    assert!(!config.commander_can_gain_charge(CommanderType(0), 1));
    let rules = config.commander_power_rules(CommanderType(0));
    assert_eq!(rules.len(), 2);
    assert_eq!(rules[1].required_charge, 50);
    assert_eq!(rules[1].next_power, 0);
}

#[test]
fn whole_config_sub_movement() {
    let mut loader = loader();
    let config = parse_config(&texts(), &mut loader).unwrap();
    let (foot, wheel, amphibious) = (MovementType(0), MovementType(1), MovementType(2));
    let (grass, city) = (TerrainType(0), TerrainType(1));
    assert_eq!(config.transform_sub_movement_type(amphibious, wheel, grass), foot);
    assert_eq!(config.transform_sub_movement_type(amphibious, foot, grass), foot);
    assert_eq!(config.transform_sub_movement_type(amphibious, foot, city), wheel);
    assert_eq!(config.transform_sub_movement_type(amphibious, wheel, city), wheel);
    assert_eq!(config.transform_sub_movement_type(foot, foot, city), foot);
}

#[test]
fn whole_config_new_step_errors() {
    let mut loader = FileLoader::new(vec![ScriptModule {
        filename: chars("rules"),
        functions: Ok(vec![(chars("dead"), 2), (chars("movable"), 0), (chars("damage"), 2)]),
    }]);
    assert!(matches!(parse_config(&texts(), &mut loader), Err(ConfigParseError::FileMissing(ref f)) if f == "scripts/global.rhai"));
    let mut loader = self::loader();
    let mut t = texts();
    t.movement_types = text("Name\nFoot\nFoot\n");
    assert!(matches!(parse_config(&t, &mut loader), Err(ConfigParseError::DuplicateEntry(ref m)) if m == "MovementType::Foot"));
    let mut loader = self::loader();
    let mut t = texts();
    t.movement_types = text("Name;SubTypes\nFoot;Wheel\nWheel;\n");
    assert!(matches!(parse_config(&t, &mut loader), Err(ConfigParseError::UnknownEnumMember(_))));
    let mut loader = self::loader();
    let mut t = texts();
    t.movement_types = None;
    assert!(matches!(parse_config(&t, &mut loader), Err(ConfigParseError::FileMissing(ref f)) if f == "movement_types.csv"));
    let mut loader = self::loader();
    let mut t = texts();
    t.sub_movement.clear();
    assert!(matches!(parse_config(&t, &mut loader), Err(ConfigParseError::FileMissing(ref f)) if f == "sub_mt_Amphibious.csv"));
    let mut loader = self::loader();
    let mut t = texts();
    t.commander_powers = text("Id;Name\nMissing;Normal\n");
    assert!(matches!(parse_config(&t, &mut loader), Err(ConfigParseError::UnknownEnumMember(_))));
    let mut loader = self::loader();
    let mut t = texts();
    t.commander_powers = None;
    assert!(matches!(parse_config(&t, &mut loader), Err(ConfigParseError::FileMissing(ref f)) if f == "commander_powers.csv"));
}

#[test]
fn whole_config_missing_file() {
    let mut loader = loader();
    let mut t = texts();
    t.units = None;
    assert!(matches!(parse_config(&t, &mut loader), Err(ConfigParseError::FileMissing(ref f)) if f == "units.csv"));
    let mut loader = self::loader();
    let mut t = texts();
    t.custom_tables.clear();
    assert!(matches!(parse_config(&t, &mut loader), Err(ConfigParseError::FileMissing(ref f)) if f == "tables/dmg.csv"));
}

#[test]
fn whole_config_errors() {
    let mut loader = loader();
    let mut t = texts();
    t.units = text("Id;MovementType\nTank;Wheel\n");
    assert!(matches!(parse_config(&t, &mut loader), Err(ConfigParseError::MissingUnit(ref u)) if u == "Unknown"));
    let mut loader = self::loader();
    let mut t = texts();
    t.units = text("Id;MovementType\nUnknown;Foot\nTank;Wheel\nTank;Foot\n");
    assert!(matches!(parse_config(&t, &mut loader), Err(ConfigParseError::DuplicateEntry(ref u)) if u == "UnitType::Tank"));
    let mut loader = self::loader();
    let mut t = texts();
    t.heroes = text("Id;Charge\nKnight;128\n");
    assert!(matches!(parse_config(&t, &mut loader), Err(ConfigParseError::HeroMaxChargeExceeded(127))));
    let mut loader = self::loader();
    let mut t = texts();
    t.terrain = text("Id\nCity\n");
    assert!(matches!(parse_config(&t, &mut loader), Err(ConfigParseError::Other(ref m)) if m == "missing entry in ruleset.csv: 'DefaultTerrain'"));
    let mut loader = self::loader();
    let mut t = texts();
    t.unit_damage = text("x;Inf\nTank;lots\n");
    assert!(matches!(parse_config(&t, &mut loader), Err(ConfigParseError::InvalidInteger(ref m)) if m == "lots"));
}

#[test]
fn whole_config_checks_each_line_as_it_is_read() {
    // the repeated unit type comes before the line with an unknown movement
    // type, so the repeat is what is reported
    let mut loader = loader();
    let mut t = texts();
    t.units = text("Id;MovementType\nUnknown;Foot\nUnknown;Foot\nTank;Hover\n");
    assert!(matches!(parse_config(&t, &mut loader), Err(ConfigParseError::DuplicateEntry(ref u)) if u == "UnitType::Unknown"));
    let mut loader = self::loader();
    let mut t = texts();
    t.units = text("Id;MovementType\nUnknown;Foot\nTank;Hover\nUnknown;Foot\n");
    assert!(matches!(parse_config(&t, &mut loader), Err(ConfigParseError::UnknownEnumMember(_))));
    let mut loader = self::loader();
    let mut t = texts();
    t.effects = text("Id;Global;DataType;Visibility\nSMOKE;true;;Full\nGLITCH;true;;Full\n");
    assert!(matches!(parse_config(&t, &mut loader), Err(ConfigParseError::DuplicateEntry(ref e)) if e == "EffectType::GLITCH"));
}
