use wars_core::config::commander_type_config::CommanderTypeConfig;
use wars_core::config::editor_tag_config::TagEditorVisibility;
use wars_core::config::effect_config::{effect_data_type, EffectDataType};
use wars_core::config::file_loader::{FileLoader, ScriptModule};
use wars_core::config::hero_power_config::HeroPowerConfig;
use wars_core::config::hero_type_config::HeroTypeConfig;
use wars_core::config::ruleset::{check_unique_names, parse_ruleset};
use wars_core::config::table_config::{table_column, table_entry, table_row, CustomTable, TableAxisKey, TableConfig, TableValue};
use wars_core::config::table_file::{table_key_value, table_with_headers};
use wars_core::config::tag_config::{TagConfig, TagType};
use wars_core::config::token_type_config::TokenTypeConfig;
use wars_core::config::ConfigParseError;
use wars_core::terrain::TerrainType;
use wars_core::units::{HeroType, UnitType, UnitVisibility};

use wars_core::combat::AttackType;
use wars_core::combat::DisplaceDirectionModifier;
use wars_core::combat::ValidAttackTargets;
use wars_core::config::effect_config::{EffectConfig, EffectVisibility};
use wars_core::config::parse::FromConfig;
use wars_core::config::setup::effect_types;
use wars_core::config::setup::split_flags;
use wars_core::fog::FogIntensity;
use wars_core::tags::FlagKey;

fn chars(s: &str) -> Vec<char> {
    s.chars().collect()
}

fn script(file: &str, functions: &[(&str, usize)]) -> ScriptModule {
    ScriptModule {
        filename: chars(file),
        functions: Ok(functions.iter().map(|(n, c)| (chars(n), *c)).collect()),
    }
}

#[test]
fn hero_type_config_from_table() {
    let mut loader = FileLoader::new(Vec::new());
    let data = "Id;Charge;AuraRange;AuraRangeTransported;TransportCapacity\nKnight;5;2;1;3\n";
    let heroes: Vec<HeroTypeConfig> = table_with_headers(data, &mut loader).unwrap();
    assert_eq!(heroes.len(), 1);
    assert_eq!(heroes[0].name, "Knight");
    assert_eq!(heroes[0].max_charge, 5);
    assert_eq!(heroes[0].aura_range, 2);
    assert_eq!(heroes[0].aura_range_transported, 1);
    assert_eq!(heroes[0].transport_capacity, 3);
    assert_eq!(heroes[0].powers.len(), 0);
}

#[test]
fn hero_type_defaults_for_missing_columns() {
    let mut loader = FileLoader::new(Vec::new());
    let heroes: Vec<HeroTypeConfig> = table_with_headers("Id;Price\nKnight;100\nMage;\n", &mut loader).unwrap();
    assert_eq!(heroes.len(), 2);
    assert_eq!(heroes[1].name, "Mage");
    assert_eq!(heroes[1].max_charge, 0);
    assert_eq!(heroes[1].aura_range, 0);
    assert_eq!(heroes[1].aura_range_transported, i8::MIN);
}

#[test]
fn table_rejects_duplicate_header() {
    let mut loader = FileLoader::new(Vec::new());
    let r: Result<Vec<HeroTypeConfig>, _> = table_with_headers("Id;Charge;Id\na;1;b\n", &mut loader);
    assert!(matches!(r, Err(ConfigParseError::DuplicateHeader(ref h)) if h == "Id"));
}

#[test]
fn table_needs_id_column() {
    let mut loader = FileLoader::new(Vec::new());
    let r: Result<Vec<HeroTypeConfig>, _> = table_with_headers("Charge\n5\n", &mut loader);
    assert!(matches!(r, Err(ConfigParseError::MissingColumn(0))));
}

#[test]
fn table_rejects_unknown_header() {
    let mut loader = FileLoader::new(Vec::new());
    let r: Result<Vec<HeroTypeConfig>, _> = table_with_headers("Id;Speed\na;1\n", &mut loader);
    assert!(matches!(r, Err(ConfigParseError::UnknownEnumMember(ref m)) if m == "HeroTypeConfigHeader::Speed - "));
}

#[test]
fn table_reports_bad_number() {
    let mut loader = FileLoader::new(Vec::new());
    let r: Result<Vec<HeroTypeConfig>, _> = table_with_headers("Id;Charge\na;lots\n", &mut loader);
    assert!(matches!(r, Err(ConfigParseError::InvalidInteger(ref m)) if m == "lots"));
}

#[test]
fn empty_table_has_no_lines() {
    let mut loader = FileLoader::new(Vec::new());
    let r: Vec<HeroTypeConfig> = table_with_headers("", &mut loader).unwrap();
    assert_eq!(r.len(), 0);
}

#[test]
fn hero_power_transported_range_reads_aura_range() {
    let mut loader = FileLoader::new(Vec::new());
    loader.hero_types.push(chars("Knight"));
    let data = "Hero;Name;AuraRange;UsableFromPowers\nKnight; Boost ;3;0, 1\nKnight;Rest;;\n";
    let powers: Vec<HeroPowerConfig> = table_with_headers(data, &mut loader).unwrap();
    assert_eq!(powers.len(), 2);
    assert_eq!(powers[0].hero, HeroType(0));
    assert_eq!(powers[0].get_name(), "Boost");
    assert_eq!(powers[0].aura_range, 3);
    assert_eq!(powers[0].aura_range_transported, 3);
    assert_eq!(powers[0].usable_from_power, vec![0, 1]);
    assert_eq!(powers[0].get_script(), None);
    assert_eq!(powers[1].aura_range, 0);
    assert_eq!(powers[1].aura_range_transported, -9);
    assert_eq!(powers[1].usable_from_power, Vec::<u8>::new());
    assert_eq!(powers[1].next_power, 0);
    assert!(!powers[1].prevents_charging);
}

#[test]
fn hero_power_unknown_hero() {
    let mut loader = FileLoader::new(Vec::new());
    let r: Result<Vec<HeroPowerConfig>, _> = table_with_headers("Hero;Name\nGhost;Boo\n", &mut loader);
    assert!(matches!(r, Err(ConfigParseError::UnknownEnumMember(ref m)) if m == "HeroType::Ghost"));
}

#[test]
fn hero_power_with_script_and_input() {
    let mut loader = FileLoader::new(vec![script("powers", &[("boost", 1), ("boost_input", 0)])]);
    loader.hero_types.push(chars("Knight"));
    let powers: Vec<HeroPowerConfig> = table_with_headers("Hero;Name;Script\nKnight;Boost;powers > boost\n", &mut loader).unwrap();
    assert_eq!(powers[0].get_script(), Some((Some(1), 0)));
}

#[test]
fn hero_power_script_without_parameter() {
    let mut loader = FileLoader::new(vec![script("powers", &[("heal", 0)])]);
    loader.hero_types.push(chars("Knight"));
    let powers: Vec<HeroPowerConfig> = table_with_headers("Hero;Name;Script\nKnight;Heal;powers>heal\n", &mut loader).unwrap();
    assert_eq!(powers[0].get_script(), Some((None, 0)));
}

#[test]
fn hero_power_missing_script_file() {
    let mut loader = FileLoader::new(Vec::new());
    loader.hero_types.push(chars("Knight"));
    let r: Result<Vec<HeroPowerConfig>, _> = table_with_headers("Hero;Name;Script\nKnight;Heal;powers>heal\n", &mut loader);
    assert!(matches!(r, Err(ConfigParseError::FileMissing(ref p)) if p == "scripts/powers.rhai"));
}

#[test]
fn tag_config_int_default_is_clamped() {
    let mut loader = FileLoader::new(Vec::new());
    let tags: Vec<TagConfig> = table_with_headers("Id;Type;MinValue;MaxValue;DefaultValue\n hp ; Int ;0;10;20\n", &mut loader).unwrap();
    assert_eq!(tags[0].name, "hp");
    assert_eq!(tags[0].tag_type, TagType::Int { min: 0, max: 10, default: 10 });
    assert_eq!(tags[0].visibility, UnitVisibility::Normal);
    assert_eq!(tags[0].global, TagEditorVisibility::Hidden);
    assert_eq!(tags[0].player, TagEditorVisibility::Hidden);
}

#[test]
fn tag_config_default_below_minimum() {
    let mut loader = FileLoader::new(Vec::new());
    let tags: Vec<TagConfig> = table_with_headers("Id;Type;MinValue;MaxValue;DefaultValue;Player\nlevel;int;1;5;-3;Always\n", &mut loader).unwrap();
    assert_eq!(tags[0].tag_type, TagType::Int { min: 1, max: 5, default: 1 });
    assert_eq!(tags[0].player, TagEditorVisibility::Always);
}

#[test]
fn tag_config_minimum_must_be_lower() {
    let mut loader = FileLoader::new(Vec::new());
    let r: Result<Vec<TagConfig>, _> = table_with_headers("Id;Type;MinValue;MaxValue\nhp;int;5;5\n", &mut loader);
    assert!(matches!(r, Err(ConfigParseError::Other(ref m)) if m == "TagType hp's minimum needs to be lower than maximum"));
}

#[test]
fn tag_config_unknown_type() {
    let mut loader = FileLoader::new(Vec::new());
    let r: Result<Vec<TagConfig>, _> = table_with_headers("Id;Type\nx;Banana\n", &mut loader);
    assert!(matches!(r, Err(ConfigParseError::UnknownEnumMember(ref m)) if m == "TagType::banana"));
}

#[test]
fn tag_config_name_too_short() {
    let mut loader = FileLoader::new(Vec::new());
    let r: Result<Vec<TagConfig>, _> = table_with_headers("Id;Type\n  ;flag\n", &mut loader);
    assert!(matches!(r, Err(ConfigParseError::NameTooShort)));
}

#[test]
fn tag_config_unique_pool() {
    let mut loader = FileLoader::new(Vec::new());
    let tags: Vec<TagConfig> = table_with_headers("Id;Type;UniqueWith;Visibility\nleader;unique;;Stealth\ncaptain;UNIQUE;officers, x;\n", &mut loader).unwrap();
    assert_eq!(tags[0].tag_type, TagType::Unique { pool: "leader".to_string() });
    assert_eq!(tags[0].visibility, UnitVisibility::Stealth);
    assert_eq!(tags[1].tag_type, TagType::Unique { pool: "officers".to_string() });
    assert_eq!(tags[1].visibility, UnitVisibility::Normal);
}

#[test]
fn tag_config_other_kinds() {
    let mut loader = FileLoader::new(Vec::new());
    let data = "Id;Type\na;flag\nb;point\nc;direction\nd;terrain_type\ne;UnitType\nf;movement_type\n";
    let tags: Vec<TagConfig> = table_with_headers(data, &mut loader).unwrap();
    let kinds: Vec<TagType> = tags.into_iter().map(|t| t.tag_type).collect();
    assert_eq!(kinds, vec![TagType::Flag, TagType::Point, TagType::Direction, TagType::TerrainType, TagType::UnitType, TagType::MovementType]);
}

#[test]
fn tag_config_unknown_visibility() {
    let mut loader = FileLoader::new(Vec::new());
    let r: Result<Vec<TagConfig>, _> = table_with_headers("Id;Type;Visibility\nx;flag;Hidden\n", &mut loader);
    assert!(matches!(r, Err(ConfigParseError::UnknownEnumMember(ref m)) if m == "UnitVisibility::Hidden - "));
}

#[test]
fn token_type_config_from_table() {
    let mut loader = FileLoader::new(Vec::new());
    let tokens: Vec<TokenTypeConfig> = table_with_headers("Id;Ownable;VisionRange\nmine;true;2\nflag;f;\n", &mut loader).unwrap();
    assert_eq!(tokens[0].name, "mine");
    assert!(tokens[0].can_have_owner);
    assert!(!tokens[0].owner_is_playable);
    assert_eq!(tokens[0].vision_range, 2);
    assert_eq!(tokens[0].visibility, UnitVisibility::Normal);
    assert_eq!(tokens[0].action_script, None);
    assert_eq!(tokens[0].on_unit_path, None);
    assert!(!tokens[1].can_have_owner);
    assert_eq!(tokens[1].vision_range, -1);
}

#[test]
fn token_type_scripts() {
    let mut loader = FileLoader::new(vec![script("tokens", &[("act", 1), ("act_input", 0), ("step", 2)])]);
    let tokens: Vec<TokenTypeConfig> = table_with_headers("Id;ActionScript;OnUnitPath\nmine;tokens>act;tokens>step\n", &mut loader).unwrap();
    assert_eq!(tokens[0].action_script, Some((1, 0)));
    assert_eq!(tokens[0].on_unit_path, Some(2));
}

#[test]
fn token_type_empty_visibility_is_an_error() {
    let mut loader = FileLoader::new(Vec::new());
    let r: Result<Vec<TokenTypeConfig>, _> = table_with_headers("Id;Visibility\nmine;\n", &mut loader);
    assert!(matches!(r, Err(ConfigParseError::UnknownEnumMember(ref m)) if m == "UnitVisibility:: - "));
}

#[test]
fn token_type_name_too_short() {
    let mut loader = FileLoader::new(Vec::new());
    let r: Result<Vec<TokenTypeConfig>, _> = table_with_headers("Id\n \n", &mut loader);
    assert!(matches!(r, Err(ConfigParseError::NameTooShort)));
}

#[test]
fn commander_type_config_limits_charge() {
    let mut loader = FileLoader::new(Vec::new());
    let r: Result<Vec<CommanderTypeConfig>, _> = table_with_headers("Id;Charge\nVlad;3000000000\n", &mut loader);
    assert!(matches!(r, Err(ConfigParseError::CommanderMaxChargeExceeded(2147483647))));
    let ok: Vec<CommanderTypeConfig> = table_with_headers("Id;Charge;TransportCapacity\nVlad;100;2\n", &mut loader).unwrap();
    assert_eq!(ok[0].max_charge, 100);
    assert_eq!(ok[0].transport_capacity, 2);
    let missing: Result<Vec<CommanderTypeConfig>, _> = table_with_headers("Id\nVlad\n", &mut loader);
    assert!(matches!(missing, Err(ConfigParseError::MissingColumn(2))));
}

#[test]
fn key_value_table() {
    let (pairs, error) = table_key_value(" A ; 1 \nB;2\n");
    assert_eq!(pairs, vec![("A".to_string(), "1".to_string()), ("B".to_string(), "2".to_string())]);
    assert!(error.is_none());
}

#[test]
fn key_value_table_stops_at_csv_error() {
    let (pairs, error) = table_key_value("A;1\nB\nC;3\n");
    assert_eq!(pairs, vec![("A".to_string(), "1".to_string())]);
    assert!(matches!(error, Some(ConfigParseError::Other(_))));
}

fn ruleset_pairs(skip: &str) -> Vec<(String, String)> {
    let all = [
        ("NeutralColor", "#808080"),
        ("PlayerColors", "#ff0000, #00f"),
        ("UnknownUnit", "Unknown"),
        ("DefaultTerrain", "Grass"),
        ("UnitDeathTest", "rules > dead"),
        ("UnitMovableTest", "rules > movable"),
        ("DealDamageToUnit", "rules > damage"),
        ("Comment", "ignored"),
    ];
    all.iter().filter(|(k, _)| *k != skip).map(|(k, v)| (k.to_string(), v.to_string())).collect()
}

fn rules_loader() -> FileLoader {
    FileLoader::new(vec![script("rules", &[("dead", 2), ("movable", 0), ("damage", 2), ("damage_calc", 1)])])
}

#[test]
fn ruleset_reads_colors_and_scripts() {
    let mut loader = rules_loader();
    let rules = parse_ruleset(&ruleset_pairs(""), None, &mut loader).unwrap();
    assert_eq!(rules.owner_colors, vec![[128, 128, 128, 255], [255, 0, 0, 255], [0, 0, 255, 255]]);
    assert_eq!(rules.unknown_unit, "Unknown");
    assert_eq!(rules.default_terrain, "Grass");
    assert_eq!(rules.is_unit_dead_rhai, 0);
    assert_eq!(rules.is_unit_movable_rhai, 1);
    assert_eq!(rules.deal_damage_rhai, 2);
    assert_eq!(rules.calculate_damage_rhai, usize::MAX);
    assert_eq!(rules.weapon_effects_rhai, None);
}

#[test]
fn ruleset_needs_neutral_color() {
    let mut loader = rules_loader();
    let r = parse_ruleset(&ruleset_pairs("NeutralColor"), None, &mut loader);
    assert!(matches!(r, Err(ConfigParseError::MissingNeutralColor)));
}

#[test]
fn ruleset_needs_two_player_colors() {
    let mut loader = rules_loader();
    let mut pairs = ruleset_pairs("PlayerColors");
    pairs.push(("PlayerColors".to_string(), "#ff0000".to_string()));
    let r = parse_ruleset(&pairs, None, &mut loader);
    assert!(matches!(r, Err(ConfigParseError::NotEnoughPlayerColors)));
}

#[test]
fn ruleset_needs_death_test() {
    let mut loader = rules_loader();
    let r = parse_ruleset(&ruleset_pairs("UnitDeathTest"), None, &mut loader);
    assert!(matches!(r, Err(ConfigParseError::Other(ref m)) if m == "missing entry in ruleset.csv: 'UnitDeathTest'"));
}

#[test]
fn ruleset_rejects_wrong_parameter_count() {
    let mut loader = rules_loader();
    let mut pairs = ruleset_pairs("");
    pairs.push(("CalculateAttackDamage".to_string(), "rules > dead".to_string()));
    let r = parse_ruleset(&pairs, None, &mut loader);
    assert!(matches!(r, Err(ConfigParseError::ScriptFunctionNotFound(ref f, ref n)) if f == "rules" && n == "dead"));
}

#[test]
fn ruleset_rejects_bad_color() {
    let mut loader = rules_loader();
    let mut pairs = ruleset_pairs("NeutralColor");
    pairs.push(("NeutralColor".to_string(), "grey".to_string()));
    let r = parse_ruleset(&pairs, None, &mut loader);
    assert!(matches!(r, Err(ConfigParseError::InvalidColor(ref c)) if c == "grey"));
}

#[test]
fn ruleset_global_script_cannot_be_called() {
    let mut loader = rules_loader();
    let mut pairs = ruleset_pairs("UnitDeathTest");
    pairs.push(("UnitDeathTest".to_string(), "global > dead".to_string()));
    let r = parse_ruleset(&pairs, None, &mut loader);
    assert!(matches!(r, Err(ConfigParseError::DontCallGlobalScriptDirectly(ref n)) if n == "dead"));
}

#[test]
fn ruleset_reference_needs_arrow() {
    let mut loader = rules_loader();
    let mut pairs = ruleset_pairs("UnitDeathTest");
    pairs.push(("UnitDeathTest".to_string(), "dead".to_string()));
    let r = parse_ruleset(&pairs, None, &mut loader);
    assert!(matches!(r, Err(ConfigParseError::ScriptNeedsFileAndFunctionName(ref n)) if n == "dead"));
}

#[test]
fn unique_names_are_checked() {
    let names: Vec<String> = vec!["Infantry".to_string(), "Tank".to_string(), "Infantry".to_string()];
    let r = check_unique_names(&names, "UnitType");
    assert!(matches!(r, Err(ConfigParseError::DuplicateEntry(ref m)) if m == "UnitType::Infantry"));
    assert!(check_unique_names(&names[..2].to_vec(), "UnitType").is_ok());
}

fn table_loader() -> FileLoader {
    let mut loader = FileLoader::new(Vec::new());
    loader.unit_types.push(chars("Inf"));
    loader.unit_types.push(chars("Tank"));
    loader.terrain_types.push(chars("Grass"));
    loader.terrain_types.push(chars("Forest"));
    loader
}

fn damage_table(loader: &mut FileLoader) -> TableConfig {
    let mut confs: Vec<TableConfig> = table_with_headers("Id;Path;Type;DefaultValue;Left;Top\n damage ; dmg.csv ;Int;0;Unit;Terrain\n", loader).unwrap();
    confs.remove(0)
}

#[test]
fn custom_table_lookups() {
    let mut loader = table_loader();
    let conf = damage_table(&mut loader);
    assert_eq!(conf.id, "damage");
    assert_eq!(conf.path, "dmg.csv");
    assert_eq!(conf.default_value, TableValue::Int(0));
    let table: CustomTable = conf.build_table("x;Grass;Forest\nInf;1;0\nTank; ;2\n", &loader).unwrap();
    let grass = TableAxisKey::Terrain(TerrainType(0));
    let forest = TableAxisKey::Terrain(TerrainType(1));
    let inf = TableAxisKey::Unit(UnitType(0));
    let tank = TableAxisKey::Unit(UnitType(1));
    assert_eq!(table.column_keys, vec![grass, forest]);
    assert_eq!(table.row_keys, vec![inf, tank]);
    assert_eq!(table.values.len(), 2);
    assert_eq!(table.entry(grass, inf), TableValue::Int(1));
    assert_eq!(table.entry(forest, inf), TableValue::Int(0));
    assert_eq!(table.entry(grass, tank), TableValue::Int(0));
    assert_eq!(table.entry(forest, tank), TableValue::Int(2));
    assert_eq!(table.row(tank, TableValue::Int(2)), vec![forest]);
    assert_eq!(table.row(inf, TableValue::Int(0)), vec![forest]);
    assert_eq!(table.column(forest, TableValue::Int(0)), vec![inf]);
    assert_eq!(table.column(grass, TableValue::Int(0)), vec![tank]);
}

#[test]
fn custom_table_keeps_only_differences() {
    let mut loader = table_loader();
    let conf = damage_table(&mut loader);
    let table = conf.build_table("x;Grass;Forest\nInf;0;0\nTank;0;3\n", &loader).unwrap();
    for (_, value) in &table.values {
        assert_ne!(*value, table.default_value);
    }
    assert_eq!(table.values, vec![((TableAxisKey::Terrain(TerrainType(1)), TableAxisKey::Unit(UnitType(1))), TableValue::Int(3))]);
}

#[test]
fn custom_table_duplicate_row() {
    let mut loader = table_loader();
    let conf = damage_table(&mut loader);
    let r = conf.build_table("x;Grass\nInf;1\nInf;2\n", &loader);
    assert!(matches!(r, Err(ConfigParseError::DuplicateHeader(ref m)) if m == "Unit(UnitType(0))"));
}

#[test]
fn custom_table_duplicate_column() {
    let mut loader = table_loader();
    let conf = damage_table(&mut loader);
    let r = conf.build_table("x;Grass;Grass\nInf;1;2\n", &loader);
    assert!(matches!(r, Err(ConfigParseError::DuplicateHeader(ref m)) if m == "Grass"));
}

#[test]
fn custom_table_unknown_keys() {
    let mut loader = table_loader();
    let conf = damage_table(&mut loader);
    assert!(matches!(conf.build_table("x;Water\n", &loader), Err(ConfigParseError::MissingTerrain(ref m)) if m == "Water"));
    assert!(matches!(conf.build_table("x;Grass\nPlane;1\n", &loader), Err(ConfigParseError::MissingUnit(ref m)) if m == "Plane"));
}

#[test]
fn custom_table_of_fractions() {
    let mut loader = table_loader();
    let mut confs: Vec<TableConfig> = table_with_headers("Id;Path;Type;DefaultValue;Left;Top\nf;f.csv;Fraction;1;Terrain;Unit\n", &mut loader).unwrap();
    let conf = confs.remove(0);
    let table = conf.build_table("x;Inf\nGrass;2/4\nForest;1/1\n", &loader).unwrap();
    match table.entry(TableAxisKey::Unit(UnitType(0)), TableAxisKey::Terrain(TerrainType(0))) {
        TableValue::Fraction(f) => {
            assert_eq!(f.numer(), 1);
            assert_eq!(f.denom(), 2);
        },
        other => panic!("unexpected {:?}", other),
    }
    assert_eq!(table.values.len(), 1);
}

#[test]
fn effect_data_types() {
    let loader = FileLoader::new(Vec::new());
    assert_eq!(effect_data_type(&chars(" int(1, 5)"), &loader).unwrap(), Some(EffectDataType::Int { min: 1, max: 5 }));
    assert_eq!(effect_data_type(&chars(" Unit "), &loader).unwrap(), Some(EffectDataType::Unit));
    assert_eq!(effect_data_type(&chars("TEAM"), &loader).unwrap(), Some(EffectDataType::Team));
    assert_eq!(effect_data_type(&chars(""), &loader).unwrap(), None);
    assert!(matches!(effect_data_type(&chars("color"), &loader), Err(ConfigParseError::UnknownEnumMember(ref m)) if m == "EffectDataType::color"));
    assert!(matches!(effect_data_type(&chars("int(3"), &loader), Err(ConfigParseError::NotEnoughValues(_))));
    assert!(matches!(effect_data_type(&chars("int(3)"), &loader), Err(ConfigParseError::InvalidInteger(ref m)) if m == ""));
}

#[test]
fn script_modules_compile() {
    let module = ScriptModule::load(&chars("units"), Some("fn double(x) { x * 2 }\nfn fixed() { 42 }\n"));
    assert_eq!(module.filename, chars("units"));
    let mut functions = module.functions.clone().unwrap();
    functions.sort();
    assert_eq!(functions, vec![(chars("double"), 1), (chars("fixed"), 0)]);
    let mut loader = FileLoader::new(vec![module]);
    let p = loader.rhai_function(&chars("units > fixed"), 0, 1).unwrap();
    assert_eq!((p.index, p.parameter_count), (0, 0));
    let q = loader.rhai_function(&chars("units>fixed"), 0, 0).unwrap();
    assert_eq!(q.index, 0);
}

#[test]
fn script_modules_report_errors() {
    let missing = ScriptModule::load(&chars("gone"), None);
    assert!(matches!(missing.functions, Err(ConfigParseError::FileMissing(ref p)) if p == "scripts/gone.rhai"));
    let broken = ScriptModule::load(&chars("bad"), Some("fn broken( {"));
    assert!(matches!(broken.functions, Err(ConfigParseError::ScriptCompilation(ref p, _)) if p == "scripts/bad.rhai"));
    let mut loader = FileLoader::new(vec![broken]);
    assert!(matches!(loader.rhai_function(&chars("bad > f"), 0, 0), Err(ConfigParseError::ScriptCompilation(_, _))));
}

#[test]
fn displacement_modifiers() {
    let loader = FileLoader::new(Vec::new());
    let input = chars(" SharpLeft ");
    let (m, rest) = DisplaceDirectionModifier::from_conf(&input, &loader).unwrap();
    assert_eq!(m, DisplaceDirectionModifier::SharpLeft);
    assert!(rest.is_empty());
    assert_eq!(DisplaceDirectionModifier::from_conf(&chars(""), &loader).unwrap().0, DisplaceDirectionModifier::Keep);
    assert!(matches!(DisplaceDirectionModifier::from_conf(&chars("Up"), &loader),
        Err(ConfigParseError::UnknownEnumMember(ref m)) if m == "DisplaceDirectionModifier::Up"));
}

#[test]
fn valid_attack_targets_from_config() {
    let mut loader = FileLoader::new(vec![script("atk", &[("pick", 0)])]);
    assert_eq!(ValidAttackTargets::from_conf(&chars(" Friendly "), &mut loader).unwrap().0, ValidAttackTargets::Friendly);
    assert_eq!(ValidAttackTargets::from_conf(&chars(""), &mut loader).unwrap().0, ValidAttackTargets::Enemy);
    assert_eq!(ValidAttackTargets::from_conf(&chars("All"), &mut loader).unwrap().0, ValidAttackTargets::All);
    assert_eq!(ValidAttackTargets::from_conf(&chars("atk > pick"), &mut loader).unwrap().0, ValidAttackTargets::Rhai(0));
    assert!(matches!(ValidAttackTargets::from_conf(&chars("Nobody"), &mut loader), Err(ConfigParseError::ScriptNeedsFileAndFunctionName(_))));
}

#[test]
fn attack_types_by_name() {
    let mut loader = FileLoader::new(Vec::new());
    loader.attack_types.push(chars("Melee"));
    loader.attack_types.push(chars("Ranged"));
    let input = chars("Ranged rest");
    let (t, rest) = AttackType::from_conf(&input, &loader).unwrap();
    assert_eq!(t, AttackType(Some(1)));
    assert_eq!(rest.iter().collect::<String>(), "rest");
    assert_eq!(AttackType::from_conf(&chars("None"), &loader).unwrap().0, AttackType(None));
    assert!(matches!(AttackType::from_conf(&chars("Magic"), &loader), Err(ConfigParseError::UnknownEnumMember(ref m)) if m == "AttackType::Magic"));
}

#[test]
fn effect_config_from_table() {
    let mut loader = FileLoader::new(Vec::new());
    loader.flags.push(chars("hidden"));
    let data = "Id;Global;DataType;Visibility\nSMOKE;true;;Full\nHEAT;;int(0,10);Fog(Dark)\nMARK;;;UnitFlag(hidden)\n";
    let effects: Vec<EffectConfig> = table_with_headers(data, &mut loader).unwrap();
    assert_eq!(effects[0].name, "SMOKE");
    assert!(effects[0].is_global);
    assert_eq!(effects[0].data_type, None);
    assert_eq!(effects[0].visibility, EffectVisibility::Full);
    assert!(!effects[1].is_global);
    assert_eq!(effects[1].data_type, Some(EffectDataType::Int { min: 0, max: 10 }));
    assert_eq!(effects[1].visibility, EffectVisibility::Fog(FogIntensity::Dark));
    assert_eq!(effects[2].visibility, EffectVisibility::UnitFlag(FlagKey(0)));
}

#[test]
fn effect_config_errors() {
    let mut loader = FileLoader::new(Vec::new());
    let bad_name: Result<Vec<EffectConfig>, _> = table_with_headers("Id;DataType;Visibility\nbad name;;Full\n", &mut loader);
    assert!(matches!(bad_name, Err(ConfigParseError::Other(ref m)) if m == "Effect (bad name): Name can only contain ASCII letters, digits and '_'"));
    let bad_range: Result<Vec<EffectConfig>, _> = table_with_headers("Id;DataType;Visibility\nE;int(5,5);Full\n", &mut loader);
    assert!(matches!(bad_range, Err(ConfigParseError::Other(ref m)) if m == "Effect DataType E's minimum needs to be lower than maximum"));
    let no_visibility: Result<Vec<EffectConfig>, _> = table_with_headers("Id;DataType\nE;\n", &mut loader);
    assert!(matches!(no_visibility, Err(ConfigParseError::MissingColumn(3))));
    let unknown: Result<Vec<EffectConfig>, _> = table_with_headers("Id;DataType;Visibility\nE;;Sometimes\n", &mut loader);
    assert!(matches!(unknown, Err(ConfigParseError::UnknownEnumMember(ref m)) if m == "Sometimes"));
    let no_tag: Result<Vec<EffectConfig>, _> = table_with_headers("Id;DataType;Visibility\nE;;UnitTag(x)\n", &mut loader);
    assert!(matches!(no_tag, Err(ConfigParseError::UnknownEnumMember(ref m)) if m == "Tag::x"));
}

#[test]
fn flags_and_tags_are_split() {
    let mut loader = FileLoader::new(Vec::new());
    let lines: Vec<TagConfig> = table_with_headers("Id;Type\na;flag\nb;point\nc;Flag\n", &mut loader).unwrap();
    let (flags, tags) = split_flags(lines);
    assert_eq!(flags.iter().map(|t| t.name.clone()).collect::<Vec<_>>(), vec!["a".to_string(), "c".to_string()]);
    assert_eq!(tags.iter().map(|t| t.name.clone()).collect::<Vec<_>>(), vec!["b".to_string()]);
}

#[test]
fn effect_types_start_with_builtins() {
    let mut loader = FileLoader::new(Vec::new());
    let lines: Vec<EffectConfig> = table_with_headers("Id;DataType;Visibility\nSMOKE;;Full\n", &mut loader).unwrap();
    let all = effect_types(lines).unwrap();
    let names: Vec<String> = all.iter().map(|e| e.name.clone()).collect();
    assert_eq!(names, vec!["GLITCH", "FOG_SURPRISE", "UNIT_PATH", "SMOKE"]);
    assert!(all[0].is_global);
    assert_eq!(all[2].data_type, Some(EffectDataType::Unit));
    assert_eq!(all[2].visibility, EffectVisibility::Data);
    let again: Vec<EffectConfig> = table_with_headers("Id;DataType;Visibility\nGLITCH;;Full\n", &mut loader).unwrap();
    assert!(matches!(effect_types(again), Err(ConfigParseError::DuplicateEntry(ref m)) if m == "EffectType::GLITCH"));
}

#[test]
fn tables_looked_up_by_name() {
    let mut loader = table_loader();
    let conf = damage_table(&mut loader);
    let table: CustomTable = conf.build_table("x;Grass;Forest\nInf;1;0\nTank; ;2\n", &loader).unwrap();
    let tables = vec![("damage".to_string(), table)];
    let grass = TableAxisKey::Terrain(TerrainType(0));
    let forest = TableAxisKey::Terrain(TerrainType(1));
    let inf = TableAxisKey::Unit(UnitType(0));
    let tank = TableAxisKey::Unit(UnitType(1));
    assert_eq!(table_entry(&tables, "damage", forest, tank), Some(TableValue::Int(2)));
    assert_eq!(table_entry(&tables, "damage", grass, tank), Some(TableValue::Int(0)));
    assert_eq!(table_entry(&tables, "cost", grass, tank), None);
    assert_eq!(table_row(&tables, "damage", inf, TableValue::Int(1)), vec![grass]);
    assert_eq!(table_column(&tables, "damage", grass, TableValue::Int(0)), vec![tank]);
    assert!(table_row(&tables, "cost", inf, TableValue::Int(1)).is_empty());
    assert!(table_column(&tables, "cost", grass, TableValue::Int(0)).is_empty());
}
