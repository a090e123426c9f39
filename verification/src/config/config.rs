use vstd::prelude::*;

use crate::config::commander_type_config::{CommanderTypeConfig, CommanderTypeConfigView};
use crate::config::commander_unit_config::{CommanderPowerUnitConfig, CommanderPowerUnitConfigView};
use crate::config::custom_action_config::{CustomActionConfig, CustomActionConfigView};
use crate::config::editor_tag_config::{self, TagEditorVisibility};
use crate::config::effect_config::{EffectConfig, EffectConfigView};
use crate::config::global_events::GlobalEventConfigView;
use crate::config::matrix::{HeaderKey, labeled_matrix, labeled_view, spec_labeled_matrix, spec_unit_transports, transports_view, unit_transports};
use crate::config::terrain_powered::TerrainPoweredConfigView;
use crate::config::tag_config::TagConfigView;
use crate::config::file_loader::{spec_add_names, strings_view, FileLoader, LoaderNames, NameKind};
use crate::config::global_events::GlobalEventConfig;
use crate::config::hero_type_config::{HeroTypeConfig, HeroTypeConfigView};
use crate::config::hero_power_config::{HeroPowerConfig, HeroPowerConfigView};
use crate::config::listing::{first_named, first_named_from, lemma_first_named_from, str_chars};
use crate::config::text::text_eq;
use crate::config::ruleset::{first_repeat, missing_entry, parse_ruleset, spec_parse_ruleset};
use crate::config::setup::{builtin_effects, effect_names, effect_types, effect_views, is_flag, split_flags, tag_views};
use crate::config::listing::framed_text;
use crate::config::table::TableLine;
use crate::config::table_config::{find_table, spec_build_table, table_names, CustomTable, TableAxisKey, TableConfig, TableConfigView, TableValue};
use crate::config::table_file::{ruled_table, spec_headers, spec_row, spec_custom_row, spec_ruled_lines, spec_ruled_table, ColumnView, LineRule, lines_view, spec_csv_records, spec_key_values, spec_table_with_headers, table_key_value, table_with_headers};
use crate::config::tag_config::TagConfig;
use crate::config::terrain_powered::TerrainPoweredConfig;
use crate::config::terrain_type_config::{TerrainTypeConfig, TerrainTypeConfigView};
use crate::config::token_type_config::{TokenTypeConfig, TokenTypeConfigView};
use crate::config::unit_type_config::{UnitTypeConfig, UnitTypeConfigView};
use crate::config::{CommanderType, ConfigError, ConfigParseError, OwnershipPredicate};
use crate::config::movement_type_config::{MovementPattern, MovementTypeConfig, MovementTypeConfigView};
use crate::config::commander_power_config::{CommanderPowerConfig, CommanderPowerConfigView};
use crate::config::file_loader::{script_path, spec_check_script, spec_script_path, GLOBAL_SCRIPT};
use crate::commander::CommanderPowerRule;
use crate::config::effect_config::{EffectDataType, EffectVisibility};
use crate::fog::VisionMode;
use crate::movement::ExtraMovementOptions;
use crate::units::UnitVisibility;
use crate::fraction::Fraction;
use crate::terrain::TerrainType;
use crate::tokens::TokenType;
use crate::units::{HeroType, MovementType, UnitType};

verus! {

/// A line type whose lines carry a name.
pub trait Named: TableLine {
    spec fn name_of(v: Self::V) -> Seq<char>;

    fn name_text(&self) -> (r: String)
        ensures
            r@ == Self::name_of(self@),
    ;
}

impl Named for MovementTypeConfig {
    open spec fn name_of(v: Self::V) -> Seq<char> {
        v.name
    }

    fn name_text(&self) -> (r: String) {
        self.name.clone()
    }
}

impl Named for EffectConfig {
    open spec fn name_of(v: Self::V) -> Seq<char> {
        v.name
    }

    fn name_text(&self) -> (r: String) {
        self.name.clone()
    }
}

impl Named for TagConfig {
    open spec fn name_of(v: Self::V) -> Seq<char> {
        v.name
    }

    fn name_text(&self) -> (r: String) {
        self.name.clone()
    }
}

impl Named for UnitTypeConfig {
    open spec fn name_of(v: UnitTypeConfigView) -> Seq<char> {
        v.name
    }

    fn name_text(&self) -> (r: String) {
        self.name.clone()
    }
}

impl Named for TerrainTypeConfig {
    open spec fn name_of(v: TerrainTypeConfigView) -> Seq<char> {
        v.name
    }

    fn name_text(&self) -> (r: String) {
        self.name.clone()
    }
}

impl Named for TokenTypeConfig {
    open spec fn name_of(v: TokenTypeConfigView) -> Seq<char> {
        v.name
    }

    fn name_text(&self) -> (r: String) {
        self.name.clone()
    }
}

impl Named for CommanderTypeConfig {
    open spec fn name_of(v: CommanderTypeConfigView) -> Seq<char> {
        v.name
    }

    fn name_text(&self) -> (r: String) {
        self.name.clone()
    }
}

impl Named for HeroTypeConfig {
    open spec fn name_of(v: HeroTypeConfigView) -> Seq<char> {
        v.name
    }

    fn name_text(&self) -> (r: String) {
        self.name.clone()
    }
}

/// The names of lines, in their order.
pub open spec fn view_names<T: Named>(v: Seq<T::V>) -> Seq<Seq<char>> {
    v.map_values(|x: T::V| T::name_of(x))
}

pub fn names_of<T: Named>(v: &Vec<T>) -> (r: Vec<String>)
    ensures
        strings_view(r@) == view_names::<T>(lines_view::<T>(v@)),
{
    let mut r: Vec<String> = Vec::new();
    let mut i: usize = 0;
    while i < v.len()
        invariant
            i <= v@.len(),
            strings_view(r@) == view_names::<T>(lines_view::<T>(v@)).take(i as int),
        decreases v.len() - i,
    {
        let ghost before = strings_view(r@);
        let name = v[i].name_text();
        r.push(name);
        assert(strings_view(r@) =~= before.push(name@));
        assert(view_names::<T>(lines_view::<T>(v@)).take(i + 1) =~= before.push(name@));
        i += 1;
    }
    assert(view_names::<T>(lines_view::<T>(v@)).take(v@.len() as int) =~= view_names::<T>(lines_view::<T>(v@)));
    r
}

pub fn position_of_string(names: &Vec<String>, s: &str) -> (r: Option<usize>)
    ensures
        r matches Some(i) ==> first_named(strings_view(names@), s@) == Some(i as int) && i < names@.len(),
        r is None ==> first_named(strings_view(names@), s@) is None,
{
    let ghost ns = strings_view(names@);
    let key = str_chars(s);
    let mut i: usize = 0;
    while i < names.len()
        invariant
            i <= names@.len(),
            ns == strings_view(names@),
            key@ == s@,
            first_named(ns, s@) == first_named_from(ns, s@, i as int),
        decreases names.len() - i,
    {
        let name = str_chars(names[i].as_str());
        if text_eq(name.as_slice(), key.as_slice()) {
            return Some(i);
        }
        i += 1;
    }
    None
}

/// The largest transport capacity of the unit types, or 0.
pub open spec fn max_unit_transport(units: Seq<UnitTypeConfigView>) -> usize
    decreases units.len(),
{
    if units.len() == 0 {
        0
    } else {
        let m = max_unit_transport(units.drop_last());
        if units.last().transport_capacity > m { units.last().transport_capacity } else { m }
    }
}

/// The largest charge of the commander types, or 0.
pub open spec fn max_commander_charge(cs: Seq<CommanderTypeConfigView>) -> u32
    decreases cs.len(),
{
    if cs.len() == 0 {
        0
    } else {
        let m = max_commander_charge(cs.drop_last());
        if cs.last().max_charge > m { cs.last().max_charge } else { m }
    }
}

/// The largest transport bonus of the commander types, or 0.
pub open spec fn max_commander_transport(cs: Seq<CommanderTypeConfigView>) -> u8
    decreases cs.len(),
{
    if cs.len() == 0 {
        0
    } else {
        let m = max_commander_transport(cs.drop_last());
        if cs.last().transport_capacity > m { cs.last().transport_capacity } else { m }
    }
}

/// The largest charge of the hero types, or 0.
pub open spec fn max_hero_charge(hs: Seq<HeroTypeConfigView>) -> u32
    decreases hs.len(),
{
    if hs.len() == 0 {
        0
    } else {
        let m = max_hero_charge(hs.drop_last());
        if hs.last().max_charge > m { hs.last().max_charge } else { m }
    }
}

/// The largest transport bonus of the hero types, or 0.
pub open spec fn max_hero_transport(hs: Seq<HeroTypeConfigView>) -> u8
    decreases hs.len(),
{
    if hs.len() == 0 {
        0
    } else {
        let m = max_hero_transport(hs.drop_last());
        if hs.last().transport_capacity > m { hs.last().transport_capacity } else { m }
    }
}

fn unit_transport_max(units: &Vec<UnitTypeConfig>) -> (r: usize)
    ensures
        r == max_unit_transport(lines_view::<UnitTypeConfig>(units@)),
{
    let ghost v = lines_view::<UnitTypeConfig>(units@);
    let mut m: usize = 0;
    let mut i: usize = 0;
    while i < units.len()
        invariant
            i <= units@.len(),
            v == lines_view::<UnitTypeConfig>(units@),
            m == max_unit_transport(v.take(i as int)),
        decreases units.len() - i,
    {
        assert(v.take(i + 1).drop_last() =~= v.take(i as int));
        if units[i].transport_capacity > m {
            m = units[i].transport_capacity;
        }
        i += 1;
    }
    assert(v.take(units@.len() as int) =~= v);
    m
}

fn commander_maxima(cs: &Vec<CommanderTypeConfig>) -> (r: (u32, u8))
    ensures
        r.0 == max_commander_charge(lines_view::<CommanderTypeConfig>(cs@)),
        r.1 == max_commander_transport(lines_view::<CommanderTypeConfig>(cs@)),
{
    let ghost v = lines_view::<CommanderTypeConfig>(cs@);
    let mut charge: u32 = 0;
    let mut transport: u8 = 0;
    let mut i: usize = 0;
    while i < cs.len()
        invariant
            i <= cs@.len(),
            v == lines_view::<CommanderTypeConfig>(cs@),
            charge == max_commander_charge(v.take(i as int)),
            transport == max_commander_transport(v.take(i as int)),
        decreases cs.len() - i,
    {
        assert(v.take(i + 1).drop_last() =~= v.take(i as int));
        if cs[i].max_charge > charge {
            charge = cs[i].max_charge;
        }
        if cs[i].transport_capacity > transport {
            transport = cs[i].transport_capacity;
        }
        i += 1;
    }
    assert(v.take(cs@.len() as int) =~= v);
    (charge, transport)
}

/// Position of the first hero type whose charge is above 127.
pub open spec fn first_overcharged(hs: Seq<HeroTypeConfigView>) -> Option<int>
    decreases hs.len(),
{
    if hs.len() == 0 {
        None
    } else {
        match first_overcharged(hs.drop_last()) {
            Some(i) => Some(i),
            None => if hs.last().max_charge > 127 { Some(hs.len() - 1) } else { None },
        }
    }
}

proof fn lemma_overcharged_prefix(hs: Seq<HeroTypeConfigView>, k: int)
    requires
        0 <= k <= hs.len(),
        first_overcharged(hs.take(k)) is Some,
    ensures
        first_overcharged(hs) == first_overcharged(hs.take(k)),
    decreases hs.len() - k,
{
    if k < hs.len() {
        assert(hs.take(k + 1).drop_last() =~= hs.take(k));
        lemma_overcharged_prefix(hs, k + 1);
    } else {
        assert(hs.take(k) =~= hs);
    }
}

proof fn lemma_charge_bound(hs: Seq<HeroTypeConfigView>)
    requires
        first_overcharged(hs) is None,
    ensures
        max_hero_charge(hs) <= 127,
    decreases hs.len(),
{
    if hs.len() > 0 {
        lemma_charge_bound(hs.drop_last());
    }
}

/// Checks that no hero type has a charge above 127, and gives the largest
/// charge and transport bonus of the hero types.
fn hero_maxima(hs: &Vec<HeroTypeConfig>) -> (r: Result<(u8, u8), ConfigParseError>)
    ensures
        ({
            let v = lines_view::<HeroTypeConfig>(hs@);
            match first_overcharged(v) {
                Some(_) => r matches Err(e) && e@ == ConfigError::HeroMaxChargeExceeded(127),
                None => r matches Ok((c, t)) && c == max_hero_charge(v) && t == max_hero_transport(v),
            }
        }),
{
    let ghost v = lines_view::<HeroTypeConfig>(hs@);
    let mut charge: u8 = 0;
    let mut transport: u8 = 0;
    let mut i: usize = 0;
    while i < hs.len()
        invariant
            i <= hs@.len(),
            v == lines_view::<HeroTypeConfig>(hs@),
            first_overcharged(v.take(i as int)) is None,
            charge == max_hero_charge(v.take(i as int)),
            transport == max_hero_transport(v.take(i as int)),
        decreases hs.len() - i,
    {
        assert(v.take(i + 1).drop_last() =~= v.take(i as int));
        proof { lemma_charge_bound(v.take(i as int)); }
        if hs[i].max_charge > 127 {
            proof {
                assert(first_overcharged(v.take(i + 1)) == Some(i as int));
                lemma_overcharged_prefix(v, i + 1);
            }
            return Err(ConfigParseError::HeroMaxChargeExceeded(127));
        }
        if hs[i].max_charge > charge as u32 {
            charge = hs[i].max_charge as u8;
        }
        if hs[i].transport_capacity > transport {
            transport = hs[i].transport_capacity;
        }
        i += 1;
    }
    assert(v.take(hs@.len() as int) =~= v);
    Ok((charge, transport))
}

/// A custom table seen as sequences.
#[verifier::ext_equal]
pub struct CustomTableView {
    pub default_value: TableValue,
    pub values: Seq<((TableAxisKey, TableAxisKey), TableValue)>,
    pub row_keys: Seq<TableAxisKey>,
    pub column_keys: Seq<TableAxisKey>,
}

pub open spec fn custom_table_view(t: CustomTable) -> CustomTableView {
    CustomTableView { default_value: t.default_value, values: t.values@, row_keys: t.row_keys@, column_keys: t.column_keys@ }
}

pub open spec fn custom_tables_view(v: Seq<(String, CustomTable)>) -> Seq<(Seq<char>, CustomTableView)> {
    v.map_values(|p: (String, CustomTable)| (p.0@, custom_table_view(p.1)))
}

pub open spec fn pairs_view<K, V>(v: Seq<(K, Vec<V>)>) -> Seq<(K, Seq<V>)> {
    v.map_values(|p: (K, Vec<V>)| (p.0, p.1@))
}

pub open spec fn transformer_view(v: Seq<(MovementType, Vec<(TerrainType, Vec<(MovementType, MovementType)>)>)>) -> Seq<(MovementType, Seq<(TerrainType, Seq<(MovementType, MovementType)>)>)> {
    v.map_values(|p: (MovementType, Vec<(TerrainType, Vec<(MovementType, MovementType)>)>)| (p.0, pairs_view(p.1@)))
}

/// Everything a configuration's files define: the rules, the types of
/// units, terrain, tokens, effects, commanders and heroes with their
/// tables, and the custom tables.
pub struct Config {
    name: String,
    owner_colors: Vec<[u8; 4]>,
    is_unit_dead_rhai: usize,
    is_unit_movable_rhai: usize,
    calculate_damage_rhai: usize,
    deal_damage_rhai: usize,
    weapon_effects_rhai: Option<usize>,
    flags: Vec<TagConfig>,
    tags: Vec<TagConfig>,
    movement_types: Vec<MovementTypeConfig>,
    units: Vec<UnitTypeConfig>,
    unknown_unit: UnitType,
    unit_transports: Vec<(UnitType, Vec<UnitType>)>,
    attack_damage: Vec<(UnitType, Vec<(UnitType, u16)>)>,
    custom_actions: Vec<CustomActionConfig>,
    max_transported: usize,
    unit_flags: Vec<(usize, UnitType, TagEditorVisibility)>,
    unit_tags: Vec<(usize, UnitType, TagEditorVisibility)>,
    heroes: Vec<HeroTypeConfig>,
    max_hero_charge: u8,
    max_hero_transport_bonus: u8,
    terrains: Vec<TerrainTypeConfig>,
    default_terrain: TerrainType,
    movement_cost: Vec<(TerrainType, Vec<(MovementType, Fraction)>)>,
    movement_type_transformer: Vec<(MovementType, Vec<(TerrainType, Vec<(MovementType, MovementType)>)>)>,
    terrain_flags: Vec<(usize, TerrainType, TagEditorVisibility)>,
    terrain_tags: Vec<(usize, TerrainType, TagEditorVisibility)>,
    tokens: Vec<TokenTypeConfig>,
    token_flags: Vec<(usize, TokenType, TagEditorVisibility)>,
    token_tags: Vec<(usize, TokenType, TagEditorVisibility)>,
    effect_types: Vec<EffectConfig>,
    commanders: Vec<CommanderTypeConfig>,
    max_commander_charge: u32,
    unit_overrides: Vec<CommanderPowerUnitConfig>,
    terrain_overrides: Vec<TerrainPoweredConfig>,
    global_events: Vec<GlobalEventConfig>,
    custom_tables: Vec<(String, CustomTable)>,
}

#[verifier::ext_equal]
pub struct ConfigView {
    pub name: Seq<char>,
    pub owner_colors: Seq<[u8; 4]>,
    pub is_unit_dead_rhai: usize,
    pub is_unit_movable_rhai: usize,
    pub calculate_damage_rhai: usize,
    pub deal_damage_rhai: usize,
    pub weapon_effects_rhai: Option<usize>,
    pub flags: Seq<TagConfigView>,
    pub tags: Seq<TagConfigView>,
    pub movement_types: Seq<MovementTypeConfigView>,
    pub units: Seq<UnitTypeConfigView>,
    pub unknown_unit: UnitType,
    pub unit_transports: Seq<(UnitType, Seq<UnitType>)>,
    pub attack_damage: Seq<(UnitType, Seq<(UnitType, u16)>)>,
    pub custom_actions: Seq<CustomActionConfigView>,
    pub max_transported: usize,
    pub unit_flags: Seq<(usize, UnitType, TagEditorVisibility)>,
    pub unit_tags: Seq<(usize, UnitType, TagEditorVisibility)>,
    pub heroes: Seq<HeroTypeConfigView>,
    pub max_hero_charge: u8,
    pub max_hero_transport_bonus: u8,
    pub terrains: Seq<TerrainTypeConfigView>,
    pub default_terrain: TerrainType,
    pub movement_cost: Seq<(TerrainType, Seq<(MovementType, Fraction)>)>,
    pub movement_type_transformer: Seq<(MovementType, Seq<(TerrainType, Seq<(MovementType, MovementType)>)>)>,
    pub terrain_flags: Seq<(usize, TerrainType, TagEditorVisibility)>,
    pub terrain_tags: Seq<(usize, TerrainType, TagEditorVisibility)>,
    pub tokens: Seq<TokenTypeConfigView>,
    pub token_flags: Seq<(usize, TokenType, TagEditorVisibility)>,
    pub token_tags: Seq<(usize, TokenType, TagEditorVisibility)>,
    pub effect_types: Seq<EffectConfigView>,
    pub commanders: Seq<CommanderTypeConfigView>,
    pub max_commander_charge: u32,
    pub unit_overrides: Seq<CommanderPowerUnitConfigView>,
    pub terrain_overrides: Seq<TerrainPoweredConfigView>,
    pub global_events: Seq<GlobalEventConfigView>,
    pub custom_tables: Seq<(Seq<char>, CustomTableView)>,
}

impl View for Config {
    type V = ConfigView;

    closed spec fn view(&self) -> ConfigView {
        ConfigView {
            name: self.name@,
            owner_colors: self.owner_colors@,
            is_unit_dead_rhai: self.is_unit_dead_rhai,
            is_unit_movable_rhai: self.is_unit_movable_rhai,
            calculate_damage_rhai: self.calculate_damage_rhai,
            deal_damage_rhai: self.deal_damage_rhai,
            weapon_effects_rhai: self.weapon_effects_rhai,
            flags: lines_view::<TagConfig>(self.flags@),
            tags: lines_view::<TagConfig>(self.tags@),
            movement_types: lines_view::<MovementTypeConfig>(self.movement_types@),
            units: lines_view::<UnitTypeConfig>(self.units@),
            unknown_unit: self.unknown_unit,
            unit_transports: pairs_view(self.unit_transports@),
            attack_damage: pairs_view(self.attack_damage@),
            custom_actions: lines_view::<CustomActionConfig>(self.custom_actions@),
            max_transported: self.max_transported,
            unit_flags: self.unit_flags@,
            unit_tags: self.unit_tags@,
            heroes: lines_view::<HeroTypeConfig>(self.heroes@),
            max_hero_charge: self.max_hero_charge,
            max_hero_transport_bonus: self.max_hero_transport_bonus,
            terrains: lines_view::<TerrainTypeConfig>(self.terrains@),
            default_terrain: self.default_terrain,
            movement_cost: pairs_view(self.movement_cost@),
            movement_type_transformer: transformer_view(self.movement_type_transformer@),
            terrain_flags: self.terrain_flags@,
            terrain_tags: self.terrain_tags@,
            tokens: lines_view::<TokenTypeConfig>(self.tokens@),
            token_flags: self.token_flags@,
            token_tags: self.token_tags@,
            effect_types: self.effect_types@.map_values(|e: EffectConfig| e@),
            commanders: lines_view::<CommanderTypeConfig>(self.commanders@),
            max_commander_charge: self.max_commander_charge,
            unit_overrides: lines_view::<CommanderPowerUnitConfig>(self.unit_overrides@),
            terrain_overrides: lines_view::<TerrainPoweredConfig>(self.terrain_overrides@),
            global_events: lines_view::<GlobalEventConfig>(self.global_events@),
            custom_tables: custom_tables_view(self.custom_tables@),
        }
    }
}

/// What a step of reading leaves: the names of the loader as the spec
/// gives them, and the configuration on success or the error.
pub open spec fn config_step(r: Result<(), ConfigParseError>, after: ConfigView, names: LoaderNames, spec: (Result<ConfigView, ConfigError>, LoaderNames)) -> bool {
    &&& names == spec.1
    &&& match r {
        Ok(_) => spec.0 == Ok::<ConfigView, ConfigError>(after),
        Err(e) => spec.0 == Err::<ConfigView, ConfigError>(e@),
    }
}

/// The tag table: its flags and its tags, whose names the loader learns.
pub open spec fn spec_read_tags(c: ConfigView, data: Seq<char>, names: LoaderNames) -> (Result<ConfigView, ConfigError>, LoaderNames) {
    let (r, n) = spec_table_with_headers::<TagConfig>(data, names);
    match r {
        Err(e) => (Err(e), n),
        Ok(lines) => {
            let flags = lines.filter(|t: TagConfigView| is_flag(t));
            let tags = lines.filter(|t: TagConfigView| !is_flag(t));
            (
                Ok(ConfigView { flags, tags, ..c }),
                spec_add_names(spec_add_names(n, NameKind::Flag, view_names::<TagConfig>(flags)), NameKind::Tag, view_names::<TagConfig>(tags)),
            )
        },
    }
}

fn read_tags(config: &mut Config, data: &str, loader: &mut FileLoader) -> (r: Result<(), ConfigParseError>)
    ensures
        config_step(r, final(config)@, final(loader)@, spec_read_tags(old(config)@, data@, old(loader)@)),
{
    let lines = match table_with_headers::<TagConfig>(data, loader) {
        Err(e) => return Err(e),
        Ok(l) => l,
    };
    assert(tag_views(lines@) =~= lines_view::<TagConfig>(lines@));
    let (flags, tags) = split_flags(lines);
    assert(tag_views(flags@) =~= lines_view::<TagConfig>(flags@));
    assert(tag_views(tags@) =~= lines_view::<TagConfig>(tags@));
    let flag_names = names_of(&flags);
    let tag_names = names_of(&tags);
    loader.add_names(NameKind::Flag, &flag_names);
    loader.add_names(NameKind::Tag, &tag_names);
    config.flags = flags;
    config.tags = tags;
    Ok(())
}

/// The rule file: its pairs, read until a CSV error, then the checks of
/// the whole; the unit type for fog and the default terrain are named
/// here and looked up once their tables are read.
pub open spec fn spec_read_rules(c: ConfigView, data: Seq<char>, names: LoaderNames) -> (Result<(ConfigView, Seq<char>, Seq<char>), ConfigError>, LoaderNames) {
    let (records, error) = spec_csv_records(data);
    let (r, n) = spec_parse_ruleset(spec_key_values(records), match error { Some(m) => Some(ConfigError::Other(m)), None => None }, names);
    (match r {
        Err(e) => Err(e),
        Ok(d) => Ok((
            ConfigView {
                owner_colors: d.owner_colors,
                is_unit_dead_rhai: d.is_unit_dead_rhai,
                is_unit_movable_rhai: d.is_unit_movable_rhai,
                calculate_damage_rhai: d.calculate_damage_rhai,
                deal_damage_rhai: d.deal_damage_rhai,
                weapon_effects_rhai: d.weapon_effects_rhai,
                ..c
            },
            d.unknown_unit,
            d.default_terrain,
        )),
    }, n)
}

fn read_rules(config: &mut Config, data: &str, loader: &mut FileLoader) -> (r: Result<(String, String), ConfigParseError>)
    ensures
        ({
            let (spec, names) = spec_read_rules(old(config)@, data@, old(loader)@);
            &&& final(loader)@ == names
            &&& match r {
                Ok((unknown, default)) => spec == Ok::<(ConfigView, Seq<char>, Seq<char>), ConfigError>((final(config)@, unknown@, default@)),
                Err(e) => spec == Err::<(ConfigView, Seq<char>, Seq<char>), ConfigError>(e@),
            }
        }),
{
    let (pairs, error) = table_key_value(data);
    let rules = match parse_ruleset(&pairs, error, loader) {
        Err(e) => return Err(e),
        Ok(rs) => rs,
    };
    config.owner_colors = rules.owner_colors;
    config.is_unit_dead_rhai = rules.is_unit_dead_rhai;
    config.is_unit_movable_rhai = rules.is_unit_movable_rhai;
    config.calculate_damage_rhai = rules.calculate_damage_rhai;
    config.deal_damage_rhai = rules.deal_damage_rhai;
    config.weapon_effects_rhai = rules.weapon_effects_rhai;
    Ok((rules.unknown_unit, rules.default_terrain))
}

proof fn lemma_ruled_lines_unique<L: Named, R: LineRule<L>>(headers: Seq<ColumnView<L::Header>>, lines: Seq<Seq<Seq<char>>>, names: LoaderNames, k: nat)
    requires
        forall|before: Seq<L::V>, line: L::V| #[trigger] R::spec_refuse(before, line) is None ==> !view_names::<L>(before).contains(L::name_of(line)),
    ensures
        spec_ruled_lines::<L, R>(headers, lines, names, k).0 matches Ok(vs) ==> first_repeat(view_names::<L>(vs)) is None,
    decreases k,
{
    if k > 0 {
        lemma_ruled_lines_unique::<L, R>(headers, lines, names, (k - 1) as nat);
        let (prev, n) = spec_ruled_lines::<L, R>(headers, lines, names, (k - 1) as nat);
        if let Ok(vs) = prev {
            let (r, n2) = L::spec_parse(spec_row(headers, lines[k - 1]), spec_custom_row(headers, lines[k - 1]), n);
            if let Ok(v) = r {
                assert(view_names::<L>(vs.push(v)).drop_last() =~= view_names::<L>(vs));
            }
        }
    }
}

/// Where a rule refuses every line whose name an earlier line has, the
/// names of a table read with it are unique.
proof fn lemma_ruled_table_unique<L: Named, R: LineRule<L>>(data: Seq<char>, names: LoaderNames)
    requires
        forall|before: Seq<L::V>, line: L::V| #[trigger] R::spec_refuse(before, line) is None ==> !view_names::<L>(before).contains(L::name_of(line)),
    ensures
        spec_ruled_table::<L, R>(data, names).0 matches Ok(vs) ==> first_repeat(view_names::<L>(vs)) is None,
{
    let (records, error) = spec_csv_records(data);
    if records.len() > 0 {
        if let Ok(headers) = spec_headers::<L::Header>(records[0], names) {
            lemma_ruled_lines_unique::<L, R>(headers, records.skip(1), names, (records.len() - 1) as nat);
        }
    }
}

/// The unit, terrain and token tables read with their rules have unique
/// names.
pub proof fn lemma_type_tables_unique(data: Seq<char>, names: LoaderNames)
    ensures
        spec_ruled_table::<UnitTypeConfig, UnitNames>(data, names).0 matches Ok(vs) ==> first_repeat(view_names::<UnitTypeConfig>(vs)) is None,
        spec_ruled_table::<TerrainTypeConfig, TerrainNames>(data, names).0 matches Ok(vs) ==> first_repeat(view_names::<TerrainTypeConfig>(vs)) is None,
        spec_ruled_table::<TokenTypeConfig, TokenNames>(data, names).0 matches Ok(vs) ==> first_repeat(view_names::<TokenTypeConfig>(vs)) is None,
{
    lemma_ruled_table_unique::<UnitTypeConfig, UnitNames>(data, names);
    lemma_ruled_table_unique::<TerrainTypeConfig, TerrainNames>(data, names);
    lemma_ruled_table_unique::<TokenTypeConfig, TokenNames>(data, names);
}

/// `DuplicateEntry` with `kind::name` where `name` is among `before`.
pub open spec fn name_taken(before: Seq<Seq<char>>, name: Seq<char>, kind: Seq<char>) -> Option<ConfigError> {
    if before.contains(name) {
        Some(ConfigError::DuplicateEntry(kind + "::"@ + name))
    } else {
        None
    }
}

fn refuse_taken_name<T: Named>(before: &Vec<T>, line: &T, kind: &str) -> (r: Option<ConfigParseError>)
    ensures
        match r {
            Some(e) => name_taken(view_names::<T>(lines_view::<T>(before@)), T::name_of(line@), kind@) == Some(e@),
            None => name_taken(view_names::<T>(lines_view::<T>(before@)), T::name_of(line@), kind@) is None,
        },
{
    let names = names_of(before);
    let name = line.name_text();
    let ghost ns = strings_view(names@);
    proof { lemma_first_named_from(ns, name@, 0); }
    match position_of_string(&names, name.as_str()) {
        Some(i) => {
            assert(ns[i as int] == name@);
            assert(ns.contains(name@));
            let sep = str_chars("::");
            Some(ConfigParseError::DuplicateEntry(framed_text(kind, &sep, name.as_str())))
        },
        None => None,
    }
}

/// Unit type names are unique, checked line by line.
pub struct UnitNames;

impl LineRule<UnitTypeConfig> for UnitNames {
    open spec fn spec_refuse(before: Seq<UnitTypeConfigView>, line: UnitTypeConfigView) -> Option<ConfigError> {
        name_taken(view_names::<UnitTypeConfig>(before), line.name, "UnitType"@)
    }

    fn refuse(before: &Vec<UnitTypeConfig>, line: &UnitTypeConfig) -> (r: Option<ConfigParseError>) {
        refuse_taken_name(before, line, "UnitType")
    }
}

/// Terrain type names are unique, checked line by line.
pub struct TerrainNames;

impl LineRule<TerrainTypeConfig> for TerrainNames {
    open spec fn spec_refuse(before: Seq<TerrainTypeConfigView>, line: TerrainTypeConfigView) -> Option<ConfigError> {
        name_taken(view_names::<TerrainTypeConfig>(before), line.name, "TerrainType"@)
    }

    fn refuse(before: &Vec<TerrainTypeConfig>, line: &TerrainTypeConfig) -> (r: Option<ConfigParseError>) {
        refuse_taken_name(before, line, "TerrainType")
    }
}

/// Token type names are unique, checked line by line.
pub struct TokenNames;

impl LineRule<TokenTypeConfig> for TokenNames {
    open spec fn spec_refuse(before: Seq<TokenTypeConfigView>, line: TokenTypeConfigView) -> Option<ConfigError> {
        name_taken(view_names::<TokenTypeConfig>(before), line.name, "TokenType"@)
    }

    fn refuse(before: &Vec<TokenTypeConfig>, line: &TokenTypeConfig) -> (r: Option<ConfigParseError>) {
        refuse_taken_name(before, line, "TokenType")
    }
}

/// Effect names are unique and differ from the built-in effects' names,
/// checked line by line.
pub struct EffectNames;

impl LineRule<EffectConfig> for EffectNames {
    open spec fn spec_refuse(before: Seq<EffectConfigView>, line: EffectConfigView) -> Option<ConfigError> {
        name_taken(effect_names(builtin_effects() + before), line.name, "EffectType"@)
    }

    fn refuse(before: &Vec<EffectConfig>, line: &EffectConfig) -> (r: Option<ConfigParseError>) {
        let n = str_chars(line.name.as_str());
        let ghost all = effect_names(builtin_effects() + lines_view::<EffectConfig>(before@));
        proof {
            reveal_strlit("GLITCH");
            reveal_strlit("FOG_SURPRISE");
            reveal_strlit("UNIT_PATH");
            assert(all =~= effect_names(builtin_effects()) + view_names::<EffectConfig>(lines_view::<EffectConfig>(before@)));
            assert(effect_names(builtin_effects()) =~= seq!["GLITCH"@, "FOG_SURPRISE"@, "UNIT_PATH"@]);
        }
        let builtin = text_eq(n.as_slice(), &str_chars("GLITCH")) || text_eq(n.as_slice(), &str_chars("FOG_SURPRISE"))
            || text_eq(n.as_slice(), &str_chars("UNIT_PATH"));
        if builtin {
            assert(all.contains(line@.name)) by {
                if line@.name == "GLITCH"@ {
                    assert(all[0] == line@.name);
                } else if line@.name == "FOG_SURPRISE"@ {
                    assert(all[1] == line@.name);
                } else {
                    assert(all[2] == line@.name);
                }
            }
            let sep = str_chars("::");
            return Some(ConfigParseError::DuplicateEntry(framed_text("EffectType", &sep, line.name.as_str())));
        }
        let r = refuse_taken_name(before, line, "EffectType");
        proof {
            let rest = view_names::<EffectConfig>(lines_view::<EffectConfig>(before@));
            assert(all.contains(line@.name) == rest.contains(line@.name)) by {
                if all.contains(line@.name) {
                    let i = choose|i: int| 0 <= i < all.len() && all[i] == line@.name;
                    assert(i >= 3);
                    assert(rest[i - 3] == line@.name);
                }
                if rest.contains(line@.name) {
                    let i = choose|i: int| 0 <= i < rest.len() && rest[i] == line@.name;
                    assert(all[i + 3] == line@.name);
                }
            }
        }
        r
    }
}

/// No hero type's maximum charge is above 127, checked line by line.
pub struct HeroCharges;

impl LineRule<HeroTypeConfig> for HeroCharges {
    open spec fn spec_refuse(before: Seq<HeroTypeConfigView>, line: HeroTypeConfigView) -> Option<ConfigError> {
        if line.max_charge > 127 {
            Some(ConfigError::HeroMaxChargeExceeded(127))
        } else {
            None
        }
    }

    fn refuse(before: &Vec<HeroTypeConfig>, line: &HeroTypeConfig) -> (r: Option<ConfigParseError>) {
        if line.max_charge > 127 {
            Some(ConfigParseError::HeroMaxChargeExceeded(127))
        } else {
            None
        }
    }
}

/// The unit table, read with the rule `UnitNames`: its names become the
/// loader's, the unit type named for fog is one of them (else
/// `MissingUnit("Unknown")`), and the largest transport capacity is noted.
pub open spec fn spec_read_units(c: ConfigView, unknown: Seq<char>, data: Seq<char>, names: LoaderNames) -> (Result<ConfigView, ConfigError>, LoaderNames) {
    let (r, n) = spec_ruled_table::<UnitTypeConfig, UnitNames>(data, names);
    match r {
        Err(e) => (Err(e), n),
        Ok(lines) => {
            let n2 = spec_add_names(n, NameKind::UnitType, view_names::<UnitTypeConfig>(lines));
            match first_named(view_names::<UnitTypeConfig>(lines), unknown) {
                None => (Err(ConfigError::MissingUnit("Unknown"@)), n2),
                Some(i) => (Ok(ConfigView {
                    units: lines,
                    unknown_unit: UnitType(i as usize),
                    max_transported: max_unit_transport(lines),
                    ..c
                }), n2),
            }
        },
    }
}

fn read_units(config: &mut Config, unknown: &str, data: &str, loader: &mut FileLoader) -> (r: Result<(), ConfigParseError>)
    ensures
        config_step(r, final(config)@, final(loader)@, spec_read_units(old(config)@, unknown@, data@, old(loader)@)),
{
    let lines = match ruled_table::<UnitTypeConfig, UnitNames>(data, loader) {
        Err(e) => return Err(e),
        Ok(l) => l,
    };
    let names = names_of(&lines);
    loader.add_names(NameKind::UnitType, &names);
    let i = match position_of_string(&names, unknown) {
        None => return Err(ConfigParseError::MissingUnit(String::from_str("Unknown"))),
        Some(i) => i,
    };
    proof { reveal_strlit("Unknown"); }
    config.max_transported = unit_transport_max(&lines);
    config.units = lines;
    config.unknown_unit = UnitType(i);
    Ok(())
}

/// The terrain table, read with the rule `TerrainNames`: its names become
/// the loader's, and the terrain maps start with is one of them.
pub open spec fn spec_read_terrain(c: ConfigView, default: Seq<char>, data: Seq<char>, names: LoaderNames) -> (Result<ConfigView, ConfigError>, LoaderNames) {
    let (r, n) = spec_ruled_table::<TerrainTypeConfig, TerrainNames>(data, names);
    match r {
        Err(e) => (Err(e), n),
        Ok(lines) => {
            let n2 = spec_add_names(n, NameKind::TerrainType, view_names::<TerrainTypeConfig>(lines));
            match first_named(view_names::<TerrainTypeConfig>(lines), default) {
                None => (Err(ConfigError::Other(missing_entry("DefaultTerrain"@))), n2),
                Some(i) => (Ok(ConfigView { terrains: lines, default_terrain: TerrainType(i as usize), ..c }), n2),
            }
        },
    }
}

fn read_terrain(config: &mut Config, default: &str, data: &str, loader: &mut FileLoader) -> (r: Result<(), ConfigParseError>)
    ensures
        config_step(r, final(config)@, final(loader)@, spec_read_terrain(old(config)@, default@, data@, old(loader)@)),
{
    let lines = match ruled_table::<TerrainTypeConfig, TerrainNames>(data, loader) {
        Err(e) => return Err(e),
        Ok(l) => l,
    };
    let names = names_of(&lines);
    loader.add_names(NameKind::TerrainType, &names);
    let i = match position_of_string(&names, default) {
        None => return Err(ConfigParseError::Other(framed_text("missing entry in ruleset.csv: '", &str_chars("DefaultTerrain"), "'"))),
        Some(i) => i,
    };
    config.terrains = lines;
    config.default_terrain = TerrainType(i);
    Ok(())
}

/// The token table, read with the rule `TokenNames`: its names become the
/// loader's.
pub open spec fn spec_read_tokens(c: ConfigView, data: Seq<char>, names: LoaderNames) -> (Result<ConfigView, ConfigError>, LoaderNames) {
    let (r, n) = spec_ruled_table::<TokenTypeConfig, TokenNames>(data, names);
    match r {
        Err(e) => (Err(e), n),
        Ok(lines) => (Ok(ConfigView { tokens: lines, ..c }), spec_add_names(n, NameKind::TokenType, view_names::<TokenTypeConfig>(lines))),
    }
}

fn read_tokens(config: &mut Config, data: &str, loader: &mut FileLoader) -> (r: Result<(), ConfigParseError>)
    ensures
        config_step(r, final(config)@, final(loader)@, spec_read_tokens(old(config)@, data@, old(loader)@)),
{
    let lines = match ruled_table::<TokenTypeConfig, TokenNames>(data, loader) {
        Err(e) => return Err(e),
        Ok(l) => l,
    };
    let names = names_of(&lines);
    loader.add_names(NameKind::TokenType, &names);
    config.tokens = lines;
    Ok(())
}

/// The effect table after the built-in effects; the names are unique.
pub open spec fn spec_read_effects(c: ConfigView, data: Seq<char>, names: LoaderNames) -> (Result<ConfigView, ConfigError>, LoaderNames) {
    let (r, n) = spec_ruled_table::<EffectConfig, EffectNames>(data, names);
    match r {
        Err(e) => (Err(e), n),
        Ok(lines) => {
            let all = builtin_effects() + lines;
            match first_repeat(effect_names(all)) {
                Some(i) => (Err(ConfigError::DuplicateEntry("EffectType"@ + "::"@ + all[i].name)), n),
                None => (Ok(ConfigView { effect_types: all, ..c }), n),
            }
        },
    }
}

fn read_effects(config: &mut Config, data: &str, loader: &mut FileLoader) -> (r: Result<(), ConfigParseError>)
    ensures
        config_step(r, final(config)@, final(loader)@, spec_read_effects(old(config)@, data@, old(loader)@)),
{
    let lines = match ruled_table::<EffectConfig, EffectNames>(data, loader) {
        Err(e) => return Err(e),
        Ok(l) => l,
    };
    assert(effect_views(lines@) =~= lines_view::<EffectConfig>(lines@));
    match effect_types(lines) {
        Err(e) => Err(e),
        Ok(all) => {
            config.effect_types = all;
            Ok(())
        },
    }
}

/// The commander table: its names become the loader's; the largest charge
/// is noted and the largest transport bonus raises the transport limit.
pub open spec fn spec_read_commanders(c: ConfigView, data: Seq<char>, names: LoaderNames) -> (Result<ConfigView, ConfigError>, LoaderNames) {
    let (r, n) = spec_table_with_headers::<CommanderTypeConfig>(data, names);
    match r {
        Err(e) => (Err(e), n),
        Ok(lines) => (Ok(ConfigView {
            commanders: lines,
            max_commander_charge: max_commander_charge(lines),
            max_transported: c.max_transported.saturating_add(max_commander_transport(lines) as usize),
            ..c
        }), spec_add_names(n, NameKind::CommanderType, view_names::<CommanderTypeConfig>(lines))),
    }
}

fn read_commanders(config: &mut Config, data: &str, loader: &mut FileLoader) -> (r: Result<(), ConfigParseError>)
    ensures
        config_step(r, final(config)@, final(loader)@, spec_read_commanders(old(config)@, data@, old(loader)@)),
{
    let lines = match table_with_headers::<CommanderTypeConfig>(data, loader) {
        Err(e) => return Err(e),
        Ok(l) => l,
    };
    let (charge, transport) = commander_maxima(&lines);
    let names = names_of(&lines);
    loader.add_names(NameKind::CommanderType, &names);
    config.max_commander_charge = charge;
    config.max_transported = config.max_transported.saturating_add(transport as usize);
    config.commanders = lines;
    Ok(())
}

/// The hero table: no hero's charge is above 127; the largest charge is
/// noted, the largest transport bonus raises the transport limit, and the
/// names become the loader's.
pub open spec fn spec_read_heroes(c: ConfigView, data: Seq<char>, names: LoaderNames) -> (Result<ConfigView, ConfigError>, LoaderNames) {
    let (r, n) = spec_ruled_table::<HeroTypeConfig, HeroCharges>(data, names);
    match r {
        Err(e) => (Err(e), n),
        Ok(lines) => match first_overcharged(lines) {
            Some(_) => (Err(ConfigError::HeroMaxChargeExceeded(127)), n),
            None => (Ok(ConfigView {
                heroes: lines,
                max_hero_charge: max_hero_charge(lines) as u8,
                max_hero_transport_bonus: max_hero_transport(lines),
                max_transported: c.max_transported.saturating_add(max_hero_transport(lines) as usize),
                ..c
            }), spec_add_names(n, NameKind::HeroType, view_names::<HeroTypeConfig>(lines))),
        },
    }
}

fn read_heroes(config: &mut Config, data: &str, loader: &mut FileLoader) -> (r: Result<(), ConfigParseError>)
    ensures
        config_step(r, final(config)@, final(loader)@, spec_read_heroes(old(config)@, data@, old(loader)@)),
{
    let lines = match ruled_table::<HeroTypeConfig, HeroCharges>(data, loader) {
        Err(e) => return Err(e),
        Ok(l) => l,
    };
    let (charge, transport) = match hero_maxima(&lines) {
        Err(e) => return Err(e),
        Ok(m) => m,
    };
    proof { lemma_charge_bound(lines_view::<HeroTypeConfig>(lines@)); }
    let names = names_of(&lines);
    loader.add_names(NameKind::HeroType, &names);
    config.max_hero_charge = charge;
    config.max_hero_transport_bonus = transport;
    config.max_transported = config.max_transported.saturating_add(transport as usize);
    config.heroes = lines;
    Ok(())
}

/// The heroes with each power added to the hero it names, in the order of
/// the powers; a power of an unknown hero is `MissingHeroForPower`.
pub open spec fn spec_add_powers(hs: Seq<HeroTypeConfigView>, ps: Seq<HeroPowerConfigView>) -> Result<Seq<HeroTypeConfigView>, ConfigError>
    decreases ps.len(),
{
    if ps.len() == 0 {
        Ok(hs)
    } else {
        match spec_add_powers(hs, ps.drop_last()) {
            Err(e) => Err(e),
            Ok(h) => {
                let p = ps.last();
                if p.hero.0 < h.len() {
                    Ok(h.update(p.hero.0 as int, HeroTypeConfigView { powers: h[p.hero.0 as int].powers.push(p), ..h[p.hero.0 as int] }))
                } else {
                    Err(ConfigError::MissingHeroForPower(p.hero))
                }
            },
        }
    }
}

proof fn lemma_add_powers_error(hs: Seq<HeroTypeConfigView>, ps: Seq<HeroPowerConfigView>, k: int)
    requires
        0 <= k <= ps.len(),
        spec_add_powers(hs, ps.take(k)) is Err,
    ensures
        spec_add_powers(hs, ps) == spec_add_powers(hs, ps.take(k)),
    decreases ps.len() - k,
{
    if k < ps.len() {
        assert(ps.take(k + 1).drop_last() =~= ps.take(k));
        lemma_add_powers_error(hs, ps, k + 1);
    } else {
        assert(ps.take(k) =~= ps);
    }
}

/// The hero power table: each power joins its hero.
pub open spec fn spec_read_hero_powers(c: ConfigView, data: Seq<char>, names: LoaderNames) -> (Result<ConfigView, ConfigError>, LoaderNames) {
    let (r, n) = spec_table_with_headers::<HeroPowerConfig>(data, names);
    match r {
        Err(e) => (Err(e), n),
        Ok(powers) => match spec_add_powers(c.heroes, powers) {
            Err(e) => (Err(e), n),
            Ok(heroes) => (Ok(ConfigView { heroes, ..c }), n),
        },
    }
}

fn read_hero_powers(config: &mut Config, data: &str, loader: &mut FileLoader) -> (r: Result<(), ConfigParseError>)
    ensures
        config_step(r, final(config)@, final(loader)@, spec_read_hero_powers(old(config)@, data@, old(loader)@)),
{
    let powers = match table_with_headers::<HeroPowerConfig>(data, loader) {
        Err(e) => return Err(e),
        Ok(l) => l,
    };
    let ghost ps = lines_view::<HeroPowerConfig>(powers@);
    let ghost hs0 = old(config)@.heroes;
    let mut rest = powers;
    let ghost mut k: int = 0;
    assert(ps.take(0) =~= seq![]);
    assert(ps.skip(0) =~= ps);
    while rest.len() > 0
        invariant
            0 <= k <= ps.len(),
            lines_view::<HeroPowerConfig>(rest@) == ps.skip(k),
            spec_add_powers(hs0, ps.take(k)) == Ok::<Seq<HeroTypeConfigView>, ConfigError>(config@.heroes),
            config@ == (ConfigView { heroes: config@.heroes, ..old(config)@ }),
            spec_table_with_headers::<HeroPowerConfig>(data@, old(loader)@) == (Ok::<Seq<HeroPowerConfigView>, ConfigError>(ps), loader@),
            hs0 == old(config)@.heroes,
        decreases rest.len(),
    {
        let ghost before = rest@;
        assert(lines_view::<HeroPowerConfig>(before).len() == before.len());
        assert(before.len() == ps.len() - k);
        assert(lines_view::<HeroPowerConfig>(before)[0] == ps.skip(k)[0]);
        let power = rest.remove(0);
        proof {
            assert(power == before[0]);
            assert(lines_view::<HeroPowerConfig>(before)[0] == before[0]@);
            assert(power@ == ps[k]);
            assert(ps.take(k + 1).drop_last() =~= ps.take(k));
            assert(ps.take(k + 1).last() == ps[k]);
            assert forall|i: int| 0 <= i < rest@.len() implies #[trigger] lines_view::<HeroPowerConfig>(rest@)[i] == ps.skip(k + 1)[i] by {
                assert(rest@[i] == before[i + 1]);
                assert(lines_view::<HeroPowerConfig>(before)[i + 1] == ps.skip(k)[i + 1]);
            }
            assert(lines_view::<HeroPowerConfig>(rest@) =~= ps.skip(k + 1));
        }
        let i = power.hero.0;
        if i >= config.heroes.len() {
            proof {
                assert(spec_add_powers(hs0, ps.take(k + 1)) is Err);
                lemma_add_powers_error(hs0, ps, k + 1);
            }
            return Err(ConfigParseError::MissingHeroForPower(power.hero));
        }
        let ghost hv = config@.heroes;
        let mut hero = config.heroes.remove(i);
        assert(hero@ == hv[i as int]);
        let ghost pv = hero.powers@;
        hero.powers.push(power);
        assert(hero.powers@.map_values(|p: HeroPowerConfig| p@) =~= pv.map_values(|p: HeroPowerConfig| p@).push(ps[k]));
        config.heroes.insert(i, hero);
        assert(config@.heroes =~= hv.update(i as int, HeroTypeConfigView { powers: hv[i as int].powers.push(ps[k]), ..hv[i as int] }));
        proof { k = k + 1; }
    }
    assert(ps.take(k) =~= ps);
    Ok(())
}

/// The commanders with each power added to the commander type it names, in
/// the order of the powers; a power of an unknown commander type is
/// `MissingCommanderForPower`.
pub open spec fn spec_add_commander_powers(cs: Seq<CommanderTypeConfigView>, ps: Seq<CommanderPowerConfigView>) -> Result<Seq<CommanderTypeConfigView>, ConfigError>
    decreases ps.len(),
{
    if ps.len() == 0 {
        Ok(cs)
    } else {
        match spec_add_commander_powers(cs, ps.drop_last()) {
            Err(e) => Err(e),
            Ok(c) => {
                let p = ps.last();
                if p.id.0 < c.len() {
                    Ok(c.update(p.id.0 as int, CommanderTypeConfigView { powers: c[p.id.0 as int].powers.push(p), ..c[p.id.0 as int] }))
                } else {
                    Err(ConfigError::MissingCommanderForPower(p.id))
                }
            },
        }
    }
}

proof fn lemma_add_commander_powers_error(cs: Seq<CommanderTypeConfigView>, ps: Seq<CommanderPowerConfigView>, k: int)
    requires
        0 <= k <= ps.len(),
        spec_add_commander_powers(cs, ps.take(k)) is Err,
    ensures
        spec_add_commander_powers(cs, ps) == spec_add_commander_powers(cs, ps.take(k)),
    decreases ps.len() - k,
{
    if k < ps.len() {
        assert(ps.take(k + 1).drop_last() =~= ps.take(k));
        lemma_add_commander_powers_error(cs, ps, k + 1);
    } else {
        assert(ps.take(k) =~= ps);
    }
}

/// The commander power table: each power joins its commander type.
pub open spec fn spec_read_commander_powers(c: ConfigView, data: Seq<char>, names: LoaderNames) -> (Result<ConfigView, ConfigError>, LoaderNames) {
    let (r, n) = spec_table_with_headers::<CommanderPowerConfig>(data, names);
    match r {
        Err(e) => (Err(e), n),
        Ok(powers) => match spec_add_commander_powers(c.commanders, powers) {
            Err(e) => (Err(e), n),
            Ok(commanders) => (Ok(ConfigView { commanders, ..c }), n),
        },
    }
}

fn read_commander_powers(config: &mut Config, data: &str, loader: &mut FileLoader) -> (r: Result<(), ConfigParseError>)
    ensures
        config_step(r, final(config)@, final(loader)@, spec_read_commander_powers(old(config)@, data@, old(loader)@)),
{
    let powers = match table_with_headers::<CommanderPowerConfig>(data, loader) {
        Err(e) => return Err(e),
        Ok(l) => l,
    };
    let ghost ps = lines_view::<CommanderPowerConfig>(powers@);
    let ghost cs0 = old(config)@.commanders;
    let mut rest = powers;
    let ghost mut k: int = 0;
    assert(ps.take(0) =~= seq![]);
    assert(ps.skip(0) =~= ps);
    while rest.len() > 0
        invariant
            0 <= k <= ps.len(),
            lines_view::<CommanderPowerConfig>(rest@) == ps.skip(k),
            spec_add_commander_powers(cs0, ps.take(k)) == Ok::<Seq<CommanderTypeConfigView>, ConfigError>(config@.commanders),
            config@ == (ConfigView { commanders: config@.commanders, ..old(config)@ }),
            spec_table_with_headers::<CommanderPowerConfig>(data@, old(loader)@) == (Ok::<Seq<CommanderPowerConfigView>, ConfigError>(ps), loader@),
            cs0 == old(config)@.commanders,
        decreases rest.len(),
    {
        let ghost before = rest@;
        assert(lines_view::<CommanderPowerConfig>(before).len() == before.len());
        assert(before.len() == ps.len() - k);
        assert(lines_view::<CommanderPowerConfig>(before)[0] == ps.skip(k)[0]);
        let power = rest.remove(0);
        proof {
            assert(power == before[0]);
            assert(lines_view::<CommanderPowerConfig>(before)[0] == before[0]@);
            assert(power@ == ps[k]);
            assert(ps.take(k + 1).drop_last() =~= ps.take(k));
            assert(ps.take(k + 1).last() == ps[k]);
            assert forall|i: int| 0 <= i < rest@.len() implies #[trigger] lines_view::<CommanderPowerConfig>(rest@)[i] == ps.skip(k + 1)[i] by {
                assert(rest@[i] == before[i + 1]);
                assert(lines_view::<CommanderPowerConfig>(before)[i + 1] == ps.skip(k)[i + 1]);
            }
            assert(lines_view::<CommanderPowerConfig>(rest@) =~= ps.skip(k + 1));
        }
        let i = power.id.0;
        if i >= config.commanders.len() {
            proof {
                assert(spec_add_commander_powers(cs0, ps.take(k + 1)) is Err);
                lemma_add_commander_powers_error(cs0, ps, k + 1);
            }
            return Err(ConfigParseError::MissingCommanderForPower(power.id));
        }
        let ghost cv = config@.commanders;
        let mut commander = config.commanders.remove(i);
        assert(commander@ == cv[i as int]);
        let ghost pv = commander.powers@;
        commander.powers.push(power);
        assert(commander.powers@.map_values(|p: CommanderPowerConfig| p@) =~= pv.map_values(|p: CommanderPowerConfig| p@).push(ps[k]));
        config.commanders.insert(i, commander);
        assert(config@.commanders =~= cv.update(i as int, CommanderTypeConfigView { powers: cv[i as int].powers.push(ps[k]), ..cv[i as int] }));
        proof { k = k + 1; }
    }
    assert(ps.take(k) =~= ps);
    Ok(())
}

/// The name of the file that tells which movement type a unit of the
/// movement type `name` takes on, by terrain.
pub open spec fn sub_movement_file(name: Seq<char>) -> Seq<char> {
    "sub_mt_"@ + name + ".csv"@
}

/// For the first `k` movement types, in order, those with at least two sub
/// types: the movement type and the table of its file, read as a matrix
/// with a terrain type on each line and a movement type in each column and
/// cell. The file not among `texts` is `FileMissing` with its name.
pub open spec fn spec_sub_movements(
    mts: Seq<MovementTypeConfigView>,
    texts: Seq<(Seq<char>, Seq<char>)>,
    names: LoaderNames,
    k: nat,
) -> Result<Seq<(MovementType, Seq<(TerrainType, Seq<(MovementType, MovementType)>)>)>, ConfigError>
    decreases k,
{
    if k == 0 {
        Ok(seq![])
    } else {
        match spec_sub_movements(mts, texts, names, (k - 1) as nat) {
            Err(e) => Err(e),
            Ok(prev) => {
                let conf = mts[k - 1];
                if conf.sub_types.len() < 2 {
                    Ok(prev)
                } else {
                    let file = sub_movement_file(conf.name);
                    match spec_table_text(texts, file) {
                        None => Err(ConfigError::FileMissing(file)),
                        Some(d) => match spec_labeled_matrix::<MovementType, TerrainType, MovementType>(d, names) {
                            Err(e) => Err(e),
                            Ok(m) => Ok(prev.push((MovementType((k - 1) as usize), m))),
                        },
                    }
                }
            },
        }
    }
}

proof fn lemma_sub_movements_error(
    mts: Seq<MovementTypeConfigView>,
    texts: Seq<(Seq<char>, Seq<char>)>,
    names: LoaderNames,
    k: nat,
    m: nat,
)
    requires
        k <= m,
        spec_sub_movements(mts, texts, names, k) is Err,
    ensures
        spec_sub_movements(mts, texts, names, m) == spec_sub_movements(mts, texts, names, k),
    decreases m,
{
    if k < m {
        lemma_sub_movements_error(mts, texts, names, k, (m - 1) as nat);
    }
}

fn read_sub_movements(config: &mut Config, texts: &Vec<(String, String)>, loader: &FileLoader) -> (r: Result<(), ConfigParseError>)
    ensures
        match spec_sub_movements(old(config)@.movement_types, texts_view(texts@), loader@, old(config)@.movement_types.len()) {
            Ok(t) => r is Ok && final(config)@ == (ConfigView { movement_type_transformer: t, ..old(config)@ }),
            Err(e) => r matches Err(e2) && e2@ == e,
        },
{
    let ghost mts = config@.movement_types;
    let ghost tv = texts_view(texts@);
    let mut result: Vec<(MovementType, Vec<(TerrainType, Vec<(MovementType, MovementType)>)>)> = Vec::new();
    let mut i: usize = 0;
    assert(transformer_view(result@) =~= seq![]);
    while i < config.movement_types.len()
        invariant
            i <= config.movement_types@.len(),
            mts == config@.movement_types,
            mts.len() == config.movement_types@.len(),
            config@ == old(config)@,
            tv == texts_view(texts@),
            spec_sub_movements(mts, tv, loader@, i as nat) == Ok::<Seq<(MovementType, Seq<(TerrainType, Seq<(MovementType, MovementType)>)>)>, ConfigError>(transformer_view(result@)),
        decreases config.movement_types.len() - i,
    {
        let conf = &config.movement_types[i];
        assert(mts[i as int] == conf@);
        if conf.sub_types.len() >= 2 {
            let name = str_chars(conf.name.as_str());
            let file = framed_text("sub_mt_", name.as_slice(), ".csv");
            let file_chars = str_chars(file.as_str());
            let t = match text_position(texts, file_chars.as_slice()) {
                None => {
                    proof { lemma_sub_movements_error(mts, tv, loader@, (i + 1) as nat, mts.len()); }
                    return Err(ConfigParseError::FileMissing(file));
                },
                Some(t) => t,
            };
            assert(tv[t as int] == (texts@[t as int].0@, texts@[t as int].1@));
            let table = match labeled_matrix::<MovementType, TerrainType, MovementType>(texts[t].1.as_str(), loader) {
                Err(e) => {
                    proof { lemma_sub_movements_error(mts, tv, loader@, (i + 1) as nat, mts.len()); }
                    return Err(e);
                },
                Ok(m) => m,
            };
            let ghost before = result@;
            result.push((MovementType(i), table));
            assert(labeled_view(table@) =~= pairs_view(table@));
            assert(transformer_view(result@) =~= transformer_view(before).push((MovementType(i), pairs_view(table@))));
        }
        i += 1;
    }
    config.movement_type_transformer = result;
    assert(config@ =~= (ConfigView { movement_type_transformer: transformer_view(config.movement_type_transformer@), ..old(config)@ }));
    Ok(())
}

/// The text of the file at `path` among the files of the `tables` folder.
pub open spec fn spec_table_text(texts: Seq<(Seq<char>, Seq<char>)>, path: Seq<char>) -> Option<Seq<char>> {
    match first_named(texts.map_values(|p: (Seq<char>, Seq<char>)| p.0), path) {
        Some(i) => Some(texts[i].1),
        None => None,
    }
}

/// The tables with `t` under `id`: it takes the place of a table of the
/// same name, or comes last.
pub open spec fn spec_insert_table(tables: Seq<(Seq<char>, CustomTableView)>, id: Seq<char>, t: CustomTableView) -> Seq<(Seq<char>, CustomTableView)> {
    match first_named(tables.map_values(|p: (Seq<char>, CustomTableView)| p.0), id) {
        Some(i) => tables.update(i, (id, t)),
        None => tables.push((id, t)),
    }
}

/// The first `k` custom tables built, each from its file in the `tables`
/// folder (the texts are by path below it); a missing one is `FileMissing`
/// with `tables/{path}`.
pub open spec fn spec_build_tables(
    start: Seq<(Seq<char>, CustomTableView)>,
    confs: Seq<TableConfigView>,
    texts: Seq<(Seq<char>, Seq<char>)>,
    names: LoaderNames,
    k: nat,
) -> Result<Seq<(Seq<char>, CustomTableView)>, ConfigError>
    decreases k,
{
    if k == 0 {
        Ok(start)
    } else {
        match spec_build_tables(start, confs, texts, names, (k - 1) as nat) {
            Err(e) => Err(e),
            Ok(ts) => {
                let conf = confs[k - 1];
                let path = "tables/"@ + conf.path;
                match spec_table_text(texts, conf.path) {
                    None => Err(ConfigError::FileMissing(path)),
                    Some(d) => match spec_build_table(conf, d, names) {
                        Err(e) => Err(e),
                        Ok((columns, rows, values)) => Ok(spec_insert_table(ts, conf.id, CustomTableView {
                            default_value: conf.default_value,
                            values,
                            row_keys: rows,
                            column_keys: columns,
                        })),
                    },
                }
            },
        }
    }
}

proof fn lemma_build_tables_error(
    start: Seq<(Seq<char>, CustomTableView)>,
    confs: Seq<TableConfigView>,
    texts: Seq<(Seq<char>, Seq<char>)>,
    names: LoaderNames,
    k: nat,
    m: nat,
)
    requires
        k <= m,
        spec_build_tables(start, confs, texts, names, k) is Err,
    ensures
        spec_build_tables(start, confs, texts, names, m) == spec_build_tables(start, confs, texts, names, k),
    decreases m,
{
    if k < m {
        lemma_build_tables_error(start, confs, texts, names, k, (m - 1) as nat);
    }
}

/// The table of custom tables, and each table it names built from its file.
pub open spec fn spec_read_tables(c: ConfigView, data: Seq<char>, texts: Seq<(Seq<char>, Seq<char>)>, names: LoaderNames) -> (Result<ConfigView, ConfigError>, LoaderNames) {
    let (r, n) = spec_table_with_headers::<TableConfig>(data, names);
    match r {
        Err(e) => (Err(e), n),
        Ok(confs) => match spec_build_tables(c.custom_tables, confs, texts, n, confs.len()) {
            Err(e) => (Err(e), n),
            Ok(ts) => (Ok(ConfigView { custom_tables: ts, ..c }), n),
        },
    }
}

pub open spec fn texts_view(v: Seq<(String, String)>) -> Seq<(Seq<char>, Seq<char>)> {
    v.map_values(|p: (String, String)| (p.0@, p.1@))
}

fn text_position(texts: &Vec<(String, String)>, key: &[char]) -> (r: Option<usize>)
    ensures
        r matches Some(i) ==> i < texts@.len() && first_named(texts_view(texts@).map_values(|p: (Seq<char>, Seq<char>)| p.0), key@) == Some(i as int),
        r is None ==> first_named(texts_view(texts@).map_values(|p: (Seq<char>, Seq<char>)| p.0), key@) is None,
{
    let ghost ks = texts_view(texts@).map_values(|p: (Seq<char>, Seq<char>)| p.0);
    let mut i: usize = 0;
    while i < texts.len()
        invariant
            i <= texts@.len(),
            ks == texts_view(texts@).map_values(|p: (Seq<char>, Seq<char>)| p.0),
            first_named(ks, key@) == first_named_from(ks, key@, i as int),
        decreases texts.len() - i,
    {
        let name = str_chars(texts[i].0.as_str());
        assert(ks[i as int] == name@);
        if text_eq(name.as_slice(), key) {
            return Some(i);
        }
        i += 1;
    }
    None
}

fn read_tables(config: &mut Config, data: &str, texts: &Vec<(String, String)>, loader: &mut FileLoader) -> (r: Result<(), ConfigParseError>)
    ensures
        config_step(r, final(config)@, final(loader)@, spec_read_tables(old(config)@, data@, texts_view(texts@), old(loader)@)),
{
    let confs = match table_with_headers::<TableConfig>(data, loader) {
        Err(e) => return Err(e),
        Ok(l) => l,
    };
    let ghost cv = lines_view::<TableConfig>(confs@);
    let ghost tv = texts_view(texts@);
    let ghost start = old(config)@.custom_tables;
    let mut k: usize = 0;
    while k < confs.len()
        invariant
            k <= confs@.len(),
            cv == lines_view::<TableConfig>(confs@),
            tv == texts_view(texts@),
            spec_table_with_headers::<TableConfig>(data@, old(loader)@) == (Ok::<Seq<TableConfigView>, ConfigError>(cv), loader@),
            start == old(config)@.custom_tables,
            spec_build_tables(start, cv, tv, loader@, k as nat) == Ok::<Seq<(Seq<char>, CustomTableView)>, ConfigError>(config@.custom_tables),
            config@ == (ConfigView { custom_tables: config@.custom_tables, ..old(config)@ }),
        decreases confs.len() - k,
    {
        let conf = &confs[k];
        assert(cv[k as int] == conf@);
        let path = framed_text("tables/", str_chars(conf.path.as_str()).as_slice(), "");
        proof { reveal_strlit(""); }
        assert(path@ =~= "tables/"@ + conf@.path);
        let key = str_chars(conf.path.as_str());
        let j = match text_position(texts, key.as_slice()) {
            None => {
                proof { lemma_build_tables_error(start, cv, tv, loader@, (k + 1) as nat, cv.len()); }
                return Err(ConfigParseError::FileMissing(path));
            },
            Some(j) => j,
        };
        assert(tv[j as int] == (texts@[j as int].0@, texts@[j as int].1@));
        let table = match conf.build_table(texts[j].1.as_str(), loader) {
            Err(e) => {
                proof { lemma_build_tables_error(start, cv, tv, loader@, (k + 1) as nat, cv.len()); }
                return Err(e);
            },
            Ok(t) => t,
        };
        let ghost before = config@.custom_tables;
        let ghost tview = custom_table_view(table);
        assert(table_names(config.custom_tables@) =~= before.map_values(|p: (Seq<char>, CustomTableView)| p.0));
        match find_table(&config.custom_tables, conf.id.as_str()) {
            Some(i) => {
                config.custom_tables.set(i, (conf.id.clone(), table));
                assert(config@.custom_tables =~= before.update(i as int, (conf@.id, tview)));
            },
            None => {
                config.custom_tables.push((conf.id.clone(), table));
                assert(config@.custom_tables =~= before.push((conf@.id, tview)));
            },
        }
        k += 1;
    }
    Ok(())
}

/// The texts of a configuration's files, each as read, or none where the
/// file is missing; `sub_movement` holds the files that change movement
/// types by their names, `custom_tables` the files of the `tables` folder by
/// their path below it.
pub struct ConfigTexts {
    pub name: String,
    pub tags: Option<String>,
    pub ruleset: Option<String>,
    pub movement_types: Option<String>,
    pub units: Option<String>,
    pub terrain: Option<String>,
    pub tokens: Option<String>,
    pub effects: Option<String>,
    pub commanders: Option<String>,
    pub heroes: Option<String>,
    pub unit_transport: Option<String>,
    pub unit_damage: Option<String>,
    pub custom_actions: Option<String>,
    pub hero_powers: Option<String>,
    pub movement: Option<String>,
    pub sub_movement: Vec<(String, String)>,
    pub commander_powers: Option<String>,
    pub unit_powered: Option<String>,
    pub terrain_powered: Option<String>,
    pub global_events: Option<String>,
    pub tables: Option<String>,
    pub custom_tables: Vec<(String, String)>,
    pub terrain_tags: Option<String>,
    pub token_tags: Option<String>,
    pub unit_tags: Option<String>,
}

pub open spec fn text_view(t: Option<String>) -> Option<Seq<char>> {
    match t {
        Some(s) => Some(s@),
        None => None,
    }
}

/// The number of steps of reading: the files and script named by
/// `spec_file_name`, in order.
pub open spec fn step_count() -> nat {
    24
}

/// The file read in step `k`, in the order the configuration reads them:
/// step 1 checks the global script and step 15 reads the files that change
/// movement types, whose names begin with `sub_mt_`.
pub open spec fn spec_file_name(k: nat) -> Seq<char> {
    if k == 0 { "tags.csv"@ }
    else if k == 1 { spec_script_path(GLOBAL_SCRIPT@) }
    else if k == 2 { "ruleset.csv"@ }
    else if k == 3 { "movement_types.csv"@ }
    else if k == 4 { "units.csv"@ }
    else if k == 5 { "terrain.csv"@ }
    else if k == 6 { "tokens.csv"@ }
    else if k == 7 { "effects.csv"@ }
    else if k == 8 { "commanders.csv"@ }
    else if k == 9 { "heroes.csv"@ }
    else if k == 10 { "unit_transport.csv"@ }
    else if k == 11 { "unit_damage.csv"@ }
    else if k == 12 { "custom_actions.csv"@ }
    else if k == 13 { "hero_powers.csv"@ }
    else if k == 14 { "movement.csv"@ }
    else if k == 15 { "sub_mt_"@ }
    else if k == 16 { "commander_powers.csv"@ }
    else if k == 17 { "unit_powered.csv"@ }
    else if k == 18 { "terrain_powered.csv"@ }
    else if k == 19 { "global_events.csv"@ }
    else if k == 20 { "tables.csv"@ }
    else if k == 21 { "terrain_tags.csv"@ }
    else if k == 22 { "token_tags.csv"@ }
    else { "unit_tags.csv"@ }
}

pub fn file_name(k: usize) -> (r: String)
    ensures
        r@ == spec_file_name(k as nat),
{
    if k == 1 {
        return script_path(&GLOBAL_SCRIPT);
    }
    let r = {
        if k == 0 { "tags.csv" }
        else if k == 2 { "ruleset.csv" }
        else if k == 3 { "movement_types.csv" }
        else if k == 4 { "units.csv" }
        else if k == 5 { "terrain.csv" }
        else if k == 6 { "tokens.csv" }
        else if k == 7 { "effects.csv" }
        else if k == 8 { "commanders.csv" }
        else if k == 9 { "heroes.csv" }
        else if k == 10 { "unit_transport.csv" }
        else if k == 11 { "unit_damage.csv" }
        else if k == 12 { "custom_actions.csv" }
        else if k == 13 { "hero_powers.csv" }
        else if k == 14 { "movement.csv" }
        else if k == 15 { "sub_mt_" }
        else if k == 16 { "commander_powers.csv" }
        else if k == 17 { "unit_powered.csv" }
        else if k == 18 { "terrain_powered.csv" }
        else if k == 19 { "global_events.csv" }
        else if k == 20 { "tables.csv" }
        else if k == 21 { "terrain_tags.csv" }
        else if k == 22 { "token_tags.csv" }
        else { "unit_tags.csv" }
    };
    String::from_str(r)
}

impl ConfigTexts {
    /// The text of the file read in step `k`; none for the steps that read
    /// no single file.
    pub open spec fn spec_file(&self, k: nat) -> Option<Seq<char>> {
        text_view(self.file(k as usize))
    }

    #[verifier::when_used_as_spec(spec_file_ref)]
    pub fn file(&self, k: usize) -> (r: Option<String>)
        returns
            self.spec_file_ref(k),
    {
        if k == 0 { self.tags.clone() }
        else if k == 2 { self.ruleset.clone() }
        else if k == 3 { self.movement_types.clone() }
        else if k == 4 { self.units.clone() }
        else if k == 5 { self.terrain.clone() }
        else if k == 6 { self.tokens.clone() }
        else if k == 7 { self.effects.clone() }
        else if k == 8 { self.commanders.clone() }
        else if k == 9 { self.heroes.clone() }
        else if k == 10 { self.unit_transport.clone() }
        else if k == 11 { self.unit_damage.clone() }
        else if k == 12 { self.custom_actions.clone() }
        else if k == 13 { self.hero_powers.clone() }
        else if k == 14 { self.movement.clone() }
        else if k == 16 { self.commander_powers.clone() }
        else if k == 17 { self.unit_powered.clone() }
        else if k == 18 { self.terrain_powered.clone() }
        else if k == 19 { self.global_events.clone() }
        else if k == 20 { self.tables.clone() }
        else if k == 21 { self.terrain_tags.clone() }
        else if k == 22 { self.token_tags.clone() }
        else if k == 23 { self.unit_tags.clone() }
        else { None }
    }

    pub open spec fn spec_file_ref(&self, k: usize) -> Option<String> {
        if k == 0 { self.tags }
        else if k == 2 { self.ruleset }
        else if k == 3 { self.movement_types }
        else if k == 4 { self.units }
        else if k == 5 { self.terrain }
        else if k == 6 { self.tokens }
        else if k == 7 { self.effects }
        else if k == 8 { self.commanders }
        else if k == 9 { self.heroes }
        else if k == 10 { self.unit_transport }
        else if k == 11 { self.unit_damage }
        else if k == 12 { self.custom_actions }
        else if k == 13 { self.hero_powers }
        else if k == 14 { self.movement }
        else if k == 16 { self.commander_powers }
        else if k == 17 { self.unit_powered }
        else if k == 18 { self.terrain_powered }
        else if k == 19 { self.global_events }
        else if k == 20 { self.tables }
        else if k == 21 { self.terrain_tags }
        else if k == 22 { self.token_tags }
        else if k == 23 { self.unit_tags }
        else { None }
    }
}

/// A configuration before any file is read.
pub open spec fn initial_view(name: Seq<char>) -> ConfigView {
    ConfigView {
        name,
        owner_colors: seq![],
        is_unit_dead_rhai: usize::MAX,
        is_unit_movable_rhai: usize::MAX,
        calculate_damage_rhai: usize::MAX,
        deal_damage_rhai: usize::MAX,
        weapon_effects_rhai: None,
        flags: seq![],
        tags: seq![],
        movement_types: seq![],
        units: seq![],
        unknown_unit: UnitType(usize::MAX),
        unit_transports: seq![],
        attack_damage: seq![],
        custom_actions: seq![],
        max_transported: 0,
        unit_flags: seq![],
        unit_tags: seq![],
        heroes: seq![],
        max_hero_charge: 0,
        max_hero_transport_bonus: 0,
        terrains: seq![],
        default_terrain: TerrainType(usize::MAX),
        movement_cost: seq![],
        movement_type_transformer: seq![],
        terrain_flags: seq![],
        terrain_tags: seq![],
        tokens: seq![],
        token_flags: seq![],
        token_tags: seq![],
        effect_types: seq![],
        commanders: seq![],
        max_commander_charge: 0,
        unit_overrides: seq![],
        terrain_overrides: seq![],
        global_events: seq![],
        custom_tables: seq![],
    }
}

/// What a table read into one field gives.
pub open spec fn with_lines<V>(r: (Result<Seq<V>, ConfigError>, LoaderNames), set: spec_fn(Seq<V>) -> ConfigView) -> (Result<ConfigView, ConfigError>, LoaderNames) {
    (match r.0 {
        Ok(v) => Ok(set(v)),
        Err(e) => Err(e),
    }, r.1)
}

/// Step `k` of reading a configuration: the state is the configuration so
/// far and the names of the unit type for fog and of the default terrain.
pub open spec fn spec_step(k: nat, s: (ConfigView, Seq<char>, Seq<char>), f: ConfigTexts, names: LoaderNames) -> (Result<(ConfigView, Seq<char>, Seq<char>), ConfigError>, LoaderNames) {
    let (c, u, dt) = s;
    if k == 1 {
        (match spec_check_script(names, GLOBAL_SCRIPT@) {
            Ok(_) => Ok(s),
            Err(e) => Err(e),
        }, names)
    } else if k == 15 {
        (match spec_sub_movements(c.movement_types, texts_view(f.sub_movement@), names, c.movement_types.len()) {
            Ok(t) => Ok((ConfigView { movement_type_transformer: t, ..c }, u, dt)),
            Err(e) => Err(e),
        }, names)
    } else {
        match f.spec_file(k) {
            None => (Err(ConfigError::FileMissing(spec_file_name(k))), names),
            Some(d) => if k == 2 {
                spec_read_rules(c, d, names)
            } else {
                let (r, n) = if k == 0 {
                    spec_read_tags(c, d, names)
                } else if k == 3 {
                    with_lines(spec_table_with_headers::<MovementTypeConfig>(d, names), |v: Seq<MovementTypeConfigView>| ConfigView { movement_types: v, ..c })
                } else if k == 4 {
                    spec_read_units(c, u, d, names)
                } else if k == 5 {
                    spec_read_terrain(c, dt, d, names)
                } else if k == 6 {
                    spec_read_tokens(c, d, names)
                } else if k == 7 {
                    spec_read_effects(c, d, names)
                } else if k == 8 {
                    spec_read_commanders(c, d, names)
                } else if k == 9 {
                    spec_read_heroes(c, d, names)
                } else if k == 10 {
                    (match spec_unit_transports(d, names) {
                        Ok(v) => Ok(ConfigView { unit_transports: v, ..c }),
                        Err(e) => Err(e),
                    }, names)
                } else if k == 11 {
                    (match spec_labeled_matrix::<UnitType, UnitType, u16>(d, names) {
                        Ok(v) => Ok(ConfigView { attack_damage: v, ..c }),
                        Err(e) => Err(e),
                    }, names)
                } else if k == 12 {
                    with_lines(spec_table_with_headers::<CustomActionConfig>(d, names), |v: Seq<CustomActionConfigView>| ConfigView { custom_actions: v, ..c })
                } else if k == 13 {
                    spec_read_hero_powers(c, d, names)
                } else if k == 14 {
                    (match spec_labeled_matrix::<MovementType, TerrainType, Fraction>(d, names) {
                        Ok(v) => Ok(ConfigView { movement_cost: v, ..c }),
                        Err(e) => Err(e),
                    }, names)
                } else if k == 16 {
                    spec_read_commander_powers(c, d, names)
                } else if k == 17 {
                    with_lines(spec_table_with_headers::<CommanderPowerUnitConfig>(d, names), |v: Seq<CommanderPowerUnitConfigView>| ConfigView { unit_overrides: v, ..c })
                } else if k == 18 {
                    with_lines(spec_table_with_headers::<TerrainPoweredConfig>(d, names), |v: Seq<TerrainPoweredConfigView>| ConfigView { terrain_overrides: v, ..c })
                } else if k == 19 {
                    with_lines(spec_table_with_headers::<GlobalEventConfig>(d, names), |v: Seq<GlobalEventConfigView>| ConfigView { global_events: v, ..c })
                } else if k == 20 {
                    spec_read_tables(c, d, texts_view(f.custom_tables@), names)
                } else if k == 21 {
                    (match editor_tag_config::spec_parse::<TerrainType>(d, names) {
                        Ok((fl, tg)) => Ok(ConfigView { terrain_flags: fl, terrain_tags: tg, ..c }),
                        Err(e) => Err(e),
                    }, names)
                } else if k == 22 {
                    (match editor_tag_config::spec_parse::<TokenType>(d, names) {
                        Ok((fl, tg)) => Ok(ConfigView { token_flags: fl, token_tags: tg, ..c }),
                        Err(e) => Err(e),
                    }, names)
                } else {
                    (match editor_tag_config::spec_parse::<UnitType>(d, names) {
                        Ok((fl, tg)) => Ok(ConfigView { unit_flags: fl, unit_tags: tg, ..c }),
                        Err(e) => Err(e),
                    }, names)
                };
                (match r {
                    Ok(c2) => Ok((c2, u, dt)),
                    Err(e) => Err(e),
                }, n)
            },
        }
    }
}

/// The first `k` steps of reading a configuration; an error ends them.
pub open spec fn spec_run(f: ConfigTexts, names: LoaderNames, k: nat) -> (Result<(ConfigView, Seq<char>, Seq<char>), ConfigError>, LoaderNames)
    decreases k,
{
    if k == 0 {
        (Ok((initial_view(f.name@), seq![], seq![])), names)
    } else {
        let (r, n) = spec_run(f, names, (k - 1) as nat);
        match r {
            Err(e) => (Err(e), n),
            Ok(s) => spec_step((k - 1) as nat, s, f, n),
        }
    }
}

/// A configuration read from the texts of its files in the order of
/// `spec_file_name`, and the loader's names after it.
pub open spec fn spec_parse_config(f: ConfigTexts, names: LoaderNames) -> (Result<ConfigView, ConfigError>, LoaderNames) {
    let (r, n) = spec_run(f, names, step_count());
    (match r {
        Ok(s) => Ok(s.0),
        Err(e) => Err(e),
    }, n)
}

/// Once a step of reading fails, the reading ends with that error: the
/// later steps change neither the result nor the loader's names.
pub proof fn lemma_run_error(f: ConfigTexts, names: LoaderNames, k: nat, m: nat)
    requires
        k <= m,
        spec_run(f, names, k).0 is Err,
    ensures
        spec_run(f, names, m) == spec_run(f, names, k),
    decreases m,
{
    if k < m {
        lemma_run_error(f, names, k, (m - 1) as nat);
    }
}

impl Config {
    fn initial(name: String) -> (r: Config)
        ensures
            r@ == initial_view(name@),
    {
        let r = Config {
            name,
            owner_colors: Vec::new(),
            is_unit_dead_rhai: usize::MAX,
            is_unit_movable_rhai: usize::MAX,
            calculate_damage_rhai: usize::MAX,
            deal_damage_rhai: usize::MAX,
            weapon_effects_rhai: None,
            flags: Vec::new(),
            tags: Vec::new(),
            movement_types: Vec::new(),
            units: Vec::new(),
            unknown_unit: UnitType(usize::MAX),
            unit_transports: Vec::new(),
            attack_damage: Vec::new(),
            custom_actions: Vec::new(),
            max_transported: 0,
            unit_flags: Vec::new(),
            unit_tags: Vec::new(),
            heroes: Vec::new(),
            max_hero_charge: 0,
            max_hero_transport_bonus: 0,
            terrains: Vec::new(),
            default_terrain: TerrainType(usize::MAX),
            movement_cost: Vec::new(),
            movement_type_transformer: Vec::new(),
            terrain_flags: Vec::new(),
            terrain_tags: Vec::new(),
            tokens: Vec::new(),
            token_flags: Vec::new(),
            token_tags: Vec::new(),
            effect_types: Vec::new(),
            commanders: Vec::new(),
            max_commander_charge: 0,
            unit_overrides: Vec::new(),
            terrain_overrides: Vec::new(),
            global_events: Vec::new(),
            custom_tables: Vec::new(),
        };
        assert(r@ =~= initial_view(r.name@));
        r
    }
}

fn step(k: usize, config: &mut Config, unknown: &mut String, default: &mut String, texts: &ConfigTexts, loader: &mut FileLoader) -> (r: Result<(), ConfigParseError>)
    requires
        k < step_count(),
    ensures
        ({
            let (spec, names) = spec_step(k as nat, (old(config)@, old(unknown)@, old(default)@), *texts, old(loader)@);
            &&& final(loader)@ == names
            &&& match r {
                Ok(_) => spec == Ok::<(ConfigView, Seq<char>, Seq<char>), ConfigError>((final(config)@, final(unknown)@, final(default)@)),
                Err(e) => spec == Err::<(ConfigView, Seq<char>, Seq<char>), ConfigError>(e@),
            }
        }),
{
    if k == 1 {
        return loader.check_script(&GLOBAL_SCRIPT);
    }
    if k == 15 {
        return read_sub_movements(config, &texts.sub_movement, loader);
    }
    let text = match texts.file(k) {
        None => return Err(ConfigParseError::FileMissing(file_name(k))),
        Some(t) => t,
    };
    let data = text.as_str();
    if k == 2 {
        let (u, d) = match read_rules(config, data, loader) {
            Err(e) => return Err(e),
            Ok(p) => p,
        };
        *unknown = u;
        *default = d;
        return Ok(());
    }
    if k == 0 {
        read_tags(config, data, loader)
    } else if k == 3 {
        match table_with_headers::<MovementTypeConfig>(data, loader) {
            Err(e) => Err(e),
            Ok(v) => {
                config.movement_types = v;
                Ok(())
            },
        }
    } else if k == 4 {
        read_units(config, unknown.as_str(), data, loader)
    } else if k == 5 {
        read_terrain(config, default.as_str(), data, loader)
    } else if k == 6 {
        read_tokens(config, data, loader)
    } else if k == 7 {
        read_effects(config, data, loader)
    } else if k == 8 {
        read_commanders(config, data, loader)
    } else if k == 9 {
        read_heroes(config, data, loader)
    } else if k == 10 {
        match unit_transports(data, loader) {
            Err(e) => Err(e),
            Ok(v) => {
                assert(transports_view(v@) =~= pairs_view(v@));
                config.unit_transports = v;
                Ok(())
            },
        }
    } else if k == 11 {
        match labeled_matrix::<UnitType, UnitType, u16>(data, loader) {
            Err(e) => Err(e),
            Ok(v) => {
                assert(labeled_view(v@) =~= pairs_view(v@));
                config.attack_damage = v;
                Ok(())
            },
        }
    } else if k == 12 {
        match table_with_headers::<CustomActionConfig>(data, loader) {
            Err(e) => Err(e),
            Ok(v) => {
                config.custom_actions = v;
                Ok(())
            },
        }
    } else if k == 13 {
        read_hero_powers(config, data, loader)
    } else if k == 14 {
        match labeled_matrix::<MovementType, TerrainType, Fraction>(data, loader) {
            Err(e) => Err(e),
            Ok(v) => {
                assert(labeled_view(v@) =~= pairs_view(v@));
                config.movement_cost = v;
                Ok(())
            },
        }
    } else if k == 16 {
        read_commander_powers(config, data, loader)
    } else if k == 17 {
        match table_with_headers::<CommanderPowerUnitConfig>(data, loader) {
            Err(e) => Err(e),
            Ok(v) => {
                config.unit_overrides = v;
                Ok(())
            },
        }
    } else if k == 18 {
        match table_with_headers::<TerrainPoweredConfig>(data, loader) {
            Err(e) => Err(e),
            Ok(v) => {
                config.terrain_overrides = v;
                Ok(())
            },
        }
    } else if k == 19 {
        match table_with_headers::<GlobalEventConfig>(data, loader) {
            Err(e) => Err(e),
            Ok(v) => {
                config.global_events = v;
                Ok(())
            },
        }
    } else if k == 20 {
        read_tables(config, data, &texts.custom_tables, loader)
    } else if k == 21 {
        match editor_tag_config::parse::<TerrainType>(data, loader) {
            Err(e) => Err(e),
            Ok((fl, tg)) => {
                config.terrain_flags = fl;
                config.terrain_tags = tg;
                Ok(())
            },
        }
    } else if k == 22 {
        match editor_tag_config::parse::<TokenType>(data, loader) {
            Err(e) => Err(e),
            Ok((fl, tg)) => {
                config.token_flags = fl;
                config.token_tags = tg;
                Ok(())
            },
        }
    } else {
        match editor_tag_config::parse::<UnitType>(data, loader) {
            Err(e) => Err(e),
            Ok((fl, tg)) => {
                config.unit_flags = fl;
                config.unit_tags = tg;
                Ok(())
            },
        }
    }
}

/// Reads a configuration from the texts of its files, in the order of
/// `spec_file_name`: tags, the global script, rules, movement types, units,
/// terrain, tokens, effects, commanders, heroes, the transport and damage
/// matrices, custom actions, hero powers, movement costs, the files that
/// change movement types, commander powers, the powered unit and terrain
/// tables, global events, custom tables and the editor's tables; a missing
/// file is `FileMissing` with its name.
pub fn parse_config(texts: &ConfigTexts, loader: &mut FileLoader) -> (r: Result<Config, ConfigParseError>)
    ensures
        (match r { Ok(c) => Ok(c@), Err(e) => Err(e@) }, final(loader)@) == spec_parse_config(*texts, old(loader)@),
{
    let mut config = Config::initial(texts.name.clone());
    let mut unknown = String::new();
    let mut default = String::new();
    proof { reveal_strlit(""); }
    let mut k: usize = 0;
    while k < 24
        invariant
            k <= step_count(),
            spec_run(*texts, old(loader)@, k as nat) == (Ok::<(ConfigView, Seq<char>, Seq<char>), ConfigError>((config@, unknown@, default@)), loader@),
        decreases 24 - k,
    {
        match step(k, &mut config, &mut unknown, &mut default, texts, loader) {
            Err(e) => {
                proof { lemma_run_error(*texts, old(loader)@, (k + 1) as nat, step_count()); }
                return Err(e);
            },
            Ok(_) => {},
        }
        k += 1;
    }
    Ok(config)
}

/// Which movement type the sub type `sub` turns into on `terrain`: the cell
/// of column `sub` on the last line of `terrain` in `rows` whose cell there
/// names another movement type; none where no line does.
pub open spec fn spec_transformed(rows: Seq<(TerrainType, Seq<(MovementType, MovementType)>)>, terrain: TerrainType, sub: MovementType) -> Option<MovementType>
    decreases rows.len(),
{
    if rows.len() == 0 {
        None
    } else {
        let row = rows.last();
        let here = if row.0 == terrain {
            match first_key(row.1, sub) {
                Some(j) => if row.1[j].1 != sub { Some(row.1[j].1) } else { None },
                None => None,
            }
        } else {
            None
        };
        match here {
            Some(t) => Some(t),
            None => spec_transformed(rows.drop_last(), terrain, sub),
        }
    }
}

proof fn lemma_first_key_transformer(v: Seq<(MovementType, Vec<(TerrainType, Vec<(MovementType, MovementType)>)>)>, key: MovementType)
    ensures
        first_key(transformer_view(v), key) == first_key(v, key),
    decreases v.len(),
{
    if v.len() > 0 {
        assert(transformer_view(v).drop_last() =~= transformer_view(v.drop_last()));
        lemma_first_key_transformer(v.drop_last(), key);
    }
}

/// Position of the last entry whose key is `key`.
pub open spec fn last_key<K, V>(v: Seq<(K, V)>, key: K) -> Option<int>
    decreases v.len(),
{
    if v.len() == 0 {
        None
    } else if v.last().0 == key {
        Some(v.len() - 1)
    } else {
        last_key(v.drop_last(), key)
    }
}

proof fn lemma_last_key_pairs<K, V>(v: Seq<(K, Vec<V>)>, key: K)
    ensures
        last_key(pairs_view(v), key) == last_key(v, key),
    decreases v.len(),
{
    if v.len() > 0 {
        assert(pairs_view(v).drop_last() =~= pairs_view(v.drop_last()));
        lemma_last_key_pairs(v.drop_last(), key);
    }
}

proof fn lemma_last_key_bound<K, V>(v: Seq<(K, V)>, key: K)
    ensures
        last_key(v, key) matches Some(i) ==> 0 <= i < v.len() && v[i].0 == key,
    decreases v.len(),
{
    if v.len() > 0 && v.last().0 != key {
        lemma_last_key_bound(v.drop_last(), key);
    }
}

fn find_last<K: HeaderKey, V>(v: &Vec<(K, V)>, key: K) -> (r: Option<usize>)
    ensures
        match r {
            Some(i) => last_key(v@, key) == Some(i as int) && i < v@.len(),
            None => last_key(v@, key) is None,
        },
{
    let mut i: usize = v.len();
    assert(v@.take(v@.len() as int) =~= v@);
    while i > 0
        invariant
            i <= v@.len(),
            last_key(v@, key) == last_key(v@.take(i as int), key),
        decreases i,
    {
        assert(v@.take(i as int).drop_last() =~= v@.take(i - 1));
        if v[i - 1].0.same(&key) {
            return Some(i - 1);
        }
        i -= 1;
    }
    assert(v@.take(0) =~= seq![]);
    None
}

/// The visibility of the last entry for flag or tag `index` and `typ`,
/// else `Hidden`.
pub open spec fn spec_editor_visibility<T>(entries: Seq<(usize, T, TagEditorVisibility)>, index: usize, typ: T) -> TagEditorVisibility
    decreases entries.len(),
{
    if entries.len() == 0 {
        TagEditorVisibility::Hidden
    } else if entries.last().0 == index && entries.last().1 == typ {
        entries.last().2
    } else {
        spec_editor_visibility(entries.drop_last(), index, typ)
    }
}

fn editor_visibility<T: HeaderKey>(entries: &Vec<(usize, T, TagEditorVisibility)>, index: usize, typ: T) -> (r: TagEditorVisibility)
    ensures
        r == spec_editor_visibility(entries@, index, typ),
{
    let mut i: usize = entries.len();
    assert(entries@.take(entries@.len() as int) =~= entries@);
    while i > 0
        invariant
            i <= entries@.len(),
            spec_editor_visibility(entries@, index, typ) == spec_editor_visibility(entries@.take(i as int), index, typ),
        decreases i,
    {
        assert(entries@.take(i as int).drop_last() =~= entries@.take(i - 1));
        if entries[i - 1].0 == index && entries[i - 1].1.same(&typ) {
            return entries[i - 1].2;
        }
        i -= 1;
    }
    assert(entries@.take(0) =~= seq![]);
    TagEditorVisibility::Hidden
}

fn find_by_name<T: Named>(v: &Vec<T>, name: &str) -> (r: Option<usize>)
    ensures
        match r {
            Some(i) => first_named(view_names::<T>(lines_view::<T>(v@)), name@) == Some(i as int),
            None => first_named(view_names::<T>(lines_view::<T>(v@)), name@) is None,
        },
{
    let names = names_of(v);
    position_of_string(&names, name)
}

impl Config {
    pub fn get_name(&self) -> (r: &str)
        ensures
            r@ == self@.name,
    {
        self.name.as_str()
    }

    pub fn max_player_count(&self) -> (r: i8)
        ensures
            r == 16,
    {
        16
    }

    pub fn owner_colors(&self) -> (r: &Vec<[u8; 4]>)
        ensures
            r@ == self@.owner_colors,
    {
        &self.owner_colors
    }

    pub fn flag_count(&self) -> (r: usize)
        ensures
            r == self@.flags.len(),
    {
        self.flags.len()
    }

    pub fn flag_name(&self, index: usize) -> (r: &str)
        requires
            index < self@.flags.len(),
        ensures
            r@ == self@.flags[index as int].name,
    {
        self.flags[index].name.as_str()
    }

    pub fn flag_visibility(&self, index: usize) -> (r: UnitVisibility)
        requires
            index < self@.flags.len(),
        ensures
            r == self@.flags[index as int].visibility,
    {
        self.flags[index].visibility
    }

    /// The first flag of this name.
    pub fn flag_by_name(&self, name: &str) -> (r: Option<usize>)
        ensures
            match r {
                Some(i) => first_named(view_names::<TagConfig>(self@.flags), name@) == Some(i as int),
                None => first_named(view_names::<TagConfig>(self@.flags), name@) is None,
            },
    {
        find_by_name(&self.flags, name)
    }

    pub fn tag_count(&self) -> (r: usize)
        ensures
            r == self@.tags.len(),
    {
        self.tags.len()
    }

    pub fn tag_name(&self, index: usize) -> (r: &str)
        requires
            index < self@.tags.len(),
        ensures
            r@ == self@.tags[index as int].name,
    {
        self.tags[index].name.as_str()
    }

    pub fn tag_visibility(&self, index: usize) -> (r: UnitVisibility)
        requires
            index < self@.tags.len(),
        ensures
            r == self@.tags[index as int].visibility,
    {
        self.tags[index].visibility
    }

    /// The first tag of this name.
    pub fn tag_by_name(&self, name: &str) -> (r: Option<usize>)
        ensures
            match r {
                Some(i) => first_named(view_names::<TagConfig>(self@.tags), name@) == Some(i as int),
                None => first_named(view_names::<TagConfig>(self@.tags), name@) is None,
            },
    {
        find_by_name(&self.tags, name)
    }

    pub fn is_terrain_flag_normal(&self, typ: TerrainType, flag: usize) -> (r: TagEditorVisibility)
        ensures
            r == spec_editor_visibility(self@.terrain_flags, flag, typ),
    {
        editor_visibility(&self.terrain_flags, flag, typ)
    }

    pub fn is_terrain_tag_normal(&self, typ: TerrainType, tag: usize) -> (r: TagEditorVisibility)
        ensures
            r == spec_editor_visibility(self@.terrain_tags, tag, typ),
    {
        editor_visibility(&self.terrain_tags, tag, typ)
    }

    pub fn is_token_flag_normal(&self, typ: TokenType, flag: usize) -> (r: TagEditorVisibility)
        ensures
            r == spec_editor_visibility(self@.token_flags, flag, typ),
    {
        editor_visibility(&self.token_flags, flag, typ)
    }

    pub fn is_token_tag_normal(&self, typ: TokenType, tag: usize) -> (r: TagEditorVisibility)
        ensures
            r == spec_editor_visibility(self@.token_tags, tag, typ),
    {
        editor_visibility(&self.token_tags, tag, typ)
    }

    pub fn is_unit_flag_normal(&self, typ: UnitType, flag: usize) -> (r: TagEditorVisibility)
        ensures
            r == spec_editor_visibility(self@.unit_flags, flag, typ),
    {
        editor_visibility(&self.unit_flags, flag, typ)
    }

    pub fn is_unit_tag_normal(&self, typ: UnitType, tag: usize) -> (r: TagEditorVisibility)
        ensures
            r == spec_editor_visibility(self@.unit_tags, tag, typ),
    {
        editor_visibility(&self.unit_tags, tag, typ)
    }

    pub fn unit_count(&self) -> (r: usize)
        ensures
            r == self@.units.len(),
    {
        self.units.len()
    }

    /// Every unit type, in the order of the unit table.
    pub fn unit_types(&self) -> (r: Vec<UnitType>)
        ensures
            r@.len() == self@.units.len(),
            forall|i: int| 0 <= i < r@.len() ==> #[trigger] r@[i] == UnitType(i as usize),
    {
        let mut r: Vec<UnitType> = Vec::new();
        let mut i: usize = 0;
        while i < self.units.len()
            invariant
                i <= self.units@.len(),
                self@.units.len() == self.units@.len(),
                r@.len() == i,
                forall|j: int| 0 <= j < i ==> #[trigger] r@[j] == UnitType(j as usize),
            decreases self.units.len() - i,
        {
            r.push(UnitType(i));
            i += 1;
        }
        r
    }

    pub fn unknown_unit(&self) -> (r: UnitType)
        ensures
            r == self@.unknown_unit,
    {
        self.unknown_unit
    }

    pub fn max_transported(&self) -> (r: usize)
        ensures
            r == self@.max_transported,
    {
        self.max_transported
    }

    pub fn unit_name(&self, typ: UnitType) -> (r: &str)
        requires
            typ.0 < self@.units.len(),
        ensures
            r@ == self@.units[typ.0 as int].name,
    {
        self.units[typ.0].name.as_str()
    }

    /// The first unit type of this name.
    pub fn find_unit_by_name(&self, name: &str) -> (r: Option<UnitType>)
        ensures
            match first_named(view_names::<UnitTypeConfig>(self@.units), name@) {
                Some(i) => r == Some(UnitType(i as usize)),
                None => r is None,
            },
    {
        match find_by_name(&self.units, name) {
            Some(i) => Some(UnitType(i)),
            None => None,
        }
    }

    pub fn unit_ownership(&self, typ: UnitType) -> (r: OwnershipPredicate)
        requires
            typ.0 < self@.units.len(),
        ensures
            r == self@.units[typ.0 as int].owned,
    {
        self.units[typ.0].owned
    }

    pub fn movement_pattern(&self, typ: UnitType) -> (r: MovementPattern)
        requires
            typ.0 < self@.units.len(),
        ensures
            r == self@.units[typ.0 as int].movement_pattern,
    {
        self.units[typ.0].movement_pattern
    }

    pub fn base_movement_type(&self, typ: UnitType) -> (r: MovementType)
        requires
            typ.0 < self@.units.len(),
        ensures
            r == self@.units[typ.0 as int].movement_type,
    {
        self.units[typ.0].movement_type
    }

    pub fn base_movement_points(&self, typ: UnitType) -> (r: Fraction)
        requires
            typ.0 < self@.units.len(),
        ensures
            r == self@.units[typ.0 as int].movement_points,
    {
        self.units[typ.0].movement_points
    }

    pub fn can_be_moved_through(&self, typ: UnitType) -> (r: bool)
        requires
            typ.0 < self@.units.len(),
        ensures
            r == self@.units[typ.0 as int].can_be_moved_through,
    {
        self.units[typ.0].can_be_moved_through
    }

    pub fn can_be_taken(&self, typ: UnitType) -> (r: bool)
        requires
            typ.0 < self@.units.len(),
        ensures
            r == self@.units[typ.0 as int].can_be_taken,
    {
        self.units[typ.0].can_be_taken
    }

    pub fn can_attack_after_moving(&self, typ: UnitType) -> (r: bool)
        requires
            typ.0 < self@.units.len(),
        ensures
            r == self@.units[typ.0 as int].can_attack_after_moving,
    {
        self.units[typ.0].can_attack_after_moving
    }

    pub fn can_be_displaced(&self, typ: UnitType) -> (r: bool)
        requires
            typ.0 < self@.units.len(),
        ensures
            r == self@.units[typ.0 as int].can_be_displaced,
    {
        self.units[typ.0].can_be_displaced
    }

    pub fn vision_mode(&self, typ: UnitType) -> (r: VisionMode)
        requires
            typ.0 < self@.units.len(),
        ensures
            r == self@.units[typ.0 as int].vision_mode,
    {
        self.units[typ.0].vision_mode
    }

    pub fn base_vision_range(&self, typ: UnitType) -> (r: usize)
        requires
            typ.0 < self@.units.len(),
        ensures
            r == self@.units[typ.0 as int].vision,
    {
        self.units[typ.0].vision
    }

    pub fn base_true_vision_range(&self, typ: UnitType) -> (r: usize)
        requires
            typ.0 < self@.units.len(),
        ensures
            r == self@.units[typ.0 as int].true_vision,
    {
        self.units[typ.0].true_vision
    }

    /// Whether the damage table has a line for this unit type.
    pub fn can_attack(&self, typ: UnitType) -> (r: bool)
        ensures
            r == (last_key(self@.attack_damage, typ) is Some),
    {
        proof { lemma_last_key_pairs(self.attack_damage@, typ); }
        find_last(&self.attack_damage, typ).is_some()
    }

    /// The damage the damage table gives for `attacker` against
    /// `defender`: the last line of the attacker, then its cell for the
    /// defender, if there is one.
    pub fn base_damage(&self, attacker: UnitType, defender: UnitType) -> (r: Option<u16>)
        ensures
            match last_key(self@.attack_damage, attacker) {
                None => r is None,
                Some(i) => match first_key(self@.attack_damage[i].1, defender) {
                    None => r is None,
                    Some(j) => r == Some(self@.attack_damage[i].1[j].1),
                },
            },
    {
        proof { lemma_last_key_pairs(self.attack_damage@, attacker); }
        match find_last(&self.attack_damage, attacker) {
            None => None,
            Some(i) => {
                let cells = &self.attack_damage[i].1;
                match find_first(cells, defender) {
                    None => None,
                    Some(j) => Some(cells[j].1),
                }
            },
        }
    }

    /// The unit types that the last line of the transport table for `typ`
    /// names, else none.
    pub fn unit_transportable(&self, typ: UnitType) -> (r: Vec<UnitType>)
        ensures
            match last_key(self@.unit_transports, typ) {
                None => r@ == Seq::<UnitType>::empty(),
                Some(i) => r@ == self@.unit_transports[i].1,
            },
    {
        proof { lemma_last_key_pairs(self.unit_transports@, typ); }
        match find_last(&self.unit_transports, typ) {
            None => Vec::new(),
            Some(i) => self.unit_transports[i].1.clone(),
        }
    }

    pub fn custom_actions(&self) -> (r: &Vec<CustomActionConfig>)
        ensures
            lines_view::<CustomActionConfig>(r@) == self@.custom_actions,
    {
        &self.custom_actions
    }

    pub fn hero_count(&self) -> (r: usize)
        ensures
            r == self@.heroes.len(),
    {
        self.heroes.len()
    }

    pub fn hero_name(&self, typ: HeroType) -> (r: &str)
        requires
            typ.0 < self@.heroes.len(),
        ensures
            r@ == self@.heroes[typ.0 as int].name,
    {
        self.heroes[typ.0].name.as_str()
    }

    /// The first hero type of this name.
    pub fn find_hero_by_name(&self, name: &str) -> (r: Option<HeroType>)
        ensures
            match first_named(view_names::<HeroTypeConfig>(self@.heroes), name@) {
                Some(i) => r == Some(HeroType(i as usize)),
                None => r is None,
            },
    {
        match find_by_name(&self.heroes, name) {
            Some(i) => Some(HeroType(i)),
            None => None,
        }
    }

    pub fn max_hero_charge(&self) -> (r: u8)
        ensures
            r == self@.max_hero_charge,
    {
        self.max_hero_charge
    }

    pub fn hero_charge(&self, typ: HeroType) -> (r: u32)
        requires
            typ.0 < self@.heroes.len(),
        ensures
            r == self@.heroes[typ.0 as int].max_charge,
    {
        self.heroes[typ.0].max_charge
    }

    pub fn hero_transport_capacity(&self, typ: HeroType) -> (r: u8)
        requires
            typ.0 < self@.heroes.len(),
        ensures
            r == self@.heroes[typ.0 as int].transport_capacity,
    {
        self.heroes[typ.0].transport_capacity
    }

    /// The powers of a hero type; none for an unknown one.
    pub fn hero_powers(&self, typ: HeroType) -> (r: &[HeroPowerConfig])
        ensures
            if typ.0 < self@.heroes.len() {
                r@.map_values(|p: HeroPowerConfig| p@) == self@.heroes[typ.0 as int].powers
            } else {
                r@.len() == 0
            },
    {
        if typ.0 < self.heroes.len() {
            self.heroes[typ.0].powers.as_slice()
        } else {
            &[]
        }
    }

    /// Whether a hero gains charge while this power of it is active: a
    /// power that doesn't prevent it; false for an unknown power.
    pub fn hero_can_gain_charge(&self, typ: HeroType, power: usize) -> (r: bool)
        ensures
            r == (typ.0 < self@.heroes.len() && power < self@.heroes[typ.0 as int].powers.len()
                && !self@.heroes[typ.0 as int].powers[power as int].prevents_charging),
    {
        if typ.0 < self.heroes.len() && power < self.heroes[typ.0].powers.len() {
            !self.heroes[typ.0].powers[power].prevents_charging
        } else {
            false
        }
    }

    pub fn terrain_count(&self) -> (r: usize)
        ensures
            r == self@.terrains.len(),
    {
        self.terrains.len()
    }

    pub fn default_terrain(&self) -> (r: TerrainType)
        ensures
            r == self@.default_terrain,
    {
        self.default_terrain
    }

    pub fn terrain_name(&self, typ: TerrainType) -> (r: &str)
        requires
            typ.0 < self@.terrains.len(),
        ensures
            r@ == self@.terrains[typ.0 as int].name,
    {
        self.terrains[typ.0].name.as_str()
    }

    /// The first terrain type of this name.
    pub fn find_terrain_by_name(&self, name: &str) -> (r: Option<TerrainType>)
        ensures
            match first_named(view_names::<TerrainTypeConfig>(self@.terrains), name@) {
                Some(i) => r == Some(TerrainType(i as usize)),
                None => r is None,
            },
    {
        match find_by_name(&self.terrains, name) {
            Some(i) => Some(TerrainType(i)),
            None => None,
        }
    }

    pub fn terrain_ownership(&self, typ: TerrainType) -> (r: OwnershipPredicate)
        requires
            typ.0 < self@.terrains.len(),
        ensures
            r == self@.terrains[typ.0 as int].owned,
    {
        self.terrains[typ.0].owned
    }

    pub fn terrain_owner_is_playable(&self, typ: TerrainType) -> (r: bool)
        requires
            typ.0 < self@.terrains.len(),
        ensures
            r == self@.terrains[typ.0 as int].owner_is_playable,
    {
        self.terrains[typ.0].owner_is_playable
    }

    pub fn terrain_chess(&self, typ: TerrainType) -> (r: bool)
        requires
            typ.0 < self@.terrains.len(),
        ensures
            r == self@.terrains[typ.0 as int].chess,
    {
        self.terrains[typ.0].chess
    }

    pub fn terrain_path_extra(&self, typ: TerrainType) -> (r: ExtraMovementOptions)
        requires
            typ.0 < self@.terrains.len(),
        ensures
            r == self@.terrains[typ.0 as int].extra_movement_options,
    {
        self.terrains[typ.0].extra_movement_options
    }

    /// The vision range of a terrain type; none where it is negative.
    pub fn terrain_vision_range_base(&self, typ: TerrainType) -> (r: Option<usize>)
        requires
            typ.0 < self@.terrains.len(),
        ensures
            if self@.terrains[typ.0 as int].vision_range < 0 {
                r is None
            } else {
                r == Some(self@.terrains[typ.0 as int].vision_range as usize)
            },
    {
        let range = self.terrains[typ.0].vision_range;
        if range < 0 {
            None
        } else {
            Some(range as usize)
        }
    }

    /// What moving onto the terrain costs a movement type: the last line of
    /// the terrain in the movement table, then its cell for the movement
    /// type, if there is one.
    pub fn terrain_movement_cost(&self, typ: TerrainType, movement_type: MovementType) -> (r: Option<Fraction>)
        ensures
            match last_key(self@.movement_cost, typ) {
                None => r is None,
                Some(i) => match first_key(self@.movement_cost[i].1, movement_type) {
                    None => r is None,
                    Some(j) => r == Some(self@.movement_cost[i].1[j].1),
                },
            },
    {
        proof { lemma_last_key_pairs(self.movement_cost@, typ); }
        match find_last(&self.movement_cost, typ) {
            None => None,
            Some(i) => {
                let cells = &self.movement_cost[i].1;
                match find_first(cells, movement_type) {
                    None => None,
                    Some(j) => Some(cells[j].1),
                }
            },
        }
    }

    pub fn token_count(&self) -> (r: usize)
        ensures
            r == self@.tokens.len(),
    {
        self.tokens.len()
    }

    pub fn token_name(&self, typ: TokenType) -> (r: &str)
        requires
            typ.0 < self@.tokens.len(),
        ensures
            r@ == self@.tokens[typ.0 as int].name,
    {
        self.tokens[typ.0].name.as_str()
    }

    /// The first token type of this name.
    pub fn find_token_by_name(&self, name: &str) -> (r: Option<TokenType>)
        ensures
            match first_named(view_names::<TokenTypeConfig>(self@.tokens), name@) {
                Some(i) => r == Some(TokenType(i as usize)),
                None => r is None,
            },
    {
        match find_by_name(&self.tokens, name) {
            Some(i) => Some(TokenType(i)),
            None => None,
        }
    }

    pub fn token_owner_is_playable(&self, typ: TokenType) -> (r: bool)
        requires
            typ.0 < self@.tokens.len(),
        ensures
            r == self@.tokens[typ.0 as int].owner_is_playable,
    {
        self.tokens[typ.0].owner_is_playable
    }

    pub fn token_visibility(&self, typ: TokenType) -> (r: UnitVisibility)
        requires
            typ.0 < self@.tokens.len(),
        ensures
            r == self@.tokens[typ.0 as int].visibility,
    {
        self.tokens[typ.0].visibility
    }

    /// The vision range of a token type; none where it is negative.
    pub fn token_vision_range(&self, typ: TokenType) -> (r: Option<usize>)
        requires
            typ.0 < self@.tokens.len(),
        ensures
            if self@.tokens[typ.0 as int].vision_range < 0 {
                r is None
            } else {
                r == Some(self@.tokens[typ.0 as int].vision_range as usize)
            },
    {
        let range = self.tokens[typ.0].vision_range;
        if range < 0 {
            None
        } else {
            Some(range as usize)
        }
    }

    pub fn token_action_script(&self, typ: TokenType) -> (r: Option<(usize, usize)>)
        requires
            typ.0 < self@.tokens.len(),
        ensures
            r == self@.tokens[typ.0 as int].action_script,
    {
        self.tokens[typ.0].action_script
    }

    pub fn token_on_unit_path(&self, typ: TokenType) -> (r: Option<usize>)
        requires
            typ.0 < self@.tokens.len(),
        ensures
            r == self@.tokens[typ.0 as int].on_unit_path,
    {
        self.tokens[typ.0].on_unit_path
    }

    pub fn effect_count(&self) -> (r: usize)
        ensures
            r == self@.effect_types.len(),
    {
        self.effect_types.len()
    }

    pub fn effect_name(&self, effect: usize) -> (r: &str)
        requires
            effect < self@.effect_types.len(),
        ensures
            r@ == self@.effect_types[effect as int].name,
    {
        self.effect_types[effect].name.as_str()
    }

    /// The first effect of this name, by its position.
    pub fn find_effect_by_name(&self, name: &str) -> (r: Option<usize>)
        ensures
            match first_named(self@.effect_types.map_values(|e: EffectConfigView| e.name), name@) {
                Some(i) => r == Some(i as usize),
                None => r is None,
            },
    {
        let ghost ns = self@.effect_types.map_values(|e: EffectConfigView| e.name);
        let key = str_chars(name);
        let mut i: usize = 0;
        while i < self.effect_types.len()
            invariant
                i <= self.effect_types@.len(),
                ns == self@.effect_types.map_values(|e: EffectConfigView| e.name),
                ns.len() == self.effect_types@.len(),
                key@ == name@,
                first_named(ns, name@) == first_named_from(ns, name@, i as int),
            decreases self.effect_types.len() - i,
        {
            let n = str_chars(self.effect_types[i].name.as_str());
            assert(ns[i as int] == n@);
            if text_eq(n.as_slice(), key.as_slice()) {
                return Some(i);
            }
            i += 1;
        }
        None
    }

    pub fn effect_is_global(&self, effect: usize) -> (r: bool)
        requires
            effect < self@.effect_types.len(),
        ensures
            r == self@.effect_types[effect as int].is_global,
    {
        self.effect_types[effect].is_global
    }

    pub fn effect_data(&self, effect: usize) -> (r: Option<EffectDataType>)
        requires
            effect < self@.effect_types.len(),
        ensures
            r == self@.effect_types[effect as int].data_type,
    {
        self.effect_types[effect].data_type
    }

    pub fn effect_visibility(&self, effect: usize) -> (r: EffectVisibility)
        requires
            effect < self@.effect_types.len(),
        ensures
            r == self@.effect_types[effect as int].visibility,
    {
        self.effect_types[effect].visibility
    }

    pub fn movement_type_count(&self) -> (r: usize)
        ensures
            r == self@.movement_types.len(),
    {
        self.movement_types.len()
    }

    pub fn movement_type_name(&self, typ: MovementType) -> (r: &str)
        requires
            typ.0 < self@.movement_types.len(),
        ensures
            r@ == self@.movement_types[typ.0 as int].name,
    {
        self.movement_types[typ.0].name.as_str()
    }

    /// The first movement type of this name.
    pub fn find_movement_by_name(&self, name: &str) -> (r: Option<MovementType>)
        ensures
            match first_named(view_names::<MovementTypeConfig>(self@.movement_types), name@) {
                Some(i) => r == Some(MovementType(i as usize)),
                None => r is None,
            },
    {
        match find_by_name(&self.movement_types, name) {
            Some(i) => Some(MovementType(i)),
            None => None,
        }
    }

    /// The movement types that a unit of the movement type can take on.
    pub fn sub_movement_types(&self, typ: MovementType) -> (r: &[MovementType])
        requires
            typ.0 < self@.movement_types.len(),
        ensures
            r@ == self@.movement_types[typ.0 as int].sub_types,
    {
        self.movement_types[typ.0].sub_types.as_slice()
    }

    /// The movement type that a unit of the movement type `base`, moving as
    /// `sub`, takes on `terrain`: what the table of `base` says (see
    /// `spec_transformed`), else `sub` itself.
    pub fn transform_sub_movement_type(&self, base: MovementType, sub: MovementType, terrain: TerrainType) -> (r: MovementType)
        ensures
            r == match first_key(self@.movement_type_transformer, base) {
                None => sub,
                Some(i) => match spec_transformed(self@.movement_type_transformer[i].1, terrain, sub) {
                    Some(t) => t,
                    None => sub,
                },
            },
    {
        proof { lemma_first_key_transformer(self.movement_type_transformer@, base); }
        let i = match find_first(&self.movement_type_transformer, base) {
            None => return sub,
            Some(i) => i,
        };
        let rows = &self.movement_type_transformer[i].1;
        let ghost view = pairs_view(rows@);
        assert(view == self@.movement_type_transformer[i as int].1);
        let mut j: usize = rows.len();
        assert(view.take(view.len() as int) =~= view);
        while j > 0
            invariant
                j <= rows@.len(),
                view == pairs_view(rows@),
                i < self@.movement_type_transformer.len(),
                first_key(self@.movement_type_transformer, base) == Some(i as int),
                view == self@.movement_type_transformer[i as int].1,
                spec_transformed(view, terrain, sub) == spec_transformed(view.take(j as int), terrain, sub),
            decreases j,
        {
            assert(view.take(j as int).drop_last() =~= view.take(j - 1));
            assert(view.take(j as int).last() == (rows@[j - 1].0, rows@[j - 1].1@));
            let row = &rows[j - 1];
            if row.0.same(&terrain) {
                match find_first(&row.1, sub) {
                    Some(c) => {
                        if !row.1[c].1.same(&sub) {
                            assert(view.take(j as int).last().1 == row.1@);
                            assert(spec_transformed(view.take(j as int), terrain, sub) == Some(row.1@[c as int].1));
                            return row.1[c].1;
                        }
                    },
                    None => {},
                }
            }
            j -= 1;
        }
        sub
    }

    pub fn commander_count(&self) -> (r: usize)
        ensures
            r == self@.commanders.len(),
    {
        self.commanders.len()
    }

    pub fn commander_name(&self, typ: usize) -> (r: &str)
        requires
            typ < self@.commanders.len(),
        ensures
            r@ == self@.commanders[typ as int].name,
    {
        self.commanders[typ].name.as_str()
    }

    pub fn max_commander_charge(&self) -> (r: u32)
        ensures
            r == self@.max_commander_charge,
    {
        self.max_commander_charge
    }

    pub fn commander_max_charge(&self, typ: usize) -> (r: u32)
        requires
            typ < self@.commanders.len(),
        ensures
            r == self@.commanders[typ as int].max_charge,
    {
        self.commanders[typ].max_charge
    }

    /// The powers of a commander type; none for an unknown one.
    pub fn commander_powers(&self, typ: CommanderType) -> (r: &[CommanderPowerConfig])
        ensures
            if typ.0 < self@.commanders.len() {
                r@.map_values(|p: CommanderPowerConfig| p@) == self@.commanders[typ.0 as int].powers
            } else {
                r@.len() == 0
            },
    {
        if typ.0 < self.commanders.len() {
            self.commanders[typ.0].powers.as_slice()
        } else {
            &[]
        }
    }

    /// Whether a commander gains charge while this power of it is active: a
    /// power that doesn't prevent it; false for an unknown power.
    pub fn commander_can_gain_charge(&self, typ: CommanderType, power: usize) -> (r: bool)
        ensures
            r == (typ.0 < self@.commanders.len() && power < self@.commanders[typ.0 as int].powers.len()
                && !self@.commanders[typ.0 as int].powers[power as int].prevents_charging),
    {
        if typ.0 < self.commanders.len() && power < self.commanders[typ.0].powers.len() {
            !self.commanders[typ.0].powers[power].prevents_charging
        } else {
            false
        }
    }

    /// What a commander of this type needs to know of its powers, in order:
    /// the charge each needs, the power it switches to and the powers it
    /// can be used from; none for an unknown type.
    pub fn commander_power_rules(&self, typ: CommanderType) -> (r: Vec<CommanderPowerRule>)
        ensures
            typ.0 < self@.commanders.len() ==> r@.len() == self@.commanders[typ.0 as int].powers.len(),
            typ.0 >= self@.commanders.len() ==> r@.len() == 0,
            forall|i: int| 0 <= i < r@.len() ==> {
                let p = #[trigger] self@.commanders[typ.0 as int].powers[i];
                &&& r@[i].required_charge == p.required_charge
                &&& r@[i].next_power == p.next_power
                &&& r@[i].usable_from_power@ == p.usable_from_power
            },
    {
        let mut r: Vec<CommanderPowerRule> = Vec::new();
        if typ.0 >= self.commanders.len() {
            return r;
        }
        let powers = &self.commanders[typ.0].powers;
        let ghost pv = self@.commanders[typ.0 as int].powers;
        assert(pv == powers@.map_values(|p: CommanderPowerConfig| p@));
        let mut i: usize = 0;
        while i < powers.len()
            invariant
                i <= powers@.len(),
                typ.0 < self@.commanders.len(),
                pv == self@.commanders[typ.0 as int].powers,
                pv == powers@.map_values(|p: CommanderPowerConfig| p@),
                r@.len() == i,
                forall|k: int| 0 <= k < i ==> {
                    let p = #[trigger] pv[k];
                    &&& r@[k].required_charge == p.required_charge
                    &&& r@[k].next_power == p.next_power
                    &&& r@[k].usable_from_power@ == p.usable_from_power
                },
            decreases powers.len() - i,
        {
            let p = &powers[i];
            assert(pv[i as int] == p@);
            let usable = p.usable_from_power.clone();
            r.push(CommanderPowerRule { required_charge: p.required_charge, next_power: p.next_power, usable_from_power: usable });
            i += 1;
        }
        r
    }

    /// The custom tables, by name.
    pub fn custom_tables(&self) -> (r: &Vec<(String, CustomTable)>)
        ensures
            custom_tables_view(r@) == self@.custom_tables,
    {
        &self.custom_tables
    }
}

/// Position of the first entry whose key is `key`.
pub open spec fn first_key<K, V>(v: Seq<(K, V)>, key: K) -> Option<int>
    decreases v.len(),
{
    if v.len() == 0 {
        None
    } else {
        match first_key(v.drop_last(), key) {
            Some(i) => Some(i),
            None => if v.last().0 == key { Some(v.len() - 1) } else { None },
        }
    }
}

fn find_first<K: HeaderKey, V>(v: &Vec<(K, V)>, key: K) -> (r: Option<usize>)
    ensures
        match r {
            Some(i) => first_key(v@, key) == Some(i as int) && i < v@.len(),
            None => first_key(v@, key) is None,
        },
{
    let mut i: usize = 0;
    while i < v.len()
        invariant
            i <= v@.len(),
            first_key(v@.take(i as int), key) is None,
        decreases v.len() - i,
    {
        assert(v@.take(i + 1).drop_last() =~= v@.take(i as int));
        if v[i].0.same(&key) {
            proof { lemma_first_key_prefix(v@, key, i + 1); }
            return Some(i);
        }
        i += 1;
    }
    assert(v@.take(v@.len() as int) =~= v@);
    None
}

proof fn lemma_first_key_prefix<K, V>(v: Seq<(K, V)>, key: K, k: int)
    requires
        0 <= k <= v.len(),
        first_key(v.take(k), key) is Some,
    ensures
        first_key(v, key) == first_key(v.take(k), key),
    decreases v.len() - k,
{
    if k < v.len() {
        assert(v.take(k + 1).drop_last() =~= v.take(k));
        lemma_first_key_prefix(v, key, k + 1);
    } else {
        assert(v.take(k) =~= v);
    }
}

} // verus!
