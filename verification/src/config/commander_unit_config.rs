use vstd::prelude::*;

use crate::attack_pattern::{spec_attack_pattern_from_conf, AllowedAttackInputDirectionSource, AttackPattern, AttackPatternView};
use crate::combat::{spec_valid_targets_from_conf, AttackType, ValidAttackTargets};
use crate::config::file_loader::{FileLoader, LoaderNames};
use crate::config::listing::{listed_from_conf, spec_listed_from_conf, Listable};
use crate::config::number_modification::{custom_mods, mod_cell, named_mod, named_mods_view, spec_custom_mods, spec_mod_cell, spec_named_mod, NumberMod};
use crate::config::parse::FromConfig;
use crate::config::table::{
    cell, parse_optional, parse_optional_bool, script_cell, spec_optional_bool_cell, spec_optional_cell, spec_script_cell, TableHeader,
    TableLine, TableRow,
};
use crate::config::unit_filter::{filters_view, spec_filter_list, UnitFilter, UnitFilterView};
use crate::config::{ConfigError, ConfigParseError};
use crate::fraction::Fraction;
use crate::units::UnitVisibility;

verus! {

/// How units change where the filters hold, e.g. while a commander's or a
/// hero's power is active.
#[derive(Debug)]
pub struct CommanderPowerUnitConfig {
    /// the filters of the `Power` column followed by those of `Affects`
    pub affects: Vec<UnitFilter>,
    pub visibility: Option<UnitVisibility>,
    pub movement_points: NumberMod<Fraction>,
    pub vision: NumberMod<u8>,
    pub true_vision: NumberMod<u8>,
    pub pass_enemy_units: Option<bool>,
    pub attack_pattern: Option<AttackPattern>,
    pub attack_type: Option<AttackType>,
    pub attack_targets: Option<ValidAttackTargets>,
    pub attack_direction: Option<AllowedAttackInputDirectionSource>,
    pub can_be_displaced: Option<bool>,
    pub on_death: Option<usize>,
    pub on_normal_action: Option<usize>,
    pub aura_range: NumberMod<i32>,
    /// changes of the values in the table's own columns, by column name
    pub custom_columns: Vec<(String, NumberMod<Fraction>)>,
}

pub struct CommanderPowerUnitConfigView {
    pub affects: Seq<UnitFilterView>,
    pub visibility: Option<UnitVisibility>,
    pub movement_points: NumberMod<Fraction>,
    pub vision: NumberMod<u8>,
    pub true_vision: NumberMod<u8>,
    pub pass_enemy_units: Option<bool>,
    pub attack_pattern: Option<AttackPatternView>,
    pub attack_type: Option<AttackType>,
    pub attack_targets: Option<ValidAttackTargets>,
    pub attack_direction: Option<AllowedAttackInputDirectionSource>,
    pub can_be_displaced: Option<bool>,
    pub on_death: Option<usize>,
    pub on_normal_action: Option<usize>,
    pub aura_range: NumberMod<i32>,
    pub custom_columns: Seq<(Seq<char>, NumberMod<Fraction>)>,
}

pub open spec fn optional_pattern_view(p: Option<AttackPattern>) -> Option<AttackPatternView> {
    match p {
        Some(p) => Some(p@),
        None => None,
    }
}

impl View for CommanderPowerUnitConfig {
    type V = CommanderPowerUnitConfigView;

    open spec fn view(&self) -> CommanderPowerUnitConfigView {
        CommanderPowerUnitConfigView {
            affects: filters_view(self.affects@),
            visibility: self.visibility,
            movement_points: self.movement_points,
            vision: self.vision,
            true_vision: self.true_vision,
            pass_enemy_units: self.pass_enemy_units,
            attack_pattern: optional_pattern_view(self.attack_pattern),
            attack_type: self.attack_type,
            attack_targets: self.attack_targets,
            attack_direction: self.attack_direction,
            can_be_displaced: self.can_be_displaced,
            on_death: self.on_death,
            on_normal_action: self.on_normal_action,
            aura_range: self.aura_range,
            custom_columns: named_mods_view(self.custom_columns@),
        }
    }
}

/// The columns of the table of powered units; other header names are
/// columns of the table's own.
#[derive(Debug, Clone, Copy, PartialEq, Eq, Structural, Hash)]
pub enum CommanderPowerUnitConfigHeader {
    Power,
    Affects,
    Visibility,
    MovementPoints,
    Vision,
    TrueVision,
    PassEnemyUnits,
    CanBeMovedThrough,
    CanTake,
    CanBeTaken,
    Weapon,
    CanAttackAfterMoving,
    AttackPattern,
    AttackType,
    Targeting,
    AttackDirection,
    CanBuildUnits,
    CanBeDisplaced,
    TransportCapacity,
    OnDeath,
    OnNormalAction,
    AuraRange,
}

impl Listable for CommanderPowerUnitConfigHeader {
    open spec fn spec_list() -> Seq<Self> {
        seq![
            Self::Power,
            Self::Affects,
            Self::Visibility,
            Self::MovementPoints,
            Self::Vision,
            Self::TrueVision,
            Self::PassEnemyUnits,
            Self::CanBeMovedThrough,
            Self::CanTake,
            Self::CanBeTaken,
            Self::Weapon,
            Self::CanAttackAfterMoving,
            Self::AttackPattern,
            Self::AttackType,
            Self::Targeting,
            Self::AttackDirection,
            Self::CanBuildUnits,
            Self::CanBeDisplaced,
            Self::TransportCapacity,
            Self::OnDeath,
            Self::OnNormalAction,
            Self::AuraRange,
        ]
    }

    open spec fn spec_name(self) -> Seq<char> {
        match self {
            Self::Power => "Power"@,
            Self::Affects => "Affects"@,
            Self::Visibility => "Visibility"@,
            Self::MovementPoints => "MovementPoints"@,
            Self::Vision => "Vision"@,
            Self::TrueVision => "TrueVision"@,
            Self::PassEnemyUnits => "PassEnemyUnits"@,
            Self::CanBeMovedThrough => "CanBeMovedThrough"@,
            Self::CanTake => "CanTake"@,
            Self::CanBeTaken => "CanBeTaken"@,
            Self::Weapon => "Weapon"@,
            Self::CanAttackAfterMoving => "CanAttackAfterMoving"@,
            Self::AttackPattern => "AttackPattern"@,
            Self::AttackType => "AttackType"@,
            Self::Targeting => "Targeting"@,
            Self::AttackDirection => "AttackDirection"@,
            Self::CanBuildUnits => "CanBuildUnits"@,
            Self::CanBeDisplaced => "CanBeDisplaced"@,
            Self::TransportCapacity => "TransportCapacity"@,
            Self::OnDeath => "OnDeath"@,
            Self::OnNormalAction => "OnNormalAction"@,
            Self::AuraRange => "AuraRange"@,
        }
    }

    open spec fn spec_kind_name() -> Seq<char> {
        "CommanderPowerUnitConfigHeader"@
    }

    fn list() -> (r: Vec<Self>) {
        vec![
            Self::Power,
            Self::Affects,
            Self::Visibility,
            Self::MovementPoints,
            Self::Vision,
            Self::TrueVision,
            Self::PassEnemyUnits,
            Self::CanBeMovedThrough,
            Self::CanTake,
            Self::CanBeTaken,
            Self::Weapon,
            Self::CanAttackAfterMoving,
            Self::AttackPattern,
            Self::AttackType,
            Self::Targeting,
            Self::AttackDirection,
            Self::CanBuildUnits,
            Self::CanBeDisplaced,
            Self::TransportCapacity,
            Self::OnDeath,
            Self::OnNormalAction,
            Self::AuraRange,
        ]
    }

    fn name(&self) -> (r: &'static str) {
        match self {
            Self::Power => "Power",
            Self::Affects => "Affects",
            Self::Visibility => "Visibility",
            Self::MovementPoints => "MovementPoints",
            Self::Vision => "Vision",
            Self::TrueVision => "TrueVision",
            Self::PassEnemyUnits => "PassEnemyUnits",
            Self::CanBeMovedThrough => "CanBeMovedThrough",
            Self::CanTake => "CanTake",
            Self::CanBeTaken => "CanBeTaken",
            Self::Weapon => "Weapon",
            Self::CanAttackAfterMoving => "CanAttackAfterMoving",
            Self::AttackPattern => "AttackPattern",
            Self::AttackType => "AttackType",
            Self::Targeting => "Targeting",
            Self::AttackDirection => "AttackDirection",
            Self::CanBuildUnits => "CanBuildUnits",
            Self::CanBeDisplaced => "CanBeDisplaced",
            Self::TransportCapacity => "TransportCapacity",
            Self::OnDeath => "OnDeath",
            Self::OnNormalAction => "OnNormalAction",
            Self::AuraRange => "AuraRange",
        }
    }

    fn kind_name() -> (r: &'static str) {
        "CommanderPowerUnitConfigHeader"
    }
}

impl FromConfig for CommanderPowerUnitConfigHeader {
    open spec fn spec_from_conf(s: Seq<char>, names: LoaderNames) -> Result<(Self, Seq<char>), ConfigError> {
        spec_listed_from_conf::<Self>(s)
    }

    fn from_conf<'a>(s: &'a [char], loader: &FileLoader) -> (r: Result<(Self, &'a [char]), ConfigParseError>) {
        listed_from_conf(s)
    }
}

impl TableHeader for CommanderPowerUnitConfigHeader {
    open spec fn spec_takes_custom() -> bool {
        true
    }

    fn takes_custom() -> (b: bool) {
        true
    }

    open spec fn spec_column(self) -> nat {
        match self {
            Self::Power => 0,
            Self::Affects => 1,
            Self::Visibility => 2,
            Self::MovementPoints => 3,
            Self::Vision => 4,
            Self::TrueVision => 5,
            Self::PassEnemyUnits => 6,
            Self::CanBeMovedThrough => 7,
            Self::CanTake => 8,
            Self::CanBeTaken => 9,
            Self::Weapon => 10,
            Self::CanAttackAfterMoving => 11,
            Self::AttackPattern => 12,
            Self::AttackType => 13,
            Self::Targeting => 14,
            Self::AttackDirection => 15,
            Self::CanBuildUnits => 16,
            Self::CanBeDisplaced => 17,
            Self::TransportCapacity => 18,
            Self::OnDeath => 19,
            Self::OnNormalAction => 20,
            Self::AuraRange => 21,
        }
    }

    open spec fn spec_count() -> nat {
        22
    }

    fn column(self) -> (r: usize) {
        match self {
            Self::Power => 0,
            Self::Affects => 1,
            Self::Visibility => 2,
            Self::MovementPoints => 3,
            Self::Vision => 4,
            Self::TrueVision => 5,
            Self::PassEnemyUnits => 6,
            Self::CanBeMovedThrough => 7,
            Self::CanTake => 8,
            Self::CanBeTaken => 9,
            Self::Weapon => 10,
            Self::CanAttackAfterMoving => 11,
            Self::AttackPattern => 12,
            Self::AttackType => 13,
            Self::Targeting => 14,
            Self::AttackDirection => 15,
            Self::CanBuildUnits => 16,
            Self::CanBeDisplaced => 17,
            Self::TransportCapacity => 18,
            Self::OnDeath => 19,
            Self::OnNormalAction => 20,
            Self::AuraRange => 21,
        }
    }

    fn count() -> (r: usize) {
        22
    }
}

/// The unit filters in column `key`: none without the column, else the
/// list in the cell.
pub open spec fn spec_unit_filters_cell(row: Seq<Option<Seq<char>>>, key: int, names: LoaderNames) -> (Result<Seq<UnitFilterView>, ConfigError>, LoaderNames) {
    match cell(row, key) {
        None => (Ok(seq![]), names),
        Some(v) => {
            let (r, n) = spec_filter_list(v, false, names);
            (match r {
                Ok((items, _)) => Ok(items),
                Err(e) => Err(e),
            }, n)
        },
    }
}

/// The attack pattern in its column where the cell holds text.
pub open spec fn spec_pattern_cell(row: Seq<Option<Seq<char>>>, names: LoaderNames) -> (Result<Option<AttackPatternView>, ConfigError>, LoaderNames) {
    match cell(row, 12) {
        Some(v) if v.len() > 0 => {
            let (r, n) = spec_attack_pattern_from_conf(v, names);
            (match r {
                Ok((p, _)) => Ok(Some(p)),
                Err(e) => Err(e),
            }, n)
        },
        _ => (Ok(None), names),
    }
}

/// The attack targets in the `Targeting` column where the cell holds text.
pub open spec fn spec_targets_cell(row: Seq<Option<Seq<char>>>, names: LoaderNames) -> (Result<Option<ValidAttackTargets>, ConfigError>, LoaderNames) {
    match cell(row, 14) {
        Some(v) if v.len() > 0 => {
            let (r, n) = spec_valid_targets_from_conf(v, names);
            (match r {
                Ok((t, _)) => Ok(Some(t)),
                Err(e) => Err(e),
            }, n)
        },
        _ => (Ok(None), names),
    }
}

/// The unit's numbers: visibility, movement points, vision, true vision and
/// whether it passes enemy units, read in that order.
pub struct UnitStats {
    pub visibility: Option<UnitVisibility>,
    pub movement_points: NumberMod<Fraction>,
    pub vision: NumberMod<u8>,
    pub true_vision: NumberMod<u8>,
    pub pass_enemy_units: Option<bool>,
}

pub open spec fn spec_unit_stats(row: Seq<Option<Seq<char>>>, names: LoaderNames) -> (Result<UnitStats, ConfigError>, LoaderNames) {
    match spec_optional_cell::<UnitVisibility>(row, 2, names) {
        Err(e) => (Err(e), names),
        Ok(visibility) => {
            let (mp, n1) = spec_mod_cell::<Fraction>(row, 3, names);
            match mp {
                Err(e) => (Err(e), n1),
                Ok(movement_points) => {
                    let (v, n2) = spec_mod_cell::<u8>(row, 4, n1);
                    match v {
                        Err(e) => (Err(e), n2),
                        Ok(vision) => {
                            let (tv, n3) = spec_mod_cell::<u8>(row, 5, n2);
                            match tv {
                                Err(e) => (Err(e), n3),
                                Ok(true_vision) => (match spec_optional_bool_cell(row, 6) {
                                    Err(e) => Err(e),
                                    Ok(pass_enemy_units) => Ok(UnitStats { visibility, movement_points, vision, true_vision, pass_enemy_units }),
                                }, n3),
                            }
                        },
                    }
                },
            }
        },
    }
}

/// The unit's attack: pattern, type, targets and direction, read in that
/// order.
pub struct UnitAttack {
    pub attack_pattern: Option<AttackPatternView>,
    pub attack_type: Option<AttackType>,
    pub attack_targets: Option<ValidAttackTargets>,
    pub attack_direction: Option<AllowedAttackInputDirectionSource>,
}

pub open spec fn spec_unit_attack(row: Seq<Option<Seq<char>>>, names: LoaderNames) -> (Result<UnitAttack, ConfigError>, LoaderNames) {
    let (p, n1) = spec_pattern_cell(row, names);
    match p {
        Err(e) => (Err(e), n1),
        Ok(attack_pattern) => match spec_optional_cell::<AttackType>(row, 13, n1) {
            Err(e) => (Err(e), n1),
            Ok(attack_type) => {
                let (t, n2) = spec_targets_cell(row, n1);
                match t {
                    Err(e) => (Err(e), n2),
                    Ok(attack_targets) => (match spec_optional_cell::<AllowedAttackInputDirectionSource>(row, 15, n2) {
                        Err(e) => Err(e),
                        Ok(attack_direction) => Ok(UnitAttack { attack_pattern, attack_type, attack_targets, attack_direction }),
                    }, n2),
                }
            },
        },
    }
}

/// The rest of the line: whether the unit can be displaced, its death and
/// normal action scripts, and its aura range, read in that order.
pub open spec fn spec_unit_powered_rest(
    row: Seq<Option<Seq<char>>>,
    names: LoaderNames,
    affects: Seq<UnitFilterView>,
    custom_columns: Seq<(Seq<char>, NumberMod<Fraction>)>,
    stats: UnitStats,
    attack: UnitAttack,
) -> (Result<CommanderPowerUnitConfigView, ConfigError>, LoaderNames) {
    match spec_optional_bool_cell(row, 17) {
        Err(e) => (Err(e), names),
        Ok(can_be_displaced) => {
            let (d, n1) = spec_script_cell(row, 19, names);
            match d {
                Err(e) => (Err(e), n1),
                Ok(on_death) => {
                    let (a, n2) = spec_script_cell(row, 20, n1);
                    match a {
                        Err(e) => (Err(e), n2),
                        Ok(on_normal_action) => {
                            let (r, n3) = spec_mod_cell::<i32>(row, 21, n2);
                            (match r {
                                Err(e) => Err(e),
                                Ok(aura_range) => Ok(CommanderPowerUnitConfigView {
                                    affects,
                                    visibility: stats.visibility,
                                    movement_points: stats.movement_points,
                                    vision: stats.vision,
                                    true_vision: stats.true_vision,
                                    pass_enemy_units: stats.pass_enemy_units,
                                    attack_pattern: attack.attack_pattern,
                                    attack_type: attack.attack_type,
                                    attack_targets: attack.attack_targets,
                                    attack_direction: attack.attack_direction,
                                    can_be_displaced,
                                    on_death,
                                    on_normal_action,
                                    aura_range,
                                    custom_columns,
                                }),
                            }, n3)
                        },
                    }
                },
            }
        },
    }
}

impl CommanderPowerUnitConfig {
    fn filters_cell(row: &TableRow, key: usize, loader: &mut FileLoader) -> (r: Result<Vec<UnitFilter>, ConfigParseError>)
        ensures
            (match r { Ok(v) => Ok(filters_view(v@)), Err(e) => Err(e@) }, final(loader)@) == spec_unit_filters_cell(row@, key as int, old(loader)@),
    {
        match row.get(key) {
            None => {
                let v: Vec<UnitFilter> = Vec::new();
                assert(filters_view(v@) =~= seq![]);
                Ok(v)
            },
            Some(text) => match UnitFilter::filter_list(text, false, loader) {
                Ok((items, _)) => Ok(items),
                Err(e) => Err(e),
            },
        }
    }

    fn pattern_cell(row: &TableRow, loader: &mut FileLoader) -> (r: Result<Option<AttackPattern>, ConfigParseError>)
        ensures
            (match r { Ok(p) => Ok(optional_pattern_view(p)), Err(e) => Err(e@) }, final(loader)@) == spec_pattern_cell(row@, old(loader)@),
    {
        match row.get(12) {
            Some(v) => {
                if v.len() > 0 {
                    match AttackPattern::from_conf(v, loader) {
                        Ok((p, _)) => Ok(Some(p)),
                        Err(e) => Err(e),
                    }
                } else {
                    Ok(None)
                }
            },
            None => Ok(None),
        }
    }

    fn targets_cell(row: &TableRow, loader: &mut FileLoader) -> (r: Result<Option<ValidAttackTargets>, ConfigParseError>)
        ensures
            (match r { Ok(t) => Ok(t), Err(e) => Err(e@) }, final(loader)@) == spec_targets_cell(row@, old(loader)@),
    {
        match row.get(14) {
            Some(v) => {
                if v.len() > 0 {
                    match ValidAttackTargets::from_conf(v, loader) {
                        Ok((t, _)) => Ok(Some(t)),
                        Err(e) => Err(e),
                    }
                } else {
                    Ok(None)
                }
            },
            None => Ok(None),
        }
    }

    /// The change of the value in the table's own column `column_name`.
    pub fn get_fraction(&self, column_name: &str) -> (r: NumberMod<Fraction>)
        ensures
            r == spec_named_mod(named_mods_view(self.custom_columns@), column_name@),
    {
        named_mod(&self.custom_columns, column_name)
    }
}

/// The filters of `first` followed by those of `second`.
fn joined(first: Vec<UnitFilter>, second: Vec<UnitFilter>) -> (r: Vec<UnitFilter>)
    ensures
        filters_view(r@) == filters_view(first@) + filters_view(second@),
{
    let mut r = first;
    let mut rest = second;
    let ghost a = r@;
    let ghost b = rest@;
    r.append(&mut rest);
    proof {
        lemma_filters_view_concat(a, b);
    }
    r
}

/// The view of two lists of filters one after the other is the two views
/// one after the other.
proof fn lemma_filters_view_concat(a: Seq<UnitFilter>, b: Seq<UnitFilter>)
    ensures
        filters_view(a + b) == filters_view(a) + filters_view(b),
    decreases b.len(),
{
    if b.len() == 0 {
        assert(a + b =~= a);
        assert(filters_view(b) =~= seq![]);
        assert(filters_view(a) + filters_view(b) =~= filters_view(a));
    } else {
        assert((a + b).drop_last() =~= a + b.drop_last());
        assert((a + b).last() == b.last());
        lemma_filters_view_concat(a, b.drop_last());
        assert(filters_view(a + b) =~= filters_view(a) + filters_view(b));
    }
}

impl TableLine for CommanderPowerUnitConfig {
    type Header = CommanderPowerUnitConfigHeader;

    /// The `Power` and `Affects` filters are read first, then the table's
    /// own columns (see `spec_custom_mods`), then the unit's numbers (see
    /// `spec_unit_stats`), its attack (see `spec_unit_attack`) and the rest
    /// (see `spec_unit_powered_rest`).
    open spec fn spec_parse(row: Seq<Option<Seq<char>>>, custom: Seq<(Seq<char>, Seq<char>)>, names: LoaderNames) -> (Result<CommanderPowerUnitConfigView, ConfigError>, LoaderNames) {
        let (p, n1) = spec_unit_filters_cell(row, 0, names);
        match p {
            Err(e) => (Err(e), n1),
            Ok(power) => {
                let (a, n2) = spec_unit_filters_cell(row, 1, n1);
                match a {
                    Err(e) => (Err(e), n2),
                    Ok(affects) => {
                        let (cm, n3) = spec_custom_mods(custom, n2, custom.len());
                        match cm {
                            Err(e) => (Err(e), n3),
                            Ok(custom_columns) => {
                                let (st, n4) = spec_unit_stats(row, n3);
                                match st {
                                    Err(e) => (Err(e), n4),
                                    Ok(stats) => {
                                        let (at, n5) = spec_unit_attack(row, n4);
                                        match at {
                                            Err(e) => (Err(e), n5),
                                            Ok(attack) => spec_unit_powered_rest(row, n5, power + affects, custom_columns, stats, attack),
                                        }
                                    },
                                }
                            },
                        }
                    },
                }
            },
        }
    }

    /// Every line that reads is valid.
    open spec fn spec_validation(line: CommanderPowerUnitConfigView) -> Result<(), ConfigError> {
        Ok(())
    }

    fn parse(row: &TableRow, loader: &mut FileLoader) -> (r: Result<Self, ConfigParseError>) {
        let power = match Self::filters_cell(row, 0, loader) {
            Err(e) => return Err(e),
            Ok(v) => v,
        };
        let affects = match Self::filters_cell(row, 1, loader) {
            Err(e) => return Err(e),
            Ok(v) => v,
        };
        let custom_columns = match custom_mods(row, loader) {
            Err(e) => return Err(e),
            Ok(v) => v,
        };
        let visibility = match parse_optional::<UnitVisibility>(row, 2, loader) {
            Err(e) => return Err(e),
            Ok(v) => v,
        };
        let movement_points = match mod_cell::<Fraction>(row, 3, loader) {
            Err(e) => return Err(e),
            Ok(v) => v,
        };
        let vision = match mod_cell::<u8>(row, 4, loader) {
            Err(e) => return Err(e),
            Ok(v) => v,
        };
        let true_vision = match mod_cell::<u8>(row, 5, loader) {
            Err(e) => return Err(e),
            Ok(v) => v,
        };
        let pass_enemy_units = match parse_optional_bool(row, 6) {
            Err(e) => return Err(e),
            Ok(v) => v,
        };
        let attack_pattern = match Self::pattern_cell(row, loader) {
            Err(e) => return Err(e),
            Ok(v) => v,
        };
        let attack_type = match parse_optional::<AttackType>(row, 13, loader) {
            Err(e) => return Err(e),
            Ok(v) => v,
        };
        let attack_targets = match Self::targets_cell(row, loader) {
            Err(e) => return Err(e),
            Ok(v) => v,
        };
        let attack_direction = match parse_optional::<AllowedAttackInputDirectionSource>(row, 15, loader) {
            Err(e) => return Err(e),
            Ok(v) => v,
        };
        let can_be_displaced = match parse_optional_bool(row, 17) {
            Err(e) => return Err(e),
            Ok(v) => v,
        };
        let on_death = match script_cell(row, 19, loader) {
            Err(e) => return Err(e),
            Ok(v) => v,
        };
        let on_normal_action = match script_cell(row, 20, loader) {
            Err(e) => return Err(e),
            Ok(v) => v,
        };
        let aura_range = match mod_cell::<i32>(row, 21, loader) {
            Err(e) => return Err(e),
            Ok(v) => v,
        };
        Ok(CommanderPowerUnitConfig {
            affects: joined(power, affects),
            visibility,
            movement_points,
            vision,
            true_vision,
            pass_enemy_units,
            attack_pattern,
            attack_type,
            attack_targets,
            attack_direction,
            can_be_displaced,
            on_death,
            on_normal_action,
            aura_range,
            custom_columns,
        })
    }

    fn simple_validation(&self) -> (r: Result<(), ConfigParseError>) {
        Ok(())
    }
}

} // verus!
