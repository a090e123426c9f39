use vstd::prelude::*;

use crate::attack_pattern::{spec_attack_pattern_from_conf, AllowedAttackInputDirectionSource, AttackPattern, AttackPatternView};
use crate::combat::{spec_valid_targets_from_conf, AttackType, ValidAttackTargets};
use crate::config::attack_config::{custom_columns, spec_custom_columns, text_pairs_view};
use crate::config::file_loader::{FileLoader, LoaderNames};
use crate::config::listing::{listed_from_conf, spec_listed_from_conf, str_chars, Listable};
use crate::config::movement_type_config::MovementPattern;
use crate::config::parse::FromConfig;
use crate::config::table::{cell, custom_view, parse, parse_def, spec_parse_cell, TableHeader, TableLine, TableRow};
use crate::config::text::{spec_trim, to_string, trim};
use crate::config::{ConfigError, ConfigParseError, OwnershipPredicate};
use crate::fog::VisionMode;
use crate::fraction::Fraction;
use crate::units::{MovementType, UnitVisibility};

verus! {

/// A unit type as the unit table declares it.
#[derive(Debug)]
pub struct UnitTypeConfig {
    pub name: String,
    pub visibility: UnitVisibility,
    pub movement_pattern: MovementPattern,
    pub movement_type: MovementType,
    pub movement_points: Fraction,
    pub vision_mode: VisionMode,
    pub vision: usize,
    pub true_vision: usize,
    pub owned: OwnershipPredicate,
    pub pass_enemy_units: bool,
    pub can_be_moved_through: bool,
    pub can_be_taken: bool,
    pub can_attack_after_moving: bool,
    pub attack_pattern: AttackPattern,
    pub attack_type: AttackType,
    pub attack_targets: ValidAttackTargets,
    pub attack_direction: AllowedAttackInputDirectionSource,
    pub can_be_displaced: bool,
    pub transport_capacity: usize,
    /// the table's own columns: name and trimmed text
    pub custom_columns: Vec<(String, String)>,
}

pub struct UnitTypeConfigView {
    pub name: Seq<char>,
    pub visibility: UnitVisibility,
    pub movement_pattern: MovementPattern,
    pub movement_type: MovementType,
    pub movement_points: Fraction,
    pub vision_mode: VisionMode,
    pub vision: usize,
    pub true_vision: usize,
    pub owned: OwnershipPredicate,
    pub pass_enemy_units: bool,
    pub can_be_moved_through: bool,
    pub can_be_taken: bool,
    pub can_attack_after_moving: bool,
    pub attack_pattern: AttackPatternView,
    pub attack_type: AttackType,
    pub attack_targets: ValidAttackTargets,
    pub attack_direction: AllowedAttackInputDirectionSource,
    pub can_be_displaced: bool,
    pub transport_capacity: usize,
    pub custom_columns: Seq<(Seq<char>, Seq<char>)>,
}

impl View for UnitTypeConfig {
    type V = UnitTypeConfigView;

    open spec fn view(&self) -> UnitTypeConfigView {
        UnitTypeConfigView {
            name: self.name@,
            visibility: self.visibility,
            movement_pattern: self.movement_pattern,
            movement_type: self.movement_type,
            movement_points: self.movement_points,
            vision_mode: self.vision_mode,
            vision: self.vision,
            true_vision: self.true_vision,
            owned: self.owned,
            pass_enemy_units: self.pass_enemy_units,
            can_be_moved_through: self.can_be_moved_through,
            can_be_taken: self.can_be_taken,
            can_attack_after_moving: self.can_attack_after_moving,
            attack_pattern: self.attack_pattern@,
            attack_type: self.attack_type,
            attack_targets: self.attack_targets,
            attack_direction: self.attack_direction,
            can_be_displaced: self.can_be_displaced,
            transport_capacity: self.transport_capacity,
            custom_columns: text_pairs_view(self.custom_columns@),
        }
    }
}

/// The columns of the unit table; other header names are columns of the
/// table's own.
#[derive(Debug, Clone, Copy, PartialEq, Eq, Structural, Hash)]
pub enum UnitTypeConfigHeader {
    Id,
    Visibility,
    MovementPattern,
    MovementType,
    MovementPoints,
    VisionMode,
    Vision,
    TrueVision,
    Owned,
    PassEnemyUnits,
    CanBeMovedThrough,
    CanBeTaken,
    CanAttackAfterMoving,
    AttackPattern,
    AttackDirection,
    AttackTargets,
    AttackType,
    CanBeDisplaced,
    TransportCapacity,
}

impl Listable for UnitTypeConfigHeader {
    open spec fn spec_list() -> Seq<Self> {
        seq![
            Self::Id,
            Self::Visibility,
            Self::MovementPattern,
            Self::MovementType,
            Self::MovementPoints,
            Self::VisionMode,
            Self::Vision,
            Self::TrueVision,
            Self::Owned,
            Self::PassEnemyUnits,
            Self::CanBeMovedThrough,
            Self::CanBeTaken,
            Self::CanAttackAfterMoving,
            Self::AttackPattern,
            Self::AttackDirection,
            Self::AttackTargets,
            Self::AttackType,
            Self::CanBeDisplaced,
            Self::TransportCapacity,
        ]
    }

    open spec fn spec_name(self) -> Seq<char> {
        match self {
            Self::Id => "Id"@,
            Self::Visibility => "Visibility"@,
            Self::MovementPattern => "MovementPattern"@,
            Self::MovementType => "MovementType"@,
            Self::MovementPoints => "MovementPoints"@,
            Self::VisionMode => "VisionMode"@,
            Self::Vision => "Vision"@,
            Self::TrueVision => "TrueVision"@,
            Self::Owned => "Owned"@,
            Self::PassEnemyUnits => "PassEnemyUnits"@,
            Self::CanBeMovedThrough => "CanBeMovedThrough"@,
            Self::CanBeTaken => "CanBeTaken"@,
            Self::CanAttackAfterMoving => "CanAttackAfterMoving"@,
            Self::AttackPattern => "AttackPattern"@,
            Self::AttackDirection => "AttackDirection"@,
            Self::AttackTargets => "AttackTargets"@,
            Self::AttackType => "AttackType"@,
            Self::CanBeDisplaced => "CanBeDisplaced"@,
            Self::TransportCapacity => "TransportCapacity"@,
        }
    }

    open spec fn spec_kind_name() -> Seq<char> {
        "UnitTypeConfigHeader"@
    }

    fn list() -> (r: Vec<Self>) {
        vec![
            Self::Id,
            Self::Visibility,
            Self::MovementPattern,
            Self::MovementType,
            Self::MovementPoints,
            Self::VisionMode,
            Self::Vision,
            Self::TrueVision,
            Self::Owned,
            Self::PassEnemyUnits,
            Self::CanBeMovedThrough,
            Self::CanBeTaken,
            Self::CanAttackAfterMoving,
            Self::AttackPattern,
            Self::AttackDirection,
            Self::AttackTargets,
            Self::AttackType,
            Self::CanBeDisplaced,
            Self::TransportCapacity,
        ]
    }

    fn name(&self) -> (r: &'static str) {
        match self {
            Self::Id => "Id",
            Self::Visibility => "Visibility",
            Self::MovementPattern => "MovementPattern",
            Self::MovementType => "MovementType",
            Self::MovementPoints => "MovementPoints",
            Self::VisionMode => "VisionMode",
            Self::Vision => "Vision",
            Self::TrueVision => "TrueVision",
            Self::Owned => "Owned",
            Self::PassEnemyUnits => "PassEnemyUnits",
            Self::CanBeMovedThrough => "CanBeMovedThrough",
            Self::CanBeTaken => "CanBeTaken",
            Self::CanAttackAfterMoving => "CanAttackAfterMoving",
            Self::AttackPattern => "AttackPattern",
            Self::AttackDirection => "AttackDirection",
            Self::AttackTargets => "AttackTargets",
            Self::AttackType => "AttackType",
            Self::CanBeDisplaced => "CanBeDisplaced",
            Self::TransportCapacity => "TransportCapacity",
        }
    }

    fn kind_name() -> (r: &'static str) {
        "UnitTypeConfigHeader"
    }
}

impl FromConfig for UnitTypeConfigHeader {
    open spec fn spec_from_conf(s: Seq<char>, names: LoaderNames) -> Result<(Self, Seq<char>), ConfigError> {
        spec_listed_from_conf::<Self>(s)
    }

    fn from_conf<'a>(s: &'a [char], loader: &FileLoader) -> (r: Result<(Self, &'a [char]), ConfigParseError>) {
        listed_from_conf(s)
    }
}

impl TableHeader for UnitTypeConfigHeader {
    open spec fn spec_takes_custom() -> bool {
        true
    }

    fn takes_custom() -> (b: bool) {
        true
    }

    open spec fn spec_column(self) -> nat {
        match self {
            Self::Id => 0,
            Self::Visibility => 1,
            Self::MovementPattern => 2,
            Self::MovementType => 3,
            Self::MovementPoints => 4,
            Self::VisionMode => 5,
            Self::Vision => 6,
            Self::TrueVision => 7,
            Self::Owned => 8,
            Self::PassEnemyUnits => 9,
            Self::CanBeMovedThrough => 10,
            Self::CanBeTaken => 11,
            Self::CanAttackAfterMoving => 12,
            Self::AttackPattern => 13,
            Self::AttackDirection => 14,
            Self::AttackTargets => 15,
            Self::AttackType => 16,
            Self::CanBeDisplaced => 17,
            Self::TransportCapacity => 18,
        }
    }

    open spec fn spec_count() -> nat {
        19
    }

    fn column(self) -> (r: usize) {
        match self {
            Self::Id => 0,
            Self::Visibility => 1,
            Self::MovementPattern => 2,
            Self::MovementType => 3,
            Self::MovementPoints => 4,
            Self::VisionMode => 5,
            Self::Vision => 6,
            Self::TrueVision => 7,
            Self::Owned => 8,
            Self::PassEnemyUnits => 9,
            Self::CanBeMovedThrough => 10,
            Self::CanBeTaken => 11,
            Self::CanAttackAfterMoving => 12,
            Self::AttackPattern => 13,
            Self::AttackDirection => 14,
            Self::AttackTargets => 15,
            Self::AttackType => 16,
            Self::CanBeDisplaced => 17,
            Self::TransportCapacity => 18,
        }
    }

    fn count() -> (r: usize) {
        19
    }
}

/// How a unit type moves and sees, read in the order of the fields.
pub struct UnitMovement {
    pub visibility: UnitVisibility,
    pub movement_pattern: MovementPattern,
    pub movement_type: MovementType,
    pub movement_points: Fraction,
    pub vision_mode: VisionMode,
    pub vision: u8,
    pub true_vision: u8,
}

/// The visibility: normal without the column, else what the cell reads as
/// (an empty cell too).
pub open spec fn spec_visibility_cell(row: Seq<Option<Seq<char>>>, names: LoaderNames) -> Result<UnitVisibility, ConfigError> {
    match cell(row, 1) {
        None => Ok(UnitVisibility::Normal),
        Some(v) => match UnitVisibility::spec_from_conf(v, names) {
            Ok((u, _)) => Ok(u),
            Err(e) => Err(e),
        },
    }
}

pub open spec fn spec_unit_movement(row: Seq<Option<Seq<char>>>, names: LoaderNames) -> Result<UnitMovement, ConfigError> {
    match spec_visibility_cell(row, names) {
        Err(e) => Err(e),
        Ok(visibility) => match spec_parse_cell::<MovementPattern>(row, 2, Some(MovementPattern::Standard), names) {
            Err(e) => Err(e),
            Ok(movement_pattern) => match spec_parse_cell::<MovementType>(row, 3, None, names) {
                Err(e) => Err(e),
                Ok(movement_type) => match spec_parse_cell::<Fraction>(row, 4, Some(Fraction::spec_from_integer(0)), names) {
                    Err(e) => Err(e),
                    Ok(movement_points) => match spec_parse_cell::<VisionMode>(row, 5, Some(VisionMode::Normal), names) {
                        Err(e) => Err(e),
                        Ok(vision_mode) => match spec_parse_cell::<u8>(row, 6, Some(0u8), names) {
                            Err(e) => Err(e),
                            Ok(vision) => match spec_parse_cell::<u8>(row, 7, Some(0u8), names) {
                                Err(e) => Err(e),
                                Ok(true_vision) => Ok(UnitMovement {
                                    visibility,
                                    movement_pattern,
                                    movement_type,
                                    movement_points,
                                    vision_mode,
                                    vision,
                                    true_vision,
                                }),
                            },
                        },
                    },
                },
            },
        },
    }
}

/// Who owns a unit type and how it meets others, read in the order of the
/// fields.
pub struct UnitRules {
    pub owned: OwnershipPredicate,
    pub pass_enemy_units: bool,
    pub can_be_moved_through: bool,
    pub can_be_taken: bool,
    pub can_attack_after_moving: bool,
}

pub open spec fn spec_unit_rules(row: Seq<Option<Seq<char>>>, names: LoaderNames) -> Result<UnitRules, ConfigError> {
    match spec_parse_cell::<OwnershipPredicate>(row, 8, Some(OwnershipPredicate::Either), names) {
        Err(e) => Err(e),
        Ok(owned) => match spec_parse_cell::<bool>(row, 9, Some(false), names) {
            Err(e) => Err(e),
            Ok(pass_enemy_units) => match spec_parse_cell::<bool>(row, 10, Some(false), names) {
                Err(e) => Err(e),
                Ok(can_be_moved_through) => match spec_parse_cell::<bool>(row, 11, Some(false), names) {
                    Err(e) => Err(e),
                    Ok(can_be_taken) => match spec_parse_cell::<bool>(row, 12, Some(false), names) {
                        Err(e) => Err(e),
                        Ok(can_attack_after_moving) => Ok(UnitRules {
                            owned,
                            pass_enemy_units,
                            can_be_moved_through,
                            can_be_taken,
                            can_attack_after_moving,
                        }),
                    },
                },
            },
        },
    }
}

/// The attack pattern: none without the column or for an empty cell, else
/// what the cell reads as.
pub open spec fn spec_unit_pattern_cell(row: Seq<Option<Seq<char>>>, names: LoaderNames) -> (Result<AttackPatternView, ConfigError>, LoaderNames) {
    match cell(row, 13) {
        Some(v) if v.len() > 0 => {
            let (r, n) = spec_attack_pattern_from_conf(v, names);
            (match r {
                Ok((p, _)) => Ok(p),
                Err(e) => Err(e),
            }, n)
        },
        _ => (Ok(AttackPatternView::NoAttack), names),
    }
}

/// The attack targets: enemies without the column or for an empty cell,
/// else what the cell reads as.
pub open spec fn spec_unit_targets_cell(row: Seq<Option<Seq<char>>>, names: LoaderNames) -> (Result<ValidAttackTargets, ConfigError>, LoaderNames) {
    match cell(row, 15) {
        Some(v) if v.len() > 0 => {
            let (r, n) = spec_valid_targets_from_conf(v, names);
            (match r {
                Ok((t, _)) => Ok(t),
                Err(e) => Err(e),
            }, n)
        },
        _ => (Ok(ValidAttackTargets::Enemy), names),
    }
}

/// The attack type: none without the column or for an empty cell, else
/// what the cell reads as.
pub open spec fn spec_unit_attack_type_cell(row: Seq<Option<Seq<char>>>, names: LoaderNames) -> Result<AttackType, ConfigError> {
    match cell(row, 16) {
        Some(v) if v.len() > 0 => match AttackType::spec_from_conf(v, names) {
            Ok((t, _)) => Ok(t),
            Err(e) => Err(e),
        },
        _ => Ok(AttackType(None)),
    }
}

/// The rest of a unit line once its name, movement and rules are read:
/// attack pattern, direction, targets and type, whether it can be
/// displaced, and its transport capacity, in that order.
pub open spec fn spec_unit_rest(
    row: Seq<Option<Seq<char>>>,
    names: LoaderNames,
    name: Seq<char>,
    movement: UnitMovement,
    rules: UnitRules,
    custom_columns: Seq<(Seq<char>, Seq<char>)>,
) -> (Result<UnitTypeConfigView, ConfigError>, LoaderNames) {
    let (p, n1) = spec_unit_pattern_cell(row, names);
    match p {
        Err(e) => (Err(e), n1),
        Ok(attack_pattern) => match spec_parse_cell::<AllowedAttackInputDirectionSource>(row, 14, Some(AllowedAttackInputDirectionSource::AllDirections), n1) {
            Err(e) => (Err(e), n1),
            Ok(attack_direction) => {
                let (t, n2) = spec_unit_targets_cell(row, n1);
                (match t {
                    Err(e) => Err(e),
                    Ok(attack_targets) => match spec_unit_attack_type_cell(row, n2) {
                        Err(e) => Err(e),
                        Ok(attack_type) => match spec_parse_cell::<bool>(row, 17, Some(false), n2) {
                            Err(e) => Err(e),
                            Ok(can_be_displaced) => match spec_parse_cell::<u8>(row, 18, Some(0u8), n2) {
                                Err(e) => Err(e),
                                Ok(transport_capacity) => Ok(UnitTypeConfigView {
                                    name,
                                    visibility: movement.visibility,
                                    movement_pattern: movement.movement_pattern,
                                    movement_type: movement.movement_type,
                                    movement_points: movement.movement_points,
                                    vision_mode: movement.vision_mode,
                                    vision: movement.vision as usize,
                                    true_vision: movement.true_vision as usize,
                                    owned: rules.owned,
                                    pass_enemy_units: rules.pass_enemy_units,
                                    can_be_moved_through: rules.can_be_moved_through,
                                    can_be_taken: rules.can_be_taken,
                                    can_attack_after_moving: rules.can_attack_after_moving,
                                    attack_pattern,
                                    attack_type,
                                    attack_targets,
                                    attack_direction,
                                    can_be_displaced,
                                    transport_capacity: transport_capacity as usize,
                                    custom_columns,
                                }),
                            },
                        },
                    },
                }, n2)
            },
        },
    }
}

impl UnitTypeConfig {
    fn visibility_cell(row: &TableRow, loader: &FileLoader) -> (r: Result<UnitVisibility, ConfigParseError>)
        ensures
            match r {
                Ok(v) => spec_visibility_cell(row@, loader@) == Ok::<UnitVisibility, ConfigError>(v),
                Err(e) => spec_visibility_cell(row@, loader@) == Err::<UnitVisibility, ConfigError>(e@),
            },
    {
        match row.get(1) {
            None => Ok(UnitVisibility::Normal),
            Some(v) => match UnitVisibility::from_conf(v, loader) {
                Ok((u, _)) => Ok(u),
                Err(e) => Err(e),
            },
        }
    }

    fn pattern_cell(row: &TableRow, loader: &mut FileLoader) -> (r: Result<AttackPattern, ConfigParseError>)
        ensures
            (match r { Ok(p) => Ok(p@), Err(e) => Err(e@) }, final(loader)@) == spec_unit_pattern_cell(row@, old(loader)@),
    {
        match row.get(13) {
            Some(v) => {
                if v.len() > 0 {
                    match AttackPattern::from_conf(v, loader) {
                        Ok((p, _)) => Ok(p),
                        Err(e) => Err(e),
                    }
                } else {
                    Ok(AttackPattern::NoAttack)
                }
            },
            None => Ok(AttackPattern::NoAttack),
        }
    }

    fn targets_cell(row: &TableRow, loader: &mut FileLoader) -> (r: Result<ValidAttackTargets, ConfigParseError>)
        ensures
            (match r { Ok(t) => Ok(t), Err(e) => Err(e@) }, final(loader)@) == spec_unit_targets_cell(row@, old(loader)@),
    {
        match row.get(15) {
            Some(v) => {
                if v.len() > 0 {
                    match ValidAttackTargets::from_conf(v, loader) {
                        Ok((t, _)) => Ok(t),
                        Err(e) => Err(e),
                    }
                } else {
                    Ok(ValidAttackTargets::Enemy)
                }
            },
            None => Ok(ValidAttackTargets::Enemy),
        }
    }

    fn attack_type_cell(row: &TableRow, loader: &FileLoader) -> (r: Result<AttackType, ConfigParseError>)
        ensures
            match r {
                Ok(t) => spec_unit_attack_type_cell(row@, loader@) == Ok::<AttackType, ConfigError>(t),
                Err(e) => spec_unit_attack_type_cell(row@, loader@) == Err::<AttackType, ConfigError>(e@),
            },
    {
        match row.get(16) {
            Some(v) => {
                if v.len() > 0 {
                    match AttackType::from_conf(v, loader) {
                        Ok((t, _)) => Ok(t),
                        Err(e) => Err(e),
                    }
                } else {
                    Ok(AttackType(None))
                }
            },
            None => Ok(AttackType(None)),
        }
    }
}

impl TableLine for UnitTypeConfig {
    type Header = UnitTypeConfigHeader;

    /// The table's own columns are kept with their text trimmed; the name
    /// is the trimmed `Id` cell (the column is needed); then the movement
    /// (see `spec_unit_movement`, which needs the `MovementType` column),
    /// the rules (see `spec_unit_rules`) and the rest (see
    /// `spec_unit_rest`) are read.
    open spec fn spec_parse(row: Seq<Option<Seq<char>>>, custom: Seq<(Seq<char>, Seq<char>)>, names: LoaderNames) -> (Result<UnitTypeConfigView, ConfigError>, LoaderNames) {
        match cell(row, 0) {
            None => (Err(ConfigError::MissingColumn(0)), names),
            Some(id) => match spec_unit_movement(row, names) {
                Err(e) => (Err(e), names),
                Ok(movement) => match spec_unit_rules(row, names) {
                    Err(e) => (Err(e), names),
                    Ok(rules) => spec_unit_rest(row, names, spec_trim(id), movement, rules, spec_custom_columns(custom)),
                },
            },
        }
    }

    /// The name must hold more than whitespace.
    open spec fn spec_validation(line: UnitTypeConfigView) -> Result<(), ConfigError> {
        if spec_trim(line.name).len() == 0 {
            Err(ConfigError::NameTooShort)
        } else {
            Ok(())
        }
    }

    fn parse(row: &TableRow, loader: &mut FileLoader) -> (r: Result<Self, ConfigParseError>) {
        let custom_columns = custom_columns(&row.custom);
        let name = match row.get(0) {
            None => return Err(ConfigParseError::MissingColumn(0)),
            Some(n) => to_string(trim(n)),
        };
        let visibility = match Self::visibility_cell(row, loader) {
            Err(e) => return Err(e),
            Ok(v) => v,
        };
        let movement_pattern = match parse_def::<MovementPattern>(row, 2, MovementPattern::Standard, loader) {
            Err(e) => return Err(e),
            Ok(v) => v,
        };
        let movement_type = match parse::<MovementType>(row, 3, loader) {
            Err(e) => return Err(e),
            Ok(v) => v,
        };
        let movement_points = match parse_def::<Fraction>(row, 4, Fraction::from_integer(0), loader) {
            Err(e) => return Err(e),
            Ok(v) => v,
        };
        let vision_mode = match parse_def::<VisionMode>(row, 5, VisionMode::Normal, loader) {
            Err(e) => return Err(e),
            Ok(v) => v,
        };
        let vision = match parse_def::<u8>(row, 6, 0, loader) {
            Err(e) => return Err(e),
            Ok(v) => v,
        };
        let true_vision = match parse_def::<u8>(row, 7, 0, loader) {
            Err(e) => return Err(e),
            Ok(v) => v,
        };
        let owned = match parse_def::<OwnershipPredicate>(row, 8, OwnershipPredicate::Either, loader) {
            Err(e) => return Err(e),
            Ok(v) => v,
        };
        let pass_enemy_units = match parse_def::<bool>(row, 9, false, loader) {
            Err(e) => return Err(e),
            Ok(v) => v,
        };
        let can_be_moved_through = match parse_def::<bool>(row, 10, false, loader) {
            Err(e) => return Err(e),
            Ok(v) => v,
        };
        let can_be_taken = match parse_def::<bool>(row, 11, false, loader) {
            Err(e) => return Err(e),
            Ok(v) => v,
        };
        let can_attack_after_moving = match parse_def::<bool>(row, 12, false, loader) {
            Err(e) => return Err(e),
            Ok(v) => v,
        };
        let attack_pattern = match Self::pattern_cell(row, loader) {
            Err(e) => return Err(e),
            Ok(v) => v,
        };
        let attack_direction = match parse_def::<AllowedAttackInputDirectionSource>(row, 14, AllowedAttackInputDirectionSource::AllDirections, loader) {
            Err(e) => return Err(e),
            Ok(v) => v,
        };
        let attack_targets = match Self::targets_cell(row, loader) {
            Err(e) => return Err(e),
            Ok(v) => v,
        };
        let attack_type = match Self::attack_type_cell(row, loader) {
            Err(e) => return Err(e),
            Ok(v) => v,
        };
        let can_be_displaced = match parse_def::<bool>(row, 17, false, loader) {
            Err(e) => return Err(e),
            Ok(v) => v,
        };
        let transport_capacity = match parse_def::<u8>(row, 18, 0, loader) {
            Err(e) => return Err(e),
            Ok(v) => v,
        };
        Ok(UnitTypeConfig {
            name,
            visibility,
            movement_pattern,
            movement_type,
            movement_points,
            vision_mode,
            vision: vision as usize,
            true_vision: true_vision as usize,
            owned,
            pass_enemy_units,
            can_be_moved_through,
            can_be_taken,
            can_attack_after_moving,
            attack_pattern,
            attack_type,
            attack_targets,
            attack_direction,
            can_be_displaced,
            transport_capacity: transport_capacity as usize,
            custom_columns,
        })
    }

    fn simple_validation(&self) -> (r: Result<(), ConfigParseError>) {
        let n = str_chars(self.name.as_str());
        if trim(n.as_slice()).len() == 0 {
            Err(ConfigParseError::NameTooShort)
        } else {
            Ok(())
        }
    }
}

} // verus!
