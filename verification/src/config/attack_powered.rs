use vstd::prelude::*;

use crate::combat::{AttackTargetingFocus, DisplaceDirectionModifier};
use crate::config::attack_filter::{attack_filters_view, spec_attack_filter_list, AttackFilter, AttackFilterView};
use crate::config::file_loader::{FileLoader, LoaderNames};
use crate::config::listing::{listed_from_conf, spec_listed_from_conf, Listable};
use crate::config::number_modification::{custom_mods, mod_cell, named_mod, named_mods_view, spec_custom_mods, spec_mod_cell, spec_named_mod, NumberMod};
use crate::config::parse::FromConfig;
use crate::config::table::{
    cell, custom_view, parse_optional, parse_optional_bool, result_as, script_cell, spec_optional_bool_cell, spec_optional_cell,
    spec_script_cell, TableHeader, TableLine, TableRow,
};
use crate::config::{ConfigError, ConfigParseError};
use crate::fraction::Fraction;

verus! {

/// How attacks change where the filters hold, e.g. while a commander's
/// power is active.
#[derive(Debug)]
pub struct AttackPoweredConfig {
    pub affects: Vec<AttackFilter>,
    pub attack_priority: NumberMod<i8>,
    pub splash_range: NumberMod<u8>,
    pub focus: Option<AttackTargetingFocus>,
    pub allows_counter_attack: Option<bool>,
    pub splash_priority: NumberMod<Fraction>,
    pub direction_modifier: Option<DisplaceDirectionModifier>,
    /// the script run when a unit is attacked
    pub on_defend: Option<usize>,
    /// changes of the values in the table's own columns, by column name
    pub custom_columns: Vec<(String, NumberMod<Fraction>)>,
}

pub struct AttackPoweredConfigView {
    pub affects: Seq<AttackFilterView>,
    pub attack_priority: NumberMod<i8>,
    pub splash_range: NumberMod<u8>,
    pub focus: Option<AttackTargetingFocus>,
    pub allows_counter_attack: Option<bool>,
    pub splash_priority: NumberMod<Fraction>,
    pub direction_modifier: Option<DisplaceDirectionModifier>,
    pub on_defend: Option<usize>,
    pub custom_columns: Seq<(Seq<char>, NumberMod<Fraction>)>,
}

impl View for AttackPoweredConfig {
    type V = AttackPoweredConfigView;

    open spec fn view(&self) -> AttackPoweredConfigView {
        AttackPoweredConfigView {
            affects: attack_filters_view(self.affects@),
            attack_priority: self.attack_priority,
            splash_range: self.splash_range,
            focus: self.focus,
            allows_counter_attack: self.allows_counter_attack,
            splash_priority: self.splash_priority,
            direction_modifier: self.direction_modifier,
            on_defend: self.on_defend,
            custom_columns: named_mods_view(self.custom_columns@),
        }
    }
}

/// The columns of the AttackPowered table; other header names are columns of the table's own.
#[derive(Debug, Clone, Copy, PartialEq, Eq, Structural, Hash)]
pub enum AttackPoweredConfigHeader {
    Filter,
    AttackPriority,
    SplashRange,
    Targeting,
    AllowsCounterAttack,
    SplashPriority,
    DirectionModifier,
    OnAttack,
    OnDefend,
}

impl Listable for AttackPoweredConfigHeader {
    open spec fn spec_list() -> Seq<Self> {
        seq![Self::Filter, Self::AttackPriority, Self::SplashRange, Self::Targeting, Self::AllowsCounterAttack, Self::SplashPriority, Self::DirectionModifier, Self::OnAttack, Self::OnDefend]
    }

    open spec fn spec_name(self) -> Seq<char> {
        match self {
            Self::Filter => "Filter"@,
            Self::AttackPriority => "AttackPriority"@,
            Self::SplashRange => "SplashRange"@,
            Self::Targeting => "Targeting"@,
            Self::AllowsCounterAttack => "AllowsCounterAttack"@,
            Self::SplashPriority => "SplashPriority"@,
            Self::DirectionModifier => "DirectionModifier"@,
            Self::OnAttack => "OnAttack"@,
            Self::OnDefend => "OnDefend"@,
        }
    }

    open spec fn spec_kind_name() -> Seq<char> {
        "AttackPoweredConfigHeader"@
    }

    fn list() -> (r: Vec<Self>) {
        vec![Self::Filter, Self::AttackPriority, Self::SplashRange, Self::Targeting, Self::AllowsCounterAttack, Self::SplashPriority, Self::DirectionModifier, Self::OnAttack, Self::OnDefend]
    }

    fn name(&self) -> (r: &'static str) {
        match self {
            Self::Filter => "Filter",
            Self::AttackPriority => "AttackPriority",
            Self::SplashRange => "SplashRange",
            Self::Targeting => "Targeting",
            Self::AllowsCounterAttack => "AllowsCounterAttack",
            Self::SplashPriority => "SplashPriority",
            Self::DirectionModifier => "DirectionModifier",
            Self::OnAttack => "OnAttack",
            Self::OnDefend => "OnDefend",
        }
    }

    fn kind_name() -> (r: &'static str) {
        "AttackPoweredConfigHeader"
    }
}

impl FromConfig for AttackPoweredConfigHeader {
    open spec fn spec_from_conf(s: Seq<char>, names: LoaderNames) -> Result<(Self, Seq<char>), ConfigError> {
        spec_listed_from_conf::<Self>(s)
    }

    fn from_conf<'a>(s: &'a [char], loader: &FileLoader) -> (r: Result<(Self, &'a [char]), ConfigParseError>) {
        listed_from_conf(s)
    }
}

impl TableHeader for AttackPoweredConfigHeader {
    open spec fn spec_takes_custom() -> bool {
        true
    }

    fn takes_custom() -> (b: bool) {
        true
    }

    open spec fn spec_column(self) -> nat {
        match self {
            Self::Filter => 0,
            Self::AttackPriority => 1,
            Self::SplashRange => 2,
            Self::Targeting => 3,
            Self::AllowsCounterAttack => 4,
            Self::SplashPriority => 5,
            Self::DirectionModifier => 6,
            Self::OnAttack => 7,
            Self::OnDefend => 8,
        }
    }

    open spec fn spec_count() -> nat {
        9
    }

    fn column(self) -> (r: usize) {
        match self {
            Self::Filter => 0,
            Self::AttackPriority => 1,
            Self::SplashRange => 2,
            Self::Targeting => 3,
            Self::AllowsCounterAttack => 4,
            Self::SplashPriority => 5,
            Self::DirectionModifier => 6,
            Self::OnAttack => 7,
            Self::OnDefend => 8,
        }
    }

    fn count() -> (r: usize) {
        9
    }
}

/// The attack filters in the `Filter` column: none without the column,
/// else the list in the cell.
pub open spec fn spec_attack_filters_cell(row: Seq<Option<Seq<char>>>, names: LoaderNames) -> (Result<Seq<AttackFilterView>, ConfigError>, LoaderNames) {
    match cell(row, 0) {
        None => (Ok(seq![]), names),
        Some(v) => {
            let (r, n) = spec_attack_filter_list(v, false, names);
            (match r {
                Ok((items, _)) => Ok(items),
                Err(e) => Err(e),
            }, n)
        },
    }
}

/// The cells after the filters and the number changes, read in the order
/// targeting, counter attacks, splash priority, direction modifier, defend
/// script.
pub open spec fn spec_powered_attack_rest(
    row: Seq<Option<Seq<char>>>,
    names: LoaderNames,
    custom_columns: Seq<(Seq<char>, NumberMod<Fraction>)>,
    affects: Seq<AttackFilterView>,
    attack_priority: NumberMod<i8>,
    splash_range: NumberMod<u8>,
) -> (Result<AttackPoweredConfigView, ConfigError>, LoaderNames) {
    match spec_optional_cell::<AttackTargetingFocus>(row, 3, names) {
        Err(e) => (Err(e), names),
        Ok(focus) => match spec_optional_bool_cell(row, 4) {
            Err(e) => (Err(e), names),
            Ok(allows_counter_attack) => {
                let (sp, n1) = spec_mod_cell::<Fraction>(row, 5, names);
                match sp {
                    Err(e) => (Err(e), n1),
                    Ok(splash_priority) => match spec_optional_cell::<DisplaceDirectionModifier>(row, 6, n1) {
                        Err(e) => (Err(e), n1),
                        Ok(direction_modifier) => {
                            let (d, n2) = spec_script_cell(row, 8, n1);
                            (match d {
                                Err(e) => Err(e),
                                Ok(on_defend) => Ok(AttackPoweredConfigView {
                                    affects,
                                    attack_priority,
                                    splash_range,
                                    focus,
                                    allows_counter_attack,
                                    splash_priority,
                                    direction_modifier,
                                    on_defend,
                                    custom_columns,
                                }),
                            }, n2)
                        },
                    },
                }
            },
        },
    }
}

impl AttackPoweredConfig {
    fn filters_cell(row: &TableRow, loader: &mut FileLoader) -> (r: Result<Vec<AttackFilter>, ConfigParseError>)
        ensures
            (match r { Ok(v) => Ok(attack_filters_view(v@)), Err(e) => Err(e@) }, final(loader)@) == spec_attack_filters_cell(row@, old(loader)@),
    {
        match row.get(0) {
            None => {
                let v: Vec<AttackFilter> = Vec::new();
                assert(attack_filters_view(v@) =~= seq![]);
                Ok(v)
            },
            Some(text) => match AttackFilter::filter_list(text, false, loader) {
                Ok((items, _)) => Ok(items),
                Err(e) => Err(e),
            },
        }
    }

    /// The change of the value in the table's own column `column_name`.
    pub fn get_fraction(&self, column_name: &str) -> (r: NumberMod<Fraction>)
        ensures
            r == spec_named_mod(named_mods_view(self.custom_columns@), column_name@),
    {
        named_mod(&self.custom_columns, column_name)
    }
}

impl TableLine for AttackPoweredConfig {
    type Header = AttackPoweredConfigHeader;

    /// The table's own columns are read first (see `spec_custom_mods`),
    /// then the filters, the attack priority and the splash range, then
    /// the rest (see `spec_powered_attack_rest`).
    open spec fn spec_parse(row: Seq<Option<Seq<char>>>, custom: Seq<(Seq<char>, Seq<char>)>, names: LoaderNames) -> (Result<AttackPoweredConfigView, ConfigError>, LoaderNames) {
        let (cm, n0) = spec_custom_mods(custom, names, custom.len());
        match cm {
            Err(e) => (Err(e), n0),
            Ok(custom_columns) => {
                let (f, n1) = spec_attack_filters_cell(row, n0);
                match f {
                    Err(e) => (Err(e), n1),
                    Ok(affects) => {
                        let (ap, n2) = spec_mod_cell::<i8>(row, 1, n1);
                        match ap {
                            Err(e) => (Err(e), n2),
                            Ok(attack_priority) => {
                                let (sr, n3) = spec_mod_cell::<u8>(row, 2, n2);
                                match sr {
                                    Err(e) => (Err(e), n3),
                                    Ok(splash_range) => spec_powered_attack_rest(row, n3, custom_columns, affects, attack_priority, splash_range),
                                }
                            },
                        }
                    },
                }
            },
        }
    }

    /// Every line that reads is valid.
    open spec fn spec_validation(line: AttackPoweredConfigView) -> Result<(), ConfigError> {
        Ok(())
    }

    fn parse(row: &TableRow, loader: &mut FileLoader) -> (r: Result<Self, ConfigParseError>) {
        let custom_columns = match custom_mods(row, loader) {
            Err(e) => return Err(e),
            Ok(v) => v,
        };
        let affects = match Self::filters_cell(row, loader) {
            Err(e) => return Err(e),
            Ok(v) => v,
        };
        let attack_priority = match mod_cell::<i8>(row, 1, loader) {
            Err(e) => return Err(e),
            Ok(v) => v,
        };
        let splash_range = match mod_cell::<u8>(row, 2, loader) {
            Err(e) => return Err(e),
            Ok(v) => v,
        };
        let focus = match parse_optional::<AttackTargetingFocus>(row, 3, loader) {
            Err(e) => return Err(e),
            Ok(v) => v,
        };
        let allows_counter_attack = match parse_optional_bool(row, 4) {
            Err(e) => return Err(e),
            Ok(v) => v,
        };
        let splash_priority = match mod_cell::<Fraction>(row, 5, loader) {
            Err(e) => return Err(e),
            Ok(v) => v,
        };
        let direction_modifier = match parse_optional::<DisplaceDirectionModifier>(row, 6, loader) {
            Err(e) => return Err(e),
            Ok(v) => v,
        };
        let on_defend = match script_cell(row, 8, loader) {
            Err(e) => return Err(e),
            Ok(v) => v,
        };
        Ok(AttackPoweredConfig {
            affects,
            attack_priority,
            splash_range,
            focus,
            allows_counter_attack,
            splash_priority,
            direction_modifier,
            on_defend,
            custom_columns,
        })
    }

    fn simple_validation(&self) -> (r: Result<(), ConfigParseError>) {
        Ok(())
    }
}

} // verus!
