use vstd::prelude::*;

use crate::combat::{spec_attack_type_parse_new, AttackTargetingFocus, AttackType, DisplaceDirectionModifier};
use crate::config::attack_filter::{attack_filters_view, spec_attack_filter_list, AttackFilter, AttackFilterView};
use crate::config::file_loader::{spec_register, spec_rhai_step, FileLoader, LoaderNames};
use crate::config::listing::{is_word, listed_from_conf, spec_listed_from_conf, str_chars, Listable};
use crate::config::number_modification::{custom_mods, named_mod, named_mods_view, spec_custom_mods, spec_named_mod, NumberMod};
use crate::config::parse::{spec_string_from_conf, string_from_conf, FromConfig};
use crate::config::table::{cell, custom_view, parse, parse_def, spec_parse_cell, TableHeader, TableLine, TableRow};
use crate::config::text::{spec_trim, to_string, trim};
use crate::config::{ConfigError, ConfigParseError};
use crate::fraction::Fraction;
use crate::splash_damage::{spec_point_source_from_conf, SplashDamageDirectionSource, SplashDamagePointSource, SplashPattern, SplashType};

verus! {

/// An attack as the attack table declares it.
#[derive(Debug)]
pub struct AttackConfig {
    pub attack_type: AttackType,
    /// the text of the condition under which the attack applies, until it
    /// is read once every attack type is known
    pub unparsed_condition: String,
    pub condition: Vec<AttackFilter>,
    pub priority: i8,
    pub splash_type: SplashType,
    pub splash_pattern: SplashPattern,
    pub splash_range: u8,
    pub focus: AttackTargetingFocus,
    /// the table's own columns: name and trimmed text
    pub custom_columns: Vec<(String, String)>,
}

pub struct AttackConfigView {
    pub attack_type: AttackType,
    pub unparsed_condition: Seq<char>,
    pub condition: Seq<AttackFilterView>,
    pub priority: i8,
    pub splash_type: SplashType,
    pub splash_pattern: SplashPattern,
    pub splash_range: u8,
    pub focus: AttackTargetingFocus,
    pub custom_columns: Seq<(Seq<char>, Seq<char>)>,
}

pub open spec fn text_pairs_view(v: Seq<(String, String)>) -> Seq<(Seq<char>, Seq<char>)> {
    v.map_values(|p: (String, String)| (p.0@, p.1@))
}

impl View for AttackConfig {
    type V = AttackConfigView;

    open spec fn view(&self) -> AttackConfigView {
        AttackConfigView {
            attack_type: self.attack_type,
            unparsed_condition: self.unparsed_condition@,
            condition: attack_filters_view(self.condition@),
            priority: self.priority,
            splash_type: self.splash_type,
            splash_pattern: self.splash_pattern,
            splash_range: self.splash_range,
            focus: self.focus,
            custom_columns: text_pairs_view(self.custom_columns@),
        }
    }
}

/// The columns of the attack table; other header names are columns of the
/// table's own.
#[derive(Debug, Clone, Copy, PartialEq, Eq, Structural, Hash)]
pub enum AttackConfigHeader {
    AttackType,
    Condition,
    Priority,
    SplashRange,
    SplashPattern,
    SplashDirection,
    Targeting,
    SplashType,
}

impl Listable for AttackConfigHeader {
    open spec fn spec_list() -> Seq<Self> {
        seq![
            Self::AttackType,
            Self::Condition,
            Self::Priority,
            Self::SplashRange,
            Self::SplashPattern,
            Self::SplashDirection,
            Self::Targeting,
            Self::SplashType,
        ]
    }

    open spec fn spec_name(self) -> Seq<char> {
        match self {
            Self::AttackType => "AttackType"@,
            Self::Condition => "Condition"@,
            Self::Priority => "Priority"@,
            Self::SplashRange => "SplashRange"@,
            Self::SplashPattern => "SplashPattern"@,
            Self::SplashDirection => "SplashDirection"@,
            Self::Targeting => "Targeting"@,
            Self::SplashType => "SplashType"@,
        }
    }

    open spec fn spec_kind_name() -> Seq<char> {
        "AttackConfigHeader"@
    }

    fn list() -> (r: Vec<Self>) {
        vec![
            Self::AttackType,
            Self::Condition,
            Self::Priority,
            Self::SplashRange,
            Self::SplashPattern,
            Self::SplashDirection,
            Self::Targeting,
            Self::SplashType,
        ]
    }

    fn name(&self) -> (r: &'static str) {
        match self {
            Self::AttackType => "AttackType",
            Self::Condition => "Condition",
            Self::Priority => "Priority",
            Self::SplashRange => "SplashRange",
            Self::SplashPattern => "SplashPattern",
            Self::SplashDirection => "SplashDirection",
            Self::Targeting => "Targeting",
            Self::SplashType => "SplashType",
        }
    }

    fn kind_name() -> (r: &'static str) {
        "AttackConfigHeader"
    }
}

impl FromConfig for AttackConfigHeader {
    open spec fn spec_from_conf(s: Seq<char>, names: LoaderNames) -> Result<(Self, Seq<char>), ConfigError> {
        spec_listed_from_conf::<Self>(s)
    }

    fn from_conf<'a>(s: &'a [char], loader: &FileLoader) -> (r: Result<(Self, &'a [char]), ConfigParseError>) {
        listed_from_conf(s)
    }
}

impl TableHeader for AttackConfigHeader {
    open spec fn spec_takes_custom() -> bool {
        true
    }

    fn takes_custom() -> (b: bool) {
        true
    }

    open spec fn spec_column(self) -> nat {
        match self {
            Self::AttackType => 0,
            Self::Condition => 1,
            Self::Priority => 2,
            Self::SplashRange => 3,
            Self::SplashPattern => 4,
            Self::SplashDirection => 5,
            Self::Targeting => 6,
            Self::SplashType => 7,
        }
    }

    open spec fn spec_count() -> nat {
        8
    }

    fn column(self) -> (r: usize) {
        match self {
            Self::AttackType => 0,
            Self::Condition => 1,
            Self::Priority => 2,
            Self::SplashRange => 3,
            Self::SplashPattern => 4,
            Self::SplashDirection => 5,
            Self::Targeting => 6,
            Self::SplashType => 7,
        }
    }

    fn count() -> (r: usize) {
        8
    }
}

/// The condition text: empty without the column or for an empty cell,
/// else the text up to the first `,` or `)`, trimmed.
pub open spec fn spec_condition_cell(row: Seq<Option<Seq<char>>>, key: int) -> Seq<char> {
    match cell(row, key) {
        None => seq![],
        Some(v) => if v.len() == 0 {
            seq![]
        } else {
            spec_string_from_conf(v).0
        },
    }
}

/// Where the splash lands: the attack pattern without the column or for an
/// empty cell, else what the cell reads as.
pub open spec fn spec_points_cell(row: Seq<Option<Seq<char>>>, names: LoaderNames) -> (Result<SplashDamagePointSource, ConfigError>, LoaderNames) {
    match cell(row, 4) {
        None => (Ok(SplashDamagePointSource::AttackPattern), names),
        Some(v) => if v.len() == 0 {
            (Ok(SplashDamagePointSource::AttackPattern), names)
        } else {
            let (r, n) = spec_point_source_from_conf(v, names);
            (match r {
                Ok((p, _)) => Ok(p),
                Err(e) => Err(e),
            }, n)
        },
    }
}

/// The table's own columns of a line, their text trimmed.
pub open spec fn spec_custom_columns(custom: Seq<(Seq<char>, Seq<char>)>) -> Seq<(Seq<char>, Seq<char>)> {
    custom.map_values(|c: (Seq<char>, Seq<char>)| (c.0, spec_trim(c.1)))
}

/// The rest of a line once its attack type is known: the cells are read in
/// the order priority, splash pattern, splash direction, splash range,
/// targeting, splash type; the first that can't be read is the error.
pub open spec fn spec_attack_rest(
    row: Seq<Option<Seq<char>>>,
    custom: Seq<(Seq<char>, Seq<char>)>,
    names: LoaderNames,
    attack_type: AttackType,
) -> (Result<AttackConfigView, ConfigError>, LoaderNames) {
    match spec_parse_cell::<i8>(row, 2, Some(0i8), names) {
        Err(e) => (Err(e), names),
        Ok(priority) => {
            let (p, n) = spec_points_cell(row, names);
            (match p {
                Err(e) => Err(e),
                Ok(points) => match spec_parse_cell::<SplashDamageDirectionSource>(row, 5, Some(SplashDamageDirectionSource::AttackInput), n) {
                    Err(e) => Err(e),
                    Ok(directions) => match spec_parse_cell::<u8>(row, 3, Some(0u8), n) {
                        Err(e) => Err(e),
                        Ok(splash_range) => match spec_parse_cell::<AttackTargetingFocus>(row, 6, Some(AttackTargetingFocus::Unit), n) {
                            Err(e) => Err(e),
                            Ok(focus) => match spec_parse_cell::<SplashType>(row, 7, None, n) {
                                Err(e) => Err(e),
                                Ok(splash_type) => Ok(AttackConfigView {
                                    attack_type,
                                    unparsed_condition: spec_condition_cell(row, 1),
                                    condition: seq![],
                                    priority,
                                    splash_type,
                                    splash_pattern: SplashPattern { points, directions },
                                    splash_range,
                                    focus,
                                    custom_columns: spec_custom_columns(custom),
                                }),
                            },
                        },
                    },
                },
            }, n)
        },
    }
}

fn condition_cell(row: &TableRow, key: usize) -> (r: String)
    ensures
        r@ == spec_condition_cell(row@, key as int),
{
    match row.get(key) {
        None => String::new(),
        Some(v) => if v.len() == 0 {
            String::new()
        } else {
            string_from_conf(v).0
        },
    }
}

fn points_cell(row: &TableRow, loader: &mut FileLoader) -> (r: Result<SplashDamagePointSource, ConfigParseError>)
    ensures
        (match r { Ok(p) => Ok(p), Err(e) => Err(e@) }, final(loader)@) == spec_points_cell(row@, old(loader)@),
{
    match row.get(4) {
        None => Ok(SplashDamagePointSource::AttackPattern),
        Some(v) => if v.len() == 0 {
            Ok(SplashDamagePointSource::AttackPattern)
        } else {
            match SplashDamagePointSource::from_conf(v, loader) {
                Ok((p, _)) => Ok(p),
                Err(e) => Err(e),
            }
        },
    }
}

/// The columns that a table line carries beyond its known headers, as
/// pairs of column name and trimmed cell text, in header order.
pub fn custom_columns(custom: &Vec<(Vec<char>, Vec<char>)>) -> (r: Vec<(String, String)>)
    ensures
        text_pairs_view(r@) == spec_custom_columns(custom_view(custom@)),
{
    let mut r: Vec<(String, String)> = Vec::new();
    let mut i: usize = 0;
    while i < custom.len()
        invariant
            i <= custom@.len(),
            text_pairs_view(r@) == spec_custom_columns(custom_view(custom@)).take(i as int),
        decreases custom.len() - i,
    {
        let ghost before = text_pairs_view(r@);
        let name = to_string(custom[i].0.as_slice());
        let text = to_string(trim(custom[i].1.as_slice()));
        assert(custom_view(custom@)[i as int] == (custom@[i as int].0@, custom@[i as int].1@));
        r.push((name, text));
        assert(text_pairs_view(r@) =~= before.push((name@, text@)));
        assert(text_pairs_view(r@) =~= spec_custom_columns(custom_view(custom@)).take(i + 1));
        i += 1;
    }
    assert(spec_custom_columns(custom_view(custom@)).take(custom@.len() as int) =~= spec_custom_columns(custom_view(custom@)));
    r
}

impl TableLine for AttackConfig {
    type Header = AttackConfigHeader;

    /// The `AttackType` cell declares the attack type (the column is
    /// needed); the condition is kept as text; the splash type column is
    /// needed, the other cells have defaults. See `spec_attack_rest` for
    /// the order in which the cells are read.
    open spec fn spec_parse(row: Seq<Option<Seq<char>>>, custom: Seq<(Seq<char>, Seq<char>)>, names: LoaderNames) -> (Result<AttackConfigView, ConfigError>, LoaderNames) {
        match cell(row, 0) {
            None => (Err(ConfigError::MissingColumn(0)), names),
            Some(v) => {
                let (t, n) = spec_attack_type_parse_new(v, names);
                match t {
                    Err(e) => (Err(e), n),
                    Ok(attack_type) => spec_attack_rest(row, custom, n, attack_type),
                }
            },
        }
    }

    /// Every line that reads is valid.
    open spec fn spec_validation(line: AttackConfigView) -> Result<(), ConfigError> {
        Ok(())
    }

    fn parse(row: &TableRow, loader: &mut FileLoader) -> (r: Result<Self, ConfigParseError>) {
        let custom_columns = custom_columns(&row.custom);
        let attack_type = match row.get(0) {
            None => return Err(ConfigParseError::MissingColumn(0)),
            Some(v) => match AttackType::parse_new(v, loader) {
                Err(e) => return Err(e),
                Ok(t) => t,
            },
        };
        let unparsed_condition = condition_cell(row, 1);
        let priority = match parse_def::<i8>(row, 2, 0, loader) {
            Err(e) => return Err(e),
            Ok(v) => v,
        };
        let points = match points_cell(row, loader) {
            Err(e) => return Err(e),
            Ok(p) => p,
        };
        let directions = match parse_def::<SplashDamageDirectionSource>(row, 5, SplashDamageDirectionSource::AttackInput, loader) {
            Err(e) => return Err(e),
            Ok(v) => v,
        };
        let splash_range = match parse_def::<u8>(row, 3, 0, loader) {
            Err(e) => return Err(e),
            Ok(v) => v,
        };
        let focus = match parse_def::<AttackTargetingFocus>(row, 6, AttackTargetingFocus::Unit, loader) {
            Err(e) => return Err(e),
            Ok(v) => v,
        };
        let splash_type = match parse::<SplashType>(row, 7, loader) {
            Err(e) => return Err(e),
            Ok(v) => v,
        };
        let condition: Vec<AttackFilter> = Vec::new();
        assert(attack_filters_view(condition@) =~= seq![]);
        Ok(AttackConfig {
            attack_type,
            unparsed_condition,
            condition,
            priority,
            splash_type,
            splash_pattern: SplashPattern { points, directions },
            splash_range,
            focus,
            custom_columns,
        })
    }

    fn simple_validation(&self) -> (r: Result<(), ConfigParseError>) {
        Ok(())
    }
}

impl AttackConfig {
    /// Reads the condition, once every attack type is known: the text is
    /// taken out and read as a list of attack filters; where it can't be
    /// read, the condition stays as it was.
    pub fn parse_deferred(&mut self, loader: &mut FileLoader) -> (r: Result<(), ConfigParseError>)
        ensures
            ({
                let (res, n) = spec_attack_filter_list(old(self)@.unparsed_condition, false, old(loader)@);
                &&& final(loader)@ == n
                &&& match res {
                    Ok((items, _)) => r is Ok && final(self)@ == AttackConfigView { unparsed_condition: seq![], condition: items, ..old(self)@ },
                    Err(e) => r matches Err(e2) && e2@ == e && final(self)@ == AttackConfigView { unparsed_condition: seq![], ..old(self)@ },
                }
            }),
    {
        let text = str_chars(self.unparsed_condition.as_str());
        self.unparsed_condition = String::new();
        match AttackFilter::filter_list(text.as_slice(), false, loader) {
            Ok((items, _)) => {
                self.condition = items;
                Ok(())
            },
            Err(e) => Err(e),
        }
    }
}

/// What a splash does to the unit it hits.
#[derive(Debug, Clone, Copy, PartialEq, Eq, Structural)]
pub enum AttackInstanceScript {
    /// pushes the unit `distance` fields away; up to `push_limit` more units
    /// in the way are pushed along, unless the unit is thrown over them
    Displace { distance: Fraction, push_limit: Fraction, throw: bool },
    /// a script function builds the effect
    Rhai { build_script: usize },
}

/// A splash of an attack as the splash table declares it.
#[derive(Debug)]
pub struct AttackSplashConfig {
    pub splash_type: SplashType,
    /// the text of the condition under which the splash applies, until it
    /// is read once every splash type is known
    pub unparsed_condition: String,
    pub condition: Vec<AttackFilter>,
    pub allows_counter_attack: bool,
    pub priority: Fraction,
    pub direction_modifier: DisplaceDirectionModifier,
    pub script: AttackInstanceScript,
    /// changes of the values in the table's own columns, by column name
    pub custom_columns: Vec<(String, NumberMod<Fraction>)>,
}

pub struct AttackSplashConfigView {
    pub splash_type: SplashType,
    pub unparsed_condition: Seq<char>,
    pub condition: Seq<AttackFilterView>,
    pub allows_counter_attack: bool,
    pub priority: Fraction,
    pub direction_modifier: DisplaceDirectionModifier,
    pub script: AttackInstanceScript,
    pub custom_columns: Seq<(Seq<char>, NumberMod<Fraction>)>,
}

impl View for AttackSplashConfig {
    type V = AttackSplashConfigView;

    open spec fn view(&self) -> AttackSplashConfigView {
        AttackSplashConfigView {
            splash_type: self.splash_type,
            unparsed_condition: self.unparsed_condition@,
            condition: attack_filters_view(self.condition@),
            allows_counter_attack: self.allows_counter_attack,
            priority: self.priority,
            direction_modifier: self.direction_modifier,
            script: self.script,
            custom_columns: named_mods_view(self.custom_columns@),
        }
    }
}

/// The columns of the splash table; other header names are columns of the
/// table's own.
#[derive(Debug, Clone, Copy, PartialEq, Eq, Structural, Hash)]
pub enum AttackSplashConfigHeader {
    SplashType,
    Priority,
    AllowsCounterAttack,
    DirectionModifier,
    Condition,
    Script,
    PushDistance,
    PushLimit,
    Throw,
}

impl Listable for AttackSplashConfigHeader {
    open spec fn spec_list() -> Seq<Self> {
        seq![
            Self::SplashType,
            Self::Priority,
            Self::AllowsCounterAttack,
            Self::DirectionModifier,
            Self::Condition,
            Self::Script,
            Self::PushDistance,
            Self::PushLimit,
            Self::Throw,
        ]
    }

    open spec fn spec_name(self) -> Seq<char> {
        match self {
            Self::SplashType => "SplashType"@,
            Self::Priority => "Priority"@,
            Self::AllowsCounterAttack => "AllowsCounterAttack"@,
            Self::DirectionModifier => "DirectionModifier"@,
            Self::Condition => "Condition"@,
            Self::Script => "Script"@,
            Self::PushDistance => "PushDistance"@,
            Self::PushLimit => "PushLimit"@,
            Self::Throw => "Throw"@,
        }
    }

    open spec fn spec_kind_name() -> Seq<char> {
        "AttackSplashConfigHeader"@
    }

    fn list() -> (r: Vec<Self>) {
        vec![
            Self::SplashType,
            Self::Priority,
            Self::AllowsCounterAttack,
            Self::DirectionModifier,
            Self::Condition,
            Self::Script,
            Self::PushDistance,
            Self::PushLimit,
            Self::Throw,
        ]
    }

    fn name(&self) -> (r: &'static str) {
        match self {
            Self::SplashType => "SplashType",
            Self::Priority => "Priority",
            Self::AllowsCounterAttack => "AllowsCounterAttack",
            Self::DirectionModifier => "DirectionModifier",
            Self::Condition => "Condition",
            Self::Script => "Script",
            Self::PushDistance => "PushDistance",
            Self::PushLimit => "PushLimit",
            Self::Throw => "Throw",
        }
    }

    fn kind_name() -> (r: &'static str) {
        "AttackSplashConfigHeader"
    }
}

impl FromConfig for AttackSplashConfigHeader {
    open spec fn spec_from_conf(s: Seq<char>, names: LoaderNames) -> Result<(Self, Seq<char>), ConfigError> {
        spec_listed_from_conf::<Self>(s)
    }

    fn from_conf<'a>(s: &'a [char], loader: &FileLoader) -> (r: Result<(Self, &'a [char]), ConfigParseError>) {
        listed_from_conf(s)
    }
}

impl TableHeader for AttackSplashConfigHeader {
    open spec fn spec_takes_custom() -> bool {
        true
    }

    fn takes_custom() -> (b: bool) {
        true
    }

    open spec fn spec_column(self) -> nat {
        match self {
            Self::SplashType => 0,
            Self::Priority => 1,
            Self::AllowsCounterAttack => 2,
            Self::DirectionModifier => 3,
            Self::Condition => 4,
            Self::Script => 5,
            Self::PushDistance => 6,
            Self::PushLimit => 7,
            Self::Throw => 8,
        }
    }

    open spec fn spec_count() -> nat {
        9
    }

    fn column(self) -> (r: usize) {
        match self {
            Self::SplashType => 0,
            Self::Priority => 1,
            Self::AllowsCounterAttack => 2,
            Self::DirectionModifier => 3,
            Self::Condition => 4,
            Self::Script => 5,
            Self::PushDistance => 6,
            Self::PushLimit => 7,
            Self::Throw => 8,
        }
    }

    fn count() -> (r: usize) {
        9
    }
}

/// What the splash does, by the trimmed `Script` cell (the column is
/// needed): `Displace`, with its distance (1 by default), push limit (0 by
/// default) and whether it throws (not by default); else the script
/// function named there, without parameters.
pub open spec fn spec_splash_script(row: Seq<Option<Seq<char>>>, names: LoaderNames) -> (Result<AttackInstanceScript, ConfigError>, LoaderNames) {
    match cell(row, 5) {
        None => (Err(ConfigError::MissingColumn(5)), names),
        Some(v) => {
            let t = spec_trim(v);
            if t == "Displace"@ {
                (match spec_parse_cell::<Fraction>(row, 6, Some(Fraction::spec_from_integer(1)), names) {
                    Err(e) => Err(e),
                    Ok(distance) => match spec_parse_cell::<Fraction>(row, 7, Some(Fraction::spec_from_integer(0)), names) {
                        Err(e) => Err(e),
                        Ok(push_limit) => match spec_parse_cell::<bool>(row, 8, Some(false), names) {
                            Err(e) => Err(e),
                            Ok(throw) => Ok(AttackInstanceScript::Displace { distance, push_limit, throw }),
                        },
                    },
                }, names)
            } else {
                let (f, n) = spec_rhai_step(names, t, 0, 0);
                (match f {
                    Ok(p) => Ok(AttackInstanceScript::Rhai { build_script: p.index }),
                    Err(e) => Err(e),
                }, n)
            }
        },
    }
}

/// The splash type that the `SplashType` cell declares (the column is
/// needed): an empty name is `NameTooShort`; a known name gives its index,
/// an unknown one is added to the loader's splash types.
pub open spec fn spec_splash_type_cell(row: Seq<Option<Seq<char>>>, names: LoaderNames) -> (Result<SplashType, ConfigError>, LoaderNames) {
    match cell(row, 0) {
        None => (Err(ConfigError::MissingColumn(0)), names),
        Some(v) => if v.len() == 0 {
            (Err(ConfigError::NameTooShort), names)
        } else {
            let (i, ns) = spec_register(names.splash_types, v);
            (Ok(SplashType(i as usize)), LoaderNames { splash_types: ns, ..names })
        },
    }
}

/// The cells after the splash type, read in the order condition, counter
/// attacks, priority, direction modifier.
pub open spec fn spec_splash_rest(
    row: Seq<Option<Seq<char>>>,
    names: LoaderNames,
    script: AttackInstanceScript,
    custom_columns: Seq<(Seq<char>, NumberMod<Fraction>)>,
    splash_type: SplashType,
) -> Result<AttackSplashConfigView, ConfigError> {
    match spec_parse_cell::<bool>(row, 2, Some(false), names) {
        Err(e) => Err(e),
        Ok(allows_counter_attack) => match spec_parse_cell::<Fraction>(row, 1, Some(Fraction::spec_from_integer(0)), names) {
            Err(e) => Err(e),
            Ok(priority) => match spec_parse_cell::<DisplaceDirectionModifier>(row, 3, Some(DisplaceDirectionModifier::Keep), names) {
                Err(e) => Err(e),
                Ok(direction_modifier) => Ok(AttackSplashConfigView {
                    splash_type,
                    unparsed_condition: spec_condition_cell(row, 4),
                    condition: seq![],
                    allows_counter_attack,
                    priority,
                    direction_modifier,
                    script,
                    custom_columns,
                }),
            },
        },
    }
}

impl AttackSplashConfig {
    fn script_cell(row: &TableRow, loader: &mut FileLoader) -> (r: Result<AttackInstanceScript, ConfigParseError>)
        ensures
            (match r { Ok(s) => Ok(s), Err(e) => Err(e@) }, final(loader)@) == spec_splash_script(row@, old(loader)@),
    {
        let v = match row.get(5) {
            None => return Err(ConfigParseError::MissingColumn(5)),
            Some(v) => v,
        };
        let t = trim(v);
        if is_word(t, "Displace") {
            let distance = match parse_def::<Fraction>(row, 6, Fraction::from_integer(1), loader) {
                Err(e) => return Err(e),
                Ok(d) => d,
            };
            let push_limit = match parse_def::<Fraction>(row, 7, Fraction::from_integer(0), loader) {
                Err(e) => return Err(e),
                Ok(p) => p,
            };
            let throw = match parse_def::<bool>(row, 8, false, loader) {
                Err(e) => return Err(e),
                Ok(t) => t,
            };
            Ok(AttackInstanceScript::Displace { distance, push_limit, throw })
        } else {
            match loader.rhai_function(t, 0, 0) {
                Ok(p) => Ok(AttackInstanceScript::Rhai { build_script: p.index }),
                Err(e) => Err(e),
            }
        }
    }

    fn splash_type_cell(row: &TableRow, loader: &mut FileLoader) -> (r: Result<SplashType, ConfigParseError>)
        ensures
            (match r { Ok(t) => Ok(t), Err(e) => Err(e@) }, final(loader)@) == spec_splash_type_cell(row@, old(loader)@),
    {
        match row.get(0) {
            None => Err(ConfigParseError::MissingColumn(0)),
            Some(v) => if v.len() == 0 {
                Err(ConfigParseError::NameTooShort)
            } else {
                Ok(SplashType(loader.register_splash_type(v)))
            },
        }
    }

    /// The change of the value in the table's own column `column_name`.
    pub fn get_fraction(&self, column_name: &str) -> (r: NumberMod<Fraction>)
        ensures
            r == spec_named_mod(named_mods_view(self.custom_columns@), column_name@),
    {
        named_mod(&self.custom_columns, column_name)
    }

    /// Reads the condition, once every splash type is known: the text is
    /// taken out and read as a list of attack filters; where it can't be
    /// read, the condition stays as it was.
    pub fn parse_deferred(&mut self, loader: &mut FileLoader) -> (r: Result<(), ConfigParseError>)
        ensures
            ({
                let (res, n) = spec_attack_filter_list(old(self)@.unparsed_condition, false, old(loader)@);
                &&& final(loader)@ == n
                &&& match res {
                    Ok((items, _)) => r is Ok && final(self)@ == AttackSplashConfigView { unparsed_condition: seq![], condition: items, ..old(self)@ },
                    Err(e) => r matches Err(e2) && e2@ == e && final(self)@ == AttackSplashConfigView { unparsed_condition: seq![], ..old(self)@ },
                }
            }),
    {
        let text = str_chars(self.unparsed_condition.as_str());
        self.unparsed_condition = String::new();
        match AttackFilter::filter_list(text.as_slice(), false, loader) {
            Ok((items, _)) => {
                self.condition = items;
                Ok(())
            },
            Err(e) => Err(e),
        }
    }
}

impl TableLine for AttackSplashConfig {
    type Header = AttackSplashConfigHeader;

    /// The script is read first (see `spec_splash_script`), then the
    /// table's own columns (see `spec_custom_mods`), then the splash type
    /// (see `spec_splash_type_cell`), then the rest (see
    /// `spec_splash_rest`); the condition is kept as text.
    open spec fn spec_parse(row: Seq<Option<Seq<char>>>, custom: Seq<(Seq<char>, Seq<char>)>, names: LoaderNames) -> (Result<AttackSplashConfigView, ConfigError>, LoaderNames) {
        let (sc, n1) = spec_splash_script(row, names);
        match sc {
            Err(e) => (Err(e), n1),
            Ok(script) => {
                let (cm, n2) = spec_custom_mods(custom, n1, custom.len());
                match cm {
                    Err(e) => (Err(e), n2),
                    Ok(custom_columns) => {
                        let (st, n3) = spec_splash_type_cell(row, n2);
                        match st {
                            Err(e) => (Err(e), n3),
                            Ok(splash_type) => (spec_splash_rest(row, n3, script, custom_columns, splash_type), n3),
                        }
                    },
                }
            },
        }
    }

    /// Every line that reads is valid.
    open spec fn spec_validation(line: AttackSplashConfigView) -> Result<(), ConfigError> {
        Ok(())
    }

    fn parse(row: &TableRow, loader: &mut FileLoader) -> (r: Result<Self, ConfigParseError>) {
        let script = match Self::script_cell(row, loader) {
            Err(e) => return Err(e),
            Ok(s) => s,
        };
        let custom_columns = match custom_mods(row, loader) {
            Err(e) => return Err(e),
            Ok(v) => v,
        };
        let splash_type = match Self::splash_type_cell(row, loader) {
            Err(e) => return Err(e),
            Ok(t) => t,
        };
        let unparsed_condition = condition_cell(row, 4);
        let allows_counter_attack = match parse_def::<bool>(row, 2, false, loader) {
            Err(e) => return Err(e),
            Ok(v) => v,
        };
        let priority = match parse_def::<Fraction>(row, 1, Fraction::from_integer(0), loader) {
            Err(e) => return Err(e),
            Ok(v) => v,
        };
        let direction_modifier = match parse_def::<DisplaceDirectionModifier>(row, 3, DisplaceDirectionModifier::Keep, loader) {
            Err(e) => return Err(e),
            Ok(v) => v,
        };
        let condition: Vec<AttackFilter> = Vec::new();
        assert(attack_filters_view(condition@) =~= seq![]);
        Ok(AttackSplashConfig {
            splash_type,
            unparsed_condition,
            condition,
            allows_counter_attack,
            priority,
            direction_modifier,
            script,
            custom_columns,
        })
    }

    fn simple_validation(&self) -> (r: Result<(), ConfigParseError>) {
        Ok(())
    }
}

} // verus!
