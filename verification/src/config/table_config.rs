use vstd::prelude::*;

use crate::config::file_loader::{FileLoader, LoaderNames};
use crate::config::listing::{first_named, first_named_from, listed_from_conf, spec_listed_from_conf, str_chars, Listable};
use crate::config::parse::FromConfig;
use crate::config::table::{cell, parse, spec_parse_cell, TableHeader, TableLine, TableRow};
use crate::config::table_file::{csv_records, message_view, records_view, spec_csv_records};
use crate::config::text::{spec_trim, text_eq, to_string, trim};
use crate::config::{ConfigError, ConfigParseError};
use crate::fraction::Fraction;
use crate::terrain::TerrainType;
use crate::units::{HeroType, MovementType, UnitType};

verus! {

/// The kind of values a custom table holds.
#[derive(Debug, Clone, Copy, PartialEq, Eq, Structural, Hash)]
pub enum TableType {
    Boolean,
    Int,
    Fraction,
}

impl Listable for TableType {
    open spec fn spec_list() -> Seq<Self> {
        seq![Self::Boolean, Self::Int, Self::Fraction]
    }

    open spec fn spec_name(self) -> Seq<char> {
        match self {
            Self::Boolean => "Boolean"@,
            Self::Int => "Int"@,
            Self::Fraction => "Fraction"@,
        }
    }

    open spec fn spec_kind_name() -> Seq<char> {
        "TableType"@
    }

    fn list() -> (r: Vec<Self>) {
        vec![Self::Boolean, Self::Int, Self::Fraction]
    }

    fn name(&self) -> (r: &'static str) {
        match self {
            Self::Boolean => "Boolean",
            Self::Int => "Int",
            Self::Fraction => "Fraction",
        }
    }

    fn kind_name() -> (r: &'static str) {
        "TableType"
    }
}

impl FromConfig for TableType {
    open spec fn spec_from_conf(s: Seq<char>, names: LoaderNames) -> Result<(Self, Seq<char>), ConfigError> {
        spec_listed_from_conf::<Self>(s)
    }

    fn from_conf<'a>(s: &'a [char], loader: &FileLoader) -> (r: Result<(Self, &'a [char]), ConfigParseError>) {
        listed_from_conf(s)
    }
}

/// What the rows or the columns of a custom table stand for.
#[derive(Debug, Clone, Copy, PartialEq, Eq, Structural, Hash)]
pub enum TableAxis {
    Unit,
    Terrain,
    Hero,
    Movement,
}

impl Listable for TableAxis {
    open spec fn spec_list() -> Seq<Self> {
        seq![Self::Unit, Self::Terrain, Self::Hero, Self::Movement]
    }

    open spec fn spec_name(self) -> Seq<char> {
        match self {
            Self::Unit => "Unit"@,
            Self::Terrain => "Terrain"@,
            Self::Hero => "Hero"@,
            Self::Movement => "Movement"@,
        }
    }

    open spec fn spec_kind_name() -> Seq<char> {
        "TableAxis"@
    }

    fn list() -> (r: Vec<Self>) {
        vec![Self::Unit, Self::Terrain, Self::Hero, Self::Movement]
    }

    fn name(&self) -> (r: &'static str) {
        match self {
            Self::Unit => "Unit",
            Self::Terrain => "Terrain",
            Self::Hero => "Hero",
            Self::Movement => "Movement",
        }
    }

    fn kind_name() -> (r: &'static str) {
        "TableAxis"
    }
}

impl FromConfig for TableAxis {
    open spec fn spec_from_conf(s: Seq<char>, names: LoaderNames) -> Result<(Self, Seq<char>), ConfigError> {
        spec_listed_from_conf::<Self>(s)
    }

    fn from_conf<'a>(s: &'a [char], loader: &FileLoader) -> (r: Result<(Self, &'a [char]), ConfigParseError>) {
        listed_from_conf(s)
    }
}

/// A value in a custom table.
#[derive(Debug, Clone, Copy, PartialEq, Eq, Structural, Hash)]
pub enum TableValue {
    Bool(bool),
    Int(i32),
    Fraction(Fraction),
}

/// A row or column key of a custom table.
#[derive(Debug, Clone, Copy, PartialEq, Eq, Structural, Hash)]
pub enum TableAxisKey {
    Unit(UnitType),
    Terrain(TerrainType),
    Hero(HeroType),
    Movement(MovementType),
}

/// The value a table of kind `typ` holds at the start of `s`.
pub open spec fn spec_value_from_conf(typ: TableType, s: Seq<char>, names: LoaderNames) -> Result<TableValue, ConfigError> {
    match typ {
        TableType::Boolean => match bool::spec_from_conf(s, names) {
            Ok((v, _)) => Ok(TableValue::Bool(v)),
            Err(e) => Err(e),
        },
        TableType::Int => match i32::spec_from_conf(s, names) {
            Ok((v, _)) => Ok(TableValue::Int(v)),
            Err(e) => Err(e),
        },
        TableType::Fraction => match Fraction::spec_from_conf(s, names) {
            Ok((v, _)) => Ok(TableValue::Fraction(v)),
            Err(e) => Err(e),
        },
    }
}

/// The key on an axis of kind `axis` at the start of `s`.
pub open spec fn spec_key_from_conf(axis: TableAxis, s: Seq<char>, names: LoaderNames) -> Result<TableAxisKey, ConfigError> {
    match axis {
        TableAxis::Unit => match UnitType::spec_from_conf(s, names) {
            Ok((v, _)) => Ok(TableAxisKey::Unit(v)),
            Err(e) => Err(e),
        },
        TableAxis::Terrain => match TerrainType::spec_from_conf(s, names) {
            Ok((v, _)) => Ok(TableAxisKey::Terrain(v)),
            Err(e) => Err(e),
        },
        TableAxis::Hero => match HeroType::spec_from_conf(s, names) {
            Ok((v, _)) => Ok(TableAxisKey::Hero(v)),
            Err(e) => Err(e),
        },
        TableAxis::Movement => match MovementType::spec_from_conf(s, names) {
            Ok((v, _)) => Ok(TableAxisKey::Movement(v)),
            Err(e) => Err(e),
        },
    }
}

impl TableValue {
    pub fn from_conf(typ: TableType, s: &[char], loader: &FileLoader) -> (r: Result<TableValue, ConfigParseError>)
        ensures
            match r {
                Ok(v) => spec_value_from_conf(typ, s@, loader@) == Ok::<TableValue, ConfigError>(v),
                Err(e) => spec_value_from_conf(typ, s@, loader@) == Err::<TableValue, ConfigError>(e@),
            },
    {
        match typ {
            TableType::Boolean => match bool::from_conf(s, loader) {
                Ok((v, _)) => Ok(TableValue::Bool(v)),
                Err(e) => Err(e),
            },
            TableType::Int => match i32::from_conf(s, loader) {
                Ok((v, _)) => Ok(TableValue::Int(v)),
                Err(e) => Err(e),
            },
            TableType::Fraction => match Fraction::from_conf(s, loader) {
                Ok((v, _)) => Ok(TableValue::Fraction(v)),
                Err(e) => Err(e),
            },
        }
    }
}

impl TableAxisKey {
    pub fn from_conf(axis: TableAxis, s: &[char], loader: &FileLoader) -> (r: Result<TableAxisKey, ConfigParseError>)
        ensures
            match r {
                Ok(v) => spec_key_from_conf(axis, s@, loader@) == Ok::<TableAxisKey, ConfigError>(v),
                Err(e) => spec_key_from_conf(axis, s@, loader@) == Err::<TableAxisKey, ConfigError>(e@),
            },
    {
        match axis {
            TableAxis::Unit => match UnitType::from_conf(s, loader) {
                Ok((v, _)) => Ok(TableAxisKey::Unit(v)),
                Err(e) => Err(e),
            },
            TableAxis::Terrain => match TerrainType::from_conf(s, loader) {
                Ok((v, _)) => Ok(TableAxisKey::Terrain(v)),
                Err(e) => Err(e),
            },
            TableAxis::Hero => match HeroType::from_conf(s, loader) {
                Ok((v, _)) => Ok(TableAxisKey::Hero(v)),
                Err(e) => Err(e),
            },
            TableAxis::Movement => match MovementType::from_conf(s, loader) {
                Ok((v, _)) => Ok(TableAxisKey::Movement(v)),
                Err(e) => Err(e),
            },
        }
    }
}

/// The decimal digits of `n`.
pub open spec fn decimal_digits(n: nat) -> Seq<char>
    decreases n,
{
    if n < 10 {
        seq![((n + 48) as u8) as char]
    } else {
        decimal_digits(n / 10) + seq![(((n % 10) + 48) as u8) as char]
    }
}

fn push_decimal(v: &mut Vec<char>, n: usize)
    ensures
        final(v)@ == old(v)@ + decimal_digits(n as nat),
    decreases n,
{
    if n < 10 {
        v.push(((n as u8) + 48) as char);
    } else {
        push_decimal(v, n / 10);
        v.push((((n % 10) as u8) + 48) as char);
    }
}

/// How `{:?}` writes a key: `Unit(UnitType(3))` and the like.
pub open spec fn key_text(k: TableAxisKey) -> Seq<char> {
    match k {
        TableAxisKey::Unit(t) => "Unit(UnitType("@ + decimal_digits(t.0 as nat) + "))"@,
        TableAxisKey::Terrain(t) => "Terrain(TerrainType("@ + decimal_digits(t.0 as nat) + "))"@,
        TableAxisKey::Hero(t) => "Hero(HeroType("@ + decimal_digits(t.0 as nat) + "))"@,
        TableAxisKey::Movement(t) => "Movement(MovementType("@ + decimal_digits(t.0 as nat) + "))"@,
    }
}

fn key_string(k: TableAxisKey) -> (r: String)
    ensures
        r@ == key_text(k),
{
    let (head, n) = match k {
        TableAxisKey::Unit(t) => ("Unit(UnitType(", t.0),
        TableAxisKey::Terrain(t) => ("Terrain(TerrainType(", t.0),
        TableAxisKey::Hero(t) => ("Hero(HeroType(", t.0),
        TableAxisKey::Movement(t) => ("Movement(MovementType(", t.0),
    };
    let mut v = str_chars(head);
    push_decimal(&mut v, n);
    v.push(')');
    v.push(')');
    proof {
        reveal_strlit("))");
        assert(v@ =~= key_text(k));
    }
    to_string(v.as_slice())
}

/// A custom table: its name, the file it is read from, the kind of its
/// values, the value of empty cells, and what its rows and columns stand
/// for.
#[derive(Debug)]
pub struct TableConfig {
    pub id: String,
    pub path: String,
    pub typ: TableType,
    pub default_value: TableValue,
    pub left: TableAxis,
    pub top: TableAxis,
}

pub struct TableConfigView {
    pub id: Seq<char>,
    pub path: Seq<char>,
    pub typ: TableType,
    pub default_value: TableValue,
    pub left: TableAxis,
    pub top: TableAxis,
}

impl View for TableConfig {
    type V = TableConfigView;

    open spec fn view(&self) -> TableConfigView {
        TableConfigView {
            id: self.id@,
            path: self.path@,
            typ: self.typ,
            default_value: self.default_value,
            left: self.left,
            top: self.top,
        }
    }
}

/// The columns of the table of custom tables.
#[derive(Debug, Clone, Copy, PartialEq, Eq, Structural, Hash)]
pub enum TableConfigHeader {
    Id,
    Path,
    Type,
    DefaultValue,
    Left,
    Top,
}

impl Listable for TableConfigHeader {
    open spec fn spec_list() -> Seq<Self> {
        seq![Self::Id, Self::Path, Self::Type, Self::DefaultValue, Self::Left, Self::Top]
    }

    open spec fn spec_name(self) -> Seq<char> {
        match self {
            Self::Id => "Id"@,
            Self::Path => "Path"@,
            Self::Type => "Type"@,
            Self::DefaultValue => "DefaultValue"@,
            Self::Left => "Left"@,
            Self::Top => "Top"@,
        }
    }

    open spec fn spec_kind_name() -> Seq<char> {
        "TableConfigHeader"@
    }

    fn list() -> (r: Vec<Self>) {
        vec![Self::Id, Self::Path, Self::Type, Self::DefaultValue, Self::Left, Self::Top]
    }

    fn name(&self) -> (r: &'static str) {
        match self {
            Self::Id => "Id",
            Self::Path => "Path",
            Self::Type => "Type",
            Self::DefaultValue => "DefaultValue",
            Self::Left => "Left",
            Self::Top => "Top",
        }
    }

    fn kind_name() -> (r: &'static str) {
        "TableConfigHeader"
    }
}

impl FromConfig for TableConfigHeader {
    open spec fn spec_from_conf(s: Seq<char>, names: LoaderNames) -> Result<(Self, Seq<char>), ConfigError> {
        spec_listed_from_conf::<Self>(s)
    }

    fn from_conf<'a>(s: &'a [char], loader: &FileLoader) -> (r: Result<(Self, &'a [char]), ConfigParseError>) {
        listed_from_conf(s)
    }
}

impl TableHeader for TableConfigHeader {
    open spec fn spec_takes_custom() -> bool {
        false
    }

    fn takes_custom() -> (b: bool) {
        false
    }

    open spec fn spec_column(self) -> nat {
        match self {
            Self::Id => 0,
            Self::Path => 1,
            Self::Type => 2,
            Self::DefaultValue => 3,
            Self::Left => 4,
            Self::Top => 5,
        }
    }

    open spec fn spec_count() -> nat {
        6
    }

    fn column(self) -> (r: usize) {
        match self {
            Self::Id => 0,
            Self::Path => 1,
            Self::Type => 2,
            Self::DefaultValue => 3,
            Self::Left => 4,
            Self::Top => 5,
        }
    }

    fn count() -> (r: usize) {
        6
    }
}

impl TableLine for TableConfig {
    type Header = TableConfigHeader;

    /// The type first, then the default value, which must be of that type;
    /// then the trimmed name and path and the two axes.
    open spec fn spec_parse(row: Seq<Option<Seq<char>>>, custom: Seq<(Seq<char>, Seq<char>)>, names: LoaderNames) -> (Result<TableConfigView, ConfigError>, LoaderNames) {
        (match spec_parse_cell::<TableType>(row, 2, None, names) {
            Err(e) => Err(e),
            Ok(typ) => match cell(row, 3) {
                None => Err(ConfigError::MissingColumn(3)),
                Some(d) => match spec_value_from_conf(typ, d, names) {
                    Err(e) => Err(e),
                    Ok(default_value) => match cell(row, 0) {
                        None => Err(ConfigError::MissingColumn(0)),
                        Some(id) => match cell(row, 1) {
                            None => Err(ConfigError::MissingColumn(1)),
                            Some(path) => match spec_parse_cell::<TableAxis>(row, 4, None, names) {
                                Err(e) => Err(e),
                                Ok(left) => match spec_parse_cell::<TableAxis>(row, 5, None, names) {
                                    Err(e) => Err(e),
                                    Ok(top) => Ok(TableConfigView {
                                        id: spec_trim(id),
                                        path: spec_trim(path),
                                        typ,
                                        default_value,
                                        left,
                                        top,
                                    }),
                                },
                            },
                        },
                    },
                },
            },
        }, names)
    }

    /// The name must hold more than whitespace.
    open spec fn spec_validation(line: TableConfigView) -> Result<(), ConfigError> {
        if spec_trim(line.id).len() == 0 {
            Err(ConfigError::NameTooShort)
        } else {
            Ok(())
        }
    }

    fn parse(row: &TableRow, loader: &mut FileLoader) -> (r: Result<Self, ConfigParseError>) {
        let typ = match parse::<TableType>(row, 2, loader) {
            Err(e) => return Err(e),
            Ok(v) => v,
        };
        let default_value = match row.get(3) {
            None => return Err(ConfigParseError::MissingColumn(3)),
            Some(d) => match TableValue::from_conf(typ, d, loader) {
                Err(e) => return Err(e),
                Ok(v) => v,
            },
        };
        let id = match row.get(0) {
            None => return Err(ConfigParseError::MissingColumn(0)),
            Some(t) => to_string(trim(t)),
        };
        let path = match row.get(1) {
            None => return Err(ConfigParseError::MissingColumn(1)),
            Some(t) => to_string(trim(t)),
        };
        let left = match parse::<TableAxis>(row, 4, loader) {
            Err(e) => return Err(e),
            Ok(v) => v,
        };
        let top = match parse::<TableAxis>(row, 5, loader) {
            Err(e) => return Err(e),
            Ok(v) => v,
        };
        Ok(TableConfig { id, path, typ, default_value, left, top })
    }

    fn simple_validation(&self) -> (r: Result<(), ConfigParseError>) {
        let n = str_chars(self.id.as_str());
        if trim(n.as_slice()).len() == 0 {
            Err(ConfigParseError::NameTooShort)
        } else {
            Ok(())
        }
    }
}

/// The value stored for column `x` and row `y`: the first entry with that
/// key, or the default.
pub open spec fn spec_entry(values: Seq<((TableAxisKey, TableAxisKey), TableValue)>, default_value: TableValue, x: TableAxisKey, y: TableAxisKey) -> TableValue
    decreases values.len(),
{
    if values.len() == 0 {
        default_value
    } else if values[0].0 == (x, y) {
        values[0].1
    } else {
        spec_entry(values.drop_first(), default_value, x, y)
    }
}

/// A table read from a file: values that differ from the default, by
/// column and row key, and the keys of its rows and columns in order.
#[derive(Debug)]
pub struct CustomTable {
    pub default_value: TableValue,
    pub values: Vec<((TableAxisKey, TableAxisKey), TableValue)>,
    pub row_keys: Vec<TableAxisKey>,
    pub column_keys: Vec<TableAxisKey>,
}

impl CustomTable {
    pub open spec fn spec_value(&self, x: TableAxisKey, y: TableAxisKey) -> TableValue {
        spec_entry(self.values@, self.default_value, x, y)
    }

    /// The value in column `x` and row `y`.
    pub fn entry(&self, x: TableAxisKey, y: TableAxisKey) -> (r: TableValue)
        ensures
            r == self.spec_value(x, y),
    {
        let mut i: usize = 0;
        assert(self.values@.skip(0) =~= self.values@);
        while i < self.values.len()
            invariant
                i <= self.values@.len(),
                spec_entry(self.values@, self.default_value, x, y) == spec_entry(self.values@.skip(i as int), self.default_value, x, y),
            decreases self.values.len() - i,
        {
            assert(self.values@.skip(i as int).drop_first() =~= self.values@.skip(i + 1));
            if self.values[i].0.0 == x && self.values[i].0.1 == y {
                return self.values[i].1;
            }
            i += 1;
        }
        self.default_value
    }

    /// The column keys whose value in row `y` is `value`, in order.
    pub fn row(&self, y: TableAxisKey, value: TableValue) -> (r: Vec<TableAxisKey>)
        ensures
            r@ == self.column_keys@.filter(|h: TableAxisKey| self.spec_value(h, y) == value),
    {
        let ghost pred = |h: TableAxisKey| self.spec_value(h, y) == value;
        let mut result: Vec<TableAxisKey> = Vec::new();
        let mut i: usize = 0;
        while i < self.column_keys.len()
            invariant
                i <= self.column_keys@.len(),
                pred == (|h: TableAxisKey| self.spec_value(h, y) == value),
                result@ == self.column_keys@.take(i as int).filter(pred),
            decreases self.column_keys.len() - i,
        {
            let h = self.column_keys[i];
            proof {
                reveal_with_fuel(Seq::filter, 1);
                assert(self.column_keys@.take(i + 1).drop_last() =~= self.column_keys@.take(i as int));
            }
            if self.entry(h, y) == value {
                result.push(h);
            }
            i += 1;
        }
        assert(self.column_keys@.take(self.column_keys@.len() as int) =~= self.column_keys@);
        result
    }

    /// The row keys whose value in column `x` is `value`, in order.
    pub fn column(&self, x: TableAxisKey, value: TableValue) -> (r: Vec<TableAxisKey>)
        ensures
            r@ == self.row_keys@.filter(|k: TableAxisKey| self.spec_value(x, k) == value),
    {
        let ghost pred = |k: TableAxisKey| self.spec_value(x, k) == value;
        let mut result: Vec<TableAxisKey> = Vec::new();
        let mut i: usize = 0;
        while i < self.row_keys.len()
            invariant
                i <= self.row_keys@.len(),
                pred == (|k: TableAxisKey| self.spec_value(x, k) == value),
                result@ == self.row_keys@.take(i as int).filter(pred),
            decreases self.row_keys.len() - i,
        {
            let k = self.row_keys[i];
            proof {
                reveal_with_fuel(Seq::filter, 1);
                assert(self.row_keys@.take(i + 1).drop_last() =~= self.row_keys@.take(i as int));
            }
            if self.entry(x, k) == value {
                result.push(k);
            }
            i += 1;
        }
        assert(self.row_keys@.take(self.row_keys@.len() as int) =~= self.row_keys@);
        result
    }
}

/// The column keys named in the header line after its first field; the
/// first that can't be read, or that came before, is the error.
pub open spec fn spec_column_keys(top: TableAxis, cells: Seq<Seq<char>>, names: LoaderNames) -> Result<Seq<TableAxisKey>, ConfigError>
    decreases cells.len(),
{
    if cells.len() == 0 {
        Ok(seq![])
    } else {
        match spec_column_keys(top, cells.drop_last(), names) {
            Err(e) => Err(e),
            Ok(keys) => match spec_key_from_conf(top, cells.last(), names) {
                Err(e) => Err(e),
                Ok(k) => if keys.contains(k) {
                    Err(ConfigError::DuplicateHeader(cells.last()))
                } else {
                    Ok(keys.push(k))
                },
            },
        }
    }
}

/// The values of the first `j` cells after the row key of a line: empty
/// cells (after trimming) and values equal to the default are left out.
pub open spec fn spec_line_values(
    typ: TableType,
    default_value: TableValue,
    headers: Seq<TableAxisKey>,
    left: TableAxisKey,
    fields: Seq<Seq<char>>,
    names: LoaderNames,
    j: nat,
) -> Result<Seq<((TableAxisKey, TableAxisKey), TableValue)>, ConfigError>
    decreases j,
{
    if j == 0 {
        Ok(seq![])
    } else {
        match spec_line_values(typ, default_value, headers, left, fields, names, (j - 1) as nat) {
            Err(e) => Err(e),
            Ok(vs) => {
                let v = spec_trim(fields[j as int]);
                if v.len() == 0 {
                    Ok(vs)
                } else {
                    match spec_value_from_conf(typ, v, names) {
                        Err(e) => Err(e),
                        Ok(val) => if val == default_value {
                            Ok(vs)
                        } else {
                            Ok(vs.push(((headers[j - 1], left), val)))
                        },
                    }
                }
            },
        }
    }
}

/// The row keys and values of the first `k` lines; a line without fields is
/// skipped, and a row key that came before is `DuplicateHeader` with the
/// key written as `{:?}` writes it.
pub open spec fn spec_table_lines(
    conf: TableConfigView,
    headers: Seq<TableAxisKey>,
    lines: Seq<Seq<Seq<char>>>,
    names: LoaderNames,
    k: nat,
) -> Result<(Seq<TableAxisKey>, Seq<((TableAxisKey, TableAxisKey), TableValue)>), ConfigError>
    decreases k,
{
    if k == 0 {
        Ok((seq![], seq![]))
    } else {
        match spec_table_lines(conf, headers, lines, names, (k - 1) as nat) {
            Err(e) => Err(e),
            Ok((rows, values)) => {
                let fields = lines[k - 1];
                if fields.len() == 0 {
                    Ok((rows, values))
                } else {
                    match spec_key_from_conf(conf.left, fields[0], names) {
                        Err(e) => Err(e),
                        Ok(left) => if rows.contains(left) {
                            Err(ConfigError::DuplicateHeader(key_text(left)))
                        } else {
                            match spec_line_values(conf.typ, conf.default_value, headers, left, fields, names, (fields.len() - 1) as nat) {
                                Err(e) => Err(e),
                                Ok(vs) => Ok((rows.push(left), values + vs)),
                            }
                        },
                    }
                }
            },
        }
    }
}

/// The table that the file text `data` describes: its first line holds
/// the column keys (after one field), every other line a row key and the
/// values of that row. A CSV error ends the reading where it occurs.
pub open spec fn spec_build_table(conf: TableConfigView, data: Seq<char>, names: LoaderNames) -> Result<(Seq<TableAxisKey>, Seq<TableAxisKey>, Seq<((TableAxisKey, TableAxisKey), TableValue)>), ConfigError> {
    let (records, error) = spec_csv_records(data);
    if records.len() == 0 {
        match error {
            Some(m) => Err(ConfigError::Other(m)),
            None => Ok((seq![], seq![], seq![])),
        }
    } else {
        let header_cells = if records[0].len() == 0 { seq![] } else { records[0].skip(1) };
        match spec_column_keys(conf.top, header_cells, names) {
            Err(e) => Err(e),
            Ok(headers) => match spec_table_lines(conf, headers, records.skip(1), names, (records.len() - 1) as nat) {
                Err(e) => Err(e),
                Ok((rows, values)) => match error {
                    Some(m) => Err(ConfigError::Other(m)),
                    None => Ok((headers, rows, values)),
                },
            },
        }
    }
}

proof fn lemma_column_keys_error(top: TableAxis, cs: Seq<Seq<char>>, names: LoaderNames, i: int)
    requires
        0 <= i <= cs.len(),
        spec_column_keys(top, cs.take(i), names) is Err,
    ensures
        spec_column_keys(top, cs, names) == spec_column_keys(top, cs.take(i), names),
    decreases cs.len() - i,
{
    if i < cs.len() {
        assert(cs.take(i + 1).drop_last() =~= cs.take(i));
        lemma_column_keys_error(top, cs, names, i + 1);
    } else {
        assert(cs.take(i) =~= cs);
    }
}

proof fn lemma_line_values_error(
    typ: TableType,
    default_value: TableValue,
    headers: Seq<TableAxisKey>,
    left: TableAxisKey,
    fields: Seq<Seq<char>>,
    names: LoaderNames,
    j: nat,
    m: nat,
)
    requires
        j <= m,
        spec_line_values(typ, default_value, headers, left, fields, names, j) is Err,
    ensures
        spec_line_values(typ, default_value, headers, left, fields, names, m) == spec_line_values(typ, default_value, headers, left, fields, names, j),
    decreases m,
{
    if j < m {
        lemma_line_values_error(typ, default_value, headers, left, fields, names, j, (m - 1) as nat);
    }
}

proof fn lemma_table_lines_error(conf: TableConfigView, headers: Seq<TableAxisKey>, lines: Seq<Seq<Seq<char>>>, names: LoaderNames, k: nat, m: nat)
    requires
        k <= m,
        spec_table_lines(conf, headers, lines, names, k) is Err,
    ensures
        spec_table_lines(conf, headers, lines, names, m) == spec_table_lines(conf, headers, lines, names, k),
    decreases m,
{
    if k < m {
        lemma_table_lines_error(conf, headers, lines, names, k, (m - 1) as nat);
    }
}

fn has_key(keys: &Vec<TableAxisKey>, k: TableAxisKey) -> (r: bool)
    ensures
        r == keys@.contains(k),
{
    let mut i: usize = 0;
    while i < keys.len()
        invariant
            i <= keys@.len(),
            forall|j: int| 0 <= j < i ==> keys@[j] != k,
        decreases keys.len() - i,
    {
        if keys[i] == k {
            assert(keys@[i as int] == k);
            return true;
        }
        i += 1;
    }
    false
}

impl TableConfig {
    fn column_keys(&self, cells: &Vec<String>, loader: &FileLoader) -> (r: Result<Vec<TableAxisKey>, ConfigParseError>)
        requires
            cells@.len() >= 1,
        ensures
            match r {
                Ok(ks) => spec_column_keys(self.top, cells@.map_values(|s: String| s@).skip(1), loader@) == Ok::<Seq<TableAxisKey>, ConfigError>(ks@)
                    && ks@.len() == cells@.len() - 1,
                Err(e) => spec_column_keys(self.top, cells@.map_values(|s: String| s@).skip(1), loader@) == Err::<Seq<TableAxisKey>, ConfigError>(e@),
            },
    {
        let ghost cs = cells@.map_values(|s: String| s@).skip(1);
        let mut keys: Vec<TableAxisKey> = Vec::new();
        let mut i: usize = 1;
        while i < cells.len()
            invariant
                1 <= i <= cells@.len(),
                cs == cells@.map_values(|s: String| s@).skip(1),
                spec_column_keys(self.top, cs.take(i - 1), loader@) == Ok::<Seq<TableAxisKey>, ConfigError>(keys@),
                keys@.len() == i - 1,
            decreases cells.len() - i,
        {
            assert(cs.take(i as int).drop_last() =~= cs.take(i - 1));
            let text = str_chars(cells[i].as_str());
            assert(text@ == cs[i - 1]);
            match TableAxisKey::from_conf(self.top, text.as_slice(), loader) {
                Err(e) => {
                    proof { lemma_column_keys_error(self.top, cs, loader@, i as int); }
                    return Err(e);
                },
                Ok(k) => {
                    if has_key(&keys, k) {
                        proof { lemma_column_keys_error(self.top, cs, loader@, i as int); }
                        return Err(ConfigParseError::DuplicateHeader(to_string(text.as_slice())));
                    }
                    keys.push(k);
                },
            }
            i += 1;
        }
        assert(cs.take(cells@.len() - 1) =~= cs);
        Ok(keys)
    }

    fn line_values(&self, headers: &Vec<TableAxisKey>, left: TableAxisKey, fields: &Vec<String>, loader: &FileLoader, values: &mut Vec<((TableAxisKey, TableAxisKey), TableValue)>) -> (r: Result<(), ConfigParseError>)
        requires
            fields@.len() >= 1,
            fields@.len() - 1 <= headers@.len(),
        ensures
            match spec_line_values(self.typ, self.default_value, headers@, left, fields@.map_values(|s: String| s@), loader@, (fields@.len() - 1) as nat) {
                Ok(vs) => r is Ok && final(values)@ == old(values)@ + vs,
                Err(e) => r matches Err(e2) && e2@ == e,
            },
    {
        let ghost fs = fields@.map_values(|s: String| s@);
        let ghost start = values@;
        let mut j: usize = 1;
        assert(start + seq![] =~= start);
        while j < fields.len()
            invariant
                1 <= j <= fields@.len(),
                fields@.len() - 1 <= headers@.len(),
                fs == fields@.map_values(|s: String| s@),
                spec_line_values(self.typ, self.default_value, headers@, left, fs, loader@, (j - 1) as nat) matches Ok(vs) && values@ == start + vs,
            decreases fields.len() - j,
        {
            let ghost prev = values@;
            let text = str_chars(fields[j].as_str());
            assert(text@ == fs[j as int]);
            let v = trim(text.as_slice());
            if v.len() > 0 {
                match TableValue::from_conf(self.typ, v, loader) {
                    Err(e) => {
                        proof { lemma_line_values_error(self.typ, self.default_value, headers@, left, fs, loader@, j as nat, (fields@.len() - 1) as nat); }
                        return Err(e);
                    },
                    Ok(val) => {
                        if val != self.default_value {
                            values.push(((headers[j - 1], left), val));
                            proof {
                                let vs = spec_line_values(self.typ, self.default_value, headers@, left, fs, loader@, (j - 1) as nat)->Ok_0;
                                assert(values@ =~= start + vs.push(((headers@[j - 1], left), val)));
                            }
                        }
                    },
                }
            }
            j += 1;
        }
        Ok(())
    }

    /// Reads the custom table from the text of its file; see
    /// `spec_build_table`.
    pub fn build_table(&self, data: &str, loader: &FileLoader) -> (r: Result<CustomTable, ConfigParseError>)
        ensures
            match spec_build_table(self@, data@, loader@) {
                Ok((columns, rows, values)) => r matches Ok(t) && t.column_keys@ == columns && t.row_keys@ == rows
                    && t.values@ == values && t.default_value == self.default_value,
                Err(e) => r matches Err(e2) && e2@ == e,
            },
    {
        let (records, error) = csv_records(data);
        let ghost rs = records_view(records@);
        if records.len() == 0 {
            return match error {
                Some(m) => Err(ConfigParseError::Other(m)),
                None => Ok(CustomTable { default_value: self.default_value, values: Vec::new(), row_keys: Vec::new(), column_keys: Vec::new() }),
            };
        }
        assert(rs[0] == records@[0]@.map_values(|s: String| s@));
        let headers = if records[0].len() == 0 {
            Vec::new()
        } else {
            match self.column_keys(&records[0], loader) {
                Err(e) => return Err(e),
                Ok(h) => h,
            }
        };
        let ghost lines = rs.skip(1);
        let mut row_keys: Vec<TableAxisKey> = Vec::new();
        let mut values: Vec<((TableAxisKey, TableAxisKey), TableValue)> = Vec::new();
        let mut k: usize = 1;
        while k < records.len()
            invariant
                1 <= k <= records@.len(),
                rs == records_view(records@),
                (rs, message_view(error)) == spec_csv_records(data@),
                forall|i: int| 0 <= i < records@.len() ==> (#[trigger] records@[i]).len() == records@[0].len(),
                spec_column_keys(self.top, if rs[0].len() == 0 { seq![] } else { rs[0].skip(1) }, loader@) == Ok::<Seq<TableAxisKey>, ConfigError>(headers@),
                records@[0].len() == 0 || headers@.len() == records@[0].len() - 1,
                lines == rs.skip(1),
                spec_table_lines(self@, headers@, lines, loader@, (k - 1) as nat) == Ok::<(Seq<TableAxisKey>, Seq<((TableAxisKey, TableAxisKey), TableValue)>), ConfigError>((row_keys@, values@)),
            decreases records.len() - k,
        {
            let fields = &records[k];
            assert(lines[k - 1] == fields@.map_values(|s: String| s@));
            assert(fields@.len() == records@[0].len());
            if fields.len() > 0 {
                let text = str_chars(fields[0].as_str());
                let left = match TableAxisKey::from_conf(self.left, text.as_slice(), loader) {
                    Err(e) => {
                        proof { lemma_table_lines_error(self@, headers@, lines, loader@, k as nat, (records@.len() - 1) as nat); }
                        return Err(e);
                    },
                    Ok(l) => l,
                };
                if has_key(&row_keys, left) {
                    proof { lemma_table_lines_error(self@, headers@, lines, loader@, k as nat, (records@.len() - 1) as nat); }
                    return Err(ConfigParseError::DuplicateHeader(key_string(left)));
                }
                row_keys.push(left);
                match self.line_values(&headers, left, fields, loader, &mut values) {
                    Err(e) => {
                        proof { lemma_table_lines_error(self@, headers@, lines, loader@, k as nat, (records@.len() - 1) as nat); }
                        return Err(e);
                    },
                    Ok(_) => {},
                }
            }
            k += 1;
        }
        match error {
            Some(m) => Err(ConfigParseError::Other(m)),
            None => Ok(CustomTable { default_value: self.default_value, values, row_keys, column_keys: headers }),
        }
    }
}

proof fn lemma_column_keys_unique(top: TableAxis, cells: Seq<Seq<char>>, names: LoaderNames)
    requires
        spec_column_keys(top, cells, names) is Ok,
    ensures
        spec_column_keys(top, cells, names)->Ok_0.no_duplicates(),
    decreases cells.len(),
{
    if cells.len() > 0 {
        lemma_column_keys_unique(top, cells.drop_last(), names);
    }
}

proof fn lemma_line_values_kept(
    typ: TableType,
    default_value: TableValue,
    headers: Seq<TableAxisKey>,
    left: TableAxisKey,
    fields: Seq<Seq<char>>,
    names: LoaderNames,
    j: nat,
)
    requires
        spec_line_values(typ, default_value, headers, left, fields, names, j) is Ok,
    ensures
        forall|i: int| 0 <= i < spec_line_values(typ, default_value, headers, left, fields, names, j)->Ok_0.len() ==> {
            let e = #[trigger] spec_line_values(typ, default_value, headers, left, fields, names, j)->Ok_0[i];
            e.1 != default_value && e.0.1 == left
        },
    decreases j,
{
    if j > 0 {
        lemma_line_values_kept(typ, default_value, headers, left, fields, names, (j - 1) as nat);
    }
}

proof fn lemma_table_lines_unique(conf: TableConfigView, headers: Seq<TableAxisKey>, lines: Seq<Seq<Seq<char>>>, names: LoaderNames, k: nat)
    requires
        spec_table_lines(conf, headers, lines, names, k) is Ok,
    ensures
        ({
            let (rows, values) = spec_table_lines(conf, headers, lines, names, k)->Ok_0;
            &&& rows.no_duplicates()
            &&& forall|i: int| 0 <= i < values.len() ==> {
                let e = #[trigger] values[i];
                e.1 != conf.default_value && rows.contains(e.0.1)
            }
        }),
    decreases k,
{
    if k > 0 {
        lemma_table_lines_unique(conf, headers, lines, names, (k - 1) as nat);
        let (rows, values) = spec_table_lines(conf, headers, lines, names, (k - 1) as nat)->Ok_0;
        let fields = lines[k - 1];
        if fields.len() > 0 {
            let left = spec_key_from_conf(conf.left, fields[0], names)->Ok_0;
            let n = (fields.len() - 1) as nat;
            lemma_line_values_kept(conf.typ, conf.default_value, headers, left, fields, names, n);
            let vs = spec_line_values(conf.typ, conf.default_value, headers, left, fields, names, n)->Ok_0;
            let rows2 = rows.push(left);
            let all = values + vs;
            assert forall|i: int| 0 <= i < all.len() implies {
                let e = #[trigger] all[i];
                e.1 != conf.default_value && rows2.contains(e.0.1)
            } by {
                if i < values.len() {
                    assert(all[i] == values[i]);
                    let j = choose|j: int| 0 <= j < rows.len() && rows[j] == values[i].0.1;
                    assert(rows2[j] == rows[j]);
                } else {
                    assert(all[i] == vs[i - values.len()]);
                    assert(rows2[rows.len() as int] == left);
                }
            }
        }
    }
}

/// A table built from a file has no row key and no column key twice, and
/// it stores only values that differ from the default, under keys of its
/// rows.
pub proof fn lemma_built_table_is_consistent(conf: TableConfigView, data: Seq<char>, names: LoaderNames)
    requires
        spec_build_table(conf, data, names) is Ok,
    ensures
        ({
            let (columns, rows, values) = spec_build_table(conf, data, names)->Ok_0;
            &&& columns.no_duplicates()
            &&& rows.no_duplicates()
            &&& forall|i: int| 0 <= i < values.len() ==> {
                let e = #[trigger] values[i];
                e.1 != conf.default_value && rows.contains(e.0.1)
            }
        }),
{
    let (records, error) = spec_csv_records(data);
    if records.len() > 0 {
        let header_cells = if records[0].len() == 0 { seq![] } else { records[0].skip(1) };
        lemma_column_keys_unique(conf.top, header_cells, names);
        let headers = spec_column_keys(conf.top, header_cells, names)->Ok_0;
        let lines = records.skip(1);
        lemma_table_lines_unique(conf, headers, lines, names, (records.len() - 1) as nat);
    }
}

/// The names of named tables, in order.
pub open spec fn table_names(tables: Seq<(String, CustomTable)>) -> Seq<Seq<char>> {
    tables.map_values(|t: (String, CustomTable)| t.0@)
}

/// Position of the first table named `name`.
pub fn find_table(tables: &Vec<(String, CustomTable)>, name: &str) -> (r: Option<usize>)
    ensures
        r matches Some(i) ==> first_named(table_names(tables@), name@) == Some(i as int) && i < tables@.len(),
        r is None ==> first_named(table_names(tables@), name@) is None,
{
    let ghost ns = table_names(tables@);
    let key = str_chars(name);
    let mut i: usize = 0;
    while i < tables.len()
        invariant
            i <= tables@.len(),
            ns == table_names(tables@),
            key@ == name@,
            first_named(ns, name@) == first_named_from(ns, name@, i as int),
        decreases tables.len() - i,
    {
        let t = str_chars(tables[i].0.as_str());
        assert(ns[i as int] == tables@[i as int].0@);
        if text_eq(t.as_slice(), key.as_slice()) {
            return Some(i);
        }
        i += 1;
    }
    None
}

/// The value in column `x` and row `y` of the first table named `name`;
/// `None` where there is no such table.
pub fn table_entry(tables: &Vec<(String, CustomTable)>, name: &str, x: TableAxisKey, y: TableAxisKey) -> (r: Option<TableValue>)
    ensures
        match first_named(table_names(tables@), name@) {
            Some(i) => r == Some(tables@[i].1.spec_value(x, y)),
            None => r is None,
        },
{
    match find_table(tables, name) {
        Some(i) => Some(tables[i].1.entry(x, y)),
        None => None,
    }
}

/// The column keys whose value in row `y` is `value`, in the first table
/// named `name`; none where there is no such table.
pub fn table_row(tables: &Vec<(String, CustomTable)>, name: &str, y: TableAxisKey, value: TableValue) -> (r: Vec<TableAxisKey>)
    ensures
        match first_named(table_names(tables@), name@) {
            Some(i) => r@ == tables@[i].1.column_keys@.filter(|h: TableAxisKey| tables@[i].1.spec_value(h, y) == value),
            None => r@ == Seq::<TableAxisKey>::empty(),
        },
{
    match find_table(tables, name) {
        Some(i) => tables[i].1.row(y, value),
        None => Vec::new(),
    }
}

/// The row keys whose value in column `x` is `value`, in the first table
/// named `name`; none where there is no such table.
pub fn table_column(tables: &Vec<(String, CustomTable)>, name: &str, x: TableAxisKey, value: TableValue) -> (r: Vec<TableAxisKey>)
    ensures
        match first_named(table_names(tables@), name@) {
            Some(i) => r@ == tables@[i].1.row_keys@.filter(|k: TableAxisKey| tables@[i].1.spec_value(x, k) == value),
            None => r@ == Seq::<TableAxisKey>::empty(),
        },
{
    match find_table(tables, name) {
        Some(i) => tables[i].1.column(x, value),
        None => Vec::new(),
    }
}

} // verus!
