use vstd::prelude::*;

use crate::config::file_loader::{spec_rhai_step, FileLoader, LoaderNames};
use crate::config::listing::is_word;
use crate::config::text::to_string;
use crate::config::listing::Listable;
use crate::config::parse::{parse_inner_vec, spec_parse_inner_vec, FromConfig};
use crate::config::{ConfigError, ConfigParseError};

verus! {

/// The header of a table: its columns are the variants of the enum, and a
/// variant's column number is its position among them.
pub trait TableHeader: Listable + FromConfig {
    /// Whether a header name that is no variant opens a column of the
    /// table's own, kept by its name.
    spec fn spec_takes_custom() -> bool;

    fn takes_custom() -> (b: bool)
        ensures
            b == Self::spec_takes_custom(),
    ;

    spec fn spec_column(self) -> nat;

    spec fn spec_count() -> nat;

    fn column(self) -> (r: usize)
        ensures
            r == self.spec_column(),
            r < Self::spec_count(),
    ;

    fn count() -> (r: usize)
        ensures
            r == Self::spec_count(),
    ;
}

/// One line of a table: `cells[i]` is the text under the header with
/// column number `i`, or `None` where the table has no such column;
/// `custom` holds the columns of the table's own, as pairs of header name
/// and text, in the order of the header line.
pub struct TableRow {
    pub cells: Vec<Option<Vec<char>>>,
    pub custom: Vec<(Vec<char>, Vec<char>)>,
}

pub open spec fn custom_view(v: Seq<(Vec<char>, Vec<char>)>) -> Seq<(Seq<char>, Seq<char>)> {
    v.map_values(|c: (Vec<char>, Vec<char>)| (c.0@, c.1@))
}

pub open spec fn cell_view(c: Option<Vec<char>>) -> Option<Seq<char>> {
    match c {
        Some(v) => Some(v@),
        None => None,
    }
}

impl View for TableRow {
    type V = Seq<Option<Seq<char>>>;

    open spec fn view(&self) -> Seq<Option<Seq<char>>> {
        self.cells@.map_values(|c: Option<Vec<char>>| cell_view(c))
    }
}

/// The text in column `key`, if the table has that column.
pub open spec fn cell(row: Seq<Option<Seq<char>>>, key: int) -> Option<Seq<char>> {
    if 0 <= key < row.len() {
        row[key]
    } else {
        None
    }
}

impl TableRow {
    /// The text in column `key`, if the table has that column.
    pub fn get(&self, key: usize) -> (r: Option<&[char]>)
        ensures
            match r {
                Some(t) => cell(self@, key as int) == Some(t@),
                None => cell(self@, key as int) is None,
            },
    {
        if key < self.cells.len() {
            match &self.cells[key] {
                Some(v) => Some(v.as_slice()),
                None => None,
            }
        } else {
            None
        }
    }
}

/// Whether a result agrees with the value a spec function gives.
pub open spec fn result_as<T>(r: Result<T, ConfigParseError>, spec: Result<T, ConfigError>) -> bool {
    match r {
        Ok(v) => spec == Ok::<T, ConfigError>(v),
        Err(e) => spec == Err::<T, ConfigError>(e@),
    }
}

/// The value in column `key`: without the column, the default or
/// `MissingColumn`; an empty cell gives the default where there is one;
/// otherwise the value the cell starts with.
pub open spec fn spec_parse_cell<T: FromConfig>(row: Seq<Option<Seq<char>>>, key: int, def: Option<T>, names: LoaderNames) -> Result<T, ConfigError> {
    match cell(row, key) {
        None => match def {
            Some(d) => Ok(d),
            None => Err(ConfigError::MissingColumn(key as usize)),
        },
        Some(v) => if v.len() == 0 && def is Some {
            Ok(def->0)
        } else {
            match T::spec_from_conf(v, names) {
                Ok((t, _)) => Ok(t),
                Err(e) => Err(e),
            }
        },
    }
}

fn parse_cell<T: FromConfig>(row: &TableRow, key: usize, def: Option<T>, loader: &FileLoader) -> (r: Result<T, ConfigParseError>)
    ensures
        result_as(r, spec_parse_cell(row@, key as int, def, loader@)),
{
    match row.get(key) {
        None => match def {
            Some(d) => Ok(d),
            None => Err(ConfigParseError::MissingColumn(key)),
        },
        Some(v) => {
            if v.len() == 0 && def.is_some() {
                match def {
                    Some(d) => Ok(d),
                    None => Err(ConfigParseError::EmptyList),
                }
            } else {
                match T::from_conf(v, loader) {
                    Ok((t, _)) => Ok(t),
                    Err(e) => Err(e),
                }
            }
        },
    }
}

/// The value in column `key`; the column must exist.
pub fn parse<T: FromConfig>(row: &TableRow, key: usize, loader: &FileLoader) -> (r: Result<T, ConfigParseError>)
    ensures
        result_as(r, spec_parse_cell::<T>(row@, key as int, None, loader@)),
{
    parse_cell(row, key, None, loader)
}

/// The value in column `key`, or `def` where the column is missing or the
/// cell is empty.
pub fn parse_def<T: FromConfig>(row: &TableRow, key: usize, def: T, loader: &FileLoader) -> (r: Result<T, ConfigParseError>)
    ensures
        result_as(r, spec_parse_cell::<T>(row@, key as int, Some(def), loader@)),
{
    parse_cell(row, key, Some(def), loader)
}

/// The list in column `key`; without the column, the default or
/// `MissingColumn`. An empty cell is an empty list.
pub open spec fn spec_parse_vec_cell<T: FromConfig>(row: Seq<Option<Seq<char>>>, key: int, def: Option<Seq<T>>, names: LoaderNames) -> Result<Seq<T>, ConfigError> {
    match cell(row, key) {
        None => match def {
            Some(d) => Ok(d),
            None => Err(ConfigError::MissingColumn(key as usize)),
        },
        Some(v) => match spec_parse_inner_vec::<T>(v, false, names) {
            Ok((items, _)) => Ok(items),
            Err(e) => Err(e),
        },
    }
}

fn parse_vec_cell<T: FromConfig>(row: &TableRow, key: usize, def: Option<Vec<T>>, loader: &FileLoader) -> (r: Result<Vec<T>, ConfigParseError>)
    ensures
        match r {
            Ok(v) => spec_parse_vec_cell::<T>(row@, key as int, match def { Some(d) => Some(d@), None => None }, loader@) == Ok::<Seq<T>, ConfigError>(v@),
            Err(e) => spec_parse_vec_cell::<T>(row@, key as int, match def { Some(d) => Some(d@), None => None }, loader@) == Err::<Seq<T>, ConfigError>(e@),
        },
{
    match row.get(key) {
        None => match def {
            Some(d) => Ok(d),
            None => Err(ConfigParseError::MissingColumn(key)),
        },
        Some(v) => match parse_inner_vec(v, false, loader) {
            Ok((items, _)) => Ok(items),
            Err(e) => Err(e),
        },
    }
}

/// The list in column `key`; the column must exist.
pub fn parse_vec<T: FromConfig>(row: &TableRow, key: usize, loader: &FileLoader) -> (r: Result<Vec<T>, ConfigParseError>)
    ensures
        match r {
            Ok(v) => spec_parse_vec_cell::<T>(row@, key as int, None, loader@) == Ok::<Seq<T>, ConfigError>(v@),
            Err(e) => spec_parse_vec_cell::<T>(row@, key as int, None, loader@) == Err::<Seq<T>, ConfigError>(e@),
        },
{
    parse_vec_cell(row, key, None, loader)
}

/// The list in column `key`, or `def` where the column is missing.
pub fn parse_vec_def<T: FromConfig>(row: &TableRow, key: usize, def: Vec<T>, loader: &FileLoader) -> (r: Result<Vec<T>, ConfigParseError>)
    ensures
        match r {
            Ok(v) => spec_parse_vec_cell::<T>(row@, key as int, Some(def@), loader@) == Ok::<Seq<T>, ConfigError>(v@),
            Err(e) => spec_parse_vec_cell::<T>(row@, key as int, Some(def@), loader@) == Err::<Seq<T>, ConfigError>(e@),
        },
{
    parse_vec_cell(row, key, Some(def), loader)
}

/// A result with the value and the error seen through their views.
pub open spec fn view_result<T: View>(r: Result<T, ConfigParseError>) -> Result<T::V, ConfigError> {
    match r {
        Ok(v) => Ok(v@),
        Err(e) => Err(e@),
    }
}

/// A result without a value, with the error seen through its view.
pub open spec fn unit_result(r: Result<(), ConfigParseError>) -> Result<(), ConfigError> {
    match r {
        Ok(_) => Ok(()),
        Err(e) => Err(e@),
    }
}

/// A line of a configuration table.
pub trait TableLine: Sized + View {
    type Header: TableHeader;

    /// The line that `row` describes, with `custom` the columns of the
    /// table's own, or why it can't be read, and the loader's names after
    /// reading it.
    spec fn spec_parse(row: Seq<Option<Seq<char>>>, custom: Seq<(Seq<char>, Seq<char>)>, names: LoaderNames) -> (Result<Self::V, ConfigError>, LoaderNames);

    /// Checks that need only the line itself.
    spec fn spec_validation(line: Self::V) -> Result<(), ConfigError>;

    fn parse(row: &TableRow, loader: &mut FileLoader) -> (r: Result<Self, ConfigParseError>)
        ensures
            (view_result(r), final(loader)@) == Self::spec_parse(row@, custom_view(row.custom@), old(loader)@),
    ;

    fn simple_validation(&self) -> (r: Result<(), ConfigParseError>)
        ensures
            unit_result(r) == Self::spec_validation(self@),
    ;
}

/// The value in column `key` where the cell holds text, else none.
pub open spec fn spec_optional_cell<T: FromConfig>(row: Seq<Option<Seq<char>>>, key: int, names: LoaderNames) -> Result<Option<T>, ConfigError> {
    match cell(row, key) {
        Some(v) if v.len() > 0 => match T::spec_from_conf(v, names) {
            Ok((t, _)) => Ok(Some(t)),
            Err(e) => Err(e),
        },
        _ => Ok(None),
    }
}

/// Reads the value in column `key` where the cell holds text.
pub fn parse_optional<T: FromConfig>(row: &TableRow, key: usize, loader: &FileLoader) -> (r: Result<Option<T>, ConfigParseError>)
    ensures
        result_as(r, spec_optional_cell::<T>(row@, key as int, loader@)),
{
    match row.get(key) {
        Some(v) => {
            if v.len() > 0 {
                match T::from_conf(v, loader) {
                    Ok((t, _)) => Ok(Some(t)),
                    Err(e) => Err(e),
                }
            } else {
                Ok(None)
            }
        },
        None => Ok(None),
    }
}

/// The truth value in column `key` where the cell holds text: exactly
/// `true` or `false` (as `str::parse` reads a `bool`); other text is
/// `InvalidBool`.
pub open spec fn spec_optional_bool_cell(row: Seq<Option<Seq<char>>>, key: int) -> Result<Option<bool>, ConfigError> {
    match cell(row, key) {
        Some(v) if v.len() > 0 => if v == "true"@ {
            Ok(Some(true))
        } else if v == "false"@ {
            Ok(Some(false))
        } else {
            Err(ConfigError::InvalidBool(v))
        },
        _ => Ok(None),
    }
}

/// Reads the truth value in column `key` where the cell holds text.
pub fn parse_optional_bool(row: &TableRow, key: usize) -> (r: Result<Option<bool>, ConfigParseError>)
    ensures
        result_as(r, spec_optional_bool_cell(row@, key as int)),
{
    match row.get(key) {
        Some(v) => {
            if v.len() > 0 {
                if is_word(v, "true") {
                    Ok(Some(true))
                } else if is_word(v, "false") {
                    Ok(Some(false))
                } else {
                    Err(ConfigParseError::InvalidBool(to_string(v)))
                }
            } else {
                Ok(None)
            }
        },
        None => Ok(None),
    }
}

/// The script function in column `key` where the cell holds text: the
/// function named there, without parameters.
pub open spec fn spec_script_cell(row: Seq<Option<Seq<char>>>, key: int, names: LoaderNames) -> (Result<Option<usize>, ConfigError>, LoaderNames) {
    match cell(row, key) {
        Some(s) if s.len() > 0 => {
            let (f, n) = spec_rhai_step(names, s, 0, 0);
            (match f {
                Ok(p) => Ok(Some(p.index)),
                Err(e) => Err(e),
            }, n)
        },
        _ => (Ok(None), names),
    }
}

/// Looks up the script function in column `key` where the cell holds text.
pub fn script_cell(row: &TableRow, key: usize, loader: &mut FileLoader) -> (r: Result<Option<usize>, ConfigParseError>)
    ensures
        (match r { Ok(v) => Ok(v), Err(e) => Err(e@) }, final(loader)@) == spec_script_cell(row@, key as int, old(loader)@),
{
    match row.get(key) {
        Some(s) => {
            if s.len() > 0 {
                match loader.rhai_function(s, 0, 0) {
                    Ok(p) => Ok(Some(p.index)),
                    Err(e) => Err(e),
                }
            } else {
                Ok(None)
            }
        },
        None => Ok(None),
    }
}

} // verus!
