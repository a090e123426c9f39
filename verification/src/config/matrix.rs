use vstd::prelude::*;

use crate::config::file_loader::{FileLoader, LoaderNames};
use crate::config::listing::str_chars;
use crate::config::parse::{bounded_decimal, decimal_value, digits_value, is_decimal, FromConfig};
use crate::config::table_file::{csv_records, message_view, records_view, spec_csv_records};
use crate::config::text::{prefix, starts_with_char, suffix, to_string};
use crate::config::{ConfigError, ConfigParseError};
use crate::fraction::{can_reduce, reducible, Fraction};
use crate::terrain::TerrainType;
use crate::tokens::TokenType;
use crate::tags::{FlagKey, TagKey};
use crate::fog::FogIntensity;
use crate::config::movement_type_config::MovementPattern;
use crate::units::{MovementType, UnitType};

verus! {

/// Index of the first `c` in `s`.
pub open spec fn first_char(s: Seq<char>, c: char) -> Option<int>
    decreases s.len(),
{
    if s.len() == 0 {
        None
    } else if s[0] == c {
        Some(0int)
    } else {
        match first_char(s.drop_first(), c) {
            Some(i) => Some(i + 1),
            None => None,
        }
    }
}

pub fn find_char(s: &[char], c: char) -> (r: Option<usize>)
    ensures
        r matches Some(i) ==> first_char(s@, c) == Some(i as int) && i < s@.len(),
        r is None ==> first_char(s@, c) is None,
{
    let mut i: usize = 0;
    assert(s@.skip(0) =~= s@);
    while i < s.len()
        invariant
            i <= s@.len(),
            first_char(s@, c) == match first_char(s@.skip(i as int), c) {
                Some(j) => Some(j + i),
                None => None,
            },
        decreases s.len() - i,
    {
        assert(s@.skip(i as int).drop_first() =~= s@.skip(i + 1));
        if s[i] == c {
            return Some(i);
        }
        i += 1;
    }
    None
}

/// The integer a text stands for as `str::parse` reads one: an optional
/// `+` (or `-` where `signed`) and then ASCII digits, nothing else; the
/// range of the type is checked by the caller.
pub open spec fn std_int_value(s: Seq<char>, signed: bool) -> Option<int> {
    if s.len() > 0 && s[0] == '+' {
        if is_decimal(s.skip(1)) {
            Some(digits_value(s.skip(1)) as int)
        } else {
            None
        }
    } else if signed && s.len() > 0 && s[0] == '-' {
        if is_decimal(s.skip(1)) {
            Some(-(digits_value(s.skip(1)) as int))
        } else {
            None
        }
    } else if is_decimal(s) {
        Some(digits_value(s) as int)
    } else {
        None
    }
}

/// `str::parse::<u16>`.
pub open spec fn std_u16(s: Seq<char>) -> Option<u16> {
    match std_int_value(s, false) {
        Some(v) if 0 <= v <= u16::MAX => Some(v as u16),
        _ => None,
    }
}

/// `str::parse::<i32>`.
pub open spec fn std_i32(s: Seq<char>) -> Option<i32> {
    match std_int_value(s, true) {
        Some(v) if i32::MIN <= v <= i32::MAX => Some(v as i32),
        _ => None,
    }
}

pub fn parse_u16(s: &[char]) -> (r: Option<u16>)
    ensures
        r == std_u16(s@),
{
    let digits = if starts_with_char(s, '+') { suffix(s, 1) } else { s };
    proof {
        if !(s@.len() > 0 && s@[0] == '+') {
            assert(digits@ == s@);
        }
    }
    match decimal_value(digits, u16::MAX as u64) {
        Some(v) => Some(v as u16),
        None => {
            assert(bounded_decimal(digits@, u16::MAX as nat) is None);
            None
        },
    }
}

pub fn parse_i32(s: &[char]) -> (r: Option<i32>)
    ensures
        r == std_i32(s@),
{
    if starts_with_char(s, '-') {
        let digits = suffix(s, 1);
        match decimal_value(digits, 2147483648u64) {
            Some(v) => {
                let n: i64 = -(v as i64);
                Some(n as i32)
            },
            None => None,
        }
    } else {
        let digits = if starts_with_char(s, '+') { suffix(s, 1) } else { s };
        proof {
            if !(s@.len() > 0 && s@[0] == '+') {
                assert(digits@ == s@);
            }
        }
        match decimal_value(digits, i32::MAX as u64) {
            Some(v) => Some(v as i32),
            None => None,
        }
    }
}

/// The two numbers of a ratio as `Ratio::<i32>::from_str` reads them: the
/// text up to the first `/` and the text after it, or `1` where there is
/// no `/`; both are `i32` numbers and the second is not zero.
pub open spec fn std_ratio_parts(s: Seq<char>) -> Option<(i32, i32)> {
    let (n, d) = match first_char(s, '/') {
        Some(i) => (s.take(i), s.skip(i + 1)),
        None => (s, seq!['1']),
    };
    match (std_i32(n), std_i32(d)) {
        (Some(a), Some(b)) if b != 0 => Some((a, b)),
        _ => None,
    }
}

/// A ratio cell: `Ratio::<i32>::from_str` followed by `Ratio::new`, which
/// reduces it. Where the reduction's sign change would overflow (see
/// `reducible`), the cell is refused.
pub open spec fn spec_ratio_cell(s: Seq<char>) -> Result<Fraction, ConfigError> {
    match std_ratio_parts(s) {
        Some((a, b)) => if b == 1 {
            Ok(Fraction::spec_from_integer(a))
        } else if !reducible(a, b) {
            Err(ConfigError::InvalidNumber(s))
        } else {
            Ok(Fraction::spec_new(a, b))
        },
        None => Err(ConfigError::InvalidNumber(s)),
    }
}

pub fn ratio_cell(s: &[char]) -> (r: Result<Fraction, ConfigParseError>)
    ensures
        match r {
            Ok(f) => spec_ratio_cell(s@) == Ok::<Fraction, ConfigError>(f),
            Err(e) => spec_ratio_cell(s@) == Err::<Fraction, ConfigError>(e@),
        },
{
    let one = ['1'];
    let (n, d) = match find_char(s, '/') {
        Some(i) => {
            assert(i < s.len());
            (prefix(s, i), suffix(s, i + 1))
        },
        None => (s, one.as_slice()),
    };
    assert(one@ =~= seq!['1']);
    let a = match parse_i32(n) {
        Some(a) => a,
        None => return Err(ConfigParseError::InvalidNumber(to_string(s))),
    };
    let b = match parse_i32(d) {
        Some(b) => b,
        None => return Err(ConfigParseError::InvalidNumber(to_string(s))),
    };
    if b == 0 {
        return Err(ConfigParseError::InvalidNumber(to_string(s)));
    }
    if b == 1 {
        Ok(Fraction::from_integer(a))
    } else if !can_reduce(a, b) {
        Err(ConfigParseError::InvalidNumber(to_string(s)))
    } else {
        Ok(Fraction::new(a, b))
    }
}

/// What a cell of a matrix table holds.
pub trait MatrixCell: Sized {
    /// The value of a non-empty cell.
    spec fn spec_read(cell: Seq<char>, names: LoaderNames) -> Result<Self, ConfigError>;

    fn read(cell: &[char], loader: &FileLoader) -> (r: Result<Self, ConfigParseError>)
        ensures
            match r {
                Ok(v) => Self::spec_read(cell@, loader@) == Ok::<Self, ConfigError>(v),
                Err(e) => Self::spec_read(cell@, loader@) == Err::<Self, ConfigError>(e@),
            },
    ;
}

/// A cell that only marks its column.
impl MatrixCell for () {
    open spec fn spec_read(cell: Seq<char>, names: LoaderNames) -> Result<(), ConfigError> {
        Ok(())
    }

    fn read(cell: &[char], loader: &FileLoader) -> (r: Result<(), ConfigParseError>) {
        Ok(())
    }
}

/// A cell holding a number as `str::parse::<u16>` reads it.
impl MatrixCell for u16 {
    open spec fn spec_read(cell: Seq<char>, names: LoaderNames) -> Result<u16, ConfigError> {
        match std_u16(cell) {
            Some(v) => Ok(v),
            None => Err(ConfigError::InvalidInteger(cell)),
        }
    }

    fn read(cell: &[char], loader: &FileLoader) -> (r: Result<u16, ConfigParseError>) {
        match parse_u16(cell) {
            Some(v) => Ok(v),
            None => Err(ConfigParseError::InvalidInteger(to_string(cell))),
        }
    }
}

/// A cell holding a ratio as `str::parse::<Rational32>` reads it.
impl MatrixCell for Fraction {
    open spec fn spec_read(cell: Seq<char>, names: LoaderNames) -> Result<Fraction, ConfigError> {
        spec_ratio_cell(cell)
    }

    fn read(cell: &[char], loader: &FileLoader) -> (r: Result<Fraction, ConfigParseError>) {
        ratio_cell(cell)
    }
}

/// A cell naming a movement type.
impl MatrixCell for MovementType {
    open spec fn spec_read(cell: Seq<char>, names: LoaderNames) -> Result<MovementType, ConfigError> {
        match MovementType::spec_from_conf(cell, names) {
            Ok((t, _)) => Ok(t),
            Err(e) => Err(e),
        }
    }

    fn read(cell: &[char], loader: &FileLoader) -> (r: Result<MovementType, ConfigParseError>) {
        match MovementType::from_conf(cell, loader) {
            Ok((t, _)) => Ok(t),
            Err(e) => Err(e),
        }
    }
}

/// A column key of a matrix table, read from the header line.
pub trait HeaderKey: FromConfig + Copy {
    fn same(&self, other: &Self) -> (b: bool)
        ensures
            b == (*self == *other),
    ;
}

/// The field of a record after its first, or nothing.
pub open spec fn fields_after_first(record: Seq<Seq<char>>) -> Seq<Seq<char>> {
    if record.len() == 0 {
        seq![]
    } else {
        record.skip(1)
    }
}

/// The keys of a header line (its first field left out): each field read
/// as a key; a key met before is a `DuplicateHeader` with the field.
pub open spec fn spec_header_keys<H: FromConfig>(cells: Seq<Seq<char>>, names: LoaderNames, k: nat) -> Result<Seq<H>, ConfigError>
    decreases k,
{
    if k == 0 {
        Ok(seq![])
    } else {
        match spec_header_keys::<H>(cells, names, (k - 1) as nat) {
            Err(e) => Err(e),
            Ok(keys) => match H::spec_from_conf(cells[k - 1], names) {
                Err(e) => Err(e),
                Ok((h, _)) => if keys.contains(h) {
                    Err(ConfigError::DuplicateHeader(cells[k - 1]))
                } else {
                    Ok(keys.push(h))
                },
            },
        }
    }
}

/// The values of a line (its first field left out): every non-empty cell
/// within the first `width` columns is read, and kept with its column.
pub open spec fn spec_matrix_cells<V: MatrixCell>(cells: Seq<Seq<char>>, width: nat, names: LoaderNames, k: nat) -> Result<Seq<(usize, V)>, ConfigError>
    decreases k,
{
    if k == 0 {
        Ok(seq![])
    } else {
        match spec_matrix_cells::<V>(cells, width, names, (k - 1) as nat) {
            Err(e) => Err(e),
            Ok(prev) => {
                let i = k - 1;
                if cells[i].len() > 0 && i < width {
                    match V::spec_read(cells[i], names) {
                        Err(e) => Err(e),
                        Ok(v) => Ok(prev.push((i as usize, v))),
                    }
                } else {
                    Ok(prev)
                }
            },
        }
    }
}

/// The first `k` lines: each line's key (its first field) and values;
/// a line without fields is skipped.
pub open spec fn spec_matrix_lines<R: FromConfig, V: MatrixCell>(lines: Seq<Seq<Seq<char>>>, width: nat, names: LoaderNames, k: nat) -> Result<Seq<(R, Seq<(usize, V)>)>, ConfigError>
    decreases k,
{
    if k == 0 {
        Ok(seq![])
    } else {
        match spec_matrix_lines::<R, V>(lines, width, names, (k - 1) as nat) {
            Err(e) => Err(e),
            Ok(prev) => {
                let line = lines[k - 1];
                if line.len() == 0 {
                    Ok(prev)
                } else {
                    match R::spec_from_conf(line[0], names) {
                        Err(e) => Err(e),
                        Ok((key, _)) => match spec_matrix_cells::<V>(line.skip(1), width, names, (line.len() - 1) as nat) {
                            Err(e) => Err(e),
                            Ok(cells) => Ok(prev.push((key, cells))),
                        },
                    }
                }
            },
        }
    }
}

/// A table whose header line names the columns by key and whose lines each
/// start with a row key: the column keys and, for each line, its key and
/// values. A CSV error ends the reading where it occurs.
pub open spec fn spec_read_matrix<H: FromConfig, R: FromConfig, V: MatrixCell>(data: Seq<char>, names: LoaderNames) -> Result<(Seq<H>, Seq<(R, Seq<(usize, V)>)>), ConfigError> {
    let (records, error) = spec_csv_records(data);
    if records.len() == 0 {
        match error {
            Some(m) => Err(ConfigError::Other(m)),
            None => Ok((seq![], seq![])),
        }
    } else {
        let header = fields_after_first(records[0]);
        match spec_header_keys::<H>(header, names, header.len()) {
            Err(e) => Err(e),
            Ok(keys) => match spec_matrix_lines::<R, V>(records.skip(1), keys.len(), names, (records.len() - 1) as nat) {
                Err(e) => Err(e),
                Ok(lines) => match error {
                    Some(m) => Err(ConfigError::Other(m)),
                    None => Ok((keys, lines)),
                },
            },
        }
    }
}

pub open spec fn matrix_lines_view<R, V>(v: Seq<(R, Vec<(usize, V)>)>) -> Seq<(R, Seq<(usize, V)>)> {
    v.map_values(|p: (R, Vec<(usize, V)>)| (p.0, p.1@))
}

pub fn contains_key<H: HeaderKey>(keys: &Vec<H>, h: &H) -> (b: bool)
    ensures
        b == keys@.contains(*h),
{
    let mut i: usize = 0;
    while i < keys.len()
        invariant
            i <= keys@.len(),
            forall|j: int| 0 <= j < i ==> keys@[j] != *h,
        decreases keys.len() - i,
    {
        if keys[i].same(h) {
            assert(keys@[i as int] == *h);
            return true;
        }
        i += 1;
    }
    false
}

fn header_keys<H: HeaderKey>(record: &Vec<String>, loader: &FileLoader) -> (r: Result<Vec<H>, ConfigParseError>)
    ensures
        ({
            let cells = fields_after_first(record@.map_values(|s: String| s@));
            match r {
                Ok(v) => spec_header_keys::<H>(cells, loader@, cells.len()) == Ok::<Seq<H>, ConfigError>(v@),
                Err(e) => spec_header_keys::<H>(cells, loader@, cells.len()) == Err::<Seq<H>, ConfigError>(e@),
            }
        }),
{
    let ghost cells = fields_after_first(record@.map_values(|s: String| s@));
    let mut keys: Vec<H> = Vec::new();
    if record.len() == 0 {
        return Ok(keys);
    }
    let mut j: usize = 1;
    while j < record.len()
        invariant
            1 <= j <= record@.len(),
            cells == record@.map_values(|s: String| s@).skip(1),
            spec_header_keys::<H>(cells, loader@, (j - 1) as nat) == Ok::<Seq<H>, ConfigError>(keys@),
        decreases record.len() - j,
    {
        assert(cells[j - 1] == record@[j as int]@);
        let text = str_chars(record[j].as_str());
        let h = match H::from_conf(text.as_slice(), loader) {
            Err(e) => {
                proof { lemma_header_keys_error::<H>(cells, loader@, j as nat, cells.len()); }
                return Err(e);
            },
            Ok((h, _)) => h,
        };
        if contains_key(&keys, &h) {
            proof { lemma_header_keys_error::<H>(cells, loader@, j as nat, cells.len()); }
            return Err(ConfigParseError::DuplicateHeader(record[j].clone()));
        }
        keys.push(h);
        j += 1;
    }
    Ok(keys)
}

proof fn lemma_header_keys_error<H: FromConfig>(cells: Seq<Seq<char>>, names: LoaderNames, k: nat, m: nat)
    requires
        k <= m,
        spec_header_keys::<H>(cells, names, k) is Err,
    ensures
        spec_header_keys::<H>(cells, names, m) == spec_header_keys::<H>(cells, names, k),
    decreases m,
{
    if k < m {
        lemma_header_keys_error::<H>(cells, names, k, (m - 1) as nat);
    }
}

proof fn lemma_cells_error<V: MatrixCell>(cells: Seq<Seq<char>>, width: nat, names: LoaderNames, k: nat, m: nat)
    requires
        k <= m,
        spec_matrix_cells::<V>(cells, width, names, k) is Err,
    ensures
        spec_matrix_cells::<V>(cells, width, names, m) == spec_matrix_cells::<V>(cells, width, names, k),
    decreases m,
{
    if k < m {
        lemma_cells_error::<V>(cells, width, names, k, (m - 1) as nat);
    }
}

proof fn lemma_lines_error<R: FromConfig, V: MatrixCell>(lines: Seq<Seq<Seq<char>>>, width: nat, names: LoaderNames, k: nat, m: nat)
    requires
        k <= m,
        spec_matrix_lines::<R, V>(lines, width, names, k) is Err,
    ensures
        spec_matrix_lines::<R, V>(lines, width, names, m) == spec_matrix_lines::<R, V>(lines, width, names, k),
    decreases m,
{
    if k < m {
        lemma_lines_error::<R, V>(lines, width, names, k, (m - 1) as nat);
    }
}

fn matrix_cells<V: MatrixCell>(record: &Vec<String>, width: usize, loader: &FileLoader) -> (r: Result<Vec<(usize, V)>, ConfigParseError>)
    requires
        record@.len() > 0,
    ensures
        ({
            let cells = record@.map_values(|s: String| s@).skip(1);
            match r {
                Ok(v) => spec_matrix_cells::<V>(cells, width as nat, loader@, cells.len()) == Ok::<Seq<(usize, V)>, ConfigError>(v@),
                Err(e) => spec_matrix_cells::<V>(cells, width as nat, loader@, cells.len()) == Err::<Seq<(usize, V)>, ConfigError>(e@),
            }
        }),
{
    let ghost cells = record@.map_values(|s: String| s@).skip(1);
    let mut values: Vec<(usize, V)> = Vec::new();
    let mut j: usize = 1;
    while j < record.len()
        invariant
            1 <= j <= record@.len(),
            cells == record@.map_values(|s: String| s@).skip(1),
            spec_matrix_cells::<V>(cells, width as nat, loader@, (j - 1) as nat) == Ok::<Seq<(usize, V)>, ConfigError>(values@),
        decreases record.len() - j,
    {
        assert(cells[j - 1] == record@[j as int]@);
        let i = j - 1;
        let text = str_chars(record[j].as_str());
        if text.len() > 0 && i < width {
            match V::read(text.as_slice(), loader) {
                Err(e) => {
                    proof { lemma_cells_error::<V>(cells, width as nat, loader@, j as nat, cells.len()); }
                    return Err(e);
                },
                Ok(v) => values.push((i, v)),
            }
        }
        j += 1;
    }
    Ok(values)
}

/// Reads a table whose header line names its columns by key (its first
/// field is left out) and whose lines each start with a row key; the
/// values of a line are kept with their column.
pub fn read_matrix<H: HeaderKey, R: FromConfig, V: MatrixCell>(data: &str, loader: &FileLoader) -> (r: Result<(Vec<H>, Vec<(R, Vec<(usize, V)>)>), ConfigParseError>)
    ensures
        match r {
            Ok((keys, lines)) => spec_read_matrix::<H, R, V>(data@, loader@) == Ok::<(Seq<H>, Seq<(R, Seq<(usize, V)>)>), ConfigError>((keys@, matrix_lines_view(lines@))),
            Err(e) => spec_read_matrix::<H, R, V>(data@, loader@) == Err::<(Seq<H>, Seq<(R, Seq<(usize, V)>)>), ConfigError>(e@),
        },
{
    let (records, error) = csv_records(data);
    let ghost rs = records_view(records@);
    if records.len() == 0 {
        return match error {
            Some(m) => Err(ConfigParseError::Other(m)),
            None => {
                let keys: Vec<H> = Vec::new();
                let lines: Vec<(R, Vec<(usize, V)>)> = Vec::new();
                assert(keys@ =~= seq![]);
                assert(matrix_lines_view(lines@) =~= seq![]);
                Ok((keys, lines))
            },
        };
    }
    assert(rs[0] == records@[0]@.map_values(|s: String| s@));
    let keys = match header_keys::<H>(&records[0], loader) {
        Err(e) => return Err(e),
        Ok(k) => k,
    };
    let ghost lines = rs.skip(1);
    let mut result: Vec<(R, Vec<(usize, V)>)> = Vec::new();
    let mut k: usize = 1;
    assert(matrix_lines_view(result@) =~= seq![]);
    while k < records.len()
        invariant
            1 <= k <= records@.len(),
            rs == records_view(records@),
            (rs, message_view(error)) == spec_csv_records(data@),
            lines == rs.skip(1),
            spec_header_keys::<H>(fields_after_first(rs[0]), loader@, fields_after_first(rs[0]).len()) == Ok::<Seq<H>, ConfigError>(keys@),
            spec_matrix_lines::<R, V>(lines, keys@.len(), loader@, (k - 1) as nat) == Ok::<Seq<(R, Seq<(usize, V)>)>, ConfigError>(matrix_lines_view(result@)),
        decreases records.len() - k,
    {
        assert(lines[k - 1] == records@[k as int]@.map_values(|s: String| s@));
        let ghost prev = result@;
        let record = &records[k];
        if record.len() > 0 {
            let text = str_chars(record[0].as_str());
            assert(lines[k - 1][0] == text@);
            assert(lines[k - 1].skip(1) =~= record@.map_values(|s: String| s@).skip(1));
            let key = match R::from_conf(text.as_slice(), loader) {
                Err(e) => {
                    assert(spec_matrix_lines::<R, V>(lines, keys@.len(), loader@, k as nat) == Err::<Seq<(R, Seq<(usize, V)>)>, ConfigError>(e@));
                    proof { lemma_lines_error::<R, V>(lines, keys@.len(), loader@, k as nat, (records@.len() - 1) as nat); }
                    return Err(e);
                },
                Ok((key, _)) => key,
            };
            let values = match matrix_cells::<V>(record, keys.len(), loader) {
                Err(e) => {
                    assert(spec_matrix_lines::<R, V>(lines, keys@.len(), loader@, k as nat) == Err::<Seq<(R, Seq<(usize, V)>)>, ConfigError>(e@));
                    proof { lemma_lines_error::<R, V>(lines, keys@.len(), loader@, k as nat, (records@.len() - 1) as nat); }
                    return Err(e);
                },
                Ok(v) => v,
            };
            result.push((key, values));
            assert(matrix_lines_view(result@) =~= matrix_lines_view(prev).push((key, values@)));
        }
        k += 1;
    }
    match error {
        Some(m) => Err(ConfigParseError::Other(m)),
        None => Ok((keys, result)),
    }
}

impl HeaderKey for UnitType {
    fn same(&self, other: &Self) -> (b: bool) {
        self.0 == other.0
    }
}

impl HeaderKey for TerrainType {
    fn same(&self, other: &Self) -> (b: bool) {
        self.0 == other.0
    }
}

impl HeaderKey for TokenType {
    fn same(&self, other: &Self) -> (b: bool) {
        self.0 == other.0
    }
}

impl HeaderKey for FlagKey {
    fn same(&self, other: &Self) -> (b: bool) {
        self.0 == other.0
    }
}

impl HeaderKey for TagKey {
    fn same(&self, other: &Self) -> (b: bool) {
        self.0 == other.0
    }
}

impl HeaderKey for MovementPattern {
    fn same(&self, other: &Self) -> (b: bool) {
        *self == *other
    }
}

impl HeaderKey for FogIntensity {
    fn same(&self, other: &Self) -> (b: bool) {
        *self == *other
    }
}

impl HeaderKey for MovementType {
    fn same(&self, other: &Self) -> (b: bool) {
        self.0 == other.0
    }
}

proof fn lemma_cells_in_width<V: MatrixCell>(cells: Seq<Seq<char>>, width: nat, names: LoaderNames, k: nat)
    requires
        k <= cells.len(),
        spec_matrix_cells::<V>(cells, width, names, k) is Ok,
    ensures
        forall|j: int| 0 <= j < spec_matrix_cells::<V>(cells, width, names, k)->Ok_0.len() ==>
            (#[trigger] spec_matrix_cells::<V>(cells, width, names, k)->Ok_0[j]).0 < width,
    decreases k,
{
    if k > 0 {
        lemma_cells_in_width::<V>(cells, width, names, (k - 1) as nat);
    }
}

/// Every value that a matrix table keeps lies in one of its columns.
proof fn lemma_lines_in_width<R: FromConfig, V: MatrixCell>(lines: Seq<Seq<Seq<char>>>, width: nat, names: LoaderNames, k: nat)
    requires
        k <= lines.len(),
        spec_matrix_lines::<R, V>(lines, width, names, k) is Ok,
    ensures
        forall|i: int, j: int| 0 <= i < spec_matrix_lines::<R, V>(lines, width, names, k)->Ok_0.len()
            && 0 <= j < spec_matrix_lines::<R, V>(lines, width, names, k)->Ok_0[i].1.len() ==>
            (#[trigger] spec_matrix_lines::<R, V>(lines, width, names, k)->Ok_0[i].1[j]).0 < width,
    decreases k,
{
    if k > 0 {
        lemma_lines_in_width::<R, V>(lines, width, names, (k - 1) as nat);
        let line = lines[k - 1];
        if line.len() > 0 {
            if let Ok((key, _)) = R::spec_from_conf(line[0], names) {
                lemma_cells_in_width::<V>(line.skip(1), width, names, (line.len() - 1) as nat);
            }
        }
    }
}

/// Each line's values with the keys of their columns in place of the
/// column positions; a table without columns keeps no line.
pub open spec fn labeled<H, R, V>(keys: Seq<H>, lines: Seq<(R, Seq<(usize, V)>)>) -> Seq<(R, Seq<(H, V)>)> {
    if keys.len() == 0 {
        seq![]
    } else {
        lines.map_values(|l: (R, Seq<(usize, V)>)| (l.0, l.1.map_values(|c: (usize, V)| (keys[c.0 as int], c.1))))
    }
}

pub open spec fn labeled_view<R, H, V>(v: Seq<(R, Vec<(H, V)>)>) -> Seq<(R, Seq<(H, V)>)> {
    v.map_values(|p: (R, Vec<(H, V)>)| (p.0, p.1@))
}

/// A matrix table with the keys of the columns in its lines.
pub open spec fn spec_labeled_matrix<H: FromConfig, R: FromConfig, V: MatrixCell>(data: Seq<char>, names: LoaderNames) -> Result<Seq<(R, Seq<(H, V)>)>, ConfigError> {
    match spec_read_matrix::<H, R, V>(data, names) {
        Err(e) => Err(e),
        Ok((keys, lines)) => Ok(labeled(keys, lines)),
    }
}

/// Reads a matrix table and puts the keys of the columns in its lines.
pub fn labeled_matrix<H: HeaderKey, R: FromConfig + Copy, V: MatrixCell + Copy>(data: &str, loader: &FileLoader) -> (r: Result<Vec<(R, Vec<(H, V)>)>, ConfigParseError>)
    ensures
        match r {
            Ok(v) => spec_labeled_matrix::<H, R, V>(data@, loader@) == Ok::<Seq<(R, Seq<(H, V)>)>, ConfigError>(labeled_view(v@)),
            Err(e) => spec_labeled_matrix::<H, R, V>(data@, loader@) == Err::<Seq<(R, Seq<(H, V)>)>, ConfigError>(e@),
        },
{
    let (keys, lines) = match read_matrix::<H, R, V>(data, loader) {
        Err(e) => return Err(e),
        Ok(m) => m,
    };
    let ghost view = matrix_lines_view(lines@);
    proof {
        let (records, error) = spec_csv_records(data@);
        if records.len() > 0 {
            lemma_lines_in_width::<R, V>(records.skip(1), keys@.len(), loader@, (records.len() - 1) as nat);
        }
    }
    let mut result: Vec<(R, Vec<(H, V)>)> = Vec::new();
    if keys.len() == 0 {
        assert(labeled_view(result@) =~= labeled(keys@, view));
        return Ok(result);
    }
    let mut i: usize = 0;
    while i < lines.len()
        invariant
            0 < keys@.len(),
            i <= lines@.len(),
            view == matrix_lines_view(lines@),
            forall|a: int, b: int| 0 <= a < view.len() && 0 <= b < view[a].1.len() ==> (#[trigger] view[a].1[b]).0 < keys@.len(),
            labeled_view(result@) == labeled(keys@, view.take(i as int)),
        decreases lines.len() - i,
    {
        let ghost prev = result@;
        let cells = &lines[i].1;
        assert(view[i as int].1 == cells@);
        let mut row: Vec<(H, V)> = Vec::new();
        let mut j: usize = 0;
        while j < cells.len()
            invariant
                0 < keys@.len(),
                i < view.len(),
                j <= cells@.len(),
                view[i as int].1 == cells@,
                forall|b: int| 0 <= b < view[i as int].1.len() ==> (#[trigger] view[i as int].1[b]).0 < keys@.len(),
                row@ == cells@.take(j as int).map_values(|c: (usize, V)| (keys@[c.0 as int], c.1)),
            decreases cells.len() - j,
        {
            let c = cells[j];
            assert(view[i as int].1[j as int] == c);
            row.push((keys[c.0], c.1));
            assert(row@ =~= cells@.take(j + 1).map_values(|c: (usize, V)| (keys@[c.0 as int], c.1)));
            j += 1;
        }
        assert(cells@.take(cells@.len() as int) =~= cells@);
        assert(row@ =~= cells@.map_values(|c: (usize, V)| (keys@[c.0 as int], c.1)));
        assert(view[i as int].0 == lines@[i as int].0);
        result.push((lines[i].0, row));
        assert(labeled_view(result@) =~= labeled_view(prev).push((lines@[i as int].0, row@)));
        assert(view.take(i + 1) =~= view.take(i as int).push(view[i as int]));
        assert(labeled(keys@, view.take(i + 1)) =~= labeled(keys@, view.take(i as int)).push(
            (view[i as int].0, view[i as int].1.map_values(|c: (usize, V)| (keys@[c.0 as int], c.1))),
        ));
        i += 1;
    }
    assert(view.take(lines@.len() as int) =~= view);
    Ok(result)
}

/// The unit types each unit type can carry: the transport table read as a
/// matrix of unit types, each line's unit type with the unit types of its
/// non-empty cells.
pub open spec fn spec_unit_transports(data: Seq<char>, names: LoaderNames) -> Result<Seq<(UnitType, Seq<UnitType>)>, ConfigError> {
    match spec_labeled_matrix::<UnitType, UnitType, ()>(data, names) {
        Err(e) => Err(e),
        Ok(lines) => Ok(lines.map_values(|l: (UnitType, Seq<(UnitType, ())>)| (l.0, l.1.map_values(|c: (UnitType, ())| c.0)))),
    }
}

pub open spec fn transports_view(v: Seq<(UnitType, Vec<UnitType>)>) -> Seq<(UnitType, Seq<UnitType>)> {
    v.map_values(|p: (UnitType, Vec<UnitType>)| (p.0, p.1@))
}

/// Reads the transport table.
pub fn unit_transports(data: &str, loader: &FileLoader) -> (r: Result<Vec<(UnitType, Vec<UnitType>)>, ConfigParseError>)
    ensures
        match r {
            Ok(v) => spec_unit_transports(data@, loader@) == Ok::<Seq<(UnitType, Seq<UnitType>)>, ConfigError>(transports_view(v@)),
            Err(e) => spec_unit_transports(data@, loader@) == Err::<Seq<(UnitType, Seq<UnitType>)>, ConfigError>(e@),
        },
{
    let lines = match labeled_matrix::<UnitType, UnitType, ()>(data, loader) {
        Err(e) => return Err(e),
        Ok(l) => l,
    };
    let ghost view = labeled_view(lines@);
    let ghost target = view.map_values(|l: (UnitType, Seq<(UnitType, ())>)| (l.0, l.1.map_values(|c: (UnitType, ())| c.0)));
    let mut result: Vec<(UnitType, Vec<UnitType>)> = Vec::new();
    let mut i: usize = 0;
    while i < lines.len()
        invariant
            i <= lines@.len(),
            view == labeled_view(lines@),
            target == view.map_values(|l: (UnitType, Seq<(UnitType, ())>)| (l.0, l.1.map_values(|c: (UnitType, ())| c.0))),
            transports_view(result@) == target.take(i as int),
        decreases lines.len() - i,
    {
        let cells = &lines[i].1;
        let mut carried: Vec<UnitType> = Vec::new();
        let mut j: usize = 0;
        while j < cells.len()
            invariant
                j <= cells@.len(),
                carried@ == cells@.take(j as int).map_values(|c: (UnitType, ())| c.0),
            decreases cells.len() - j,
        {
            carried.push(cells[j].0);
            assert(carried@ =~= cells@.take(j + 1).map_values(|c: (UnitType, ())| c.0));
            j += 1;
        }
        assert(cells@.take(cells@.len() as int) =~= cells@);
        assert(carried@ =~= cells@.map_values(|c: (UnitType, ())| c.0));
        assert(view[i as int] == (lines@[i as int].0, cells@));
        assert(target[i as int] == (lines@[i as int].0, carried@));
        let ghost prev = result@;
        result.push((lines[i].0, carried));
        assert(transports_view(result@) =~= transports_view(prev).push((lines@[i as int].0, carried@)));
        assert(target.take(i + 1) =~= target.take(i as int).push(target[i as int]));
        i += 1;
    }
    assert(target.take(lines@.len() as int) =~= target);
    Ok(result)
}

} // verus!
