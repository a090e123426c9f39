use vstd::prelude::*;

use crate::config::file_loader::{names_view, FileLoader, LoaderNames};
use crate::config::listing::{position_of, str_chars};
use crate::config::parse::{spec_string_base, string_base, FromConfig};
use crate::config::table::{cell_view, custom_view, TableHeader, TableLine, TableRow};
use crate::config::text::{spec_trim, to_string, to_vec, trim};
use crate::config::{ConfigError, ConfigParseError};

verus! {

/// The records of a text read as CSV with `;` between the fields, up to the
/// first record that can't be read, and the message of that error.
pub uninterp spec fn spec_csv_records(data: Seq<char>) -> (Seq<Seq<Seq<char>>>, Option<Seq<char>>);

pub open spec fn records_view(rows: Seq<Vec<String>>) -> Seq<Seq<Seq<char>>> {
    rows.map_values(|r: Vec<String>| r@.map_values(|s: String| s@))
}

pub open spec fn message_view(m: Option<String>) -> Option<Seq<char>> {
    match m {
        Some(s) => Some(s@),
        None => None,
    }
}

/// Reads `data` with the `csv` crate (`ReaderBuilder` with delimiter `;`
/// and no header line, then `Reader::records`), field by field, until the
/// first error, whose message (`to_string`) is handed back too. The
/// contract names the result; what the CSV format gives is left to the
/// crate, but for one fact its source shows: without `flexible`, a record
/// with another number of fields than the first is an error, so the
/// records handed back all have the same length.
#[verifier::external_body]
pub(crate) fn csv_records(data: &str) -> (r: (Vec<Vec<String>>, Option<String>))
    ensures
        (records_view(r.0@), message_view(r.1)) == spec_csv_records(data@),
        forall|i: int| 0 <= i < r.0@.len() ==> (#[trigger] r.0@[i]).len() == r.0@[0].len(),
{
    let mut reader = csv::ReaderBuilder::new().delimiter(b';').has_headers(false).from_reader(data.as_bytes());
    let mut rows: Vec<Vec<String>> = Vec::new();
    for record in reader.records() {
        match record {
            Ok(record) => rows.push(record.iter().map(|field| field.to_string()).collect()),
            Err(e) => return (rows, Some(e.to_string())),
        }
    }
    (rows, None)
}

/// A column that the header line names: a variant of the header enum, or
/// one of the table's own, by its name.
pub enum HeaderColumn<H> {
    Known(H),
    Custom(Vec<char>),
}

/// A column of the header line, its name seen as a sequence.
pub enum ColumnView<H> {
    Known(H),
    Custom(Seq<char>),
}

pub open spec fn column_view<H>(c: HeaderColumn<H>) -> ColumnView<H> {
    match c {
        HeaderColumn::Known(h) => ColumnView::Known(h),
        HeaderColumn::Custom(n) => ColumnView::Custom(n@),
    }
}

pub open spec fn columns_view<H>(v: Seq<HeaderColumn<H>>) -> Seq<ColumnView<H>> {
    v.map_values(|c: HeaderColumn<H>| column_view(c))
}

/// Whether `c` is the variant with column number `column`.
pub open spec fn known_column<H: TableHeader>(c: ColumnView<H>, column: nat) -> bool {
    match c {
        ColumnView::Known(h) => h.spec_column() == column,
        ColumnView::Custom(_) => false,
    }
}

/// Whether one of `headers` is the variant with column number `column`.
pub open spec fn has_column<H: TableHeader>(headers: Seq<ColumnView<H>>, column: nat) -> bool {
    exists|j: int| 0 <= j < headers.len() && known_column(#[trigger] headers[j], column)
}

/// Whether one of `headers` is the table's own column `name`.
pub open spec fn has_custom<H>(headers: Seq<ColumnView<H>>, name: Seq<char>) -> bool {
    exists|j: int| 0 <= j < headers.len() && #[trigger] headers[j] == ColumnView::<H>::Custom(name)
}

/// The column that a header name opens: the variant it names, or, where the
/// table takes columns of its own, its leading word.
pub open spec fn spec_column_of<H: TableHeader>(text: Seq<char>, names: LoaderNames) -> Result<ColumnView<H>, ConfigError> {
    match H::spec_from_conf(text, names) {
        Ok((h, _)) => Ok(ColumnView::Known(h)),
        Err(e) => if H::spec_takes_custom() {
            Ok(ColumnView::Custom(spec_string_base(text).0))
        } else {
            Err(e)
        },
    }
}

/// The columns named in the header line, left to right; the first name that
/// can't be read, or whose column came before, is the error.
pub open spec fn spec_headers<H: TableHeader>(cells: Seq<Seq<char>>, names: LoaderNames) -> Result<Seq<ColumnView<H>>, ConfigError>
    decreases cells.len(),
{
    if cells.len() == 0 {
        Ok(seq![])
    } else {
        match spec_headers::<H>(cells.drop_last(), names) {
            Err(e) => Err(e),
            Ok(hs) => match spec_column_of::<H>(cells.last(), names) {
                Err(e) => Err(e),
                Ok(c) => if (match c {
                    ColumnView::Known(h) => has_column(hs, h.spec_column()),
                    ColumnView::Custom(n) => has_custom(hs, n),
                }) {
                    Err(ConfigError::DuplicateHeader(cells.last()))
                } else {
                    Ok(hs.push(c))
                },
            },
        }
    }
}

/// The row made of the first `k` fields of `line`, each placed in the
/// column of the variant above it.
pub open spec fn spec_fill<H: TableHeader>(headers: Seq<ColumnView<H>>, line: Seq<Seq<char>>, k: nat) -> Seq<Option<Seq<char>>>
    decreases k,
{
    if k == 0 {
        Seq::new(H::spec_count(), |i: int| None)
    } else {
        let prev = spec_fill(headers, line, (k - 1) as nat);
        match headers[k - 1] {
            ColumnView::Known(h) => prev.update(h.spec_column() as int, Some(line[k - 1])),
            ColumnView::Custom(_) => prev,
        }
    }
}

/// The fields among the first `k` of `line` that stand under a column of
/// the table's own, with its name.
pub open spec fn spec_custom_fill<H>(headers: Seq<ColumnView<H>>, line: Seq<Seq<char>>, k: nat) -> Seq<(Seq<char>, Seq<char>)>
    decreases k,
{
    if k == 0 {
        seq![]
    } else {
        let prev = spec_custom_fill(headers, line, (k - 1) as nat);
        match headers[k - 1] {
            ColumnView::Known(_) => prev,
            ColumnView::Custom(n) => prev.push((n, line[k - 1])),
        }
    }
}

/// How many fields of a line stand under a header.
pub open spec fn row_width<H>(headers: Seq<ColumnView<H>>, line: Seq<Seq<char>>) -> nat {
    if line.len() < headers.len() { line.len() } else { headers.len() }
}

/// The row of a line: the fields that stand under a variant of the header.
pub open spec fn spec_row<H: TableHeader>(headers: Seq<ColumnView<H>>, line: Seq<Seq<char>>) -> Seq<Option<Seq<char>>> {
    spec_fill(headers, line, row_width(headers, line))
}

/// The fields of a line that stand under a column of the table's own.
pub open spec fn spec_custom_row<H>(headers: Seq<ColumnView<H>>, line: Seq<Seq<char>>) -> Seq<(Seq<char>, Seq<char>)> {
    spec_custom_fill(headers, line, row_width(headers, line))
}

/// The first `k` lines read and checked in order, and the loader's names
/// after them; the first error ends the reading.
pub open spec fn spec_lines<L: TableLine>(headers: Seq<ColumnView<L::Header>>, lines: Seq<Seq<Seq<char>>>, names: LoaderNames, k: nat) -> (Result<Seq<L::V>, ConfigError>, LoaderNames)
    decreases k,
{
    if k == 0 {
        (Ok(seq![]), names)
    } else {
        let (prev, n) = spec_lines::<L>(headers, lines, names, (k - 1) as nat);
        match prev {
            Err(e) => (Err(e), n),
            Ok(vs) => {
                let (r, n2) = L::spec_parse(spec_row(headers, lines[k - 1]), spec_custom_row(headers, lines[k - 1]), n);
                match r {
                    Err(e) => (Err(e), n2),
                    Ok(v) => match L::spec_validation(v) {
                        Err(e) => (Err(e), n2),
                        Ok(_) => (Ok(vs.push(v)), n2),
                    },
                }
            },
        }
    }
}

/// A table whose first line names the columns: its lines, read and
/// checked, and the loader's names after them. A CSV error ends the
/// reading where it occurs.
pub open spec fn spec_table_with_headers<L: TableLine>(data: Seq<char>, names: LoaderNames) -> (Result<Seq<L::V>, ConfigError>, LoaderNames) {
    let (records, error) = spec_csv_records(data);
    if records.len() == 0 {
        (match error {
            Some(m) => Err(ConfigError::Other(m)),
            None => Ok(seq![]),
        }, names)
    } else {
        match spec_headers::<L::Header>(records[0], names) {
            Err(e) => (Err(e), names),
            Ok(headers) => {
                let (r, n) = spec_lines::<L>(headers, records.skip(1), names, (records.len() - 1) as nat);
                match r {
                    Err(e) => (Err(e), n),
                    Ok(vs) => (match error {
                        Some(m) => Err(ConfigError::Other(m)),
                        None => Ok(vs),
                    }, n),
                }
            },
        }
    }
}

proof fn lemma_headers_error<H: TableHeader>(cs: Seq<Seq<char>>, names: LoaderNames, i: int)
    requires
        0 <= i <= cs.len(),
        spec_headers::<H>(cs.take(i), names) is Err,
    ensures
        spec_headers::<H>(cs, names) == spec_headers::<H>(cs.take(i), names),
    decreases cs.len() - i,
{
    if i < cs.len() {
        assert(cs.take(i + 1).drop_last() =~= cs.take(i));
        lemma_headers_error::<H>(cs, names, i + 1);
    } else {
        assert(cs.take(i) =~= cs);
    }
}

proof fn lemma_lines_error<L: TableLine>(headers: Seq<ColumnView<L::Header>>, lines: Seq<Seq<Seq<char>>>, names: LoaderNames, k: nat, m: nat)
    requires
        k <= m,
        spec_lines::<L>(headers, lines, names, k).0 is Err,
    ensures
        spec_lines::<L>(headers, lines, names, m) == spec_lines::<L>(headers, lines, names, k),
    decreases m,
{
    if k < m {
        lemma_lines_error::<L>(headers, lines, names, k, (m - 1) as nat);
    }
}

pub open spec fn lines_view<L: TableLine>(v: Seq<L>) -> Seq<L::V> {
    v.map_values(|l: L| l@)
}

fn column_of<H: TableHeader>(text: &[char], loader: &FileLoader) -> (r: Result<HeaderColumn<H>, ConfigParseError>)
    ensures
        match r {
            Ok(c) => spec_column_of::<H>(text@, loader@) == Ok::<ColumnView<H>, ConfigError>(column_view(c)),
            Err(e) => spec_column_of::<H>(text@, loader@) == Err::<ColumnView<H>, ConfigError>(e@),
        },
{
    match H::from_conf(text, loader) {
        Ok((h, _)) => Ok(HeaderColumn::Known(h)),
        Err(e) => if H::takes_custom() {
            let (base, _) = string_base(text);
            Ok(HeaderColumn::Custom(to_vec(base)))
        } else {
            Err(e)
        },
    }
}

fn read_headers<H: TableHeader>(cells: &Vec<String>, loader: &FileLoader) -> (r: Result<Vec<HeaderColumn<H>>, ConfigParseError>)
    ensures
        match r {
            Ok(hs) => spec_headers::<H>(cells@.map_values(|s: String| s@), loader@) == Ok::<Seq<ColumnView<H>>, ConfigError>(columns_view(hs@)),
            Err(e) => spec_headers::<H>(cells@.map_values(|s: String| s@), loader@) == Err::<Seq<ColumnView<H>>, ConfigError>(e@),
        },
{
    let ghost cs = cells@.map_values(|s: String| s@);
    let mut headers: Vec<HeaderColumn<H>> = Vec::new();
    let mut seen: Vec<bool> = Vec::new();
    let mut customs: Vec<Vec<char>> = Vec::new();
    let count = H::count();
    while seen.len() < count
        invariant
            count == H::spec_count(),
            seen.len() <= count,
            forall|c: int| 0 <= c < seen.len() ==> !seen@[c],
        decreases count - seen.len(),
    {
        seen.push(false);
    }
    assert(columns_view(headers@) =~= seq![]);
    let mut i: usize = 0;
    while i < cells.len()
        invariant
            i <= cells@.len(),
            cs == cells@.map_values(|s: String| s@),
            seen.len() == H::spec_count(),
            spec_headers::<H>(cs.take(i as int), loader@) == Ok::<Seq<ColumnView<H>>, ConfigError>(columns_view(headers@)),
            forall|c: int| 0 <= c < seen.len() ==> (seen@[c] <==> has_column(columns_view(headers@), c as nat)),
            forall|n: Seq<char>| has_custom(columns_view(headers@), n) <==> exists|j: int| 0 <= j < customs@.len() && (#[trigger] customs@[j])@ == n,
        decreases cells.len() - i,
    {
        assert(cs.take(i + 1).drop_last() =~= cs.take(i as int));
        let text = str_chars(cells[i].as_str());
        assert(text@ == cs[i as int]);
        let ghost before = columns_view(headers@);
        let col = match column_of::<H>(text.as_slice(), loader) {
            Err(e) => {
                proof { lemma_headers_error::<H>(cs, loader@, i + 1); }
                return Err(e);
            },
            Ok(c) => c,
        };
        let duplicate = match &col {
            HeaderColumn::Known(h) => seen[h.column()],
            HeaderColumn::Custom(n) => {
                let found = position_of(&customs, n.as_slice());
                proof {
                    crate::config::listing::lemma_first_named_from(names_view(customs@), n@, 0);
                    if found is None {
                        assert forall|j: int| 0 <= j < customs@.len() implies (#[trigger] customs@[j])@ != n@ by {
                            assert(names_view(customs@)[j] == customs@[j]@);
                        }
                    } else {
                        let k = found->0 as int;
                        assert(names_view(customs@)[k] == customs@[k]@);
                    }
                }
                found.is_some()
            },
        };
        if duplicate {
            proof { lemma_headers_error::<H>(cs, loader@, i + 1); }
            return Err(ConfigParseError::DuplicateHeader(to_string(text.as_slice())));
        }
        let ghost customs_before = customs@;
        match &col {
            HeaderColumn::Known(h) => {
                seen.set(h.column(), true);
            },
            HeaderColumn::Custom(n) => {
                customs.push(to_vec(n.as_slice()));
            },
        }
        let ghost c = column_view(col);
        headers.push(col);
        assert(columns_view(headers@) =~= before.push(c));
        proof {
            let after = columns_view(headers@);
            assert(after[before.len() as int] == c);
            assert forall|k: int| 0 <= k < seen.len() implies (seen@[k] <==> has_column(after, k as nat)) by {
                if has_column(after, k as nat) {
                    let j = choose|j: int| 0 <= j < after.len() && known_column(#[trigger] after[j], k as nat);
                    if j < before.len() {
                        assert(before[j] == after[j]);
                    }
                } else if has_column(before, k as nat) {
                    let j = choose|j: int| 0 <= j < before.len() && known_column(#[trigger] before[j], k as nat);
                    assert(after[j] == before[j]);
                }
            }
            assert forall|n: Seq<char>| has_custom(after, n) <==> exists|j: int| 0 <= j < customs@.len() && (#[trigger] customs@[j])@ == n by {
                if has_custom(after, n) {
                    let j = choose|j: int| 0 <= j < after.len() && #[trigger] after[j] == ColumnView::<H>::Custom(n);
                    if j < before.len() {
                        assert(before[j] == after[j]);
                        assert(has_custom(before, n));
                        let q = choose|q: int| 0 <= q < customs_before.len() && (#[trigger] customs_before[q])@ == n;
                        assert(customs@[q] == customs_before[q]);
                    } else {
                        assert(customs@[customs@.len() - 1]@ == n);
                    }
                }
                if exists|j: int| 0 <= j < customs@.len() && (#[trigger] customs@[j])@ == n {
                    let q = choose|q: int| 0 <= q < customs@.len() && (#[trigger] customs@[q])@ == n;
                    if q < customs_before.len() {
                        assert(customs_before[q] == customs@[q]);
                        assert(exists|j: int| 0 <= j < customs_before.len() && (#[trigger] customs_before[j])@ == n);
                        assert(has_custom(before, n));
                        let j = choose|j: int| 0 <= j < before.len() && #[trigger] before[j] == ColumnView::<H>::Custom(n);
                        assert(after[j] == before[j]);
                    } else {
                        assert(after[before.len() as int] == ColumnView::<H>::Custom(n));
                    }
                }
            }
        }
        i += 1;
    }
    assert(cs.take(cells@.len() as int) =~= cs);
    Ok(headers)
}

fn make_row<H: TableHeader>(headers: &Vec<HeaderColumn<H>>, line: &Vec<String>) -> (r: TableRow)
    ensures
        r@ == spec_row(columns_view(headers@), line@.map_values(|s: String| s@)),
        custom_view(r.custom@) == spec_custom_row(columns_view(headers@), line@.map_values(|s: String| s@)),
{
    let ghost ls = line@.map_values(|s: String| s@);
    let ghost hv = columns_view(headers@);
    let count = H::count();
    let mut cells: Vec<Option<Vec<char>>> = Vec::new();
    let mut custom: Vec<(Vec<char>, Vec<char>)> = Vec::new();
    while cells.len() < count
        invariant
            count == H::spec_count(),
            cells.len() <= count,
            forall|c: int| 0 <= c < cells.len() ==> cells@[c] is None,
        decreases count - cells.len(),
    {
        cells.push(None);
    }
    let k = if line.len() < headers.len() { line.len() } else { headers.len() };
    assert(cells@.map_values(|c: Option<Vec<char>>| cell_view(c)) =~= spec_fill(hv, ls, 0));
    assert(custom_view(custom@) =~= spec_custom_fill(hv, ls, 0));
    let mut i: usize = 0;
    while i < k
        invariant
            i <= k <= line@.len(),
            k <= headers@.len(),
            k == row_width(hv, ls),
            ls == line@.map_values(|s: String| s@),
            hv == columns_view(headers@),
            cells.len() == H::spec_count(),
            cells@.map_values(|c: Option<Vec<char>>| cell_view(c)) == spec_fill(hv, ls, i as nat),
            custom_view(custom@) == spec_custom_fill(hv, ls, i as nat),
        decreases k - i,
    {
        let text = str_chars(line[i].as_str());
        assert(text@ == ls[i as int]);
        assert(hv[i as int] == column_view(headers@[i as int]));
        let ghost before = cells@.map_values(|c: Option<Vec<char>>| cell_view(c));
        let ghost before_custom = custom_view(custom@);
        match &headers[i] {
            HeaderColumn::Known(h) => {
                let c = h.column();
                cells.set(c, Some(text));
                assert(cells@.map_values(|c: Option<Vec<char>>| cell_view(c)) =~= before.update(c as int, Some(ls[i as int])));
            },
            HeaderColumn::Custom(n) => {
                custom.push((to_vec(n.as_slice()), text));
                assert(custom_view(custom@) =~= before_custom.push((n@, ls[i as int])));
            },
        }
        i += 1;
    }
    TableRow { cells, custom }
}

/// Reads a table whose first line names the columns; `data` is the text of
/// the file. Every line is read with `L::parse` and checked with
/// `L::simple_validation`, in order.
pub fn table_with_headers<L: TableLine>(data: &str, loader: &mut FileLoader) -> (r: Result<Vec<L>, ConfigParseError>)
    ensures
        (match r { Ok(v) => Ok(lines_view(v@)), Err(e) => Err(e@) }, final(loader)@) == spec_table_with_headers::<L>(data@, old(loader)@),
{
    let (records, error) = csv_records(data);
    let ghost rs = records_view(records@);
    if records.len() == 0 {
        return match error {
            Some(m) => Err(ConfigParseError::Other(m)),
            None => {
                let v: Vec<L> = Vec::new();
                assert(lines_view(v@) =~= seq![]);
                Ok(v)
            },
        };
    }
    assert(rs[0] == records@[0]@.map_values(|s: String| s@));
    let headers = match read_headers::<L::Header>(&records[0], loader) {
        Err(e) => return Err(e),
        Ok(h) => h,
    };
    let ghost lines = rs.skip(1);
    let ghost names0 = loader@;
    let mut result: Vec<L> = Vec::new();
    let mut k: usize = 1;
    assert(lines_view(result@) =~= seq![]);
    while k < records.len()
        invariant
            1 <= k <= records@.len(),
            rs == records_view(records@),
            (rs, message_view(error)) == spec_csv_records(data@),
            names0 == old(loader)@,
            spec_headers::<L::Header>(rs[0], names0) == Ok::<Seq<ColumnView<L::Header>>, ConfigError>(columns_view(headers@)),
            lines == rs.skip(1),
            (Ok::<Seq<L::V>, ConfigError>(lines_view(result@)), loader@) == spec_lines::<L>(columns_view(headers@), lines, names0, (k - 1) as nat),
        decreases records.len() - k,
    {
        assert(lines[k - 1] == records@[k as int]@.map_values(|s: String| s@));
        let ghost prev_result = result@;
        let ghost prev_names = loader@;
        let row = make_row(&headers, &records[k]);
        assert(row@ == spec_row(columns_view(headers@), lines[k - 1]));
        let line = match L::parse(&row, loader) {
            Err(e) => {
                proof { lemma_lines_error::<L>(columns_view(headers@), lines, names0, k as nat, (records@.len() - 1) as nat); }
                return Err(e);
            },
            Ok(l) => l,
        };
        match line.simple_validation() {
            Err(e) => {
                proof { lemma_lines_error::<L>(columns_view(headers@), lines, names0, k as nat, (records@.len() - 1) as nat); }
                return Err(e);
            },
            Ok(_) => {},
        }
        result.push(line);
        assert(lines_view(result@) =~= lines_view(prev_result).push(line@));
        assert(spec_lines::<L>(columns_view(headers@), lines, names0, k as nat) == (Ok::<Seq<L::V>, ConfigError>(lines_view(prev_result).push(line@)), loader@));
        k += 1;
    }
    match error {
        Some(m) => Err(ConfigParseError::Other(m)),
        None => Ok(result),
    }
}

/// A check of each line of a table against the lines accepted before it,
/// made as soon as the line is read.
pub trait LineRule<L: TableLine> {
    /// Why `line` is refused after the lines `before`, if it is.
    spec fn spec_refuse(before: Seq<L::V>, line: L::V) -> Option<ConfigError>;

    fn refuse(before: &Vec<L>, line: &L) -> (r: Option<ConfigParseError>)
        ensures
            match r {
                Some(e) => Self::spec_refuse(lines_view(before@), line@) == Some(e@),
                None => Self::spec_refuse(lines_view(before@), line@) is None,
            },
    ;
}

/// The first `k` lines read, checked and held against the rule `R`, in
/// order, and the loader's names after them; the first error ends the
/// reading.
pub open spec fn spec_ruled_lines<L: TableLine, R: LineRule<L>>(headers: Seq<ColumnView<L::Header>>, lines: Seq<Seq<Seq<char>>>, names: LoaderNames, k: nat) -> (Result<Seq<L::V>, ConfigError>, LoaderNames)
    decreases k,
{
    if k == 0 {
        (Ok(seq![]), names)
    } else {
        let (prev, n) = spec_ruled_lines::<L, R>(headers, lines, names, (k - 1) as nat);
        match prev {
            Err(e) => (Err(e), n),
            Ok(vs) => {
                let (r, n2) = L::spec_parse(spec_row(headers, lines[k - 1]), spec_custom_row(headers, lines[k - 1]), n);
                match r {
                    Err(e) => (Err(e), n2),
                    Ok(v) => match L::spec_validation(v) {
                        Err(e) => (Err(e), n2),
                        Ok(_) => match R::spec_refuse(vs, v) {
                            Some(e) => (Err(e), n2),
                            None => (Ok(vs.push(v)), n2),
                        },
                    },
                }
            },
        }
    }
}

/// `spec_table_with_headers` where every line is also held against the rule
/// `R` as soon as it is read.
pub open spec fn spec_ruled_table<L: TableLine, R: LineRule<L>>(data: Seq<char>, names: LoaderNames) -> (Result<Seq<L::V>, ConfigError>, LoaderNames) {
    let (records, error) = spec_csv_records(data);
    if records.len() == 0 {
        (match error {
            Some(m) => Err(ConfigError::Other(m)),
            None => Ok(seq![]),
        }, names)
    } else {
        match spec_headers::<L::Header>(records[0], names) {
            Err(e) => (Err(e), names),
            Ok(headers) => {
                let (r, n) = spec_ruled_lines::<L, R>(headers, records.skip(1), names, (records.len() - 1) as nat);
                match r {
                    Err(e) => (Err(e), n),
                    Ok(vs) => (match error {
                        Some(m) => Err(ConfigError::Other(m)),
                        None => Ok(vs),
                    }, n),
                }
            },
        }
    }
}

proof fn lemma_ruled_lines_error<L: TableLine, R: LineRule<L>>(headers: Seq<ColumnView<L::Header>>, lines: Seq<Seq<Seq<char>>>, names: LoaderNames, k: nat, m: nat)
    requires
        k <= m,
        spec_ruled_lines::<L, R>(headers, lines, names, k).0 is Err,
    ensures
        spec_ruled_lines::<L, R>(headers, lines, names, m) == spec_ruled_lines::<L, R>(headers, lines, names, k),
    decreases m,
{
    if k < m {
        lemma_ruled_lines_error::<L, R>(headers, lines, names, k, (m - 1) as nat);
    }
}

/// Reads a table as `table_with_headers` does, and holds every line
/// against the rule `R` as soon as it is read, before the next line.
pub fn ruled_table<L: TableLine, R: LineRule<L>>(data: &str, loader: &mut FileLoader) -> (r: Result<Vec<L>, ConfigParseError>)
    ensures
        (match r { Ok(v) => Ok(lines_view(v@)), Err(e) => Err(e@) }, final(loader)@) == spec_ruled_table::<L, R>(data@, old(loader)@),
{
    let (records, error) = csv_records(data);
    let ghost rs = records_view(records@);
    if records.len() == 0 {
        return match error {
            Some(m) => Err(ConfigParseError::Other(m)),
            None => {
                let v: Vec<L> = Vec::new();
                assert(lines_view(v@) =~= seq![]);
                Ok(v)
            },
        };
    }
    assert(rs[0] == records@[0]@.map_values(|s: String| s@));
    let headers = match read_headers::<L::Header>(&records[0], loader) {
        Err(e) => return Err(e),
        Ok(h) => h,
    };
    let ghost lines = rs.skip(1);
    let ghost names0 = loader@;
    let mut result: Vec<L> = Vec::new();
    let mut k: usize = 1;
    assert(lines_view(result@) =~= seq![]);
    while k < records.len()
        invariant
            1 <= k <= records@.len(),
            rs == records_view(records@),
            (rs, message_view(error)) == spec_csv_records(data@),
            names0 == old(loader)@,
            spec_headers::<L::Header>(rs[0], names0) == Ok::<Seq<ColumnView<L::Header>>, ConfigError>(columns_view(headers@)),
            lines == rs.skip(1),
            (Ok::<Seq<L::V>, ConfigError>(lines_view(result@)), loader@) == spec_ruled_lines::<L, R>(columns_view(headers@), lines, names0, (k - 1) as nat),
        decreases records.len() - k,
    {
        assert(lines[k - 1] == records@[k as int]@.map_values(|s: String| s@));
        let ghost prev_result = result@;
        let row = make_row(&headers, &records[k]);
        assert(row@ == spec_row(columns_view(headers@), lines[k - 1]));
        let line = match L::parse(&row, loader) {
            Err(e) => {
                proof { lemma_ruled_lines_error::<L, R>(columns_view(headers@), lines, names0, k as nat, (records@.len() - 1) as nat); }
                return Err(e);
            },
            Ok(l) => l,
        };
        match line.simple_validation() {
            Err(e) => {
                proof { lemma_ruled_lines_error::<L, R>(columns_view(headers@), lines, names0, k as nat, (records@.len() - 1) as nat); }
                return Err(e);
            },
            Ok(_) => {},
        }
        match R::refuse(&result, &line) {
            Some(e) => {
                proof { lemma_ruled_lines_error::<L, R>(columns_view(headers@), lines, names0, k as nat, (records@.len() - 1) as nat); }
                return Err(e);
            },
            None => {},
        }
        result.push(line);
        assert(lines_view(result@) =~= lines_view(prev_result).push(line@));
        assert(spec_ruled_lines::<L, R>(columns_view(headers@), lines, names0, k as nat) == (Ok::<Seq<L::V>, ConfigError>(lines_view(prev_result).push(line@)), loader@));
        k += 1;
    }
    match error {
        Some(m) => Err(ConfigParseError::Other(m)),
        None => Ok(result),
    }
}

/// The key-value pairs of a table without header line: the first two
/// fields of every record that has two, trimmed; records with fewer are
/// skipped.
pub open spec fn spec_key_values(records: Seq<Seq<Seq<char>>>) -> Seq<(Seq<char>, Seq<char>)>
    decreases records.len(),
{
    if records.len() == 0 {
        seq![]
    } else {
        let prev = spec_key_values(records.drop_last());
        let r = records.last();
        if r.len() >= 2 {
            prev.push((spec_trim(r[0]), spec_trim(r[1])))
        } else {
            prev
        }
    }
}

/// Reads a table of keys and values from the text of its file: the pairs
/// in order, and the CSV error that ended the reading, if one did.
pub fn table_key_value(data: &str) -> (r: (Vec<(String, String)>, Option<ConfigParseError>))
    ensures
        ({
            let (records, error) = spec_csv_records(data@);
            &&& r.0@.map_values(|p: (String, String)| (p.0@, p.1@)) == spec_key_values(records)
            &&& match error {
                Some(m) => r.1 matches Some(e) && e@ == ConfigError::Other(m),
                None => r.1 is None,
            }
        }),
{
    let (records, error) = csv_records(data);
    let ghost rs = records_view(records@);
    let mut pairs: Vec<(String, String)> = Vec::new();
    let mut k: usize = 0;
    while k < records.len()
        invariant
            k <= records@.len(),
            rs == records_view(records@),
            pairs@.map_values(|p: (String, String)| (p.0@, p.1@)) == spec_key_values(rs.take(k as int)),
        decreases records.len() - k,
    {
        let ghost prev = pairs@;
        assert(rs.take(k + 1).drop_last() =~= rs.take(k as int));
        assert(rs.take(k + 1).last() == records@[k as int]@.map_values(|s: String| s@));
        let record = &records[k];
        if record.len() >= 2 {
            let key = str_chars(record[0].as_str());
            let value = str_chars(record[1].as_str());
            pairs.push((to_string(trim(key.as_slice())), to_string(trim(value.as_slice()))));
            assert(pairs@.map_values(|p: (String, String)| (p.0@, p.1@)) =~= prev.map_values(|p: (String, String)| (p.0@, p.1@)).push((spec_trim(key@), spec_trim(value@))));
        }
        k += 1;
    }
    assert(rs.take(records@.len() as int) =~= rs);
    let e = match error {
        Some(m) => Some(ConfigParseError::Other(m)),
        None => None,
    };
    (pairs, e)
}

} // verus!
