use vstd::prelude::*;

use crate::date::{parse_date, spec_parse_date, Date};
use crate::distro_release::DistroRelease;
use crate::error::Error;
use crate::strutil::str_eq;

verus! {

/// The rows (header row included) that the csv crate reads out of the
/// given text, each row a sequence of cell texts.
pub uninterp spec fn csv_rows_of(s: Seq<char>) -> Seq<Seq<Seq<char>>>;

/// Relies on csv::ReaderBuilder and Reader::into_records: splits CSV text
/// into rows of cells, with flexible row lengths and no header handling.
/// On this input the reader cannot fail: an in-memory slice raises no I/O
/// error, `flexible` disables unequal-length errors, and fields cut from
/// a `&str` at ASCII delimiters stay valid UTF-8.
#[verifier::external_body]
pub(crate) fn parse_csv_rows(data: &str) -> (rows: Vec<Vec<String>>)
    ensures
        rows.deep_view() == csv_rows_of(data@),
{
    let rdr = csv::ReaderBuilder::new().flexible(true).has_headers(false).from_reader(
        data.as_bytes(),
    );
    let mut rows = Vec::new();
    for record in rdr.into_records() {
        let rec = record.expect("reading CSV from in-memory text cannot fail");
        rows.push(rec.iter().map(|f| f.to_string()).collect());
    }
    rows
}

/// The index of the first column whose header equals `name`.
pub open spec fn spec_find_col(header: Seq<Seq<char>>, name: Seq<char>) -> Option<int>
    decreases header.len(),
{
    if header.len() == 0 {
        None
    } else if header[0] == name {
        Some(0)
    } else {
        match spec_find_col(header.drop_first(), name) {
            Some(i) => Some(i + 1),
            None => None,
        }
    }
}

/// The cell of `row` under the column named `name`, absent when the
/// header lacks the column or the row is too short to reach it.
pub open spec fn spec_getfield(
    header: Seq<Seq<char>>,
    row: Seq<Seq<char>>,
    name: Seq<char>,
) -> Option<Seq<char>> {
    match spec_find_col(header, name) {
        Some(i) => if i < row.len() {
            Some(row[i])
        } else {
            None
        },
        None => None,
    }
}

/// An absent or empty date cell is fine; a filled one must parse.
pub open spec fn spec_date_cell_ok(
    header: Seq<Seq<char>>,
    row: Seq<Seq<char>>,
    name: Seq<char>,
) -> bool {
    match spec_getfield(header, row, name) {
        Some(cell) => cell.len() == 0 || spec_parse_date(cell) is Some,
        None => true,
    }
}

/// The date a row's cell denotes; an absent or empty cell denotes an
/// absent date.
pub open spec fn spec_date_field(
    header: Seq<Seq<char>>,
    row: Seq<Seq<char>>,
    name: Seq<char>,
) -> Option<Date> {
    match spec_getfield(header, row, name) {
        Some(cell) => if cell.len() == 0 {
            None
        } else {
            spec_parse_date(cell)
        },
        None => None,
    }
}

/// The required name cells are present, and every filled date cell
/// parses.
pub open spec fn spec_row_ok(header: Seq<Seq<char>>, row: Seq<Seq<char>>) -> bool {
    &&& spec_getfield(header, row, "version"@) is Some
    &&& spec_getfield(header, row, "codename"@) is Some
    &&& spec_getfield(header, row, "series"@) is Some
    &&& spec_date_cell_ok(header, row, "created"@)
    &&& spec_date_cell_ok(header, row, "release"@)
    &&& spec_date_cell_ok(header, row, "eol"@)
    &&& spec_date_cell_ok(header, row, "eol-lts"@)
    &&& spec_date_cell_ok(header, row, "eol-elts"@)
    &&& spec_date_cell_ok(header, row, "eol-esm"@)
    &&& spec_date_cell_ok(header, row, "eol-server"@)
}

/// The error a bad row reports: a missing required cell outranks a date
/// cell that does not parse.
pub open spec fn spec_row_error(header: Seq<Seq<char>>, row: Seq<Seq<char>>) -> Option<Error> {
    if spec_getfield(header, row, "version"@) is None || spec_getfield(header, row, "codename"@)
        is None || spec_getfield(header, row, "series"@) is None {
        Some(Error::MissingField)
    } else if !spec_row_ok(header, row) {
        Some(Error::InvalidDate)
    } else {
        None
    }
}

/// The record a well-formed row denotes, field by field: the names equal
/// their cells (an empty version cell stands for no version), and each
/// date equals its parsed cell.
pub open spec fn spec_rec_matches(
    rec: DistroRelease,
    header: Seq<Seq<char>>,
    row: Seq<Seq<char>>,
) -> bool {
    &&& (match spec_getfield(header, row, "version"@) {
        Some(cell) => if cell.len() == 0 {
            rec.version is None
        } else {
            rec.version matches Some(v) && v@ == cell
        },
        None => true,
    })
    &&& (match spec_getfield(header, row, "codename"@) {
        Some(cell) => rec.codename@ == cell,
        None => true,
    })
    &&& (match spec_getfield(header, row, "series"@) {
        Some(cell) => rec.series@ == cell,
        None => true,
    })
    &&& rec.created == spec_date_field(header, row, "created"@)
    &&& rec.release == spec_date_field(header, row, "release"@)
    &&& rec.eol == spec_date_field(header, row, "eol"@)
    &&& rec.eol_lts == spec_date_field(header, row, "eol-lts"@)
    &&& rec.eol_elts == spec_date_field(header, row, "eol-elts"@)
    &&& rec.eol_esm == spec_date_field(header, row, "eol-esm"@)
    &&& rec.eol_server == spec_date_field(header, row, "eol-server"@)
}

/// The header row of a table text: its first row, or nothing.
pub open spec fn spec_header(rows: Seq<Seq<Seq<char>>>) -> Seq<Seq<char>> {
    if rows.len() > 0 {
        rows[0]
    } else {
        Seq::empty()
    }
}

/// How many data rows a table text has (every row after the header).
pub open spec fn spec_data_len(rows: Seq<Seq<Seq<char>>>) -> int {
    if rows.len() == 0 {
        0
    } else {
        rows.len() - 1
    }
}

/// Every data row of the table is well formed.
pub open spec fn spec_all_rows_ok(rows: Seq<Seq<Seq<char>>>) -> bool {
    forall|i: int| 1 <= i < rows.len() ==> spec_row_ok(spec_header(rows), #[trigger] rows[i])
}

/// The records mirror the table's data rows one for one.
pub open spec fn spec_releases_match_rows(
    rels: Seq<DistroRelease>,
    rows: Seq<Seq<Seq<char>>>,
) -> bool {
    &&& rels.len() == spec_data_len(rows)
    &&& forall|i: int|
        0 <= i < rels.len() ==> spec_rec_matches(#[trigger] rels[i], spec_header(rows), rows[i + 1])
}

/// Column search may start past a prefix without a match.
proof fn lemma_find_col_skip(header: Seq<Seq<char>>, name: Seq<char>, i: int)
    requires
        0 <= i <= header.len(),
        forall|j: int| 0 <= j < i ==> header[j] != name,
    ensures
        spec_find_col(header, name) == (match spec_find_col(header.skip(i), name) {
            Some(k) => Some(k + i),
            None => None::<int>,
        }),
    decreases i,
{
    if i == 0 {
        assert(header.skip(0) =~= header);
    } else {
        lemma_find_col_skip(header, name, i - 1);
        assert(header.skip(i - 1).len() > 0);
        assert(header.skip(i - 1)[0] == header[i - 1]);
        assert(header.skip(i - 1)[0] != name);
        assert(header.skip(i - 1).drop_first() =~= header.skip(i));
    }
}

/// The index of the first column whose header equals `name`, if any.
fn find_col(header: &Vec<String>, name: &str) -> (r: Option<usize>)
    ensures
        r matches Some(i) ==> spec_find_col(header.deep_view(), name@) == Some(i as int),
        r is None ==> spec_find_col(header.deep_view(), name@) is None,
{
    let n = header.len();
    let mut i: usize = 0;
    while i < n
        invariant
            n == header@.len(),
            0 <= i <= n,
            forall|j: int| 0 <= j < i ==> header.deep_view()[j] != name@,
        decreases n - i,
    {
        if str_eq(header[i].as_str(), name) {
            proof {
                lemma_find_col_skip(header.deep_view(), name@, i as int);
                assert(header.deep_view().skip(i as int)[0] == header.deep_view()[i as int]);
            }
            return Some(i);
        }
        i += 1;
    }
    proof {
        lemma_find_col_skip(header.deep_view(), name@, n as int);
        assert(header.deep_view().skip(n as int).len() == 0);
    }
    None
}

/// The cell of `row` under the column named `name`, as a fresh copy.
fn getfield(header: &Vec<String>, row: &Vec<String>, name: &str) -> (r: Option<String>)
    ensures
        (match spec_getfield(header.deep_view(), row.deep_view(), name@) {
            Some(cell) => r matches Some(s) && s@ == cell,
            None => r is None,
        }),
{
    match find_col(header, name) {
        Some(i) => if i < row.len() {
            Some(row[i].clone())
        } else {
            None
        },
        None => None,
    }
}

/// Reads one optional date cell: an absent or empty cell is an absent
/// date, a filled one must parse.
fn date_field(header: &Vec<String>, row: &Vec<String>, name: &str) -> (r: Result<
    Option<Date>,
    Error,
>)
    ensures
        r is Ok <==> spec_date_cell_ok(header.deep_view(), row.deep_view(), name@),
        r matches Ok(d) ==> d == spec_date_field(header.deep_view(), row.deep_view(), name@),
        r matches Err(e) ==> e == Error::InvalidDate,
{
    match getfield(header, row, name) {
        Some(cell) => if cell.as_str().is_empty() {
            Ok(None)
        } else {
            match parse_date(cell.as_str()) {
                Ok(d) => Ok(Some(d)),
                Err(e) => Err(e),
            }
        },
        None => Ok(None),
    }
}

/// Builds one release record from a table row.
fn record_from_row(header: &Vec<String>, row: &Vec<String>) -> (r: Result<DistroRelease, Error>)
    ensures
        r is Ok <==> spec_row_ok(header.deep_view(), row.deep_view()),
        r matches Ok(rec) ==> spec_rec_matches(rec, header.deep_view(), row.deep_view()),
        r matches Err(e) ==> Some(e) == spec_row_error(header.deep_view(), row.deep_view()),
{
    let version = match getfield(header, row, "version") {
        Some(v) => v,
        None => {
            return Err(Error::MissingField);
        },
    };
    let codename = match getfield(header, row, "codename") {
        Some(v) => v,
        None => {
            return Err(Error::MissingField);
        },
    };
    let series = match getfield(header, row, "series") {
        Some(v) => v,
        None => {
            return Err(Error::MissingField);
        },
    };
    let created = match date_field(header, row, "created") {
        Ok(d) => d,
        Err(e) => {
            return Err(e);
        },
    };
    let release = match date_field(header, row, "release") {
        Ok(d) => d,
        Err(e) => {
            return Err(e);
        },
    };
    let eol = match date_field(header, row, "eol") {
        Ok(d) => d,
        Err(e) => {
            return Err(e);
        },
    };
    let eol_lts = match date_field(header, row, "eol-lts") {
        Ok(d) => d,
        Err(e) => {
            return Err(e);
        },
    };
    let eol_elts = match date_field(header, row, "eol-elts") {
        Ok(d) => d,
        Err(e) => {
            return Err(e);
        },
    };
    let eol_esm = match date_field(header, row, "eol-esm") {
        Ok(d) => d,
        Err(e) => {
            return Err(e);
        },
    };
    let eol_server = match date_field(header, row, "eol-server") {
        Ok(d) => d,
        Err(e) => {
            return Err(e);
        },
    };
    Ok(
        DistroRelease::new(
            version,
            codename,
            series,
            created,
            release,
            eol,
            eol_lts,
            eol_elts,
            eol_esm,
            eol_server,
        ),
    )
}

/// Builds the release records of a table, one per data row; the first row
/// names the columns.  A table with no rows at all yields no records.
pub fn build_releases(rows: &Vec<Vec<String>>) -> (r: Result<Vec<DistroRelease>, Error>)
    ensures
        r is Ok <==> spec_all_rows_ok(rows.deep_view()),
        r matches Ok(v) ==> spec_releases_match_rows(v@, rows.deep_view()),
        r matches Err(e) ==> exists|i: int|
            {
                &&& 1 <= i < rows.deep_view().len()
                &&& !spec_row_ok(spec_header(rows.deep_view()), #[trigger] rows.deep_view()[i])
                &&& Some(e) == spec_row_error(spec_header(rows.deep_view()), rows.deep_view()[i])
            },
{
    let mut out: Vec<DistroRelease> = Vec::new();
    if rows.len() == 0 {
        return Ok(out);
    }
    let header = &rows[0];
    let n = rows.len();
    let mut i: usize = 1;
    while i < n
        invariant
            n == rows@.len(),
            1 <= i <= n,
            header.deep_view() == spec_header(rows.deep_view()),
            out@.len() == i - 1,
            forall|j: int|
                1 <= j < i ==> spec_row_ok(
                    spec_header(rows.deep_view()),
                    #[trigger] rows.deep_view()[j],
                ),
            forall|j: int|
                0 <= j < out@.len() ==> spec_rec_matches(
                    #[trigger] out@[j],
                    spec_header(rows.deep_view()),
                    rows.deep_view()[j + 1],
                ),
        decreases n - i,
    {
        match record_from_row(header, &rows[i]) {
            Ok(rec) => {
                out.push(rec);
            },
            Err(e) => {
                proof {
                    assert(rows.deep_view()[i as int] == rows@[i as int].deep_view());
                    assert(!spec_row_ok(spec_header(rows.deep_view()), rows.deep_view()[i as int]));
                    assert(Some(e) == spec_row_error(
                        spec_header(rows.deep_view()),
                        rows.deep_view()[i as int],
                    ));
                }
                return Err(e);
            },
        }
        i += 1;
    }
    Ok(out)
}

} // verus!
