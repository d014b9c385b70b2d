//! Shaping of submission data for export: the flattened row of one
//! submission, the header row, the output-format choice, and CSV encoding
//! through the `csv` crate's writer.

use vstd::prelude::*;

verus! {

use crate::error::AppResult;
use crate::text::dec_str;
use crate::text::i32_to_string;
use crate::text::str_eq_str;

/// One submission joined with its hackathon, one participant, and the
/// aggregated mentor columns, every field already rendered to the plain
/// value the export writes.
#[derive(Clone, Debug)]
pub struct SubmissionDetail {
    pub submission_id: String,
    pub submitted_at: String,
    pub semester: String,
    pub hackathon_name: String,
    pub team_name: String,
    pub participant_count: i32,
    pub mentor_count: i32,
    pub participant_name: Option<String>,
    pub participant_email: Option<String>,
    pub participant_department: Option<String>,
    pub participant_year: Option<String>,
    pub mentor_names: Option<String>,
    pub mentor_departments: Option<String>,
    pub external_confirmed: bool,
    pub status: String,
}

/// An absent text column exports as the empty string.
pub open spec fn opt_cell(o: Option<String>) -> Seq<char> {
    match o {
        Some(s) => s@,
        None => Seq::empty(),
    }
}

/// A boolean column exports as `true` or `false`.
pub open spec fn bool_cell(b: bool) -> Seq<char> {
    if b {
        "true"@
    } else {
        "false"@
    }
}

/// The header row of an export.
pub open spec fn header_row() -> Seq<Seq<char>> {
    seq![
        "submission_id"@,
        "submitted_at"@,
        "semester"@,
        "hackathon_name"@,
        "team_name"@,
        "participant_count"@,
        "mentor_count"@,
        "participant_name"@,
        "participant_email"@,
        "participant_department"@,
        "participant_year"@,
        "mentor_names"@,
        "mentor_departments"@,
        "external_confirmed"@,
        "status"@,
    ]
}

/// The export row of one submission.
pub open spec fn detail_row(s: SubmissionDetail) -> Seq<Seq<char>> {
    seq![
        s.submission_id@,
        s.submitted_at@,
        s.semester@,
        s.hackathon_name@,
        s.team_name@,
        dec_str(s.participant_count as int),
        dec_str(s.mentor_count as int),
        opt_cell(s.participant_name),
        opt_cell(s.participant_email),
        opt_cell(s.participant_department),
        opt_cell(s.participant_year),
        opt_cell(s.mentor_names),
        opt_cell(s.mentor_departments),
        bool_cell(s.external_confirmed),
        s.status@,
    ]
}

/// The full record list of an export: the header, then one row per
/// submission in their given order.
pub open spec fn export_rows(subs: Seq<SubmissionDetail>) -> Seq<Seq<Seq<char>>> {
    seq![header_row()] + subs.map_values(|s: SubmissionDetail| detail_row(s))
}

/// The column names of an export, in order.
pub fn get_headers() -> (r: Vec<&'static str>)
    ensures
        r@.len() == header_row().len(),
        forall|i: int| 0 <= i < r@.len() ==> r@[i]@ == header_row()[i],
{
    let mut v: Vec<&'static str> = Vec::new();
    v.push("submission_id");
    v.push("submitted_at");
    v.push("semester");
    v.push("hackathon_name");
    v.push("team_name");
    v.push("participant_count");
    v.push("mentor_count");
    v.push("participant_name");
    v.push("participant_email");
    v.push("participant_department");
    v.push("participant_year");
    v.push("mentor_names");
    v.push("mentor_departments");
    v.push("external_confirmed");
    v.push("status");
    v
}

fn opt_cell_string(o: &Option<String>) -> (r: String)
    ensures
        r@ == opt_cell(*o),
{
    match o {
        Some(s) => s.clone(),
        None => String::new(),
    }
}

/// Renders the export row of one submission.
pub fn get_submission_row(s: &SubmissionDetail) -> (r: Vec<String>)
    ensures
        r.deep_view() == detail_row(*s),
{
    let mut v: Vec<String> = Vec::new();
    v.push(s.submission_id.clone());
    v.push(s.submitted_at.clone());
    v.push(s.semester.clone());
    v.push(s.hackathon_name.clone());
    v.push(s.team_name.clone());
    v.push(i32_to_string(s.participant_count));
    v.push(i32_to_string(s.mentor_count));
    v.push(opt_cell_string(&s.participant_name));
    v.push(opt_cell_string(&s.participant_email));
    v.push(opt_cell_string(&s.participant_department));
    v.push(opt_cell_string(&s.participant_year));
    v.push(opt_cell_string(&s.mentor_names));
    v.push(opt_cell_string(&s.mentor_departments));
    v.push(if s.external_confirmed {
        "true".to_owned()
    } else {
        "false".to_owned()
    });
    v.push(s.status.clone());
    proof {
        assert(v.deep_view() =~= detail_row(*s));
    }
    v
}

/// The csv crate's stateful writer over an in-memory buffer, held opaquely:
/// Verus sees it only through `csv_rows` and the wrappers below.
#[verifier::external_body]
pub struct CsvBuffer {
    inner: csv::Writer<Vec<u8>>,
}

/// The records written so far to a CSV writer over an in-memory buffer.
pub uninterp spec fn csv_rows(w: CsvBuffer) -> Seq<Seq<Seq<char>>>;

/// The byte encoding `csv::Writer` produces for a record list.
pub uninterp spec fn csv_encoding(rows: Seq<Seq<Seq<char>>>) -> Seq<u8>;

/// Relies on csv::Writer::from_writer over an empty buffer: a fresh writer
/// holds no records.
#[verifier::external_body]
fn csv_writer_new() -> (w: CsvBuffer)
    ensures
        csv_rows(w) == Seq::<Seq<Seq<char>>>::empty(),
{
    CsvBuffer { inner: csv::Writer::from_writer(Vec::new()) }
}

/// Relies on csv::Writer::write_record: the record stands appended to what
/// was written before. In the default non-flexible mode the only error is a
/// record whose field count differs from the first record's, which the
/// precondition rules out, and the in-memory `Vec` sink cannot fail.
#[verifier::external_body]
fn csv_write_record(w: &mut CsvBuffer, row: &Vec<String>)
    requires
        csv_rows(*old(w)).len() == 0 || csv_rows(*old(w))[0].len() == row.deep_view().len(),
    ensures
        csv_rows(*final(w)) == csv_rows(*old(w)).push(row.deep_view()),
{
    w.inner.write_record(row).unwrap()
}

/// Relies on csv::Writer::into_inner, which flushes and hands back the
/// buffer: the bytes are the encoding of the records written, and flushing
/// into the in-memory `Vec` cannot fail.
#[verifier::external_body]
fn csv_writer_into_bytes(w: CsvBuffer) -> (b: Vec<u8>)
    ensures
        b@ == csv_encoding(csv_rows(w)),
{
    w.inner.into_inner().unwrap()
}

/// Encodes the export of the given submissions as CSV: the header row
/// first, then one record per submission in order. Every record has the
/// header's field count, so the encoding always succeeds.
pub fn generate_csv(submissions: Vec<SubmissionDetail>) -> (r: AppResult<Vec<u8>>)
    ensures
        r is Ok,
        r matches Ok(bytes) ==> bytes@ == csv_encoding(export_rows(submissions@)),
{
    let ghost subs = submissions@;
    let ghost rows_fn = |s: SubmissionDetail| detail_row(s);
    let mut w = csv_writer_new();
    let headers = get_headers();
    let mut header_cells: Vec<String> = Vec::new();
    let mut h: usize = 0;
    while h < headers.len()
        invariant
            headers@.len() == header_row().len(),
            forall|i: int| 0 <= i < headers@.len() ==> headers@[i]@ == header_row()[i],
            h <= headers@.len(),
            header_cells.deep_view() == header_row().subrange(0, h as int),
        decreases headers@.len() - h,
    {
        let ghost before = header_cells.deep_view();
        header_cells.push(headers[h].to_owned());
        proof {
            assert(header_cells.deep_view() =~= before.push(headers@[h as int]@));
            assert(before.push(headers@[h as int]@) =~= header_row().subrange(0, h + 1 as int));
        }
        h = h + 1;
    }
    proof {
        assert(header_cells.deep_view() =~= header_row());
    }
    csv_write_record(&mut w, &header_cells);
    proof {
        assert(csv_rows(w) =~= seq![header_row()] + subs.subrange(0, 0).map_values(rows_fn));
    }
    let n = submissions.len();
    let mut i: usize = 0;
    while i < n
        invariant
            subs == submissions@,
            rows_fn == (|s: SubmissionDetail| detail_row(s)),
            n == subs.len(),
            i <= n,
            csv_rows(w) == seq![header_row()] + subs.subrange(0, i as int).map_values(rows_fn),
        decreases n - i,
    {
        let row = get_submission_row(&submissions[i]);
        csv_write_record(&mut w, &row);
        proof {
            assert(subs.subrange(0, i + 1 as int).map_values(rows_fn) =~= subs.subrange(
                0,
                i as int,
            ).map_values(rows_fn).push(detail_row(subs[i as int])));
            assert(csv_rows(w) =~= seq![header_row()] + subs.subrange(0, i + 1 as int).map_values(
                rows_fn,
            ));
        }
        i = i + 1;
    }
    proof {
        assert(subs.subrange(0, n as int) =~= subs);
        assert(csv_rows(w) =~= export_rows(subs));
    }
    Ok(csv_writer_into_bytes(w))
}

/// The serialization an export request selects.
#[derive(Clone, Copy, Debug, PartialEq, Eq, Structural)]
pub enum ExportFormat {
    Csv,
    Xlsx,
}

/// Resolves the optional `format` query parameter: exactly `xlsx` selects
/// the spreadsheet form, anything else falls back to CSV.
pub fn export_format(format: Option<&str>) -> (r: ExportFormat)
    ensures
        (r == ExportFormat::Xlsx) == (format matches Some(f) && f@ == "xlsx"@),
        (r == ExportFormat::Csv) == !(format matches Some(f) && f@ == "xlsx"@),
{
    match format {
        None => ExportFormat::Csv,
        Some(f) => {
            if str_eq_str(f, "xlsx") {
                ExportFormat::Xlsx
            } else {
                ExportFormat::Csv
            }
        },
    }
}

impl ExportFormat {
    /// The content type the export response carries.
    pub fn content_type(&self) -> (r: &str)
        ensures
            *self == ExportFormat::Csv ==> r@ == "text/csv"@,
            *self == ExportFormat::Xlsx ==> r@
                == "application/vnd.openxmlformats-officedocument.spreadsheetml.sheet"@,
    {
        match self {
            ExportFormat::Csv => "text/csv",
            ExportFormat::Xlsx => "application/vnd.openxmlformats-officedocument.spreadsheetml.sheet",
        }
    }

    /// The attachment file name the export response carries.
    pub fn file_name(&self) -> (r: &str)
        ensures
            *self == ExportFormat::Csv ==> r@ == "export.csv"@,
            *self == ExportFormat::Xlsx ==> r@ == "export.xlsx"@,
    {
        match self {
            ExportFormat::Csv => "export.csv",
            ExportFormat::Xlsx => "export.xlsx",
        }
    }
}

} // verus!
