//! Study tables as worksheet spill ranges: which cell goes where. The numbers
//! themselves stay with the caller; a cell names the number it shows.
use vstd::prelude::*;
use crate::strings::{join_seq, join_strings, views};
use crate::text::str_eq;

verus! {

/// Whether a study sample was evaluated.
#[derive(Debug, Clone, Copy, PartialEq, Eq, Structural)]
pub enum StudySampleStatus {
    Evaluated,
    Failed,
}

pub open spec fn status_text(s: StudySampleStatus) -> Seq<char> {
    match s {
        StudySampleStatus::Evaluated => "ok"@,
        StudySampleStatus::Failed => "failed"@,
    }
}

impl StudySampleStatus {
    /// `ok` or `failed`.
    pub fn label(&self) -> (res: &'static str)
        ensures
            res@ == status_text(*self),
    {
        match self {
            StudySampleStatus::Evaluated => "ok",
            StudySampleStatus::Failed => "failed",
        }
    }
}

/// What a spill row shows of a study row: its sample's position, its status,
/// the names of the outputs it has, its warnings, its path summary and its error.
#[derive(Debug, Clone)]
pub struct StudyRowShape {
    pub sample_index: usize,
    pub status: StudySampleStatus,
    pub output_names: Vec<String>,
    pub warnings: Vec<String>,
    pub path_summary: Option<String>,
    pub error: Option<String>,
}

/// One cell of a spill range: the sample's position, the sample value of row
/// `r`, the output of row `r` under column `c`, a text, or nothing.
#[derive(Debug, Clone)]
pub enum SpillCell {
    SampleIndex(usize),
    SampleValue(usize),
    Output(usize, usize),
    Text(String),
    Empty,
}

/// A cell with its text as characters.
pub enum SpillView {
    SampleIndex(usize),
    SampleValue(usize),
    Output(usize, usize),
    Text(Seq<char>),
    Empty,
}

pub open spec fn spill_view(c: SpillCell) -> SpillView {
    match c {
        SpillCell::SampleIndex(i) => SpillView::SampleIndex(i),
        SpillCell::SampleValue(r) => SpillView::SampleValue(r),
        SpillCell::Output(r, j) => SpillView::Output(r, j),
        SpillCell::Text(s) => SpillView::Text(s@),
        SpillCell::Empty => SpillView::Empty,
    }
}

pub open spec fn spill_row_view(cells: Seq<SpillCell>) -> Seq<SpillView> {
    cells.map_values(|c: SpillCell| spill_view(c))
}

/// The header row: position, axis, status, one column per output, then path,
/// warnings and error.
pub open spec fn header_view(axis_name: Seq<char>, columns: Seq<String>) -> Seq<SpillView> {
    seq![SpillView::Text("sample_index"@), SpillView::Text(axis_name), SpillView::Text("status"@)] + columns.map_values(
        |c: String| SpillView::Text(c@),
    ) + seq![SpillView::Text("path"@), SpillView::Text("warnings"@), SpillView::Text("error"@)]
}

/// The text of an optional value, or nothing.
pub open spec fn optional_text(o: Option<String>) -> SpillView {
    match o {
        Some(s) => SpillView::Text(s@),
        None => SpillView::Empty,
    }
}

/// Row `r`: its position and sample value, its status, its output under each
/// column it has, its path summary, its warnings joined by ` | `, its error.
pub open spec fn row_view(r: usize, row: StudyRowShape, columns: Seq<String>) -> Seq<SpillView> {
    seq![SpillView::SampleIndex(row.sample_index), SpillView::SampleValue(r), SpillView::Text(status_text(row.status))]
        + Seq::new(
        columns.len(),
        |j: int|
            if views(row.output_names@).contains(columns[j]@) {
                SpillView::Output(r, j as usize)
            } else {
                SpillView::Empty
            },
    ) + seq![
        optional_text(row.path_summary),
        if row.warnings@.len() == 0 {
            SpillView::Empty
        } else {
            SpillView::Text(join_seq(views(row.warnings@), " | "@))
        },
        optional_text(row.error),
    ]
}

fn optional_cell(o: &Option<String>) -> (c: SpillCell)
    ensures
        spill_view(c) == optional_text(*o),
{
    match o {
        Some(s) => SpillCell::Text(s.clone()),
        None => SpillCell::Empty,
    }
}

fn has_output(names: &Vec<String>, column: &str) -> (res: bool)
    ensures
        res == views(names@).contains(column@),
{
    let mut i: usize = 0;
    while i < names.len()
        invariant
            i <= names@.len(),
            forall|k: int| 0 <= k < i ==> (#[trigger] names@[k])@ != column@,
        decreases names.len() - i,
    {
        if str_eq(names[i].as_str(), column) {
            assert(views(names@)[i as int] == column@);
            return true;
        }
        i = i + 1;
    }
    proof {
        if views(names@).contains(column@) {
            let k = choose|k: int| 0 <= k < views(names@).len() && views(names@)[k] == column@;
            assert(names@[k]@ == column@);
        }
    }
    false
}

fn header_cells(axis_name: &str, columns: &Vec<String>) -> (res: Vec<SpillCell>)
    ensures
        spill_row_view(res@) == header_view(axis_name@, columns@),
{
    let mut h: Vec<SpillCell> = Vec::new();
    h.push(SpillCell::Text(String::from_str("sample_index")));
    h.push(SpillCell::Text(String::from_str(axis_name)));
    h.push(SpillCell::Text(String::from_str("status")));
    let mut j: usize = 0;
    while j < columns.len()
        invariant
            j <= columns@.len(),
            h@.len() == 3 + j,
            spill_view(h@[0]) == SpillView::Text("sample_index"@),
            spill_view(h@[1]) == SpillView::Text(axis_name@),
            spill_view(h@[2]) == SpillView::Text("status"@),
            forall|k: int| 0 <= k < j ==> spill_view(#[trigger] h@[3 + k]) == SpillView::Text(columns@[k]@),
        decreases columns.len() - j,
    {
        h.push(SpillCell::Text(columns[j].clone()));
        j = j + 1;
    }
    h.push(SpillCell::Text(String::from_str("path")));
    h.push(SpillCell::Text(String::from_str("warnings")));
    h.push(SpillCell::Text(String::from_str("error")));
    proof {
        let n = columns@.len();
        assert forall|k: int| 0 <= k < h@.len() implies spill_row_view(h@)[k] == header_view(axis_name@, columns@)[k] by {
            if 3 <= k < 3 + n {
                assert(spill_view(h@[3 + (k - 3)]) == SpillView::Text(columns@[k - 3]@));
            }
        }
        assert(spill_row_view(h@) =~= header_view(axis_name@, columns@));
    }
    h
}

fn row_cells(r: usize, row: &StudyRowShape, columns: &Vec<String>) -> (res: Vec<SpillCell>)
    ensures
        spill_row_view(res@) == row_view(r, *row, columns@),
{
    let mut c: Vec<SpillCell> = Vec::new();
    c.push(SpillCell::SampleIndex(row.sample_index));
    c.push(SpillCell::SampleValue(r));
    c.push(SpillCell::Text(String::from_str(row.status.label())));
    let mut j: usize = 0;
    while j < columns.len()
        invariant
            j <= columns@.len(),
            c@.len() == 3 + j,
            spill_view(c@[0]) == SpillView::SampleIndex(row.sample_index),
            spill_view(c@[1]) == SpillView::SampleValue(r),
            spill_view(c@[2]) == SpillView::Text(status_text(row.status)),
            forall|k: int| 0 <= k < j ==> spill_view(#[trigger] c@[3 + k]) == (if views(row.output_names@).contains(
                columns@[k]@,
            ) {
                SpillView::Output(r, k as usize)
            } else {
                SpillView::Empty
            }),
        decreases columns.len() - j,
    {
        if has_output(&row.output_names, columns[j].as_str()) {
            c.push(SpillCell::Output(r, j));
        } else {
            c.push(SpillCell::Empty);
        }
        j = j + 1;
    }
    c.push(optional_cell(&row.path_summary));
    if row.warnings.len() == 0 {
        c.push(SpillCell::Empty);
    } else {
        c.push(SpillCell::Text(join_strings(&row.warnings, " | ")));
    }
    c.push(optional_cell(&row.error));
    proof {
        let n = columns@.len();
        assert forall|k: int| 0 <= k < c@.len() implies spill_row_view(c@)[k] == row_view(r, *row, columns@)[k] by {
            if 3 <= k < 3 + n {
                assert(spill_view(c@[3 + (k - 3)]) == (if views(row.output_names@).contains(columns@[k - 3]@) {
                    SpillView::Output(r, (k - 3) as usize)
                } else {
                    SpillView::Empty
                }));
            }
        }
        assert(spill_row_view(c@) =~= row_view(r, *row, columns@));
    }
    c
}

/// One header row when asked for, else none.
pub open spec fn header_rows(include_header: bool) -> int {
    if include_header {
        1
    } else {
        0
    }
}

/// The spill range of a study table: the header row when asked for, then one
/// row per study row, in order.
pub fn spill_layout(axis_name: &str, columns: &Vec<String>, rows: &Vec<StudyRowShape>, include_header: bool) -> (res: Vec<Vec<SpillCell>>)
    ensures
        res@.len() == rows@.len() + header_rows(include_header),
        include_header ==> spill_row_view(res@[0]@) == header_view(axis_name@, columns@),
        forall|k: int| header_rows(include_header) <= k < res@.len() ==> spill_row_view((#[trigger] res@[k])@) == row_view(
            (k - header_rows(include_header)) as usize,
            rows@[k - header_rows(include_header)],
            columns@,
        ),
{
    let mut out: Vec<Vec<SpillCell>> = Vec::new();
    if include_header {
        out.push(header_cells(axis_name, columns));
    }
    let ghost off: int = header_rows(include_header);
    let mut r: usize = 0;
    while r < rows.len()
        invariant
            off == header_rows(include_header),
            r <= rows@.len(),
            out@.len() == r + off,
            include_header ==> spill_row_view(out@[0]@) == header_view(axis_name@, columns@),
            forall|k: int| off <= k < out@.len() ==> spill_row_view((#[trigger] out@[k])@) == row_view(
                (k - off) as usize,
                rows@[k - off],
                columns@,
            ),
        decreases rows.len() - r,
    {
        let cells = row_cells(r, &rows[r], columns);
        out.push(cells);
        r = r + 1;
    }
    out
}


/// In every row the output cells sit under their own columns: a row is as
/// wide as the header; an output cell belongs to that row, stands at the
/// position of its column, under that column's name in the header, and the
/// row has an output of that name; and wherever the row has the output a
/// column names, the cell under that column is an output cell.
pub proof fn output_cells_sit_under_their_columns(
    axis_name: Seq<char>,
    r: usize,
    row: StudyRowShape,
    columns: Seq<String>,
    p: int,
)
    requires
        0 <= p < row_view(r, row, columns).len(),
        columns.len() <= usize::MAX,
    ensures
        row_view(r, row, columns).len() == header_view(axis_name, columns).len(),
        row_view(r, row, columns)[p] matches SpillView::Output(r2, j2) ==> {
            &&& r2 == r
            &&& j2 < columns.len()
            &&& p == 3 + j2
            &&& header_view(axis_name, columns)[p] == SpillView::Text(columns[j2 as int]@)
            &&& views(row.output_names@).contains(columns[j2 as int]@)
        },
        3 <= p < 3 + columns.len() && views(row.output_names@).contains(columns[p - 3]@) ==> row_view(r, row, columns)[p] is Output,
{
    let rv = row_view(r, row, columns);
    let hv = header_view(axis_name, columns);
    if 3 <= p < 3 + columns.len() {
        let j = p - 3;
        assert(j as usize == j);
        assert(rv[p] == if views(row.output_names@).contains(columns[j]@) {
            SpillView::Output(r, j as usize)
        } else {
            SpillView::Empty
        });
        assert(hv[p] == SpillView::Text(columns[p - 3]@));
    } else {
        assert(!(rv[p] is Output));
    }
}


/// Every fixed column of a row shows what its header names: the sample's
/// position under `sample_index`, the row's own sample value under the axis
/// name, its status under `status`, and, after the output columns, its path
/// summary under `path`, its warnings under `warnings` and its error under
/// `error`.
pub proof fn fixed_cells_sit_under_their_headers(axis_name: Seq<char>, r: usize, row: StudyRowShape, columns: Seq<String>)
    ensures
        ({
            let rv = row_view(r, row, columns);
            let hv = header_view(axis_name, columns);
            let n = columns.len() as int;
            &&& hv[0] == SpillView::Text("sample_index"@) && rv[0] == SpillView::SampleIndex(row.sample_index)
            &&& hv[1] == SpillView::Text(axis_name) && rv[1] == SpillView::SampleValue(r)
            &&& hv[2] == SpillView::Text("status"@) && rv[2] == SpillView::Text(status_text(row.status))
            &&& hv[3 + n] == SpillView::Text("path"@) && rv[3 + n] == optional_text(row.path_summary)
            &&& hv[4 + n] == SpillView::Text("warnings"@) && (rv[4 + n] is Empty <==> row.warnings@.len() == 0)
            &&& row.warnings@.len() > 0 ==> rv[4 + n] == SpillView::Text(join_seq(views(row.warnings@), " | "@))
            &&& hv[5 + n] == SpillView::Text("error"@) && rv[5 + n] == optional_text(row.error)
        }),
{
}

} // verus!
