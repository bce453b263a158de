//! The viewer's state, how a load changes it, and what one frame shows.

use vstd::prelude::*;
use vstd::string::StringExecFns;
use crate::csv_source::{csv_table_of, read_csv};
use crate::text::{display_form, display_text, rows_texts, texts};

verus! {

/// A loaded CSV file: its header row and its data rows.
pub struct Document {
    pub headers: Vec<String>,
    pub rows: Vec<Vec<String>>,
}

/// The viewer's state between frames.
pub struct CsvViewerApp {
    /// The rows of the loaded document.
    pub csv_data: Vec<Vec<String>>,
    /// The header row of the loaded document.
    pub headers: Vec<String>,
    /// The path of the last file that loaded, as shown to the user.
    pub file_path: Option<String>,
    /// What went wrong with the last load, if it failed.
    pub error_message: Option<String>,
}

/// One cell of the grid: the text shown and the full text offered on hover.
pub struct CellView {
    pub shown: String,
    pub full: String,
}

/// One row of the grid: its number, counted from 1, and its cells.
pub struct RowView {
    pub number: usize,
    pub cells: Vec<CellView>,
}

/// The grid of a loaded document, with its size.
pub struct TableView {
    pub row_count: usize,
    pub column_count: usize,
    pub headers: Vec<String>,
    pub rows: Vec<RowView>,
}

/// What the main panel shows in one frame, below the error message if any.
pub enum Screen {
    /// The document as a grid.
    Table(TableView),
    /// The greeting shown before any file has loaded.
    Welcome,
    /// Nothing: a file loaded, but it has no header or no data rows.
    Blank,
}

/// A cell view shows `cell` in its display form, and all of it on hover.
pub open spec fn cell_view_of(c: CellView, cell: Seq<char>) -> bool {
    c.shown@ == display_form(cell) && c.full@ == cell
}

/// The view of data row `i` (from 0): numbered `i + 1`, with a cell view for
/// each of its first `width` cells.
pub open spec fn row_view_of(rv: RowView, i: int, row: Seq<String>, width: int) -> bool {
    &&& rv.number == i + 1
    &&& rv.cells@.len() == if row.len() < width { row.len() as int } else { width }
    &&& forall|j: int| 0 <= j < rv.cells@.len() ==> cell_view_of(#[trigger] rv.cells@[j], row[j]@)
}

/// The words that open every load error message.
pub open spec fn load_error_prefix() -> Seq<char> {
    "Error loading CSV: "@
}

/// Reads `data` as CSV: the first record is the header row, the rest are the
/// data rows. On failure the error is the `csv` crate's description of it.
pub fn parse_document(data: &[u8]) -> (r: Result<Document, String>)
    ensures
        match csv_table_of(data@) {
            Some((headers, rows)) => r is Ok && texts(r->Ok_0.headers@) == headers
                && rows_texts(r->Ok_0.rows@) == rows,
            None => r is Err,
        },
{
    match read_csv(data) {
        Ok((headers, rows)) => Ok(Document { headers, rows }),
        Err(e) => Err(e.to_string()),
    }
}

/// A copy of each string of `v`.
fn copy_strings(v: &Vec<String>) -> (r: Vec<String>)
    ensures
        texts(r@) == texts(v@),
{
    let mut r: Vec<String> = Vec::new();
    for i in 0..v.len()
        invariant
            r@.len() == i,
            forall|k: int| 0 <= k < i ==> #[trigger] r@[k]@ == v@[k]@,
    {
        r.push(v[i].clone());
    }
    assert(texts(r@) =~= texts(v@));
    r
}

/// The view of a data row numbered `number`, cut to `width` cells.
fn row_view(number: usize, row: &Vec<String>, width: usize) -> (r: RowView)
    requires
        number >= 1,
    ensures
        row_view_of(r, number - 1, row@, width as int),
{
    let n = if row.len() < width { row.len() } else { width };
    let mut cells: Vec<CellView> = Vec::new();
    for j in 0..n
        invariant
            n <= row@.len(),
            cells@.len() == j,
            forall|k: int| 0 <= k < j ==> cell_view_of(#[trigger] cells@[k], row@[k]@),
    {
        let cell = &row[j];
        cells.push(CellView { shown: display_text(cell.as_str()), full: cell.clone() });
    }
    RowView { number, cells }
}

/// A loaded document has as many header fields and as many data rows as the
/// CSV text it was read from.
pub proof fn lemma_load_counts(app: CsvViewerApp, headers: Seq<Seq<char>>, rows: Seq<Seq<Seq<char>>>)
    requires
        texts(app.headers@) == headers,
        rows_texts(app.csv_data@) == rows,
    ensures
        app.headers@.len() == headers.len(),
        app.csv_data@.len() == rows.len(),
        forall|i: int| 0 <= i < rows.len() ==> #[trigger] app.csv_data@[i]@.len() == rows[i].len(),
{
    assert forall|i: int| 0 <= i < rows.len() implies #[trigger] app.csv_data@[i]@.len() == rows[i].len() by {
        assert(rows[i] == texts(app.csv_data@[i]@));
    }
}

impl Default for CsvViewerApp {
    /// Nothing loaded, no error.
    fn default() -> (r: Self)
        ensures
            r.csv_data@.len() == 0,
            r.headers@.len() == 0,
            r.file_path is None,
            r.error_message is None,
    {
        CsvViewerApp { csv_data: Vec::new(), headers: Vec::new(), file_path: None, error_message: None }
    }
}

impl CsvViewerApp {
    /// Takes in the outcome of loading the file at `path`. A document replaces
    /// the one shown, records `path` and clears the error; a failure sets the
    /// error message and leaves the rest of the state as it was.
    pub fn apply_load(&mut self, path: String, outcome: Result<Document, String>)
        ensures
            match outcome {
                Ok(doc) => final(self).headers@ == doc.headers@
                    && final(self).csv_data@ == doc.rows@
                    && final(self).file_path == Some(path)
                    && final(self).error_message is None,
                Err(reason) => final(self).headers@ == old(self).headers@
                    && final(self).csv_data@ == old(self).csv_data@
                    && final(self).file_path == old(self).file_path
                    && final(self).error_message is Some
                    && final(self).error_message->0@ == load_error_prefix() + reason@,
            },
    {
        match outcome {
            Ok(doc) => {
                self.headers = doc.headers;
                self.csv_data = doc.rows;
                self.file_path = Some(path);
                self.error_message = None;
            },
            Err(reason) => {
                let mut message = String::from_str("Error loading CSV: ");
                message.append(reason.as_str());
                self.error_message = Some(message);
            },
        }
    }

    /// Whether the grid is shown: the document has a header and a data row.
    pub open spec fn shows_table(&self) -> bool {
        self.csv_data@.len() > 0 && self.headers@.len() > 0
    }

    /// What the main panel shows now: the grid, with one row view per data
    /// row and no cells beyond the header's width; else the greeting before
    /// any load; else nothing.
    pub fn frame(&self) -> (r: Screen)
        ensures
            match r {
                Screen::Table(t) => self.shows_table()
                    && t.row_count == self.csv_data@.len()
                    && t.column_count == self.headers@.len()
                    && texts(t.headers@) == texts(self.headers@)
                    && t.rows@.len() == self.csv_data@.len()
                    && forall|i: int| 0 <= i < t.rows@.len() ==> row_view_of(
                        #[trigger] t.rows@[i], i, self.csv_data@[i]@, self.headers@.len() as int),
                Screen::Welcome => !self.shows_table() && self.file_path is None,
                Screen::Blank => !self.shows_table() && self.file_path is Some,
            },
    {
        if self.csv_data.len() > 0 && self.headers.len() > 0 {
            let width = self.headers.len();
            let mut rows: Vec<RowView> = Vec::new();
            for i in 0..self.csv_data.len()
                invariant
                    width == self.headers@.len(),
                    rows@.len() == i,
                    forall|k: int| 0 <= k < i ==> row_view_of(
                        #[trigger] rows@[k], k, self.csv_data@[k]@, width as int),
            {
                rows.push(row_view(i + 1, &self.csv_data[i], width));
            }
            Screen::Table(TableView {
                row_count: self.csv_data.len(),
                column_count: width,
                headers: copy_strings(&self.headers),
                rows,
            })
        } else if self.file_path.is_none() {
            Screen::Welcome
        } else {
            Screen::Blank
        }
    }

    /// Loads the CSV text `data`, read from the file at `path`: on success the
    /// document replaces the one shown; on failure the error message is set,
    /// the document and path stay, and the message is returned.
    pub fn load_csv(&mut self, path: String, data: &[u8]) -> (r: Result<(), String>)
        ensures
            match csv_table_of(data@) {
                Some((headers, rows)) => r is Ok
                    && texts(final(self).headers@) == headers
                    && rows_texts(final(self).csv_data@) == rows
                    && final(self).file_path == Some(path)
                    && final(self).error_message is None,
                None => r is Err
                    && final(self).headers@ == old(self).headers@
                    && final(self).csv_data@ == old(self).csv_data@
                    && final(self).file_path == old(self).file_path
                    && final(self).error_message == Some(r->Err_0)
                    && r->Err_0@.len() > 0
                    && r->Err_0@.len() >= load_error_prefix().len()
                    && r->Err_0@.take(load_error_prefix().len() as int) == load_error_prefix(),
            },
    {
        proof {
            reveal_strlit("Error loading CSV: ");
        }
        let outcome = parse_document(data);
        self.apply_load(path, outcome);
        match &self.error_message {
            Some(m) => {
                assert(m@.take(load_error_prefix().len() as int) =~= load_error_prefix());
                Err(m.clone())
            },
            None => Ok(()),
        }
    }
}

} // verus!
