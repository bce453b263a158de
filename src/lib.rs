//! A CSV viewer's core: loading a document through the `csv` crate, the
//! viewer's state, and the model of what one frame shows.

mod csv_source;
mod text;
mod viewer;

pub use csv_source::csv_table_of;
pub use text::{display_form, display_text, ellipsis, lemma_display_form, rows_texts, texts, DISPLAY_LIMIT, KEPT_CHARS};
pub use viewer::{
    cell_view_of, lemma_load_counts, load_error_prefix, parse_document, row_view_of, CellView, CsvViewerApp, Document,
    RowView, Screen, TableView,
};
