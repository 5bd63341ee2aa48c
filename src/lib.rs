//! Rendering of heterogeneous rows as table cells, with regex filtering of
//! rows before they are displayed.

pub mod cell;
pub mod decimal;
pub mod laws;
pub mod pattern;
pub mod table;

pub use cell::{
    cell_alignment, cell_attrs, cell_hspan, cell_lines, cell_view, lines_of, shown_lines,
    single_line, style_alignment, style_attrs, style_hspan, style_spec_is_valid, style_spec_ok,
    Align, CellSpec, CellSpecTxt, CellView, RenderedCell, StyleAttr,
};
pub use decimal::{decimal_text, digit_char, to_decimal};
pub use pattern::{get_regex, invalid_pattern_message, regex_finds, regex_valid, Pattern};
pub use table::{
    add_to_table, build_rows, filter, filtered, render_row, renders_row, row_has_match,
    row_matches, row_views, table_format, table_rows, table_titles, table_views,
};
