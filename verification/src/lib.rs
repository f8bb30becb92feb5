//! Extraction of builtin-function records from the tables of a web page.
//!
//! The page of a shading language describes each builtin function in a table
//! of labelled rows. The modules here turn such tables into records, one per
//! table:
//!
//! - [`text`]: how the text of a row's first cell becomes the row's label;
//! - [`table`]: tables, rows and cells as plain values, and the kinds of row;
//! - [`record`]: the record of one builtin, and the diagnostic of one row;
//! - [`scan`]: the walk over one table's rows;
//! - [`scan_laws`]: what holds of that walk, whatever the rows are;
//! - [`extract`]: the walk over all tables of a page;
//! - [`page`]: reading the tables out of HTML text;
//! - [`args`]: what the command line of the tool means.

pub mod args;
pub mod extract;
pub mod page;
pub mod record;
pub mod scan;
pub mod scan_laws;
pub mod table;
pub mod text;
