//! Tables as plain values: a table is its markup and its rows, a row is the
//! text of each of its cells. Rows are told apart by their label.

use crate::text::{label_of, lowercased, trimmed};
use vstd::prelude::*;

verus! {

/// One row of a table: the text of each of its cells, in document order.
#[derive(Debug, Clone, PartialEq, Eq)]
pub struct Row {
    pub cells: Vec<String>,
}

impl View for Row {
    type V = Seq<Seq<char>>;

    open spec fn view(&self) -> Seq<Seq<char>> {
        self.cells.deep_view()
    }
}

impl DeepView for Row {
    type V = Seq<Seq<char>>;

    open spec fn deep_view(&self) -> Seq<Seq<char>> {
        self@
    }
}

/// One table of builtin definitions: its markup and its rows, in document
/// order.
#[derive(Debug, Clone, PartialEq, Eq)]
pub struct Table {
    pub markup: String,
    pub rows: Vec<Row>,
}

/// A [`Table`] as sequences of characters.
pub struct TableView {
    pub markup: Seq<char>,
    pub rows: Seq<Seq<Seq<char>>>,
}

impl View for Table {
    type V = TableView;

    open spec fn view(&self) -> TableView {
        TableView { markup: self.markup@, rows: self.rows.deep_view() }
    }
}

impl DeepView for Table {
    type V = TableView;

    open spec fn deep_view(&self) -> TableView {
        self@
    }
}

/// What a row's label says of the row.
#[derive(Debug, Clone, Copy, PartialEq, Eq, Structural)]
pub enum RowKind {
    /// The second cell holds the signature.
    Overload,
    /// The second cell holds the prose.
    Description,
    /// Recognized, and not read.
    Parameterization,
    /// The label is empty: a row that only structures the table.
    Blank,
    /// Any other label.
    Unknown,
}

/// The kind of a row with the given label.
pub open spec fn kind_of_label(label: Seq<char>) -> RowKind {
    if label == "overload"@ {
        RowKind::Overload
    } else if label == "description"@ {
        RowKind::Description
    } else if label == "parameterization"@ {
        RowKind::Parameterization
    } else if label.len() == 0 {
        RowKind::Blank
    } else {
        RowKind::Unknown
    }
}

/// The kind of a row that begins with a cell of the given text.
pub open spec fn kind_of_text(text: Seq<char>) -> RowKind {
    kind_of_label(label_of(text))
}

/// Rows are told apart by their label alone: first cells whose texts are
/// the same once trimmed and in lower case give rows of the same kind,
/// whatever their case and the whitespace around them.
pub proof fn same_label_same_kind(left: Seq<char>, right: Seq<char>)
    requires
        lowercased(trimmed(left)) == lowercased(trimmed(right)),
    ensures
        kind_of_text(left) == kind_of_text(right),
{
}

/// Whether a row of this kind is read for its second cell.
pub open spec fn kind_takes_value(kind: RowKind) -> bool {
    kind is Overload || kind is Description
}

/// Whether two strings hold the same characters.
fn same_text(left: &str, right: &str) -> (same: bool)
    ensures
        same == (left@ == right@),
{
    let left_owned = left.to_owned();
    let right_owned = right.to_owned();
    left_owned == right_owned
}

/// Classifies a row by its label.
pub fn classify(label: &str) -> (kind: RowKind)
    ensures
        kind == kind_of_label(label@),
{
    if same_text(label, "overload") {
        RowKind::Overload
    } else if same_text(label, "description") {
        RowKind::Description
    } else if same_text(label, "parameterization") {
        RowKind::Parameterization
    } else if label.is_empty() {
        RowKind::Blank
    } else {
        RowKind::Unknown
    }
}

} // verus!
