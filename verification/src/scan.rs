//! The walk over the rows of one table.
//!
//! A row with a signature or a prose label stores its second cell, a later
//! one replacing an earlier one. A row with an unknown label is reported and
//! passed over. A row without the cell that is to be read ends the walk. At
//! the end of the table both fields must have been seen.

use crate::record::{Builtin, BuiltinView, Diagnostic, DiagnosticView, Field};
use crate::table::{classify, kind_of_label, kind_takes_value, Row, RowKind, Table, TableView};
use crate::text::{label_of, row_label};
use vstd::prelude::*;

verus! {

/// Why the walk over a table's rows ended without a record.
#[derive(Debug, Clone, Copy, PartialEq, Eq, Structural)]
pub enum TableFault {
    /// The row at index `row` lacks the cell at index `cell`.
    MissingCell { row: usize, cell: usize },
    /// The table ended and no row had given this field.
    MissingField { field: Field },
}

/// A [`TableFault`] with its indices as integers.
pub enum TableFaultView {
    MissingCell { row: int, cell: int },
    MissingField { field: Field },
}

impl View for TableFault {
    type V = TableFaultView;

    open spec fn view(&self) -> TableFaultView {
        match *self {
            TableFault::MissingCell { row, cell } => TableFaultView::MissingCell {
                row: row as int,
                cell: cell as int,
            },
            TableFault::MissingField { field } => TableFaultView::MissingField { field: field },
        }
    }
}

/// What has been collected of a table so far.
#[derive(Debug, Clone, PartialEq, Eq)]
pub struct ScanState {
    pub overload: Option<String>,
    pub description: Option<String>,
}

/// A [`ScanState`] as sequences of characters.
pub struct ScanView {
    pub overload: Option<Seq<char>>,
    pub description: Option<Seq<char>>,
}

impl View for ScanState {
    type V = ScanView;

    open spec fn view(&self) -> ScanView {
        ScanView {
            overload: self.overload.deep_view(),
            description: self.description.deep_view(),
        }
    }
}

/// Whether a row with this label and these cells lacks the cell that its
/// label asks for.
pub open spec fn lacks_value(label: Seq<char>, cells: Seq<Seq<char>>) -> bool {
    kind_takes_value(kind_of_label(label)) && cells.len() < 2
}

/// The state after a row with this label and these cells, which holds the
/// cell that its label asks for.
pub open spec fn state_after(state: ScanView, label: Seq<char>, cells: Seq<Seq<char>>) -> ScanView
    recommends
        !lacks_value(label, cells),
{
    match kind_of_label(label) {
        RowKind::Overload => ScanView {
            overload: Some(cells[1]),
            description: state.description,
        },
        RowKind::Description => ScanView {
            overload: state.overload,
            description: Some(cells[1]),
        },
        _ => state,
    }
}

/// The diagnostic, if any, of a row with this label in a table with this
/// markup.
pub open spec fn report_of(label: Seq<char>, markup: Seq<char>) -> Option<DiagnosticView> {
    if kind_of_label(label) is Unknown {
        Some(DiagnosticView { label: label, table: markup })
    } else {
        None
    }
}

/// The record that a table gives when its rows have left this state, or the
/// field that is missing; the signature is asked for first.
pub open spec fn record_of(state: ScanView) -> Result<BuiltinView, Field> {
    match (state.overload, state.description) {
        (None, _) => Err(Field::Overload),
        (Some(_), None) => Err(Field::Description),
        (Some(overload), Some(description)) => Ok(
            BuiltinView { overload: overload, description: description },
        ),
    }
}

/// Whether a row cannot be read: it has no cell at all, or its label asks
/// for a second cell that it has not.
pub open spec fn row_broken(cells: Seq<Seq<char>>) -> bool {
    cells.len() == 0 || lacks_value(label_of(cells[0]), cells)
}

/// The index of the cell that a row that cannot be read lacks.
pub open spec fn absent_cell(cells: Seq<Seq<char>>) -> int {
    if cells.len() == 0 {
        0
    } else {
        1
    }
}

/// Whether every one of the rows can be read.
pub open spec fn all_sound(rows: Seq<Seq<Seq<char>>>) -> bool {
    forall|i: int| 0 <= i < rows.len() ==> !row_broken(#[trigger] rows[i])
}

/// The index of the first row that cannot be read, if there is one.
pub open spec fn first_broken(rows: Seq<Seq<Seq<char>>>) -> Option<int>
    decreases rows.len(),
{
    if rows.len() == 0 {
        None
    } else {
        match first_broken(rows.drop_last()) {
            Some(i) => Some(i),
            None => if row_broken(rows.last()) {
                Some(rows.len() - 1)
            } else {
                None
            },
        }
    }
}

/// The state that rows leave which can all be read.
pub open spec fn collected(rows: Seq<Seq<Seq<char>>>) -> ScanView
    recommends
        all_sound(rows),
    decreases rows.len(),
{
    if rows.len() == 0 {
        ScanView { overload: None, description: None }
    } else {
        state_after(collected(rows.drop_last()), label_of(rows.last()[0]), rows.last())
    }
}

/// The diagnostics, in row order, of rows which can all be read and which
/// stand in a table with this markup.
pub open spec fn reports(rows: Seq<Seq<Seq<char>>>, markup: Seq<char>) -> Seq<DiagnosticView>
    recommends
        all_sound(rows),
    decreases rows.len(),
{
    if rows.len() == 0 {
        Seq::empty()
    } else {
        match report_of(label_of(rows.last()[0]), markup) {
            Some(report) => reports(rows.drop_last(), markup).push(report),
            None => reports(rows.drop_last(), markup),
        }
    }
}

/// What the walk over one table gives: the diagnostics of the rows that were
/// read, and the record or the reason why there is none.
#[derive(Debug, PartialEq, Eq)]
pub struct TableScan {
    pub diagnostics: Vec<Diagnostic>,
    pub outcome: Result<Builtin, TableFault>,
}

/// A [`TableScan`] as sequences of characters.
pub struct TableScanView {
    pub diagnostics: Seq<DiagnosticView>,
    pub outcome: Result<BuiltinView, TableFaultView>,
}

impl View for TableScan {
    type V = TableScanView;

    open spec fn view(&self) -> TableScanView {
        TableScanView {
            diagnostics: self.diagnostics.deep_view(),
            outcome: match self.outcome {
                Ok(record) => Ok(record@),
                Err(fault) => Err(fault@),
            },
        }
    }
}

/// The walk over one table. The rows are read in order up to the first that
/// cannot be read, which ends the walk with the cell that it lacks. Where
/// all can be read, the last signature and the last prose make the record,
/// and a field that no row gave ends the walk instead.
pub open spec fn scan_of(table: TableView) -> TableScanView {
    match first_broken(table.rows) {
        Some(i) => TableScanView {
            diagnostics: reports(table.rows.take(i), table.markup),
            outcome: Err(
                TableFaultView::MissingCell { row: i, cell: absent_cell(table.rows[i]) },
            ),
        },
        None => TableScanView {
            diagnostics: reports(table.rows, table.markup),
            outcome: match record_of(collected(table.rows)) {
                Ok(record) => Ok(record),
                Err(field) => Err(TableFaultView::MissingField { field: field }),
            },
        },
    }
}

/// The record or the missing field, with the record as sequences of
/// characters.
pub open spec fn record_view(outcome: Result<Builtin, Field>) -> Result<BuiltinView, Field> {
    match outcome {
        Ok(record) => Ok(record@),
        Err(field) => Err(field),
    }
}

impl ScanState {
    /// The state before the first row: nothing seen.
    pub fn new() -> (state: ScanState)
        ensures
            state@ == (ScanView { overload: None, description: None }),
    {
        ScanState { overload: None, description: None }
    }

    /// Takes in one row whose label has been computed. On a row that lacks
    /// its second cell where the label asks for it, the state stays as it is
    /// and the index of that cell is returned.
    pub fn apply(&mut self, label: String, row: &Row, markup: &str) -> (step: Result<
        Option<Diagnostic>,
        usize,
    >)
        ensures
            match step {
                Err(cell) => {
                    &&& lacks_value(label@, row@)
                    &&& cell == 1
                    &&& final(self)@ == old(self)@
                },
                Ok(report) => {
                    &&& !lacks_value(label@, row@)
                    &&& report.deep_view() == report_of(label@, markup@)
                    &&& final(self)@ == state_after(old(self)@, label@, row@)
                },
            },
    {
        match classify(label.as_str()) {
            RowKind::Overload => {
                if row.cells.len() < 2 {
                    return Err(1);
                }
                self.overload = Some(row.cells[1].clone());
                Ok(None)
            },
            RowKind::Description => {
                if row.cells.len() < 2 {
                    return Err(1);
                }
                self.description = Some(row.cells[1].clone());
                Ok(None)
            },
            RowKind::Parameterization | RowKind::Blank => Ok(None),
            RowKind::Unknown => Ok(Some(Diagnostic { label: label, table: markup.to_owned() })),
        }
    }

    /// Takes in one row. On a row that cannot be read, the state stays as it
    /// is and the index of the cell that the row lacks is returned.
    pub fn read(&mut self, row: &Row, markup: &str) -> (step: Result<Option<Diagnostic>, usize>)
        ensures
            match step {
                Err(cell) => {
                    &&& row_broken(row@)
                    &&& cell == absent_cell(row@)
                    &&& final(self)@ == old(self)@
                },
                Ok(report) => {
                    &&& !row_broken(row@)
                    &&& report.deep_view() == report_of(label_of(row@[0]), markup@)
                    &&& final(self)@ == state_after(old(self)@, label_of(row@[0]), row@)
                },
            },
    {
        if row.cells.len() == 0 {
            return Err(0);
        }
        let label = row_label(row.cells[0].as_str());
        self.apply(label, row, markup)
    }

    /// Ends the walk: the record, if both fields were seen.
    pub fn finish(self) -> (outcome: Result<Builtin, Field>)
        ensures
            record_view(outcome) == record_of(self@),
    {
        match self.overload {
            None => Err(Field::Overload),
            Some(overload) => match self.description {
                None => Err(Field::Description),
                Some(description) => Ok(Builtin { overload: overload, description: description }),
            },
        }
    }
}

/// A broken row among the first `n` rows is the first broken row of all.
pub proof fn first_broken_stays(rows: Seq<Seq<Seq<char>>>, n: int)
    requires
        0 <= n <= rows.len(),
        first_broken(rows.take(n)) is Some,
    ensures
        first_broken(rows) == first_broken(rows.take(n)),
    decreases rows.len() - n,
{
    if n == rows.len() {
        assert(rows.take(n) =~= rows);
    } else {
        assert(rows.take(n + 1).drop_last() =~= rows.take(n));
        first_broken_stays(rows, n + 1);
    }
}

/// Walks over the rows of one table.
pub fn scan_table(table: &Table) -> (scan: TableScan)
    ensures
        scan@ == scan_of(table@),
{
    let mut state = ScanState::new();
    let mut diagnostics: Vec<Diagnostic> = Vec::new();
    let mut index: usize = 0;
    while index < table.rows.len()
        invariant
            index <= table.rows.len(),
            table@.rows.len() == table.rows.len(),
            first_broken(table@.rows.take(index as int)) is None,
            state@ == collected(table@.rows.take(index as int)),
            diagnostics.deep_view() == reports(table@.rows.take(index as int), table@.markup),
        decreases table.rows.len() - index,
    {
        let row = &table.rows[index];
        assert(table@.rows.take(index + 1).drop_last() =~= table@.rows.take(index as int));
        match state.read(row, table.markup.as_str()) {
            Err(cell) => {
                proof {
                    first_broken_stays(table@.rows, index + 1);
                }
                return TableScan {
                    diagnostics: diagnostics,
                    outcome: Err(TableFault::MissingCell { row: index, cell: cell }),
                };
            },
            Ok(None) => {},
            Ok(Some(report)) => {
                diagnostics.push(report);
            },
        }
        index += 1;
    }
    assert(table@.rows.take(index as int) =~= table@.rows);
    let outcome = match state.finish() {
        Ok(record) => Ok(record),
        Err(field) => Err(TableFault::MissingField { field: field }),
    };
    TableScan { diagnostics: diagnostics, outcome: outcome }
}

} // verus!
