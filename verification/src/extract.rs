//! The walk over all tables of a page.
//!
//! The tables are walked in the order in which they are given. Each gives one
//! record; the first table that gives none ends the walk with its error, and
//! the records gathered so far are dropped. The diagnostics of the rows that
//! were read up to that point are kept.

use crate::record::{Builtin, BuiltinView, Diagnostic, DiagnosticView, Field};
use crate::scan::{all_sound, scan_of, scan_table, TableFault, TableFaultView, TableScan};
use crate::scan_laws::{has_kind, record_needs_both_fields};
use crate::table::{RowKind, Table, TableView};
use vstd::prelude::*;

verus! {

/// Why extraction ended without records.
#[derive(Debug, Clone, Copy, PartialEq, Eq, Structural)]
pub enum ExtractError {
    /// In the table at index `table`, the row at index `row` lacks the cell
    /// at index `cell`.
    MissingCell { table: usize, row: usize, cell: usize },
    /// The table at index `table` ended and no row had given this field.
    MissingField { table: usize, field: Field },
}

/// An [`ExtractError`] with its indices as integers.
pub enum ExtractErrorView {
    MissingCell { table: int, row: int, cell: int },
    MissingField { table: int, field: Field },
}

impl View for ExtractError {
    type V = ExtractErrorView;

    open spec fn view(&self) -> ExtractErrorView {
        match *self {
            ExtractError::MissingCell { table, row, cell } => ExtractErrorView::MissingCell {
                table: table as int,
                row: row as int,
                cell: cell as int,
            },
            ExtractError::MissingField { table, field } => ExtractErrorView::MissingField {
                table: table as int,
                field: field,
            },
        }
    }
}

/// What extraction gives: the diagnostics of the rows that were read, in
/// the order of the rows, and the records, one per table in the order of the
/// tables, or the first error.
#[derive(Debug, PartialEq, Eq)]
pub struct Extraction {
    pub diagnostics: Vec<Diagnostic>,
    pub outcome: Result<Vec<Builtin>, ExtractError>,
}

/// An [`Extraction`] as sequences.
pub struct ExtractionView {
    pub diagnostics: Seq<DiagnosticView>,
    pub outcome: Result<Seq<BuiltinView>, ExtractErrorView>,
}

impl View for Extraction {
    type V = ExtractionView;

    open spec fn view(&self) -> ExtractionView {
        ExtractionView {
            diagnostics: self.diagnostics.deep_view(),
            outcome: match self.outcome {
                Ok(records) => Ok(records.deep_view()),
                Err(error) => Err(error@),
            },
        }
    }
}

/// The error of extraction for a fault in the table at index `table`.
pub open spec fn fault_at(table: int, fault: TableFaultView) -> ExtractErrorView {
    match fault {
        TableFaultView::MissingCell { row, cell } => ExtractErrorView::MissingCell {
            table: table,
            row: row,
            cell: cell,
        },
        TableFaultView::MissingField { field } => ExtractErrorView::MissingField {
            table: table,
            field: field,
        },
    }
}

/// What extraction gives for the given tables.
pub open spec fn extraction_of(tables: Seq<TableView>) -> ExtractionView
    decreases tables.len(),
{
    if tables.len() == 0 {
        ExtractionView { diagnostics: Seq::empty(), outcome: Ok(Seq::empty()) }
    } else {
        let before = extraction_of(tables.drop_last());
        match before.outcome {
            Err(_) => before,
            Ok(records) => {
                let scan = scan_of(tables.last());
                ExtractionView {
                    diagnostics: before.diagnostics + scan.diagnostics,
                    outcome: match scan.outcome {
                        Ok(record) => Ok(records.push(record)),
                        Err(fault) => Err(fault_at(tables.len() - 1, fault)),
                    },
                }
            },
        }
    }
}

/// An error among the first `n` tables is what extraction gives for all.
pub proof fn extraction_error_stays(tables: Seq<TableView>, n: int)
    requires
        0 <= n <= tables.len(),
        extraction_of(tables.take(n)).outcome is Err,
    ensures
        extraction_of(tables) == extraction_of(tables.take(n)),
    decreases tables.len() - n,
{
    if n == tables.len() {
        assert(tables.take(n) =~= tables);
    } else {
        assert(tables.take(n + 1).drop_last() =~= tables.take(n));
        extraction_error_stays(tables, n + 1);
    }
}

/// No tables give no record and no diagnostic.
pub proof fn extraction_of_no_tables(tables: Seq<TableView>)
    requires
        tables.len() == 0,
    ensures
        extraction_of(tables).diagnostics == Seq::<DiagnosticView>::empty(),
        extraction_of(tables).outcome == Ok::<Seq<BuiltinView>, ExtractErrorView>(Seq::empty()),
{
}

/// Records come in the order of their tables. Extraction gives records
/// exactly where every table gives one: then there is one record per table,
/// and the record at an index is that of the table at that index. Where a
/// table gives none, the error is that of the first such table.
pub proof fn records_follow_tables(tables: Seq<TableView>)
    ensures
        match extraction_of(tables).outcome {
            Ok(records) => {
                &&& records.len() == tables.len()
                &&& forall|t: int|
                    0 <= t < tables.len() ==> (#[trigger] scan_of(tables[t])).outcome == Ok::<
                        BuiltinView,
                        TableFaultView,
                    >(records[t])
            },
            Err(error) => exists|t: int|
                {
                    &&& 0 <= t < tables.len()
                    &&& (#[trigger] scan_of(tables[t])).outcome is Err
                    &&& error == fault_at(t, scan_of(tables[t]).outcome->Err_0)
                    &&& forall|earlier: int|
                        0 <= earlier < t ==> (#[trigger] scan_of(tables[earlier])).outcome is Ok
                },
        },
    decreases tables.len(),
{
    if tables.len() > 0 {
        let front = tables.drop_last();
        records_follow_tables(front);
        assert forall|t: int| 0 <= t < front.len() implies front[t] == tables[t] by {}
    }
}

/// A table without a prose row makes extraction fail: no record is made up
/// with an empty description. Where every table before it gives a record,
/// and it has a signature row and every one of its rows can be read, the
/// error names that table and the missing prose.
pub proof fn missing_description_fails(tables: Seq<TableView>, t: int)
    requires
        0 <= t < tables.len(),
        !has_kind(tables[t].rows, RowKind::Description),
    ensures
        extraction_of(tables).outcome is Err,
        all_sound(tables[t].rows) && has_kind(tables[t].rows, RowKind::Overload) && (forall|
            earlier: int,
        |
            0 <= earlier < t ==> (#[trigger] scan_of(tables[earlier])).outcome is Ok)
            ==> extraction_of(tables).outcome == Err::<Seq<BuiltinView>, ExtractErrorView>(
            ExtractErrorView::MissingField { table: t, field: Field::Description },
        ),
{
    records_follow_tables(tables);
    record_needs_both_fields(tables[t]);
}

/// Extracts the records of the given tables.
pub fn extract_tables(tables: &Vec<Table>) -> (extraction: Extraction)
    ensures
        extraction@ == extraction_of(tables.deep_view()),
{
    let ghost all = tables.deep_view();
    let mut records: Vec<Builtin> = Vec::new();
    let mut diagnostics: Vec<Diagnostic> = Vec::new();
    let mut index: usize = 0;
    assert(records.deep_view() =~= Seq::empty());
    while index < tables.len()
        invariant
            index <= tables.len(),
            all == tables.deep_view(),
            extraction_of(all.take(index as int)).diagnostics == diagnostics.deep_view(),
            extraction_of(all.take(index as int)).outcome == Ok::<
                Seq<BuiltinView>,
                ExtractErrorView,
            >(records.deep_view()),
        decreases tables.len() - index,
    {
        let ghost diagnostics_before = diagnostics.deep_view();
        let ghost records_before = records.deep_view();
        assert(all.take(index + 1).drop_last() =~= all.take(index as int));
        let TableScan { diagnostics: mut reports, outcome } = scan_table(&tables[index]);
        let ghost reports_before = reports.deep_view();
        diagnostics.append(&mut reports);
        assert(diagnostics.deep_view() =~= diagnostics_before + reports_before);
        match outcome {
            Ok(record) => {
                records.push(record);
                assert(records.deep_view() =~= records_before.push(record@));
            },
            Err(fault) => {
                let error = match fault {
                    TableFault::MissingCell { row, cell } => ExtractError::MissingCell {
                        table: index,
                        row: row,
                        cell: cell,
                    },
                    TableFault::MissingField { field } => ExtractError::MissingField {
                        table: index,
                        field: field,
                    },
                };
                proof {
                    extraction_error_stays(all, index + 1);
                }
                return Extraction { diagnostics: diagnostics, outcome: Err(error) };
            },
        }
        index += 1;
    }
    assert(all.take(index as int) =~= all);
    Extraction { diagnostics: diagnostics, outcome: Ok(records) }
}

} // verus!
