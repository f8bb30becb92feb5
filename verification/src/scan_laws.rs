//! What holds of the walk over a table's rows, whatever the rows are.

use crate::record::{BuiltinView, DiagnosticView, Field};
use crate::scan::{
    all_sound, collected, first_broken, report_of, reports, row_broken, scan_of,
    TableFaultView,
};
use crate::table::{kind_of_text, kind_takes_value, RowKind, TableView};
use crate::text::label_of;
use vstd::prelude::*;

verus! {

/// Whether the row at index `r` has a first cell and is of the given kind.
pub open spec fn is_of_kind(rows: Seq<Seq<Seq<char>>>, kind: RowKind, r: int) -> bool {
    0 <= r < rows.len() && rows[r].len() > 0 && kind_of_text(rows[r][0]) == kind
}

/// Whether some row is of the given kind.
pub open spec fn has_kind(rows: Seq<Seq<Seq<char>>>, kind: RowKind) -> bool {
    exists|r: int| is_of_kind(rows, kind, r)
}

/// Whether the row at index `r` is of the given kind, has a second cell, and
/// no row behind it is of that kind.
pub open spec fn is_last_of_kind(rows: Seq<Seq<Seq<char>>>, kind: RowKind, r: int) -> bool {
    &&& is_of_kind(rows, kind, r)
    &&& rows[r].len() >= 2
    &&& forall|later: int| r < later < rows.len() ==> !is_of_kind(rows, kind, later)
}

/// The first broken row is the one before which every row can be read; there
/// is none exactly where every row can be read.
pub proof fn first_broken_is_least(rows: Seq<Seq<Seq<char>>>)
    ensures
        match first_broken(rows) {
            Some(i) => 0 <= i < rows.len() && row_broken(rows[i]) && all_sound(rows.take(i)),
            None => all_sound(rows),
        },
    decreases rows.len(),
{
    if rows.len() > 0 {
        let front = rows.drop_last();
        first_broken_is_least(front);
        match first_broken(front) {
            Some(i) => {
                assert(front.take(i) =~= rows.take(i));
            },
            None => {
                assert forall|i: int| 0 <= i < rows.len() - 1 implies !row_broken(
                    #[trigger] rows[i],
                ) by {
                    assert(rows[i] == front[i]);
                }
            },
        }
    }
}

/// A broken row before which every row can be read is the first broken row.
pub proof fn first_broken_is_unique(rows: Seq<Seq<Seq<char>>>, i: int)
    requires
        0 <= i < rows.len(),
        row_broken(rows[i]),
        all_sound(rows.take(i)),
    ensures
        first_broken(rows) == Some(i),
{
    first_broken_is_least(rows);
    match first_broken(rows) {
        Some(j) => {
            if j < i {
                assert(rows.take(i)[j] == rows[j]);
            } else if i < j {
                assert(rows.take(j)[i] == rows[i]);
            }
        },
        None => {},
    }
}

/// The diagnostics of rows one after the other are the diagnostics of the
/// first ones followed by those of the others.
pub proof fn reports_of_joined(
    front: Seq<Seq<Seq<char>>>,
    back: Seq<Seq<Seq<char>>>,
    markup: Seq<char>,
)
    ensures
        reports(front + back, markup) == reports(front, markup) + reports(back, markup),
    decreases back.len(),
{
    if back.len() > 0 {
        assert((front + back).drop_last() =~= front + back.drop_last());
        reports_of_joined(front, back.drop_last(), markup);
    }
}

/// Where every row can be read, a field of the state is the second cell of
/// the last row of that field's kind, and it is empty exactly where no row
/// is of that kind.
pub proof fn last_row_of_a_kind_wins(rows: Seq<Seq<Seq<char>>>)
    requires
        all_sound(rows),
    ensures
        match collected(rows).overload {
            Some(text) => exists|r: int| #[trigger]
                is_last_of_kind(rows, RowKind::Overload, r) && text == rows[r][1],
            None => !has_kind(rows, RowKind::Overload),
        },
        match collected(rows).description {
            Some(text) => exists|r: int| #[trigger]
                is_last_of_kind(rows, RowKind::Description, r) && text == rows[r][1],
            None => !has_kind(rows, RowKind::Description),
        },
    decreases rows.len(),
{
    if rows.len() > 0 {
        last_row_of_a_kind_wins(rows.drop_last());
        last_of_kind_extends(rows, RowKind::Overload);
        last_of_kind_extends(rows, RowKind::Description);
    }
}

/// How the last row of a kind among all rows follows from the last row of
/// that kind among all but the last.
proof fn last_of_kind_extends(rows: Seq<Seq<Seq<char>>>, kind: RowKind)
    requires
        rows.len() > 0,
        rows.last().len() > 0,
        kind_takes_value(kind),
        kind_of_text(rows.last()[0]) == kind ==> rows.last().len() >= 2,
    ensures
        kind_of_text(rows.last()[0]) == kind ==> is_last_of_kind(rows, kind, rows.len() - 1),
        kind_of_text(rows.last()[0]) != kind ==> (has_kind(rows, kind) <==> has_kind(
            rows.drop_last(),
            kind,
        )),
        kind_of_text(rows.last()[0]) != kind ==> forall|r: int| #[trigger]
            is_last_of_kind(rows.drop_last(), kind, r) ==> is_last_of_kind(rows, kind, r),
{
    let front = rows.drop_last();
    let last = rows.len() - 1;
    if kind_of_text(rows.last()[0]) != kind {
        if has_kind(rows, kind) {
            let r = choose|r: int| is_of_kind(rows, kind, r);
            assert(is_of_kind(front, kind, r));
        }
        if has_kind(front, kind) {
            let r = choose|r: int| is_of_kind(front, kind, r);
            assert(is_of_kind(rows, kind, r));
        }
        assert forall|r: int| #[trigger] is_last_of_kind(front, kind, r) implies is_last_of_kind(
            rows,
            kind,
            r,
        ) by {
            assert forall|later: int| r < later < rows.len() implies !is_of_kind(
                rows,
                kind,
                later,
            ) by {
                if later < last {
                    assert(!is_of_kind(front, kind, later));
                }
            }
        }
    }
}

/// A table gives a record exactly where every row can be read and there
/// is a row of each of the two kinds that give a field. Without a signature
/// row the signature is reported missing, with one and without a prose row
/// the prose.
pub proof fn record_needs_both_fields(table: TableView)
    ensures
        scan_of(table).outcome is Ok <==> all_sound(table.rows) && has_kind(
            table.rows,
            RowKind::Overload,
        ) && has_kind(table.rows, RowKind::Description),
        all_sound(table.rows) && !has_kind(table.rows, RowKind::Overload) ==> scan_of(
            table,
        ).outcome == Err::<BuiltinView, TableFaultView>(
            TableFaultView::MissingField { field: Field::Overload },
        ),
        all_sound(table.rows) && has_kind(table.rows, RowKind::Overload) && !has_kind(
            table.rows,
            RowKind::Description,
        ) ==> scan_of(table).outcome == Err::<BuiltinView, TableFaultView>(
            TableFaultView::MissingField { field: Field::Description },
        ),
{
    let rows = table.rows;
    first_broken_is_least(rows);
    if first_broken(rows) is None {
        last_row_of_a_kind_wins(rows);
    }
}

/// Whether a row is read and leaves the state as it is: it has a first cell
/// and its kind is none that gives a field.
pub open spec fn row_passes(cells: Seq<Seq<char>>) -> bool {
    cells.len() > 0 && !kind_takes_value(kind_of_text(cells[0]))
}

/// The outcome of a table after a row that is read was put in at index `at`:
/// the same, but that a row that lacks a cell at or behind that index lies one
/// row further.
pub open spec fn outcome_after_insertion(
    outcome: Result<BuiltinView, TableFaultView>,
    at: int,
) -> Result<BuiltinView, TableFaultView> {
    match outcome {
        Err(TableFaultView::MissingCell { row, cell }) if row >= at => Err(
            TableFaultView::MissingCell { row: row + 1, cell: cell },
        ),
        other => other,
    }
}

/// A row that leaves the state as it is can be taken out of the rows
/// without a change to the state that they leave.
proof fn collected_skips(
    before: Seq<Seq<Seq<char>>>,
    row: Seq<Seq<char>>,
    after: Seq<Seq<Seq<char>>>,
)
    requires
        row_passes(row),
    ensures
        collected(before + seq![row] + after) == collected(before + after),
    decreases after.len(),
{
    let with = before + seq![row] + after;
    let without = before + after;
    if after.len() == 0 {
        assert(with.drop_last() =~= before);
    } else {
        assert(with.drop_last() =~= before + seq![row] + after.drop_last());
        assert(without.drop_last() =~= before + after.drop_last());
        collected_skips(before, row, after.drop_last());
    }
}

/// Where a row that can be read is put in, the first broken row stays where
/// it is if it stands before that row, and lies one row further if not.
proof fn first_broken_after_insertion(
    before: Seq<Seq<Seq<char>>>,
    row: Seq<Seq<char>>,
    after: Seq<Seq<Seq<char>>>,
)
    requires
        !row_broken(row),
    ensures
        first_broken(before + seq![row] + after) == match first_broken(before + after) {
            Some(i) => Some(
                if i < before.len() {
                    i
                } else {
                    i + 1
                },
            ),
            None => None::<int>,
        },
{
    let with = before + seq![row] + after;
    let without = before + after;
    let at = before.len() as int;
    first_broken_is_least(without);
    match first_broken(without) {
        Some(i) => {
            if i < at {
                assert(with.take(i) =~= without.take(i));
                first_broken_is_unique(with, i);
            } else {
                assert forall|j: int| 0 <= j < i + 1 implies !row_broken(
                    #[trigger] with.take(i + 1)[j],
                ) by {
                    if j < at {
                        assert(with[j] == without.take(i)[j]);
                    } else if j > at {
                        assert(with[j] == without.take(i)[j - 1]);
                    }
                }
                first_broken_is_unique(with, i + 1);
            }
        },
        None => {
            first_broken_is_least(with);
            match first_broken(with) {
                Some(j) => {
                    if j < at {
                        assert(with[j] == without[j]);
                    } else if j > at {
                        assert(with[j] == without[j - 1]);
                    }
                },
                None => {},
            }
        },
    }
}

/// What a table gives with a row that leaves the state as it is, held
/// against what it gives without that row: the outcome is the same, but for
/// the place of a row that lacks a cell, and the diagnostics of the row, if
/// it is reached and has one, stand between those of the rows before it and
/// those of the rows behind it.
proof fn scan_after_insertion(
    markup: Seq<char>,
    before: Seq<Seq<Seq<char>>>,
    row: Seq<Seq<char>>,
    after: Seq<Seq<Seq<char>>>,
)
    requires
        row_passes(row),
    ensures
        ({
            let with = scan_of(TableView { markup: markup, rows: before + seq![row] + after });
            let without = scan_of(TableView { markup: markup, rows: before + after });
            let reached = reports(before, markup).len() as int;
            &&& with.outcome == outcome_after_insertion(without.outcome, before.len() as int)
            &&& !all_sound(before) ==> with.diagnostics == without.diagnostics
            &&& all_sound(before) ==> reached <= without.diagnostics.len() && with.diagnostics
                == without.diagnostics.subrange(0, reached) + reports(seq![row], markup)
                + without.diagnostics.subrange(reached, without.diagnostics.len() as int)
        }),
{
    let rows_with = before + seq![row] + after;
    let rows_without = before + after;
    first_broken_after_insertion(before, row, after);
    first_broken_is_least(rows_without);
    first_broken_is_least(before);
    match first_broken(rows_without) {
        Some(i) => {
            if i < before.len() {
                assert(rows_with.take(i) =~= rows_without.take(i));
            } else {
                let rest = after.take(i - before.len());
                assert(rows_with.take(i + 1) =~= before + seq![row] + rest);
                assert(rows_without.take(i) =~= before + rest);
                assert forall|j: int| 0 <= j < before.len() implies !row_broken(
                    #[trigger] before[j],
                ) by {
                    assert(before[j] == rows_without.take(i)[j]);
                }
                reports_of_joined(before + seq![row], rest, markup);
                reports_of_joined(before, seq![row], markup);
                reports_of_joined(before, rest, markup);
            }
        },
        None => {
            assert forall|j: int| 0 <= j < before.len() implies !row_broken(
                #[trigger] before[j],
            ) by {
                assert(before[j] == rows_without[j]);
            }
            collected_skips(before, row, after);
            reports_of_joined(before + seq![row], after, markup);
            reports_of_joined(before, seq![row], markup);
            reports_of_joined(before, after, markup);
        },
    }
}

/// The diagnostics of one row alone: its own, if it has one.
proof fn reports_of_one(row: Seq<Seq<char>>, markup: Seq<char>)
    ensures
        reports(seq![row], markup) == match report_of(label_of(row[0]), markup) {
            Some(report) => seq![report],
            None => Seq::<DiagnosticView>::empty(),
        },
{
    assert(seq![row].drop_last() =~= Seq::<Seq<Seq<char>>>::empty());
    assert(reports(Seq::<Seq<Seq<char>>>::empty(), markup) =~= Seq::<DiagnosticView>::empty());
}

/// A row whose label is empty, or is the one that is recognized and not
/// read, contributes nothing: with it the table gives the diagnostics that
/// it gives without it, and the same outcome, but for the place of a row
/// that lacks a cell.
pub proof fn silent_row_is_skipped(
    markup: Seq<char>,
    before: Seq<Seq<Seq<char>>>,
    row: Seq<Seq<char>>,
    after: Seq<Seq<Seq<char>>>,
)
    requires
        row.len() > 0,
        kind_of_text(row[0]) is Blank || kind_of_text(row[0]) is Parameterization,
    ensures
        ({
            let with = scan_of(TableView { markup: markup, rows: before + seq![row] + after });
            let without = scan_of(TableView { markup: markup, rows: before + after });
            &&& with.diagnostics == without.diagnostics
            &&& with.outcome == outcome_after_insertion(without.outcome, before.len() as int)
        }),
{
    scan_after_insertion(markup, before, row, after);
    reports_of_one(row, markup);
}

/// A row with an unknown label does not stand in the way of the record, and
/// is reported once. Where every row before it can be read, the table gives
/// with it the diagnostics that it gives without it and one more, which names
/// the row's label and stands behind those of the rows before it; and the
/// same outcome, but for the place of a row that lacks a cell.
pub proof fn unknown_row_is_reported(
    markup: Seq<char>,
    before: Seq<Seq<Seq<char>>>,
    row: Seq<Seq<char>>,
    after: Seq<Seq<Seq<char>>>,
)
    requires
        all_sound(before),
        row.len() > 0,
        kind_of_text(row[0]) is Unknown,
    ensures
        ({
            let with = scan_of(TableView { markup: markup, rows: before + seq![row] + after });
            let without = scan_of(TableView { markup: markup, rows: before + after });
            let report = DiagnosticView { label: label_of(row[0]), table: markup };
            &&& reports(before, markup).len() <= without.diagnostics.len()
            &&& with.diagnostics == without.diagnostics.insert(
                reports(before, markup).len() as int,
                report,
            )
            &&& with.outcome == outcome_after_insertion(without.outcome, before.len() as int)
        }),
{
    scan_after_insertion(markup, before, row, after);
    reports_of_one(row, markup);
}

} // verus!
