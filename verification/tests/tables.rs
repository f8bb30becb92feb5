use builtins::extract::{extract_tables, ExtractError, Extraction};
use builtins::record::{Builtin, Diagnostic, Field};
use builtins::scan::{scan_table, ScanState, TableFault, TableScan};
use builtins::table::{Row, Table};

fn row(cells: &[&str]) -> Row {
    Row { cells: cells.iter().map(|cell| cell.to_string()).collect() }
}

fn table(markup: &str, rows: Vec<Row>) -> Table {
    Table { markup: markup.to_string(), rows }
}

fn record(overload: &str, description: &str) -> Builtin {
    Builtin { overload: overload.to_string(), description: description.to_string() }
}

fn diagnostic(label: &str, table: &str) -> Diagnostic {
    Diagnostic { label: label.to_string(), table: table.to_string() }
}

#[test]
fn no_tables_give_no_records_and_no_diagnostics() {
    let extraction = extract_tables(&vec![]);
    assert_eq!(extraction, Extraction { diagnostics: vec![], outcome: Ok(vec![]) });
}

#[test]
fn one_overload_and_one_description_give_one_record() {
    let tables = vec![table(
        "<table>",
        vec![row(&["overload", "fn foo()"]), row(&["description", "Does foo."])],
    )];
    let extraction = extract_tables(&tables);
    assert_eq!(
        extraction,
        Extraction { diagnostics: vec![], outcome: Ok(vec![record("fn foo()", "Does foo.")]) }
    );
}

#[test]
fn rows_may_come_in_any_order() {
    let tables = vec![table(
        "",
        vec![row(&["Description", "Does foo."]), row(&["Overload", "fn foo()"])],
    )];
    assert_eq!(extract_tables(&tables).outcome, Ok(vec![record("fn foo()", "Does foo.")]));
}

#[test]
fn unknown_row_is_reported_and_does_not_block() {
    let tables = vec![table(
        "<table>markup</table>",
        vec![
            row(&["Overload", "fn foo()"]),
            row(&["example", "foo()"]),
            row(&["Description", "Does foo."]),
        ],
    )];
    let extraction = extract_tables(&tables);
    assert_eq!(extraction.diagnostics, vec![diagnostic("example", "<table>markup</table>")]);
    assert_eq!(extraction.outcome, Ok(vec![record("fn foo()", "Does foo.")]));
}

#[test]
fn unknown_row_is_reported_by_its_label() {
    let tables = vec![table(
        "T",
        vec![
            row(&["  Example  "]),
            row(&["Overload", "o"]),
            row(&["NOTE", "n", "more"]),
            row(&["Description", "d"]),
        ],
    )];
    let extraction = extract_tables(&tables);
    assert_eq!(extraction.diagnostics, vec![diagnostic("example", "T"), diagnostic("note", "T")]);
    assert_eq!(extraction.outcome, Ok(vec![record("o", "d")]));
}

#[test]
fn row_with_empty_first_cell_is_skipped() {
    let with = vec![table(
        "",
        vec![
            row(&["Overload", "fn foo()"]),
            row(&["", "stray"]),
            row(&["   "]),
            row(&["Description", "Does foo."]),
        ],
    )];
    let without = vec![table(
        "",
        vec![row(&["Overload", "fn foo()"]), row(&["Description", "Does foo."])],
    )];
    assert_eq!(extract_tables(&with), extract_tables(&without));
    assert_eq!(
        extract_tables(&with),
        Extraction { diagnostics: vec![], outcome: Ok(vec![record("fn foo()", "Does foo.")]) }
    );
}

#[test]
fn parameterization_row_is_recognized_and_not_read() {
    let tables = vec![table(
        "",
        vec![
            row(&["Parameterization"]),
            row(&["Overload", "fn foo()"]),
            row(&["Parameterization", "T is f32"]),
            row(&["Description", "Does foo."]),
        ],
    )];
    assert_eq!(
        extract_tables(&tables),
        Extraction { diagnostics: vec![], outcome: Ok(vec![record("fn foo()", "Does foo.")]) }
    );
}

#[test]
fn missing_description_is_an_error() {
    let tables = vec![table("", vec![row(&["Overload", "fn foo()"])])];
    let extraction = extract_tables(&tables);
    assert_eq!(
        extraction.outcome,
        Err(ExtractError::MissingField { table: 0, field: Field::Description })
    );
}

#[test]
fn missing_overload_is_an_error() {
    let tables = vec![table("", vec![row(&["Description", "Does foo."])])];
    assert_eq!(
        extract_tables(&tables).outcome,
        Err(ExtractError::MissingField { table: 0, field: Field::Overload })
    );
}

#[test]
fn table_without_rows_misses_the_overload_first() {
    let tables = vec![table("", vec![])];
    assert_eq!(
        extract_tables(&tables).outcome,
        Err(ExtractError::MissingField { table: 0, field: Field::Overload })
    );
    let unlabelled = vec![table("", vec![row(&["", "x"]), row(&["Parameterization"])])];
    assert_eq!(
        extract_tables(&unlabelled).outcome,
        Err(ExtractError::MissingField { table: 0, field: Field::Overload })
    );
}

#[test]
fn later_row_replaces_earlier_row_of_the_same_kind() {
    let tables = vec![table(
        "",
        vec![
            row(&["Overload", "fn first()"]),
            row(&["Description", "First."]),
            row(&["Overload", "fn second()"]),
            row(&["Description", "Second."]),
            row(&["Overload", "fn third()"]),
        ],
    )];
    assert_eq!(extract_tables(&tables).outcome, Ok(vec![record("fn third()", "Second.")]));
}

#[test]
fn cells_behind_the_second_are_not_read() {
    let tables = vec![table(
        "",
        vec![row(&["Overload", "fn foo()", "extra"]), row(&["Description", "Does foo.", "more"])],
    )];
    assert_eq!(extract_tables(&tables).outcome, Ok(vec![record("fn foo()", "Does foo.")]));
}

#[test]
fn empty_values_are_kept_as_they_are() {
    let tables = vec![table("", vec![row(&["Overload", ""]), row(&["Description", ""])])];
    assert_eq!(extract_tables(&tables).outcome, Ok(vec![record("", "")]));
}

#[test]
fn row_without_cells_is_an_error() {
    let tables = vec![table(
        "",
        vec![row(&["Overload", "fn foo()"]), row(&[]), row(&["Description", "Does foo."])],
    )];
    assert_eq!(
        extract_tables(&tables).outcome,
        Err(ExtractError::MissingCell { table: 0, row: 1, cell: 0 })
    );
}

#[test]
fn labelled_row_without_value_is_an_error() {
    let overload = vec![table("", vec![row(&["Overload"]), row(&["Description", "d"])])];
    assert_eq!(
        extract_tables(&overload).outcome,
        Err(ExtractError::MissingCell { table: 0, row: 0, cell: 1 })
    );
    let description = vec![table("", vec![row(&["Overload", "o"]), row(&[" description "])])];
    assert_eq!(
        extract_tables(&description).outcome,
        Err(ExtractError::MissingCell { table: 0, row: 1, cell: 1 })
    );
}

#[test]
fn first_broken_row_ends_the_walk() {
    let tables = vec![table(
        "T",
        vec![
            row(&["first"]),
            row(&["Overload"]),
            row(&["second"]),
            row(&[]),
        ],
    )];
    let extraction = extract_tables(&tables);
    assert_eq!(extraction.diagnostics, vec![diagnostic("first", "T")]);
    assert_eq!(extraction.outcome, Err(ExtractError::MissingCell { table: 0, row: 1, cell: 1 }));
}

#[test]
fn records_keep_the_order_of_their_tables() {
    let tables = vec![
        table("", vec![row(&["Overload", "fn a()"]), row(&["Description", "A."])]),
        table("", vec![row(&["Description", "B."]), row(&["Overload", "fn b()"])]),
        table("", vec![row(&["Overload", "fn c()"]), row(&["Description", "C."])]),
    ];
    assert_eq!(
        extract_tables(&tables).outcome,
        Ok(vec![record("fn a()", "A."), record("fn b()", "B."), record("fn c()", "C.")])
    );
}

#[test]
fn first_failing_table_ends_extraction() {
    let tables = vec![
        table("one", vec![row(&["Overload", "fn a()"]), row(&["x"]), row(&["Description", "A."])]),
        table("two", vec![row(&["y"]), row(&["Overload", "fn b()"]), row(&["z"])]),
        table("three", vec![row(&["w"]), row(&[])]),
    ];
    let extraction = extract_tables(&tables);
    assert_eq!(
        extraction.diagnostics,
        vec![diagnostic("x", "one"), diagnostic("y", "two"), diagnostic("z", "two")]
    );
    assert_eq!(
        extraction.outcome,
        Err(ExtractError::MissingField { table: 1, field: Field::Description })
    );
}

#[test]
fn diagnostics_keep_document_order_across_tables() {
    let tables = vec![
        table("one", vec![row(&["a"]), row(&["Overload", "o"]), row(&["Description", "d"])]),
        table(
            "two",
            vec![row(&["Overload", "o"]), row(&["b"]), row(&["Description", "d"]), row(&["c"])],
        ),
    ];
    let extraction = extract_tables(&tables);
    assert_eq!(
        extraction.diagnostics,
        vec![diagnostic("a", "one"), diagnostic("b", "two"), diagnostic("c", "two")]
    );
    assert_eq!(extraction.outcome, Ok(vec![record("o", "d"), record("o", "d")]));
}

#[test]
fn scan_of_one_table_gives_its_record() {
    let scan = scan_table(&table(
        "T",
        vec![row(&["Overload", "fn foo()"]), row(&["other"]), row(&["Description", "Does foo."])],
    ));
    assert_eq!(
        scan,
        TableScan {
            diagnostics: vec![diagnostic("other", "T")],
            outcome: Ok(record("fn foo()", "Does foo.")),
        }
    );
}

#[test]
fn scan_of_one_table_gives_its_fault() {
    let missing = scan_table(&table("T", vec![row(&["Overload", "fn foo()"])]));
    assert_eq!(missing.outcome, Err(TableFault::MissingField { field: Field::Description }));
    let broken = scan_table(&table("T", vec![row(&["Overload", "fn foo()"]), row(&[])]));
    assert_eq!(broken.outcome, Err(TableFault::MissingCell { row: 1, cell: 0 }));
}

#[test]
fn state_takes_rows_by_their_label() {
    let mut state = ScanState::new();
    assert_eq!(state, ScanState { overload: None, description: None });
    let first = row(&["Overload", "fn foo()"]);
    assert_eq!(state.apply("overload".to_string(), &first, "T"), Ok(None));
    assert_eq!(state.overload, Some("fn foo()".to_string()));
    assert_eq!(state.description, None);
    assert_eq!(state.apply("description".to_string(), &first, "T"), Ok(None));
    assert_eq!(state.description, Some("fn foo()".to_string()));
    assert_eq!(state.apply("parameterization".to_string(), &first, "T"), Ok(None));
    assert_eq!(state.apply("".to_string(), &first, "T"), Ok(None));
    assert_eq!(
        state.apply("example".to_string(), &first, "T"),
        Ok(Some(diagnostic("example", "T")))
    );
    assert_eq!(
        state,
        ScanState {
            overload: Some("fn foo()".to_string()),
            description: Some("fn foo()".to_string()),
        }
    );
    assert_eq!(state.finish(), Ok(record("fn foo()", "fn foo()")));
}

#[test]
fn state_stays_on_a_row_that_lacks_its_value() {
    let mut state = ScanState::new();
    assert_eq!(state.read(&row(&["Overload", "fn foo()"]), "T"), Ok(None));
    let before = state.clone();
    assert_eq!(state.read(&row(&["Overload"]), "T"), Err(1));
    assert_eq!(state, before);
    assert_eq!(state.read(&row(&[]), "T"), Err(0));
    assert_eq!(state, before);
    assert_eq!(state.apply("description".to_string(), &row(&["x"]), "T"), Err(1));
    assert_eq!(state, before);
    assert_eq!(state.finish(), Err(Field::Description));
}

#[test]
fn state_without_overload_reports_it_first() {
    assert_eq!(ScanState::new().finish(), Err(Field::Overload));
    let mut state = ScanState::new();
    assert_eq!(state.read(&row(&["Description", "d"]), "T"), Ok(None));
    assert_eq!(state.finish(), Err(Field::Overload));
}

#[test]
fn diagnostic_renders_label_and_table() {
    let text = diagnostic("example", "<table></table>").render();
    assert_eq!(text, "Unknown builtin data field kind example\nTable <table></table>\n\n");
    assert_eq!(diagnostic("", "").render(), "Unknown builtin data field kind \nTable \n\n");
}

#[test]
fn skipped_row_moves_a_later_fault_one_row_on() {
    let without = vec![table("T", vec![row(&["Overload", "o"]), row(&["Description"])])];
    let with = vec![table(
        "T",
        vec![row(&["Overload", "o"]), row(&[""]), row(&["Description"])],
    )];
    assert_eq!(
        extract_tables(&without).outcome,
        Err(ExtractError::MissingCell { table: 0, row: 1, cell: 1 })
    );
    assert_eq!(
        extract_tables(&with).outcome,
        Err(ExtractError::MissingCell { table: 0, row: 2, cell: 1 })
    );
    let behind = vec![table(
        "T",
        vec![row(&["Overload", "o"]), row(&["Description"]), row(&[""])],
    )];
    assert_eq!(extract_tables(&behind), extract_tables(&without));
}

#[test]
fn unknown_row_behind_a_broken_row_is_not_reported() {
    let tables = vec![table("T", vec![row(&[]), row(&["example"])])];
    assert_eq!(
        extract_tables(&tables),
        Extraction {
            diagnostics: vec![],
            outcome: Err(ExtractError::MissingCell { table: 0, row: 0, cell: 0 }),
        }
    );
}
