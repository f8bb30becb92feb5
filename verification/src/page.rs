//! Reading the tables out of the HTML text of a page.
//!
//! The text is parsed and queried by the `scraper` crate. Nothing here looks
//! into the parsed document: a document, a selector and an element are
//! handed from one call to the next, and what each call returns is known
//! only by name. The tables, rows and cells that the calls find are copied
//! into plain values, which the rest of the library works on.

use crate::extract::{
    extract_tables, extraction_of, extraction_of_no_tables, records_follow_tables, ExtractErrorView,
    Extraction,
};
use crate::record::{BuiltinView, DiagnosticView};
use crate::scan::{scan_of, TableFaultView};
use crate::table::{Row, Table, TableView};
use vstd::prelude::*;

verus! {

/// A parsed HTML document.
#[verifier::external_type_specification]
#[verifier::external_body]
pub struct ExHtml(scraper::Html);

/// A parsed group of CSS selectors.
#[verifier::external_type_specification]
#[verifier::external_body]
pub struct ExSelector(scraper::Selector);

/// A reference to an element of a parsed document.
#[verifier::external_type_specification]
#[verifier::external_body]
pub struct ExElementRef<'a>(scraper::ElementRef<'a>);

/// The reason why a text is no group of CSS selectors.
#[verifier::external_type_specification]
#[verifier::external_body]
pub struct ExSelectorErrorKind(scraper::error::SelectorErrorKind);

/// The document that `scraper::Html::parse_document` builds from a text.
pub uninterp spec fn parsed_document(body: Seq<char>) -> scraper::Html;

/// What `scraper::Selector::parse` makes of a text.
pub uninterp spec fn parsed_selector(css: Seq<char>) -> Result<
    scraper::Selector,
    scraper::error::SelectorErrorKind,
>;

/// The elements that `scraper::Html::select` yields, in the order in which
/// it yields them.
pub uninterp spec fn document_matches(
    document: &scraper::Html,
    selector: scraper::Selector,
) -> Seq<scraper::ElementRef>;

/// The elements that `scraper::ElementRef::select` yields, in the order in
/// which it yields them.
pub uninterp spec fn element_matches(
    scope: scraper::ElementRef,
    selector: scraper::Selector,
) -> Seq<scraper::ElementRef>;

/// The pieces of text that `scraper::ElementRef::text` yields, one after
/// the other.
pub uninterp spec fn element_text(element: scraper::ElementRef) -> Seq<char>;

/// The markup that `scraper::ElementRef::html` returns.
pub uninterp spec fn element_markup(element: scraper::ElementRef) -> Seq<char>;

/// Calls `scraper::Html::parse_document`, which parses a text as an HTML
/// document and never fails. The document depends on the text alone.
#[verifier::external_body]
fn parse_document(body: &str) -> (document: scraper::Html)
    ensures
        document == parsed_document(body@),
{
    scraper::Html::parse_document(body)
}

/// Calls `scraper::Selector::parse`, which parses a text as a group of CSS
/// selectors. Whether it succeeds, and with what, depends on the text alone.
#[verifier::external_body]
fn parse_selector(css: &str) -> (parsed: Result<
    scraper::Selector,
    scraper::error::SelectorErrorKind,
>)
    ensures
        parsed == parsed_selector(css@),
{
    scraper::Selector::parse(css)
}

/// Calls `scraper::Html::select` and collects what it yields: the elements
/// of the document that match the selector. They depend on the document and
/// the selector alone.
#[verifier::external_body]
fn select_in_document<'a>(document: &'a scraper::Html, selector: &scraper::Selector) -> (found:
    Vec<scraper::ElementRef<'a>>)
    ensures
        found@ == document_matches(document, *selector),
{
    document.select(selector).collect()
}

/// Calls `scraper::ElementRef::select` and collects what it yields: the
/// elements below `scope` that match the selector. They depend on the
/// element and the selector alone.
#[verifier::external_body]
fn select_in_element<'a>(scope: &scraper::ElementRef<'a>, selector: &scraper::Selector) -> (found:
    Vec<scraper::ElementRef<'a>>)
    ensures
        found@ == element_matches(*scope, *selector),
{
    scope.select(selector).collect()
}

/// Calls `scraper::ElementRef::text` and joins the pieces that it yields:
/// the text nodes below the element. They depend on the element alone.
#[verifier::external_body]
fn text_of(element: &scraper::ElementRef) -> (text: String)
    ensures
        text@ == element_text(*element),
{
    element.text().collect()
}

/// Calls `scraper::ElementRef::html`, which writes the element and what is
/// below it as markup. The markup depends on the element alone.
#[verifier::external_body]
fn markup_of(element: &scraper::ElementRef) -> (markup: String)
    ensures
        markup@ == element_markup(*element),
{
    element.html()
}

/// The selector of the tables of builtin definitions: tables with the two
/// classes `data` and `builtin`.
pub const TABLE_SELECTOR: &'static str = "table.data.builtin";

/// The selector of the rows in a table.
pub const ROW_SELECTOR: &'static str = "tr";

/// The selector of the cells in a row.
pub const CELL_SELECTOR: &'static str = "td";

/// One of the three selectors by which a page is read.
#[derive(Debug, Clone, Copy, PartialEq, Eq, Structural)]
pub enum SelectorPart {
    Table,
    Row,
    Cell,
}

/// The three selectors by which a page is read: which elements are tables
/// of builtin definitions, which elements in a table are rows, and which
/// elements in a row are cells.
pub struct Selectors {
    pub table: scraper::Selector,
    pub row: scraper::Selector,
    pub cell: scraper::Selector,
}

/// The selectors that the three texts give, or the first of them, in the
/// order table, row, cell, that is no selector.
pub open spec fn parsed_selectors(table: Seq<char>, row: Seq<char>, cell: Seq<char>) -> Result<
    Selectors,
    SelectorPart,
> {
    match parsed_selector(table) {
        Err(_) => Err(SelectorPart::Table),
        Ok(table) => match parsed_selector(row) {
            Err(_) => Err(SelectorPart::Row),
            Ok(row) => match parsed_selector(cell) {
                Err(_) => Err(SelectorPart::Cell),
                Ok(cell) => Ok(Selectors { table: table, row: row, cell: cell }),
            },
        },
    }
}

impl Selectors {
    /// Parses the three selectors.
    pub fn parse(table: &str, row: &str, cell: &str) -> (parsed: Result<Selectors, SelectorPart>)
        ensures
            parsed == parsed_selectors(table@, row@, cell@),
    {
        let table = match parse_selector(table) {
            Ok(selector) => selector,
            Err(_) => {
                return Err(SelectorPart::Table);
            },
        };
        let row = match parse_selector(row) {
            Ok(selector) => selector,
            Err(_) => {
                return Err(SelectorPart::Row);
            },
        };
        let cell = match parse_selector(cell) {
            Ok(selector) => selector,
            Err(_) => {
                return Err(SelectorPart::Cell);
            },
        };
        Ok(Selectors { table: table, row: row, cell: cell })
    }

    /// The selectors of a page of builtin definitions.
    pub fn builtin() -> (parsed: Result<Selectors, SelectorPart>)
        ensures
            parsed == parsed_selectors(TABLE_SELECTOR@, ROW_SELECTOR@, CELL_SELECTOR@),
    {
        Selectors::parse(TABLE_SELECTOR, ROW_SELECTOR, CELL_SELECTOR)
    }
}

/// The text of each cell of a row element, in the order in which the cells
/// are found.
pub open spec fn row_cells(row: scraper::ElementRef, selectors: Selectors) -> Seq<Seq<char>> {
    let cells = element_matches(row, selectors.cell);
    Seq::new(cells.len(), |c: int| element_text(cells[c]))
}

/// A table element as plain values.
pub open spec fn table_of(table: scraper::ElementRef, selectors: Selectors) -> TableView {
    let rows = element_matches(table, selectors.row);
    TableView {
        markup: element_markup(table),
        rows: Seq::new(rows.len(), |r: int| row_cells(rows[r], selectors)),
    }
}

/// The tables of a page as plain values, in the order in which they are
/// found.
pub open spec fn page_tables(body: Seq<char>, selectors: Selectors) -> Seq<TableView> {
    let tables = document_matches(&parsed_document(body), selectors.table);
    Seq::new(tables.len(), |t: int| table_of(tables[t], selectors))
}

/// A page in which no element is a table of builtin definitions gives no
/// record and no diagnostic.
pub proof fn page_without_tables(body: Seq<char>, selectors: Selectors)
    requires
        document_matches(&parsed_document(body), selectors.table).len() == 0,
    ensures
        extraction_of(page_tables(body, selectors)).diagnostics == Seq::<DiagnosticView>::empty(),
        extraction_of(page_tables(body, selectors)).outcome == Ok::<
            Seq<BuiltinView>,
            ExtractErrorView,
        >(Seq::empty()),
{
    extraction_of_no_tables(page_tables(body, selectors));
}

/// The records of a page come in the order in which its tables are found:
/// where extraction gives records, there is one for each element that the
/// table selector finds, and the record at an index is that of the element
/// at that index.
pub proof fn records_follow_document(body: Seq<char>, selectors: Selectors)
    requires
        extraction_of(page_tables(body, selectors)).outcome is Ok,
    ensures
        ({
            let found = document_matches(&parsed_document(body), selectors.table);
            let records = extraction_of(page_tables(body, selectors)).outcome->Ok_0;
            &&& records.len() == found.len()
            &&& forall|t: int|
                0 <= t < found.len() ==> (#[trigger] scan_of(
                    table_of(found[t], selectors),
                )).outcome == Ok::<BuiltinView, TableFaultView>(records[t])
        }),
{
    let tables = page_tables(body, selectors);
    let found = document_matches(&parsed_document(body), selectors.table);
    records_follow_tables(tables);
    let records = extraction_of(tables).outcome->Ok_0;
    assert forall|t: int| 0 <= t < found.len() implies (#[trigger] scan_of(
        table_of(found[t], selectors),
    )).outcome == Ok::<BuiltinView, TableFaultView>(records[t]) by {
        assert(scan_of(tables[t]).outcome == Ok::<BuiltinView, TableFaultView>(records[t]));
    }
}

/// Copies the cells of a row element.
fn read_row(row: &scraper::ElementRef, selectors: &Selectors) -> (copy: Row)
    ensures
        copy@ == row_cells(*row, *selectors),
{
    let found = select_in_element(row, &selectors.cell);
    let mut cells: Vec<String> = Vec::new();
    let mut index: usize = 0;
    while index < found.len()
        invariant
            index <= found.len(),
            cells.len() == index,
            forall|c: int| 0 <= c < index ==> (#[trigger] cells[c])@ == element_text(found[c]),
        decreases found.len() - index,
    {
        cells.push(text_of(&found[index]));
        index += 1;
    }
    Row { cells: cells }
}

/// Copies a table element.
fn read_table(table: &scraper::ElementRef, selectors: &Selectors) -> (copy: Table)
    ensures
        copy@ == table_of(*table, *selectors),
{
    let found = select_in_element(table, &selectors.row);
    let mut rows: Vec<Row> = Vec::new();
    let mut index: usize = 0;
    while index < found.len()
        invariant
            index <= found.len(),
            rows.len() == index,
            forall|r: int|
                0 <= r < index ==> (#[trigger] rows[r])@ == row_cells(found[r], *selectors),
        decreases found.len() - index,
    {
        rows.push(read_row(&found[index], selectors));
        index += 1;
    }
    let copy = Table { markup: markup_of(table), rows: rows };
    assert(copy@.rows =~= table_of(*table, *selectors).rows);
    copy
}

/// Parses a page and copies the elements that the table selector finds, in
/// the order in which they are found.
pub fn read_tables(body: &str, selectors: &Selectors) -> (tables: Vec<Table>)
    ensures
        tables.deep_view() == page_tables(body@, *selectors),
{
    let document = parse_document(body);
    let found = select_in_document(&document, &selectors.table);
    let mut tables: Vec<Table> = Vec::new();
    let mut index: usize = 0;
    while index < found.len()
        invariant
            index <= found.len(),
            tables.len() == index,
            forall|t: int|
                0 <= t < index ==> (#[trigger] tables[t])@ == table_of(found[t], *selectors),
        decreases found.len() - index,
    {
        tables.push(read_table(&found[index], selectors));
        index += 1;
    }
    tables
}

/// Extracts the records of a page: the records of its tables of builtin
/// definitions.
pub fn extract(body: &str, selectors: &Selectors) -> (extraction: Extraction)
    ensures
        extraction@ == extraction_of(page_tables(body@, *selectors)),
{
    let tables = read_tables(body, selectors);
    extract_tables(&tables)
}

/// Extracts the records of a page of builtin definitions, read by the
/// selectors of such a page.
pub fn extract_builtins(body: &str) -> (outcome: Result<Extraction, SelectorPart>)
    ensures
        match parsed_selectors(TABLE_SELECTOR@, ROW_SELECTOR@, CELL_SELECTOR@) {
            Err(part) => outcome == Err::<Extraction, SelectorPart>(part),
            Ok(selectors) => outcome is Ok && outcome->Ok_0@ == extraction_of(
                page_tables(body@, selectors),
            ),
        },
{
    match Selectors::builtin() {
        Err(part) => Err(part),
        Ok(selectors) => Ok(extract(body, &selectors)),
    }
}

} // verus!
