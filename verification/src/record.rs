//! What extraction produces: the record of a builtin, and the diagnostic of a
//! row that could not be classified.

use vstd::prelude::*;
use vstd::string::StringExecFns;

verus! {

/// The documentation entry of one builtin function.
#[derive(Debug, Clone, PartialEq, Eq)]
pub struct Builtin {
    /// The signature text.
    pub overload: String,
    /// The prose text.
    pub description: String,
}

/// A [`Builtin`] as two sequences of characters.
pub struct BuiltinView {
    pub overload: Seq<char>,
    pub description: Seq<char>,
}

impl View for Builtin {
    type V = BuiltinView;

    open spec fn view(&self) -> BuiltinView {
        BuiltinView { overload: self.overload@, description: self.description@ }
    }
}

impl DeepView for Builtin {
    type V = BuiltinView;

    open spec fn deep_view(&self) -> BuiltinView {
        self@
    }
}

/// One of the two fields that every record needs.
#[derive(Debug, Clone, Copy, PartialEq, Eq, Structural)]
pub enum Field {
    Overload,
    Description,
}

/// The report of a row whose label is not empty and not one of the known
/// labels.
#[derive(Debug, Clone, PartialEq, Eq)]
pub struct Diagnostic {
    /// The label that was not recognized.
    pub label: String,
    /// The markup of the table that holds the row.
    pub table: String,
}

/// A [`Diagnostic`] as two sequences of characters.
pub struct DiagnosticView {
    pub label: Seq<char>,
    pub table: Seq<char>,
}

impl View for Diagnostic {
    type V = DiagnosticView;

    open spec fn view(&self) -> DiagnosticView {
        DiagnosticView { label: self.label@, table: self.table@ }
    }
}

impl DeepView for Diagnostic {
    type V = DiagnosticView;

    open spec fn deep_view(&self) -> DiagnosticView {
        self@
    }
}

/// The text of a diagnostic: a line that names the label, a line with the
/// table's markup, and an empty line.
pub open spec fn rendered(diagnostic: DiagnosticView) -> Seq<char> {
    "Unknown builtin data field kind "@ + diagnostic.label + "\nTable "@ + diagnostic.table
        + "\n\n"@
}

impl Diagnostic {
    /// The text to write to the diagnostic stream for this diagnostic.
    pub fn render(&self) -> (text: String)
        ensures
            text@ == rendered(self@),
    {
        let mut text = String::from_str("Unknown builtin data field kind ");
        text.append(self.label.as_str());
        text.append("\nTable ");
        text.append(self.table.as_str());
        text.append("\n\n");
        text
    }
}

} // verus!
