//! What is exchanged with the editor: diagnostics coming in, code actions
//! going out. Each type has a mathematical counterpart, its `deep_view`, in
//! which strings are sequences of characters and vectors are sequences.

use crate::views::{lemma_deep_view_empty, lemma_deep_view_index, lemma_deep_view_push};
use vstd::prelude::*;

verus! {

/// A place in a document: a line and a column, both counted from zero.
#[derive(Clone, Copy, Debug, PartialEq, Eq, Structural)]
pub struct Position {
    pub line: u32,
    pub character: u32,
}

/// A stretch of a document, from `start` up to `end`.
#[derive(Clone, Copy, Debug, PartialEq, Eq, Structural)]
pub struct Range {
    pub start: Position,
    pub end: Position,
}

/// How serious a diagnostic is.
#[derive(Clone, Copy, Debug, PartialEq, Eq, Structural)]
pub enum Severity {
    Error,
    Warning,
    Information,
    Hint,
}

/// The code of a diagnostic: a number or a name.
#[derive(Debug, PartialEq, Eq)]
pub enum Code {
    Number(i32),
    Text(String),
}

/// [`Code`] as a mathematical value.
pub enum CodeView {
    Number(i32),
    Text(Seq<char>),
}

impl DeepView for Code {
    type V = CodeView;

    open spec fn deep_view(&self) -> CodeView {
        match self {
            Code::Number(n) => CodeView::Number(*n),
            Code::Text(s) => CodeView::Text(s@),
        }
    }
}

impl Clone for Code {
    fn clone(&self) -> (r: Self)
        ensures
            r.deep_view() == self.deep_view(),
    {
        match self {
            Code::Number(n) => Code::Number(*n),
            Code::Text(s) => Code::Text(s.clone()),
        }
    }
}

/// An issue the compiler reported about a document.
#[derive(Debug, PartialEq, Eq)]
pub struct Diagnostic {
    pub range: Range,
    pub severity: Option<Severity>,
    pub code: Option<Code>,
    pub source: Option<String>,
    pub message: String,
    /// What the compiler attached for the benefit of a fix, encoded as the
    /// kind of issue prescribes.
    pub data: Option<String>,
}

/// [`Diagnostic`] as a mathematical value.
pub struct DiagnosticView {
    pub range: Range,
    pub severity: Option<Severity>,
    pub code: Option<CodeView>,
    pub source: Option<Seq<char>>,
    pub message: Seq<char>,
    pub data: Option<Seq<char>>,
}

impl DeepView for Diagnostic {
    type V = DiagnosticView;

    open spec fn deep_view(&self) -> DiagnosticView {
        DiagnosticView {
            range: self.range,
            severity: self.severity,
            code: self.code.deep_view(),
            source: self.source.deep_view(),
            message: self.message@,
            data: self.data.deep_view(),
        }
    }
}

/// A copy of an optional string.
pub fn clone_text(text: &Option<String>) -> (r: Option<String>)
    ensures
        r.deep_view() == text.deep_view(),
{
    match text {
        Some(s) => Some(s.clone()),
        None => None,
    }
}

impl Clone for Diagnostic {
    fn clone(&self) -> (r: Self)
        ensures
            r.deep_view() == self.deep_view(),
    {
        let code = match &self.code {
            Some(c) => Some(c.clone()),
            None => None,
        };
        Diagnostic {
            range: self.range,
            severity: self.severity,
            code,
            source: clone_text(&self.source),
            message: self.message.clone(),
            data: clone_text(&self.data),
        }
    }
}

/// A copy of a list of diagnostics.
pub fn clone_diagnostics(diagnostics: &Vec<Diagnostic>) -> (r: Vec<Diagnostic>)
    ensures
        r.deep_view() == diagnostics.deep_view(),
{
    let mut r: Vec<Diagnostic> = Vec::new();
    let mut i: usize = 0;
    proof {
        lemma_deep_view_empty(r);
        assert(diagnostics.deep_view().take(0) =~= Seq::<DiagnosticView>::empty());
    }
    while i < diagnostics.len()
        invariant
            i <= diagnostics.len(),
            r.deep_view() == diagnostics.deep_view().take(i as int),
        decreases diagnostics.len() - i,
    {
        let ghost before = r;
        let d = diagnostics[i].clone();
        r.push(d);
        proof {
            lemma_deep_view_push(before, r, d);
            lemma_deep_view_index(*diagnostics, i as int);
            assert(r.deep_view() =~= diagnostics.deep_view().take(i + 1));
        }
        i += 1;
    }
    proof {
        assert(diagnostics.deep_view().take(i as int) =~= diagnostics.deep_view());
    }
    r
}

/// One change to a document: `range` is replaced by `new_text`.
#[derive(Debug, PartialEq, Eq)]
pub struct TextEdit {
    pub range: Range,
    pub new_text: String,
}

/// [`TextEdit`] as a mathematical value.
pub struct TextEditView {
    pub range: Range,
    pub new_text: Seq<char>,
}

impl DeepView for TextEdit {
    type V = TextEditView;

    open spec fn deep_view(&self) -> TextEditView {
        TextEditView { range: self.range, new_text: self.new_text@ }
    }
}

impl Clone for TextEdit {
    fn clone(&self) -> (r: Self)
        ensures
            r.deep_view() == self.deep_view(),
    {
        TextEdit { range: self.range, new_text: self.new_text.clone() }
    }
}

/// Changes to be applied together. They all go to one document.
#[derive(Clone, Debug, PartialEq, Eq)]
pub struct WorkspaceEdit {
    pub document: String,
    pub edits: Vec<TextEdit>,
}

/// [`WorkspaceEdit`] as a mathematical value.
pub struct WorkspaceEditView {
    pub document: Seq<char>,
    pub edits: Seq<TextEditView>,
}

impl DeepView for WorkspaceEdit {
    type V = WorkspaceEditView;

    open spec fn deep_view(&self) -> WorkspaceEditView {
        WorkspaceEditView { document: self.document@, edits: self.edits.deep_view() }
    }
}

impl WorkspaceEditView {
    /// The changes by document, as the editor receives them.
    pub open spec fn changes(self) -> Map<Seq<char>, Seq<TextEditView>> {
        Map::empty().insert(self.document, self.edits)
    }
}

/// Names a document.
#[derive(Clone, Debug, PartialEq, Eq)]
pub struct TextDocumentIdentifier {
    pub uri: String,
}

/// What kind of action the editor is offered.
#[derive(Clone, Copy, Debug, PartialEq, Eq, Structural)]
pub enum CodeActionKind {
    QuickFix,
}

/// A fix the editor can offer: what it is called, what it resolves and
/// what it changes.
#[derive(Clone, Debug, PartialEq, Eq)]
pub struct CodeAction {
    pub title: String,
    pub kind: CodeActionKind,
    pub diagnostics: Vec<Diagnostic>,
    pub is_preferred: bool,
    pub edit: WorkspaceEdit,
}

/// [`CodeAction`] as a mathematical value.
pub struct CodeActionView {
    pub title: Seq<char>,
    pub kind: CodeActionKind,
    pub diagnostics: Seq<DiagnosticView>,
    pub is_preferred: bool,
    pub edit: WorkspaceEditView,
}

impl DeepView for CodeAction {
    type V = CodeActionView;

    open spec fn deep_view(&self) -> CodeActionView {
        CodeActionView {
            title: self.title@,
            kind: self.kind,
            diagnostics: self.diagnostics.deep_view(),
            is_preferred: self.is_preferred,
            edit: self.edit.deep_view(),
        }
    }
}

} // verus!
