//! Fixes for diagnostics. A diagnostic is first classified; a fix then
//! says which edits it wants from the document, and what came back is
//! assembled into the actions the editor shows.

use crate::module::{Module, ModuleView};
use crate::payload::{decode, read_payload, PayloadError};
use crate::protocol::{
    clone_diagnostics, Code, CodeAction, CodeActionKind, CodeActionView, CodeView, Diagnostic,
    DiagnosticView, Severity, TextDocumentIdentifier, TextEdit, TextEditView, WorkspaceEdit,
    WorkspaceEditView,
};
use crate::text::{ends_with, same_text};
use crate::views::{
    lemma_deep_view_empty, lemma_deep_view_index, lemma_deep_view_push, lemma_filter_empty,
    lemma_filter_step, ok_view,
};
use vstd::prelude::*;

verus! {

/// The codes of the diagnostics that can be fixed, letter for letter as
/// the compiler emits them.
pub const UNKNOWN_VARIABLE: &'static str = "aiken::check::unknown::variable";

pub const UNKNOWN_TYPE: &'static str = "aiken::check::unknown::type";

pub const UNKNOWN_CONSTRUCTOR: &'static str = "aiken::check::unknown::type_constructor";

pub const UNKNOWN_MODULE: &'static str = "aiken::check::unknown::module";

pub const UNUSED_IMPORT_VALUE: &'static str = "aiken::check::unused:import::value";

pub const UNUSED_IMPORT_MODULE: &'static str = "aiken::check::unused::import::module";

/// The title of the one action that removes every unused import.
pub const REMOVE_REDUNDANT_IMPORTS: &'static str = "Remove redundant imports";

/// Diagnostics for which a fix can be offered.
#[derive(Debug, PartialEq, Eq)]
pub enum Quickfix {
    UnknownIdentifier(Diagnostic),
    UnknownModule(Diagnostic),
    UnknownConstructor(Diagnostic),
    UnusedImports(Vec<Diagnostic>),
}

/// [`Quickfix`] as a mathematical value.
pub enum QuickfixView {
    UnknownIdentifier(DiagnosticView),
    UnknownModule(DiagnosticView),
    UnknownConstructor(DiagnosticView),
    UnusedImports(Seq<DiagnosticView>),
}

impl DeepView for Quickfix {
    type V = QuickfixView;

    open spec fn deep_view(&self) -> QuickfixView {
        match self {
            Quickfix::UnknownIdentifier(d) => QuickfixView::UnknownIdentifier(d.deep_view()),
            Quickfix::UnknownModule(d) => QuickfixView::UnknownModule(d.deep_view()),
            Quickfix::UnknownConstructor(d) => QuickfixView::UnknownConstructor(d.deep_view()),
            Quickfix::UnusedImports(ds) => QuickfixView::UnusedImports(ds.deep_view()),
        }
    }
}

/// The kinds of fix.
#[derive(Clone, Copy, Debug, PartialEq, Eq, Structural)]
pub enum Category {
    UnknownIdentifier,
    UnknownModule,
    UnknownConstructor,
    UnusedImports,
}

/// How the candidate edits of a fix become actions: one action each,
/// where the user has to choose among them, or one action for all, where
/// they belong together.
#[derive(Clone, Copy, Debug, PartialEq, Eq, Structural)]
pub enum Assembly {
    Distinct,
    Combined,
}

impl Category {
    /// How the edits of this kind of fix are put together.
    pub open spec fn spec_assembly(self) -> Assembly {
        match self {
            Category::UnusedImports => Assembly::Combined,
            _ => Assembly::Distinct,
        }
    }

    /// How the edits of this kind of fix are put together.
    #[verifier::when_used_as_spec(spec_assembly)]
    pub fn assembly(self) -> (r: Assembly)
        ensures
            r == self.spec_assembly(),
    {
        match self {
            Category::UnusedImports => Assembly::Combined,
            _ => Assembly::Distinct,
        }
    }
}

impl QuickfixView {
    /// The kind of the fix.
    pub open spec fn category(self) -> Category {
        match self {
            QuickfixView::UnknownIdentifier(_) => Category::UnknownIdentifier,
            QuickfixView::UnknownModule(_) => Category::UnknownModule,
            QuickfixView::UnknownConstructor(_) => Category::UnknownConstructor,
            QuickfixView::UnusedImports(_) => Category::UnusedImports,
        }
    }

    /// The diagnostics that the fix resolves.
    pub open spec fn diagnostics(self) -> Seq<DiagnosticView> {
        match self {
            QuickfixView::UnknownIdentifier(d) => seq![d],
            QuickfixView::UnknownModule(d) => seq![d],
            QuickfixView::UnknownConstructor(d) => seq![d],
            QuickfixView::UnusedImports(ds) => ds,
        }
    }
}

impl Quickfix {
    /// A copy of the diagnostics that the fix resolves.
    pub fn diagnostics(&self) -> (r: Vec<Diagnostic>)
        ensures
            r.deep_view() == self.deep_view().diagnostics(),
    {
        match self {
            Quickfix::UnknownIdentifier(d) | Quickfix::UnknownModule(d) | Quickfix::UnknownConstructor(
                d,
            ) => {
                let mut r: Vec<Diagnostic> = Vec::new();
                let copy = d.clone();
                r.push(copy);
                assert(r.deep_view() =~= seq![d.deep_view()]);
                r
            },
            Quickfix::UnusedImports(ds) => clone_diagnostics(ds),
        }
    }

    /// The kind of the fix.
    pub fn category(&self) -> (r: Category)
        ensures
            r == self.deep_view().category(),
    {
        match self {
            Quickfix::UnknownIdentifier(_) => Category::UnknownIdentifier,
            Quickfix::UnknownModule(_) => Category::UnknownModule,
            Quickfix::UnknownConstructor(_) => Category::UnknownConstructor,
            Quickfix::UnusedImports(_) => Category::UnusedImports,
        }
    }
}

/// Whether the diagnostic has exactly this severity and this code.
pub open spec fn spec_match_code(
    diagnostic: DiagnosticView,
    severity: Severity,
    expected: Seq<char>,
) -> bool {
    diagnostic.code == Some(CodeView::Text(expected)) && diagnostic.severity == Some(severity)
}

/// The table of what can be fixed: the category of each pair of severity
/// and code that has one.
pub open spec fn fixable(diagnostic: DiagnosticView) -> Option<Category> {
    if spec_match_code(diagnostic, Severity::Error, UNKNOWN_VARIABLE@) || spec_match_code(
        diagnostic,
        Severity::Error,
        UNKNOWN_TYPE@,
    ) {
        Some(Category::UnknownIdentifier)
    } else if spec_match_code(diagnostic, Severity::Error, UNKNOWN_CONSTRUCTOR@) {
        Some(Category::UnknownConstructor)
    } else if spec_match_code(diagnostic, Severity::Error, UNKNOWN_MODULE@) {
        Some(Category::UnknownModule)
    } else if spec_match_code(diagnostic, Severity::Warning, UNUSED_IMPORT_VALUE@)
        || spec_match_code(diagnostic, Severity::Warning, UNUSED_IMPORT_MODULE@) {
        Some(Category::UnusedImports)
    } else {
        None
    }
}

/// The fix of a category for one diagnostic.
pub open spec fn fix_of(category: Category, diagnostic: DiagnosticView) -> QuickfixView {
    match category {
        Category::UnknownIdentifier => QuickfixView::UnknownIdentifier(diagnostic),
        Category::UnknownModule => QuickfixView::UnknownModule(diagnostic),
        Category::UnknownConstructor => QuickfixView::UnknownConstructor(diagnostic),
        Category::UnusedImports => QuickfixView::UnusedImports(seq![diagnostic]),
    }
}

/// What `classify` answers.
pub open spec fn spec_classify(diagnostic: DiagnosticView) -> Option<QuickfixView> {
    match fixable(diagnostic) {
        Some(category) => Some(fix_of(category, diagnostic)),
        None => None,
    }
}

/// Whether the diagnostic has exactly this severity and this code.
pub fn match_code(diagnostic: &Diagnostic, severity: Severity, expected: &str) -> (r: bool)
    ensures
        r == spec_match_code(diagnostic.deep_view(), severity, expected@),
{
    let code_matches = match &diagnostic.code {
        Some(Code::Text(code)) => same_text(code.as_str(), expected),
        _ => false,
    };
    let severity_matches = match diagnostic.severity {
        Some(s) => s == severity,
        None => false,
    };
    code_matches && severity_matches
}

/// Says whether a diagnostic can be fixed automatically, and how.
/// Diagnostics often come twice, as an error and as a hint: only the one
/// whose severity the table names is answered.
pub fn classify(diagnostic: Diagnostic) -> (r: Option<Quickfix>)
    ensures
        r.deep_view() == spec_classify(diagnostic.deep_view()),
{
    if match_code(&diagnostic, Severity::Error, UNKNOWN_VARIABLE) || match_code(
        &diagnostic,
        Severity::Error,
        UNKNOWN_TYPE,
    ) {
        return Some(Quickfix::UnknownIdentifier(diagnostic));
    }
    if match_code(&diagnostic, Severity::Error, UNKNOWN_CONSTRUCTOR) {
        return Some(Quickfix::UnknownConstructor(diagnostic));
    }
    if match_code(&diagnostic, Severity::Error, UNKNOWN_MODULE) {
        return Some(Quickfix::UnknownModule(diagnostic));
    }
    if match_code(&diagnostic, Severity::Warning, UNUSED_IMPORT_VALUE) || match_code(
        &diagnostic,
        Severity::Warning,
        UNUSED_IMPORT_MODULE,
    ) {
        let ghost view = diagnostic.deep_view();
        let mut batch: Vec<Diagnostic> = Vec::new();
        batch.push(diagnostic);
        assert(batch.deep_view() =~= seq![view]);
        return Some(Quickfix::UnusedImports(batch));
    }
    None
}

/// The pairs of severity and code that the table names.
pub open spec fn in_table(severity: Option<Severity>, code: Option<CodeView>) -> bool {
    ||| severity == Some(Severity::Error) && code == Some(CodeView::Text(UNKNOWN_VARIABLE@))
    ||| severity == Some(Severity::Error) && code == Some(CodeView::Text(UNKNOWN_TYPE@))
    ||| severity == Some(Severity::Error) && code == Some(CodeView::Text(UNKNOWN_CONSTRUCTOR@))
    ||| severity == Some(Severity::Error) && code == Some(CodeView::Text(UNKNOWN_MODULE@))
    ||| severity == Some(Severity::Warning) && code == Some(CodeView::Text(UNUSED_IMPORT_VALUE@))
    ||| severity == Some(Severity::Warning) && code == Some(CodeView::Text(UNUSED_IMPORT_MODULE@))
}

/// A diagnostic is classified exactly when its severity and code are a
/// pair of the table: for every other pair there is no fix.
pub proof fn lemma_classified_iff_in_table(diagnostic: DiagnosticView)
    ensures
        spec_classify(diagnostic) is Some <==> in_table(diagnostic.severity, diagnostic.code),
{
}

/// The fix of a diagnostic resolves that diagnostic and no other.
pub proof fn lemma_fix_resolves_its_diagnostic(diagnostic: DiagnosticView)
    requires
        spec_classify(diagnostic) is Some,
    ensures
        spec_classify(diagnostic)->0.diagnostics() == seq![diagnostic],
{
}

/// The codes of unknown variables and unknown types are fixed when they
/// come as errors and at no other severity; a warning or a hint with
/// such a code gets no fix.
pub proof fn lemma_unknown_identifier_only_as_error(diagnostic: DiagnosticView)
    requires
        diagnostic.code == Some(CodeView::Text(UNKNOWN_VARIABLE@)) || diagnostic.code == Some(
            CodeView::Text(UNKNOWN_TYPE@),
        ),
    ensures
        diagnostic.severity == Some(Severity::Error) ==> spec_classify(diagnostic) == Some(
            QuickfixView::UnknownIdentifier(diagnostic),
        ),
        diagnostic.severity != Some(Severity::Error) ==> spec_classify(diagnostic) is None,
{
    reveal_strlit("aiken::check::unknown::variable");
    reveal_strlit("aiken::check::unknown::type");
    reveal_strlit("aiken::check::unused:import::value");
    reveal_strlit("aiken::check::unused::import::module");
    assert(UNKNOWN_VARIABLE@.len() == 31);
    assert(UNKNOWN_TYPE@.len() == 27);
    assert(UNUSED_IMPORT_VALUE@.len() == 34);
    assert(UNUSED_IMPORT_MODULE@.len() == 36);
}

/// An edit with the title under which it is offered.
#[derive(Debug, PartialEq, Eq)]
pub struct AnnotatedEdit {
    pub title: String,
    pub edit: TextEdit,
}

/// [`AnnotatedEdit`] as a mathematical value.
pub struct AnnotatedEditView {
    pub title: Seq<char>,
    pub edit: TextEditView,
}

impl DeepView for AnnotatedEdit {
    type V = AnnotatedEditView;

    open spec fn deep_view(&self) -> AnnotatedEditView {
        AnnotatedEditView { title: self.title@, edit: self.edit.deep_view() }
    }
}

/// An edit that a fix wants from whoever holds the parsed document.
#[derive(Debug, PartialEq, Eq)]
pub enum EditRequest {
    /// Import `module`: all of it, or the one name `unqualified` from it.
    Import { module: String, unqualified: Option<String> },
    /// Remove the import whose clause starts at `start`.
    RemoveImport { start: usize, is_qualified: bool },
}

/// [`EditRequest`] as a mathematical value.
pub enum EditRequestView {
    Import { module: Seq<char>, unqualified: Option<Seq<char>> },
    RemoveImport { start: usize, is_qualified: bool },
}

impl DeepView for EditRequest {
    type V = EditRequestView;

    open spec fn deep_view(&self) -> EditRequestView {
        match self {
            EditRequest::Import { module, unqualified } => EditRequestView::Import {
                module: module@,
                unqualified: unqualified.deep_view(),
            },
            EditRequest::RemoveImport { start, is_qualified } => EditRequestView::RemoveImport {
                start: *start,
                is_qualified: *is_qualified,
            },
        }
    }
}

/// One import for each of the modules that `wanted` picks, in their
/// order.
pub open spec fn imports(
    modules: Seq<ModuleView>,
    wanted: spec_fn(ModuleView) -> bool,
    unqualified: Option<Seq<char>>,
) -> Seq<EditRequestView> {
    modules.filter(wanted).map_values(
        |m: ModuleView| EditRequestView::Import { module: m.name, unqualified },
    )
}

/// Imports of `name` from each module that defines it.
pub open spec fn spec_unknown_identifier(
    modules: Seq<ModuleView>,
    data: Option<Seq<char>>,
) -> Seq<EditRequestView> {
    match data {
        Some(name) => imports(modules, |m: ModuleView| m.has_definition(name), Some(name)),
        None => Seq::empty(),
    }
}

/// Imports of the constructor `name` from each module that has it.
pub open spec fn spec_unknown_constructor(
    modules: Seq<ModuleView>,
    data: Option<Seq<char>>,
) -> Seq<EditRequestView> {
    match data {
        Some(name) => imports(modules, |m: ModuleView| m.has_constructor(name), Some(name)),
        None => Seq::empty(),
    }
}

/// Imports of each module whose name ends with `name`.
pub open spec fn spec_unknown_module(
    modules: Seq<ModuleView>,
    data: Option<Seq<char>>,
) -> Seq<EditRequestView> {
    match data {
        Some(name) => imports(modules, |m: ModuleView| name.is_suffix_of(m.name), None),
        None => Seq::empty(),
    }
}

/// With one module more, the imports are those before, and one for that
/// module if it is wanted.
proof fn lemma_imports_step(
    modules: Seq<ModuleView>,
    wanted: spec_fn(ModuleView) -> bool,
    unqualified: Option<Seq<char>>,
    i: int,
)
    requires
        0 <= i < modules.len(),
    ensures
        imports(modules.take(i + 1), wanted, unqualified) == if wanted(modules[i]) {
            imports(modules.take(i), wanted, unqualified).push(
                EditRequestView::Import { module: modules[i].name, unqualified },
            )
        } else {
            imports(modules.take(i), wanted, unqualified)
        },
{
    lemma_filter_step(modules, wanted, i);
    if wanted(modules[i]) {
        assert(imports(modules.take(i + 1), wanted, unqualified) =~= imports(
            modules.take(i),
            wanted,
            unqualified,
        ).push(EditRequestView::Import { module: modules[i].name, unqualified }));
    }
}

proof fn lemma_imports_empty(wanted: spec_fn(ModuleView) -> bool, unqualified: Option<Seq<char>>)
    ensures
        imports(Seq::empty(), wanted, unqualified) == Seq::<EditRequestView>::empty(),
{
    lemma_filter_empty(wanted);
    assert(imports(Seq::empty(), wanted, unqualified) =~= Seq::<EditRequestView>::empty());
}

/// What a module is asked for when an import is looked for.
#[derive(Clone, Copy, Debug, PartialEq, Eq, Structural)]
enum Lookup {
    Definition,
    Constructor,
    NameEnding,
}

impl Lookup {
    spec fn offers(self, module: ModuleView, name: Seq<char>) -> bool {
        match self {
            Lookup::Definition => module.has_definition(name),
            Lookup::Constructor => module.has_constructor(name),
            Lookup::NameEnding => name.is_suffix_of(module.name),
        }
    }

    spec fn unqualified(self, name: Seq<char>) -> Option<Seq<char>> {
        match self {
            Lookup::NameEnding => None,
            _ => Some(name),
        }
    }

    fn is_offered(self, module: &Module, name: &str) -> (r: bool)
        ensures
            r == self.offers(module.deep_view(), name@),
    {
        match self {
            Lookup::Definition => module.has_definition(name),
            Lookup::Constructor => module.has_constructor(name),
            Lookup::NameEnding => ends_with(module.name.as_str(), name),
        }
    }
}

/// An import for each module that offers `name`, in the order of the
/// modules.
fn imports_of(modules: &Vec<Module>, lookup: Lookup, name: &String) -> (edits: Vec<EditRequest>)
    ensures
        edits.deep_view() == imports(
            modules.deep_view(),
            |m: ModuleView| lookup.offers(m, name@),
            lookup.unqualified(name@),
        ),
{
    let mut edits: Vec<EditRequest> = Vec::new();
    let ghost wanted = |m: ModuleView| lookup.offers(m, name@);
    let ghost all = modules.deep_view();
    let mut i: usize = 0;
    proof {
        lemma_deep_view_empty(edits);
        lemma_imports_empty(wanted, lookup.unqualified(name@));
        assert(all.take(0) =~= Seq::<ModuleView>::empty());
    }
    while i < modules.len()
        invariant
            i <= modules.len(),
            all == modules.deep_view(),
            wanted == (|m: ModuleView| lookup.offers(m, name@)),
            edits.deep_view() == imports(all.take(i as int), wanted, lookup.unqualified(name@)),
        decreases modules.len() - i,
    {
        proof {
            lemma_deep_view_index(*modules, i as int);
            lemma_imports_step(all, wanted, lookup.unqualified(name@), i as int);
        }
        if lookup.is_offered(&modules[i], name.as_str()) {
            let unqualified = match lookup {
                Lookup::NameEnding => None,
                _ => Some(name.clone()),
            };
            let request = EditRequest::Import { module: modules[i].name.clone(), unqualified };
            let ghost before = edits;
            edits.push(request);
            proof {
                lemma_deep_view_push(before, edits, request);
            }
        }
        i += 1;
    }
    assert(all.take(i as int) =~= all);
    edits
}

/// Nothing to ask for.
fn no_requests() -> (edits: Vec<EditRequest>)
    ensures
        edits.deep_view() == Seq::<EditRequestView>::empty(),
{
    let edits: Vec<EditRequest> = Vec::new();
    proof {
        lemma_deep_view_empty(edits);
    }
    edits
}

/// The edits that may bring an unknown variable or type into scope: for
/// each module that defines the name in `data` publicly, an import of it.
pub fn unknown_identifier(modules: &Vec<Module>, data: Option<&String>) -> (edits: Vec<EditRequest>)
    ensures
        edits.deep_view() == spec_unknown_identifier(modules.deep_view(), data.deep_view()),
{
    match data {
        Some(var_name) => {
            assert((|m: ModuleView| Lookup::Definition.offers(m, var_name@)) =~= (|m: ModuleView|
                m.has_definition(var_name@)));
            imports_of(modules, Lookup::Definition, var_name)
        },
        None => no_requests(),
    }
}

/// The edits that may bring an unknown constructor into scope: for each
/// module with a public type that has the constructor in `data`, an
/// import of it.
pub fn unknown_constructor(modules: &Vec<Module>, data: Option<&String>) -> (edits: Vec<
    EditRequest,
>)
    ensures
        edits.deep_view() == spec_unknown_constructor(modules.deep_view(), data.deep_view()),
{
    match data {
        Some(constructor_name) => {
            assert((|m: ModuleView| Lookup::Constructor.offers(m, constructor_name@)) =~= (|
                m: ModuleView,
            | m.has_constructor(constructor_name@)));
            imports_of(modules, Lookup::Constructor, constructor_name)
        },
        None => no_requests(),
    }
}

/// The edits that may bring an unknown module into scope: for each
/// module whose name ends with the path in `data`, an import of the
/// module.
pub fn unknown_module(modules: &Vec<Module>, data: Option<&String>) -> (edits: Vec<EditRequest>)
    ensures
        edits.deep_view() == spec_unknown_module(modules.deep_view(), data.deep_view()),
{
    match data {
        Some(module_name) => {
            assert((|m: ModuleView| Lookup::NameEnding.offers(m, module_name@)) =~= (|
                m: ModuleView,
            | module_name@.is_suffix_of(m.name)));
            imports_of(modules, Lookup::NameEnding, module_name)
        },
        None => no_requests(),
    }
}

/// The removal that a payload asks for.
pub open spec fn removal(payload: Seq<char>) -> Result<EditRequestView, PayloadError> {
    match decode(payload) {
        Ok((is_qualified, start)) => Ok(EditRequestView::RemoveImport { start, is_qualified }),
        Err(e) => Err(e),
    }
}

/// The removals that a batch of payloads asks for. The batch is gone
/// through from its last payload to its first, absent payloads are passed
/// over, and the first one that cannot be read ends it all with its
/// error.
pub open spec fn spec_unused_imports(datas: Seq<Option<Seq<char>>>) -> Result<
    Seq<EditRequestView>,
    PayloadError,
>
    decreases datas.len(),
{
    if datas.len() == 0 {
        Ok(Seq::empty())
    } else {
        match spec_unused_imports(datas.drop_first()) {
            Err(e) => Err(e),
            Ok(later) => match datas.first() {
                None => Ok(later),
                Some(payload) => match removal(payload) {
                    Err(e) => Err(e),
                    Ok(request) => Ok(later.push(request)),
                },
            },
        }
    }
}

/// The edits that remove unused imports, one for each payload there is,
/// or the error of a payload that cannot be read.
pub fn unused_imports(datas: Vec<Option<&String>>) -> (r: Result<Vec<EditRequest>, PayloadError>)
    ensures
        ok_view(r) == spec_unused_imports(datas.deep_view()),
{
    let mut edits: Vec<EditRequest> = Vec::new();
    let ghost all = datas.deep_view();
    let mut i: usize = datas.len();
    proof {
        lemma_deep_view_empty(edits);
        assert(all.skip(i as int).len() == 0);
    }
    while i > 0
        invariant
            i <= datas.len(),
            all == datas.deep_view(),
            spec_unused_imports(all.skip(i as int)) == Ok::<Seq<EditRequestView>, PayloadError>(
                edits.deep_view(),
            ),
        decreases i,
    {
        i -= 1;
        proof {
            lemma_deep_view_index(datas, i as int);
            assert(all.skip(i as int).drop_first() =~= all.skip(i + 1));
            assert(all.skip(i as int).first() == all[i as int]);
        }
        if let Some(args) = datas[i] {
            match read_payload(args.as_str()) {
                Err(e) => {
                    proof {
                        lemma_unused_imports_fails(all, i as int);
                    }
                    return Err(e);
                },
                Ok((is_qualified, start)) => {
                    let request = EditRequest::RemoveImport { start, is_qualified };
                    let ghost before = edits;
                    edits.push(request);
                    proof {
                        lemma_deep_view_push(before, edits, request);
                    }
                },
            }
        }
    }
    assert(all.skip(0) =~= all);
    Ok(edits)
}

/// Where everything after a payload can be read and the payload cannot,
/// the batch ends with the error of that payload.
proof fn lemma_unused_imports_fails(datas: Seq<Option<Seq<char>>>, i: int)
    requires
        0 <= i < datas.len(),
        spec_unused_imports(datas.skip(i + 1)) is Ok,
        datas[i] is Some,
        removal(datas[i]->0) is Err,
    ensures
        spec_unused_imports(datas) == Err::<Seq<EditRequestView>, PayloadError>(
            removal(datas[i]->0)->Err_0,
        ),
    decreases i,
{
    if i == 0 {
        assert(datas.drop_first() =~= datas.skip(1));
    } else {
        let rest = datas.drop_first();
        assert(rest.skip(i) =~= datas.skip(i + 1));
        lemma_unused_imports_fails(rest, i - 1);
    }
}

/// A batch fails exactly when one of its payloads cannot be read: one
/// such payload is enough, wherever it stands, and nothing is returned
/// for the others.
pub proof fn lemma_unused_imports_fails_iff_malformed(datas: Seq<Option<Seq<char>>>)
    ensures
        spec_unused_imports(datas) is Err <==> exists|i: int|
            0 <= i < datas.len() && (#[trigger] datas[i]) is Some && decode(datas[i]->0) is Err,
    decreases datas.len(),
{
    if datas.len() > 0 {
        let rest = datas.drop_first();
        lemma_unused_imports_fails_iff_malformed(rest);
        if spec_unused_imports(datas) is Err {
            if spec_unused_imports(rest) is Err {
                let i = choose|i: int|
                    0 <= i < rest.len() && (#[trigger] rest[i]) is Some && decode(rest[i]->0) is Err;
                assert(datas[i + 1] == rest[i]);
            } else {
                assert(datas[0] is Some && decode(datas[0]->0) is Err);
            }
        }
        if exists|i: int|
            0 <= i < datas.len() && (#[trigger] datas[i]) is Some && decode(datas[i]->0) is Err {
            let i = choose|i: int|
                0 <= i < datas.len() && (#[trigger] datas[i]) is Some && decode(datas[i]->0) is Err;
            if i > 0 {
                assert(rest[i - 1] == datas[i]);
            }
        }
    }
}

/// Where every payload can be read, the removals come in the reverse of
/// the order of the payloads: the last payload's first.
pub proof fn lemma_unused_imports_reversed(datas: Seq<Option<Seq<char>>>)
    requires
        forall|i: int|
            0 <= i < datas.len() && (#[trigger] datas[i]) is Some ==> decode(datas[i]->0) is Ok,
    ensures
        spec_unused_imports(datas) == Ok::<Seq<EditRequestView>, PayloadError>(
            datas.reverse().filter(|d: Option<Seq<char>>| d is Some).map_values(
                |d: Option<Seq<char>>| removal(d->0)->Ok_0,
            ),
        ),
    decreases datas.len(),
{
    let present = |d: Option<Seq<char>>| d is Some;
    let asked = |d: Option<Seq<char>>| removal(d->0)->Ok_0;
    reveal(Seq::filter);
    if datas.len() == 0 {
        assert(datas.reverse().filter(present).map_values(asked) =~= Seq::<
            EditRequestView,
        >::empty());
    } else {
        let rest = datas.drop_first();
        assert forall|i: int| 0 <= i < rest.len() && (#[trigger] rest[i]) is Some implies decode(
            rest[i]->0,
        ) is Ok by {
            assert(rest[i] == datas[i + 1]);
        }
        lemma_unused_imports_reversed(rest);
        let turned = datas.reverse();
        assert(turned.drop_last() =~= rest.reverse());
        assert(turned.last() == datas.first());
        assert(datas[0] == datas.first());
        if datas.first() is Some {
            assert(turned.filter(present).map_values(asked) =~= rest.reverse().filter(
                present,
            ).map_values(asked).push(asked(datas.first())));
        }
    }
}

/// The edits that were found among the answers, in their order.
pub open spec fn spec_candidates(answers: Seq<Option<AnnotatedEditView>>) -> Seq<
    AnnotatedEditView,
> {
    answers.filter(|a: Option<AnnotatedEditView>| a is Some).map_values(
        |a: Option<AnnotatedEditView>| a->0,
    )
}

/// Keeps the edits that could be computed. An edit that could not is
/// left out and nothing is said of it.
pub fn candidates(answers: Vec<Option<AnnotatedEdit>>) -> (edits: Vec<AnnotatedEdit>)
    ensures
        edits.deep_view() == spec_candidates(answers.deep_view()),
{
    let ghost all = answers.deep_view();
    let ghost found = |a: Option<AnnotatedEditView>| a is Some;
    let mut edits: Vec<AnnotatedEdit> = Vec::new();
    proof {
        lemma_deep_view_empty(edits);
        lemma_filter_empty(found);
        assert(all.take(0) =~= Seq::<Option<AnnotatedEditView>>::empty());
        assert(spec_candidates(all.take(0)) =~= Seq::<AnnotatedEditView>::empty());
    }
    for answer in it: answers
        invariant
            it.seq() == answers@,
            all == answers.deep_view(),
            edits.deep_view() == spec_candidates(all.take(it.index() as int)),
    {
        proof {
            let i = it.index() as int;
            lemma_deep_view_index(answers, i);
            lemma_filter_step(all, |a: Option<AnnotatedEditView>| a is Some, i);
        }
        if let Some(edit) = answer {
            let ghost before = edits;
            edits.push(edit);
            proof {
                let i = it.index() as int;
                lemma_deep_view_push(before, edits, edit);
                assert(spec_candidates(all.take(i + 1)) =~= spec_candidates(all.take(i)).push(
                    all[i]->0,
                ));
            }
        }
    }
    assert(all.take(answers@.len() as int) =~= all);
    edits
}

/// The action that offers one edit as the fix of one diagnostic.
pub open spec fn distinct_action(
    uri: Seq<char>,
    diagnostic: DiagnosticView,
    edit: AnnotatedEditView,
) -> CodeActionView {
    CodeActionView {
        title: edit.title,
        kind: CodeActionKind::QuickFix,
        diagnostics: seq![diagnostic],
        is_preferred: true,
        edit: WorkspaceEditView { document: uri, edits: seq![edit.edit] },
    }
}

/// The action that offers all the edits together, under one title, as
/// the fix of all the diagnostics.
pub open spec fn single_action(
    uri: Seq<char>,
    diagnostics: Seq<DiagnosticView>,
    title: Seq<char>,
    edits: Seq<AnnotatedEditView>,
) -> CodeActionView {
    CodeActionView {
        title,
        kind: CodeActionKind::QuickFix,
        diagnostics,
        is_preferred: true,
        edit: WorkspaceEditView {
            document: uri,
            edits: edits.map_values(|e: AnnotatedEditView| e.edit),
        },
    }
}

/// Adds one action for each edit: each is a way of its own to resolve
/// the diagnostic, carries the edit's title and changes nothing but what
/// that edit changes.
pub fn each_as_distinct_action(
    actions: &mut Vec<CodeAction>,
    text_document: &TextDocumentIdentifier,
    diagnostic: &Diagnostic,
    edits: Vec<AnnotatedEdit>,
)
    ensures
        final(actions).deep_view() == old(actions).deep_view() + edits.deep_view().map_values(
            |e: AnnotatedEditView| distinct_action(text_document.uri@, diagnostic.deep_view(), e),
        ),
{
    let ghost all = edits.deep_view();
    let ghost wrap = |e: AnnotatedEditView|
        distinct_action(text_document.uri@, diagnostic.deep_view(), e);
    assert(actions.deep_view() =~= old(actions).deep_view() + all.take(0).map_values(wrap));
    for annotated in it: edits
        invariant
            it.seq() == edits@,
            all == edits.deep_view(),
            wrap == (|e: AnnotatedEditView|
                distinct_action(text_document.uri@, diagnostic.deep_view(), e)),
            actions.deep_view() == old(actions).deep_view() + all.take(
                it.index() as int,
            ).map_values(wrap),
    {
        let ghost i = it.index() as int;
        proof {
            lemma_deep_view_index(edits, i);
        }
        let AnnotatedEdit { title, edit } = annotated;
        let mut changes: Vec<TextEdit> = Vec::new();
        changes.push(edit);
        let mut resolved: Vec<Diagnostic> = Vec::new();
        resolved.push(diagnostic.clone());
        let action = CodeAction {
            title,
            kind: CodeActionKind::QuickFix,
            diagnostics: resolved,
            is_preferred: true,
            edit: WorkspaceEdit { document: text_document.uri.clone(), edits: changes },
        };
        let ghost before = *actions;
        actions.push(action);
        proof {
            lemma_deep_view_push(before, *actions, action);
            assert(changes.deep_view() =~= seq![all[i].edit]);
            assert(resolved.deep_view() =~= seq![diagnostic.deep_view()]);
            assert(action.deep_view() == wrap(all[i]));
            assert(actions.deep_view() =~= old(actions).deep_view() + all.take(i + 1).map_values(
                wrap,
            ));
        }
    }
    assert(all.take(edits@.len() as int) =~= all);
}

/// Adds one action that holds every edit, in the order given.
pub fn as_single_action(
    actions: &mut Vec<CodeAction>,
    text_document: &TextDocumentIdentifier,
    diagnostics: Vec<Diagnostic>,
    title: &str,
    edits: Vec<AnnotatedEdit>,
)
    ensures
        final(actions).deep_view() == old(actions).deep_view().push(
            single_action(
                text_document.uri@,
                diagnostics.deep_view(),
                title@,
                edits.deep_view(),
            ),
        ),
{
    let ghost all = edits.deep_view();
    let ghost pick = |e: AnnotatedEditView| e.edit;
    let mut changes: Vec<TextEdit> = Vec::new();
    proof {
        lemma_deep_view_empty(changes);
        assert(all.take(0).map_values(pick) =~= Seq::<TextEditView>::empty());
    }
    for annotated in it: edits
        invariant
            it.seq() == edits@,
            all == edits.deep_view(),
            changes.deep_view() == all.take(it.index() as int).map_values(
                |e: AnnotatedEditView| e.edit,
            ),
    {
        let ghost i = it.index() as int;
        proof {
            lemma_deep_view_index(edits, i);
        }
        let ghost before = changes;
        changes.push(annotated.edit);
        proof {
            lemma_deep_view_push(before, changes, annotated.edit);
            assert(changes.deep_view() =~= all.take(i + 1).map_values(
                |e: AnnotatedEditView| e.edit,
            ));
        }
    }
    assert(all.take(edits@.len() as int) =~= all);
    let action = CodeAction {
        title: title.to_owned(),
        kind: CodeActionKind::QuickFix,
        diagnostics,
        is_preferred: true,
        edit: WorkspaceEdit { document: text_document.uri.clone(), edits: changes },
    };
    let ghost before = *actions;
    actions.push(action);
    proof {
        lemma_deep_view_push(before, *actions, action);
    }
}

/// What comes with each diagnostic of a batch.
pub open spec fn payloads(diagnostics: Seq<DiagnosticView>) -> Seq<Option<Seq<char>>> {
    diagnostics.map_values(|d: DiagnosticView| d.data)
}

/// The edits that a fix wants from the document. A document that could
/// not be parsed is asked for nothing, whatever the fix.
pub open spec fn spec_requests(modules: Seq<ModuleView>, quickfix: QuickfixView, parsed: bool)
    -> Result<Seq<EditRequestView>, PayloadError> {
    if !parsed {
        Ok(Seq::empty())
    } else {
        match quickfix {
            QuickfixView::UnknownIdentifier(d) => Ok(spec_unknown_identifier(modules, d.data)),
            QuickfixView::UnknownModule(d) => Ok(spec_unknown_module(modules, d.data)),
            QuickfixView::UnknownConstructor(d) => Ok(spec_unknown_constructor(modules, d.data)),
            QuickfixView::UnusedImports(ds) => spec_unused_imports(payloads(ds)),
        }
    }
}

/// Says which edits a fix wants, given the modules of the project and
/// whether the document could be parsed. Each request is to be answered
/// with the edit, or with nothing where the document has no place for
/// it, and the answers handed to [`quickfix`] in the order of the
/// requests. It fails only on a batch of unused imports with a payload
/// that cannot be read.
pub fn requests(modules: &Vec<Module>, quickfix: &Quickfix, parsed: bool) -> (r: Result<
    Vec<EditRequest>,
    PayloadError,
>)
    ensures
        ok_view(r) == spec_requests(modules.deep_view(), quickfix.deep_view(), parsed),
{
    if !parsed {
        return Ok(no_requests());
    }
    match quickfix {
        Quickfix::UnknownIdentifier(diagnostic) => Ok(
            unknown_identifier(modules, diagnostic.data.as_ref()),
        ),
        Quickfix::UnknownModule(diagnostic) => Ok(
            unknown_module(modules, diagnostic.data.as_ref()),
        ),
        Quickfix::UnknownConstructor(diagnostic) => Ok(
            unknown_constructor(modules, diagnostic.data.as_ref()),
        ),
        Quickfix::UnusedImports(diagnostics) => {
            let mut datas: Vec<Option<&String>> = Vec::new();
            let mut i: usize = 0;
            while i < diagnostics.len()
                invariant
                    i <= diagnostics.len(),
                    datas.deep_view() =~= payloads(diagnostics.deep_view().take(i as int)),
                decreases diagnostics.len() - i,
            {
                proof {
                    lemma_deep_view_index(*diagnostics, i as int);
                }
                let ghost before = datas;
                let data = diagnostics[i].data.as_ref();
                datas.push(data);
                proof {
                    lemma_deep_view_push(before, datas, data);
                }
                i += 1;
            }
            assert(diagnostics.deep_view().take(i as int) =~= diagnostics.deep_view());
            unused_imports(datas)
        },
    }
}

/// The actions that a fix offers, given the answers to its requests:
/// none where the document could not be parsed; one for each edit where
/// the edits are ways to choose from; one for all of them where they
/// belong together.
pub open spec fn spec_quickfix(
    uri: Seq<char>,
    quickfix: QuickfixView,
    answers: Option<Seq<Option<AnnotatedEditView>>>,
) -> Seq<CodeActionView> {
    match answers {
        None => Seq::empty(),
        Some(answers) => match quickfix.category().assembly() {
            Assembly::Distinct => spec_candidates(answers).map_values(
                |e: AnnotatedEditView| distinct_action(uri, quickfix.diagnostics()[0], e),
            ),
            Assembly::Combined => seq![
                single_action(
                    uri,
                    quickfix.diagnostics(),
                    REMOVE_REDUNDANT_IMPORTS@,
                    spec_candidates(answers),
                ),
            ],
        },
    }
}

/// Turns the answers to the requests of a fix into the actions for the
/// editor. `answers` is `None` where the document could not be parsed:
/// there is nothing to offer then, and that is no error.
pub fn quickfix(
    text_document: &TextDocumentIdentifier,
    fix: &Quickfix,
    answers: Option<Vec<Option<AnnotatedEdit>>>,
) -> (actions: Vec<CodeAction>)
    ensures
        actions.deep_view() == spec_quickfix(
            text_document.uri@,
            fix.deep_view(),
            answers.deep_view(),
        ),
{
    let mut actions: Vec<CodeAction> = Vec::new();
    proof {
        lemma_deep_view_empty(actions);
    }
    if let Some(answers) = answers {
        let ghost found = spec_candidates(answers.deep_view());
        let ghost uri = text_document.uri@;
        let edits = candidates(answers);
        let diagnostics = fix.diagnostics();
        match fix.category().assembly() {
            Assembly::Distinct => {
                proof {
                    assert(diagnostics.deep_view().len() == 1);
                    assert(diagnostics@.len() == diagnostics.deep_view().len());
                    lemma_deep_view_index(diagnostics, 0);
                }
                each_as_distinct_action(&mut actions, text_document, &diagnostics[0], edits);
                assert(actions.deep_view() =~= found.map_values(
                    |e: AnnotatedEditView|
                        distinct_action(uri, fix.deep_view().diagnostics()[0], e),
                ));
            },
            Assembly::Combined => {
                as_single_action(
                    &mut actions,
                    text_document,
                    diagnostics,
                    REMOVE_REDUNDANT_IMPORTS,
                    edits,
                );
                assert(actions.deep_view() =~= seq![
                    single_action(
                        uri,
                        fix.deep_view().diagnostics(),
                        REMOVE_REDUNDANT_IMPORTS@,
                        found,
                    ),
                ]);
            },
        }
    }
    actions
}

/// An import is asked for exactly the modules that are wanted: nothing
/// is asked of a module that is not, and none that is wanted is passed
/// over.
pub proof fn lemma_imports_of_wanted_modules(
    modules: Seq<ModuleView>,
    wanted: spec_fn(ModuleView) -> bool,
    unqualified: Option<Seq<char>>,
    request: EditRequestView,
)
    ensures
        imports(modules, wanted, unqualified).contains(request) <==> exists|i: int|
            0 <= i < modules.len() && wanted(#[trigger] modules[i]) && request
                == (EditRequestView::Import { module: modules[i].name, unqualified }),
    decreases modules.len(),
{
    let all = imports(modules, wanted, unqualified);
    if modules.len() == 0 {
        lemma_imports_empty(wanted, unqualified);
        assert(modules =~= Seq::empty());
    } else {
        let n = modules.len() - 1;
        let shorter = modules.take(n);
        let fewer = imports(shorter, wanted, unqualified);
        let last = EditRequestView::Import { module: modules[n].name, unqualified };
        lemma_imports_step(modules, wanted, unqualified, n);
        assert(modules.take(n + 1) =~= modules);
        lemma_imports_of_wanted_modules(shorter, wanted, unqualified, request);
        if all.contains(request) {
            let k = choose|k: int| 0 <= k < all.len() && all[k] == request;
            if wanted(modules[n]) && k == all.len() - 1 {
                assert(request == last);
            } else {
                assert(fewer[k] == request);
                let i = choose|i: int|
                    0 <= i < shorter.len() && wanted(#[trigger] shorter[i]) && request
                        == (EditRequestView::Import { module: shorter[i].name, unqualified });
                assert(modules[i] == shorter[i]);
            }
        }
        if exists|i: int|
            0 <= i < modules.len() && wanted(#[trigger] modules[i]) && request
                == (EditRequestView::Import { module: modules[i].name, unqualified }) {
            let i = choose|i: int|
                0 <= i < modules.len() && wanted(#[trigger] modules[i]) && request
                    == (EditRequestView::Import { module: modules[i].name, unqualified });
            if i == n {
                assert(all[all.len() - 1] == request);
            } else {
                assert(shorter[i] == modules[i]);
                let k = choose|k: int| 0 <= k < fewer.len() && fewer[k] == request;
                assert(all[k] == request);
            }
        }
    }
}

/// Whatever a fix offers resolves the diagnostics of the fix, is marked
/// as preferred, is a quick fix and changes the one document that the
/// diagnostics are about.
pub proof fn lemma_actions_resolve_the_fix(
    uri: Seq<char>,
    fix: QuickfixView,
    answers: Option<Seq<Option<AnnotatedEditView>>>,
    i: int,
)
    requires
        0 <= i < spec_quickfix(uri, fix, answers).len(),
    ensures
        ({
            let action = spec_quickfix(uri, fix, answers)[i];
            &&& action.diagnostics == fix.diagnostics()
            &&& action.is_preferred
            &&& action.kind == CodeActionKind::QuickFix
            &&& action.edit.changes().dom() == set![uri]
        }),
{
    let action = spec_quickfix(uri, fix, answers)[i];
    assert(action.edit.changes().dom() =~= set![uri]);
    assert(fix.diagnostics() =~= seq![fix.diagnostics()[0]] || fix is UnusedImports);
}

/// Where the edits are ways to choose from, there is one action for each
/// edit that was found, in their order, and the action holds that edit
/// and no other.
pub proof fn lemma_one_action_for_each_edit(
    uri: Seq<char>,
    fix: QuickfixView,
    answers: Seq<Option<AnnotatedEditView>>,
)
    requires
        fix.category().assembly() == Assembly::Distinct,
    ensures
        spec_quickfix(uri, fix, Some(answers)).len() == spec_candidates(answers).len(),
        forall|i: int|
            0 <= i < spec_candidates(answers).len() ==> {
                let action = #[trigger] spec_quickfix(uri, fix, Some(answers))[i];
                &&& action.title == spec_candidates(answers)[i].title
                &&& action.edit.edits == seq![spec_candidates(answers)[i].edit]
            },
{
}

/// Where the edits belong together, there is one action, whatever the
/// number of edits, and it holds every edit that was found, in their
/// order.
pub proof fn lemma_one_action_for_all_edits(
    uri: Seq<char>,
    fix: QuickfixView,
    answers: Seq<Option<AnnotatedEditView>>,
)
    requires
        fix.category().assembly() == Assembly::Combined,
    ensures
        spec_quickfix(uri, fix, Some(answers)).len() == 1,
        spec_quickfix(uri, fix, Some(answers))[0].title == REMOVE_REDUNDANT_IMPORTS@,
        spec_quickfix(uri, fix, Some(answers))[0].edit.edits.len() == spec_candidates(
            answers,
        ).len(),
        forall|i: int|
            0 <= i < spec_candidates(answers).len() ==> (#[trigger] spec_quickfix(
                uri,
                fix,
                Some(answers),
            )[0].edit.edits[i]) == spec_candidates(answers)[i].edit,
{
}

} // verus!
