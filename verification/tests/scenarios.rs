use aiken_tooling::module::{Definition, Function, Module};
use aiken_tooling::payload::PayloadError;
use aiken_tooling::protocol::{
    Code, CodeAction, Diagnostic, Position, Range, Severity, TextDocumentIdentifier, TextEdit,
};
use aiken_tooling::quickfix::{
    classify, quickfix, requests, AnnotatedEdit, EditRequest, Quickfix, UNKNOWN_MODULE,
    UNKNOWN_VARIABLE, UNUSED_IMPORT_VALUE,
};

fn at(line: u32) -> Range {
    Range {
        start: Position { line, character: 0 },
        end: Position { line, character: 0 },
    }
}

fn diagnostic(severity: Severity, code: &str, data: &str) -> Diagnostic {
    Diagnostic {
        range: at(12),
        severity: Some(severity),
        code: Some(Code::Text(code.to_string())),
        source: None,
        message: "m".to_string(),
        data: Some(data.to_string()),
    }
}

fn module(name: &str, defines: &[&str]) -> Module {
    Module {
        name: name.to_string(),
        docs: vec![],
        definitions: defines
            .iter()
            .map(|d| {
                Definition::Fn(Function {
                    public: true,
                    name: d.to_string(),
                    doc: None,
                    signature: d.to_string(),
                })
            })
            .collect(),
    }
}

fn document() -> TextDocumentIdentifier {
    TextDocumentIdentifier { uri: "file:///validators/spend.ak".to_string() }
}

/// A document that has a place for every edit it is asked for.
fn answer(request: &EditRequest) -> Option<AnnotatedEdit> {
    match request {
        EditRequest::Import { module, unqualified: Some(name) } => Some(AnnotatedEdit {
            title: format!("Use '{name}' from {module}"),
            edit: TextEdit { range: at(0), new_text: format!("use {module}.{{{name}}}\n") },
        }),
        EditRequest::Import { module, unqualified: None } => Some(AnnotatedEdit {
            title: format!("Use {module}"),
            edit: TextEdit { range: at(0), new_text: format!("use {module}\n") },
        }),
        EditRequest::RemoveImport { start, is_qualified } => Some(AnnotatedEdit {
            title: String::from("Remove import"),
            edit: TextEdit {
                range: Range {
                    start: Position { line: 0, character: *start as u32 },
                    end: Position { line: 0, character: *start as u32 + *is_qualified as u32 },
                },
                new_text: String::new(),
            },
        }),
    }
}

fn actions(modules: &Vec<Module>, fix: &Quickfix) -> Result<Vec<CodeAction>, PayloadError> {
    let asked = requests(modules, fix, true)?;
    let answers = asked.iter().map(answer).collect();
    Ok(quickfix(&document(), fix, Some(answers)))
}

#[test]
fn foo_defined_by_two_modules_gives_two_fixes_to_choose_from() {
    let modules = vec![module("a", &["foo"]), module("b", &["foo"])];
    let d = diagnostic(Severity::Error, UNKNOWN_VARIABLE, "foo");
    let fix = classify(d.clone()).unwrap();

    assert_eq!(
        requests(&modules, &fix, true),
        Ok(vec![
            EditRequest::Import { module: "a".to_string(), unqualified: Some("foo".to_string()) },
            EditRequest::Import { module: "b".to_string(), unqualified: Some("foo".to_string()) },
        ])
    );

    let offered = actions(&modules, &fix).unwrap();
    assert_eq!(offered.len(), 2);
    assert_eq!(offered[0].title, "Use 'foo' from a");
    assert_eq!(
        offered[0].edit.edits,
        vec![TextEdit { range: at(0), new_text: "use a.{foo}\n".to_string() }]
    );
    assert_eq!(offered[1].title, "Use 'foo' from b");
    assert_eq!(
        offered[1].edit.edits,
        vec![TextEdit { range: at(0), new_text: "use b.{foo}\n".to_string() }]
    );
    for action in &offered {
        assert_eq!(action.diagnostics, vec![d.clone()]);
        assert!(action.is_preferred);
        assert_eq!(action.edit.document, "file:///validators/spend.ak");
    }
}

#[test]
fn bar_matches_the_modules_that_end_with_it() {
    let modules = vec![module("x/bar", &[]), module("y/z/bar", &[]), module("barn", &[])];
    let fix = classify(diagnostic(Severity::Error, UNKNOWN_MODULE, "bar")).unwrap();
    assert_eq!(
        requests(&modules, &fix, true),
        Ok(vec![
            EditRequest::Import { module: "x/bar".to_string(), unqualified: None },
            EditRequest::Import { module: "y/z/bar".to_string(), unqualified: None },
        ])
    );
    let offered = actions(&modules, &fix).unwrap();
    assert_eq!(offered.len(), 2);
    assert_eq!(offered[0].title, "Use x/bar");
    assert_eq!(offered[1].title, "Use y/z/bar");
}

#[test]
fn three_unused_imports_are_removed_by_one_action_last_first() {
    let d1 = diagnostic(Severity::Warning, UNUSED_IMPORT_VALUE, "false,10");
    let d2 = diagnostic(Severity::Warning, UNUSED_IMPORT_VALUE, "true,50");
    let d3 = diagnostic(Severity::Warning, UNUSED_IMPORT_VALUE, "false,5");
    for d in [&d1, &d2, &d3] {
        assert!(matches!(classify(d.clone()), Some(Quickfix::UnusedImports(batch)) if batch.len() == 1));
    }
    let fix = Quickfix::UnusedImports(vec![d1.clone(), d2.clone(), d3.clone()]);

    let offered = actions(&vec![], &fix).unwrap();
    assert_eq!(offered.len(), 1);
    assert_eq!(offered[0].title, "Remove redundant imports");
    assert_eq!(offered[0].diagnostics, vec![d1, d2, d3]);
    let removed: Vec<(u32, u32)> = offered[0]
        .edit
        .edits
        .iter()
        .map(|e| (e.range.start.character, e.range.end.character - e.range.start.character))
        .collect();
    assert_eq!(removed, vec![(5, 0), (50, 1), (10, 0)]);
}

#[test]
fn a_malformed_payload_leaves_no_action_at_all() {
    let good = diagnostic(Severity::Warning, UNUSED_IMPORT_VALUE, "false,10");
    for (payload, error) in [
        ("notabool,10", PayloadError::NotABool),
        ("10", PayloadError::NotATuple),
        ("true", PayloadError::NotATuple),
        ("true,x", PayloadError::NotAUsize),
    ] {
        let bad = diagnostic(Severity::Warning, UNUSED_IMPORT_VALUE, payload);
        for batch in [
            vec![bad.clone(), good.clone(), good.clone()],
            vec![good.clone(), bad.clone(), good.clone()],
            vec![good.clone(), good.clone(), bad.clone()],
        ] {
            assert_eq!(actions(&vec![], &Quickfix::UnusedImports(batch)), Err(error));
        }
    }
}

#[test]
fn a_warning_about_an_unknown_variable_is_left_alone() {
    assert_eq!(classify(diagnostic(Severity::Warning, UNKNOWN_VARIABLE, "foo")), None);
    assert_eq!(classify(diagnostic(Severity::Hint, UNKNOWN_VARIABLE, "foo")), None);
}
