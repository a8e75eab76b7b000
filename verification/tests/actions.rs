use aiken_tooling::protocol::{
    clone_diagnostics, clone_text, Code, CodeAction, CodeActionKind, Diagnostic, Position, Range,
    Severity, TextDocumentIdentifier, TextEdit, WorkspaceEdit,
};
use aiken_tooling::quickfix::{
    as_single_action, candidates, classify, each_as_distinct_action, quickfix, AnnotatedEdit,
    Quickfix, REMOVE_REDUNDANT_IMPORTS, UNKNOWN_MODULE, UNKNOWN_VARIABLE, UNUSED_IMPORT_MODULE,
};

fn at(line: u32, character: u32) -> Range {
    Range {
        start: Position { line, character },
        end: Position { line, character },
    }
}

fn diagnostic(severity: Severity, code: &str, data: Option<&str>) -> Diagnostic {
    Diagnostic {
        range: at(7, 2),
        severity: Some(severity),
        code: Some(Code::Text(code.to_string())),
        source: Some("aiken".to_string()),
        message: "m".to_string(),
        data: data.map(|d| d.to_string()),
    }
}

fn edit(title: &str, line: u32, new_text: &str) -> AnnotatedEdit {
    AnnotatedEdit {
        title: title.to_string(),
        edit: TextEdit { range: at(line, 0), new_text: new_text.to_string() },
    }
}

fn document() -> TextDocumentIdentifier {
    TextDocumentIdentifier { uri: "file:///project/lib/main.ak".to_string() }
}

fn action(title: &str, diagnostics: Vec<Diagnostic>, edits: Vec<TextEdit>) -> CodeAction {
    CodeAction {
        title: title.to_string(),
        kind: CodeActionKind::QuickFix,
        diagnostics,
        is_preferred: true,
        edit: WorkspaceEdit { document: document().uri, edits },
    }
}

#[test]
fn candidates_are_the_edits_that_were_found() {
    assert_eq!(candidates(vec![]), vec![]);
    assert_eq!(candidates(vec![None, None]), vec![]);
    assert_eq!(
        candidates(vec![Some(edit("a", 1, "x")), None, Some(edit("b", 2, "y"))]),
        vec![edit("a", 1, "x"), edit("b", 2, "y")]
    );
}

#[test]
fn two_candidates_give_two_actions_each_with_its_own_edit() {
    let d = diagnostic(Severity::Error, UNKNOWN_VARIABLE, Some("foo"));
    let fix = classify(d.clone()).unwrap();
    let answers = vec![
        Some(edit("Import foo from a", 0, "use a.{foo}\n")),
        Some(edit("Import foo from b", 0, "use b.{foo}\n")),
    ];
    let actions = quickfix(&document(), &fix, Some(answers));
    assert_eq!(
        actions,
        vec![
            action(
                "Import foo from a",
                vec![d.clone()],
                vec![TextEdit { range: at(0, 0), new_text: "use a.{foo}\n".to_string() }]
            ),
            action(
                "Import foo from b",
                vec![d.clone()],
                vec![TextEdit { range: at(0, 0), new_text: "use b.{foo}\n".to_string() }]
            ),
        ]
    );
    assert_eq!(actions.len(), 2);
    assert_eq!(actions[0].edit.edits.len(), 1);
    assert_eq!(actions[1].edit.edits.len(), 1);
    assert_ne!(actions[0].edit.edits, actions[1].edit.edits);
}

#[test]
fn an_edit_that_could_not_be_computed_gives_no_action() {
    let d = diagnostic(Severity::Error, UNKNOWN_MODULE, Some("bar"));
    let fix = Quickfix::UnknownModule(d.clone());
    let answers = vec![None, Some(edit("Import x/bar", 0, "use x/bar\n")), None];
    assert_eq!(
        quickfix(&document(), &fix, Some(answers)),
        vec![action(
            "Import x/bar",
            vec![d],
            vec![TextEdit { range: at(0, 0), new_text: "use x/bar\n".to_string() }]
        )]
    );
    assert_eq!(quickfix(&document(), &fix, Some(vec![None])), vec![]);
    assert_eq!(quickfix(&document(), &fix, Some(vec![])), vec![]);
}

#[test]
fn unused_imports_give_one_action_with_every_edit_in_order() {
    let diagnostics = vec![
        diagnostic(Severity::Warning, UNUSED_IMPORT_MODULE, Some("false,10")),
        diagnostic(Severity::Warning, UNUSED_IMPORT_MODULE, Some("true,50")),
        diagnostic(Severity::Warning, UNUSED_IMPORT_MODULE, Some("false,5")),
    ];
    let fix = Quickfix::UnusedImports(clone_diagnostics(&diagnostics));
    let answers = vec![
        Some(edit("remove d3", 3, "")),
        Some(edit("remove d2", 2, "")),
        Some(edit("remove d1", 1, "")),
    ];
    let actions = quickfix(&document(), &fix, Some(answers));
    assert_eq!(
        actions,
        vec![action(
            "Remove redundant imports",
            diagnostics,
            vec![
                TextEdit { range: at(3, 0), new_text: String::new() },
                TextEdit { range: at(2, 0), new_text: String::new() },
                TextEdit { range: at(1, 0), new_text: String::new() },
            ]
        )]
    );
}

#[test]
fn unused_imports_give_one_action_even_without_edits() {
    let d = diagnostic(Severity::Warning, UNUSED_IMPORT_MODULE, None);
    let fix = Quickfix::UnusedImports(vec![d.clone()]);
    assert_eq!(
        quickfix(&document(), &fix, Some(vec![])),
        vec![action(REMOVE_REDUNDANT_IMPORTS, vec![d], vec![])]
    );
}

#[test]
fn a_document_that_cannot_be_parsed_gives_no_action() {
    let d = diagnostic(Severity::Error, UNKNOWN_VARIABLE, Some("foo"));
    assert_eq!(quickfix(&document(), &Quickfix::UnknownIdentifier(d.clone()), None), vec![]);
    assert_eq!(quickfix(&document(), &Quickfix::UnknownConstructor(d.clone()), None), vec![]);
    assert_eq!(quickfix(&document(), &Quickfix::UnknownModule(d.clone()), None), vec![]);
    assert_eq!(quickfix(&document(), &Quickfix::UnusedImports(vec![d]), None), vec![]);
}

#[test]
fn distinct_actions_are_added_after_those_that_are_there() {
    let d = diagnostic(Severity::Error, UNKNOWN_VARIABLE, Some("foo"));
    let mut actions = vec![action("earlier", vec![], vec![])];
    each_as_distinct_action(
        &mut actions,
        &document(),
        &d,
        vec![edit("one", 1, "a"), edit("two", 2, "b")],
    );
    assert_eq!(
        actions,
        vec![
            action("earlier", vec![], vec![]),
            action(
                "one",
                vec![d.clone()],
                vec![TextEdit { range: at(1, 0), new_text: "a".to_string() }]
            ),
            action(
                "two",
                vec![d.clone()],
                vec![TextEdit { range: at(2, 0), new_text: "b".to_string() }]
            ),
        ]
    );
    each_as_distinct_action(&mut actions, &document(), &d, vec![]);
    assert_eq!(actions.len(), 3);
}

#[test]
fn a_single_action_is_added_after_those_that_are_there() {
    let d = diagnostic(Severity::Warning, UNUSED_IMPORT_MODULE, Some("true,1"));
    let mut actions = vec![action("earlier", vec![], vec![])];
    as_single_action(
        &mut actions,
        &document(),
        vec![d.clone()],
        "All at once",
        vec![edit("one", 1, "a"), edit("two", 2, "b")],
    );
    assert_eq!(
        actions,
        vec![
            action("earlier", vec![], vec![]),
            action(
                "All at once",
                vec![d],
                vec![
                    TextEdit { range: at(1, 0), new_text: "a".to_string() },
                    TextEdit { range: at(2, 0), new_text: "b".to_string() },
                ]
            ),
        ]
    );
}

#[test]
fn every_action_is_a_preferred_quick_fix_on_the_one_document() {
    let d = diagnostic(Severity::Error, UNKNOWN_VARIABLE, Some("foo"));
    let fix = Quickfix::UnknownIdentifier(d.clone());
    for a in quickfix(&document(), &fix, Some(vec![Some(edit("x", 0, "y"))])) {
        assert!(a.is_preferred);
        assert_eq!(a.kind, CodeActionKind::QuickFix);
        assert_eq!(a.edit.document, document().uri);
        assert_eq!(a.diagnostics, vec![d.clone()]);
    }
}

#[test]
fn copies_keep_what_they_copy() {
    let ds = vec![
        diagnostic(Severity::Error, UNKNOWN_VARIABLE, Some("foo")),
        diagnostic(Severity::Hint, UNKNOWN_MODULE, None),
    ];
    assert_eq!(clone_diagnostics(&ds), ds);
    assert_eq!(clone_diagnostics(&vec![]), vec![]);
    assert_eq!(clone_text(&Some("a".to_string())), Some("a".to_string()));
    assert_eq!(clone_text(&None), None);
    let e = TextEdit { range: at(1, 1), new_text: "t".to_string() };
    assert_eq!(e.clone(), e);
    assert_eq!(Code::Number(3).clone(), Code::Number(3));
}
