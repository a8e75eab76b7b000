use aiken_tooling::docs::entries::{DocConstant, DocFunction, DocType, DocTypeConstructor};
use aiken_tooling::docs::search::{
    escape_html_content, escape_html_contents, object_of, script_of, search_data, SearchIndex,
};
use aiken_tooling::module::Module;

fn module(name: &str, docs: &[&str]) -> Module {
    Module {
        name: name.to_string(),
        docs: docs.iter().map(|d| d.to_string()).collect(),
        definitions: vec![],
    }
}

fn index(doc: &str, title: &str, content: &str, url: &str) -> SearchIndex {
    SearchIndex {
        doc: doc.to_string(),
        title: title.to_string(),
        content: content.to_string(),
        url: url.to_string(),
    }
}

#[test]
fn the_index_of_a_function() {
    let f = DocFunction {
        name: "add".to_string(),
        signature: "add(a: Int) -> Int".to_string(),
        documentation: "<p>Adds.</p>\n".to_string(),
        raw_documentation: "Adds.".to_string(),
        source_url: "#todo".to_string(),
    };
    assert_eq!(
        SearchIndex::from_function(&module("aiken/math", &[]), &f),
        index("aiken/math", "add", "add(a: Int) -> Int\nAdds.", "aiken/math.html#add")
    );
}

#[test]
fn the_index_of_a_constant() {
    let c = DocConstant {
        name: "limit".to_string(),
        definition: "limit = 10".to_string(),
        documentation: String::new(),
        raw_documentation: String::new(),
        source_url: "#todo".to_string(),
    };
    assert_eq!(
        SearchIndex::from_constant(&module("m", &[]), &c),
        index("m", "limit", "limit = 10\n", "m.html#limit")
    );
}

#[test]
fn the_index_of_a_type_holds_its_constructors() {
    let t = |constructors| DocType {
        name: "Shape".to_string(),
        definition: "Shape { .. }".to_string(),
        documentation: String::new(),
        raw_documentation: "A shape.".to_string(),
        constructors,
        parameters: vec![],
        opaque: false,
        source_url: "#todo".to_string(),
    };
    let c = |definition: &str, raw: &str| DocTypeConstructor {
        definition: definition.to_string(),
        documentation: String::new(),
        raw_documentation: raw.to_string(),
    };
    assert_eq!(
        SearchIndex::from_type(&module("m", &[]), &t(vec![c("Circle", "Round."), c("Square", "")])),
        index("m", "Shape", "Shape { .. }\nA shape.\nCircle\nRound.\nSquare\n", "m.html#Shape")
    );
    assert_eq!(
        SearchIndex::from_type(&module("m", &[]), &t(vec![])),
        index("m", "Shape", "Shape { .. }\nA shape.\n", "m.html#Shape")
    );
}

#[test]
fn the_index_of_a_module_holds_its_documentation() {
    assert_eq!(
        SearchIndex::from_module(&module("a/b", &[" First line.", " Second line."])),
        index("a/b", "a/b", " First line.\n Second line.", "a/b.html")
    );
    assert_eq!(SearchIndex::from_module(&module("a", &[])), index("a", "a", "", "a.html"));
    assert_eq!(SearchIndex::from_module(&module("a", &["one"])), index("a", "a", "one", "a.html"));
}

#[test]
fn markup_is_escaped() {
    assert_eq!(escape_html_content("a & b".to_string()), "a &amp; b");
    assert_eq!(escape_html_content("<div>".to_string()), "&lt;div&gt;");
    assert_eq!(escape_html_content("\"x\"".to_string()), "&quot;x&quot;");
    assert_eq!(escape_html_content("it's".to_string()), "it&#39;s");
    assert_eq!(escape_html_content("&amp;".to_string()), "&amp;amp;");
    assert_eq!(escape_html_content("plain é text".to_string()), "plain é text");
    assert_eq!(escape_html_content(String::new()), "");
}

#[test]
fn escaping_is_replacing_one_character_after_the_other() {
    for text in ["<a href=\"x\">it's & more</a>", "&&&", "'\"<>&", "nothing to do", "&lt;"] {
        let expected = text
            .replace('&', "&amp;")
            .replace('<', "&lt;")
            .replace('>', "&gt;")
            .replace('\"', "&quot;")
            .replace('\'', "&#39;");
        assert_eq!(escape_html_content(text.to_string()), expected);
    }
}

#[test]
fn only_the_content_of_an_index_is_escaped() {
    assert_eq!(
        escape_html_contents(vec![
            index("<doc>", "<title>", "List<a> & more", "<url>"),
            index("d", "t", "c", "u"),
        ]),
        vec![
            index("<doc>", "<title>", "List&lt;a&gt; &amp; more", "<url>"),
            index("d", "t", "c", "u"),
        ]
    );
    assert_eq!(escape_html_contents(vec![]), vec![]);
}

#[test]
fn the_search_data_is_a_script_around_json() {
    assert_eq!(search_data(&vec![]), "window.Aiken.initSearch([]);");
    assert_eq!(
        search_data(&vec![index("m", "f", "f() -> Int\nA \"doc\"", "m.html#f")]),
        "window.Aiken.initSearch([{\"doc\":\"m\",\"title\":\"f\",\"content\":\"f() -> Int\\nA \\\"doc\\\"\",\"url\":\"m.html#f\"}]);"
    );
    assert_eq!(
        search_data(&vec![index("a", "b", "c", "d"), index("e", "f", "g", "h")]),
        "window.Aiken.initSearch([{\"doc\":\"a\",\"title\":\"b\",\"content\":\"c\",\"url\":\"d\"},{\"doc\":\"e\",\"title\":\"f\",\"content\":\"g\",\"url\":\"h\"}]);"
    );
}

#[test]
fn the_search_data_can_be_read_back() {
    let indexes = vec![
        index("aiken/list", "map", "map(xs: List<a>)\n\\ tab\there \u{1} \u{7f} é", "aiken/list.html#map"),
        index("m", "\"quoted\"", "", "m.html"),
    ];
    let script = search_data(&indexes);
    let json = script
        .strip_prefix("window.Aiken.initSearch(")
        .and_then(|s| s.strip_suffix(");"))
        .unwrap();
    let value: serde_json::Value = serde_json::from_str(json).unwrap();
    let entries = value.as_array().unwrap();
    assert_eq!(entries.len(), 2);
    for (entry, expected) in entries.iter().zip(indexes.iter()) {
        let object = entry.as_object().unwrap();
        assert_eq!(object.len(), 4);
        assert_eq!(object["doc"].as_str().unwrap(), expected.doc);
        assert_eq!(object["title"].as_str().unwrap(), expected.title);
        assert_eq!(object["content"].as_str().unwrap(), expected.content);
        assert_eq!(object["url"].as_str().unwrap(), expected.url);
    }
}

#[test]
fn a_copy_of_an_index_is_equal_to_it() {
    let i = index("a", "b", "c", "d");
    assert_eq!(i.clone(), i);
}

#[test]
fn objects_and_script_are_framed_around_what_they_are_given() {
    assert_eq!(
        object_of("1", "2", "3", "4"),
        "{\"doc\":1,\"title\":2,\"content\":3,\"url\":4}"
    );
    assert_eq!(script_of(&vec![]), "window.Aiken.initSearch([]);");
    assert_eq!(
        script_of(&vec!["{}".to_string(), "{}".to_string(), "1".to_string()]),
        "window.Aiken.initSearch([{},{},1]);"
    );
}
