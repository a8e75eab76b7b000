use aiken_tooling::docs::clock::new_timestamp;
use aiken_tooling::docs::entries::{DocConstant, DocFunction};
use aiken_tooling::docs::order::comes_before;
use aiken_tooling::docs::search::SearchIndex;
use aiken_tooling::docs::site::{
    generate_all, generate_module, generate_modules_links, generate_readme,
    generate_static_assets, StaticAssets,
};
use aiken_tooling::docs::sorting::name_order;
use aiken_tooling::docs::{
    clone_links, source_link, Config, DocFile, DocLink, ModuleTemplate, PackageName,
    PageTemplate, Platform, Repository,
};
use aiken_tooling::module::{Definition, Function, Module, ModuleConstant};
use std::cmp::Ordering;

fn link(indent: usize, name: &str, path: &str) -> DocLink {
    DocLink { indent, name: name.to_string(), path: path.to_string() }
}

fn config(repository: Option<Repository>) -> Config {
    Config {
        name: PackageName { owner: "aiken-lang".to_string(), repo: "stdlib".to_string() },
        version: "1.2.3".to_string(),
        repository,
    }
}

fn function(name: &str, public: bool) -> Definition {
    Definition::Fn(Function {
        public,
        name: name.to_string(),
        doc: Some(format!("Does {name}.")),
        signature: format!("{name}() -> Int"),
    })
}

fn constant(name: &str) -> Definition {
    Definition::ModuleConstant(ModuleConstant {
        public: true,
        name: name.to_string(),
        doc: None,
        definition: format!("{name} = 1"),
    })
}

fn module(name: &str, definitions: Vec<Definition>) -> Module {
    Module { name: name.to_string(), docs: vec![" About.".to_string()], definitions }
}

fn file(path: &str, content: &str) -> DocFile {
    DocFile { path: path.to_string(), content: content.to_string() }
}

fn index(title: &str) -> SearchIndex {
    SearchIndex {
        doc: "m".to_string(),
        title: title.to_string(),
        content: "<c>".to_string(),
        url: "u".to_string(),
    }
}

fn assets() -> StaticAssets {
    StaticAssets {
        favicon: "<svg/>".to_string(),
        atom_one_light_css: "light".to_string(),
        atom_one_dark_css: "dark".to_string(),
        index_css: "css".to_string(),
        highlight_js: "highlight".to_string(),
        highlightjs_aiken_js: "aiken".to_string(),
        lunr_js: "lunr".to_string(),
        index_js: "index".to_string(),
    }
}

fn page(module_name: &str) -> ModuleTemplate {
    ModuleTemplate {
        aiken_version: "v1".to_string(),
        breadcrumbs: ".".to_string(),
        page_title: "t".to_string(),
        module_name: module_name.to_string(),
        project_name: "p".to_string(),
        project_version: "1".to_string(),
        modules: vec![],
        functions: vec![],
        types: vec![],
        constants: vec![],
        documentation: String::new(),
        source: link(0, "", ""),
        timestamp: "0".to_string(),
    }
}

#[test]
fn links_without_name_or_path() {
    assert!(link(0, "", "a.html").is_empty());
    assert!(!link(0, "a", "a.html").is_empty());
    assert!(link(0, "a", "").is_separator());
    assert!(!link(0, "a", "a.html").is_separator());
    assert!(link(0, "", "").is_empty() && link(0, "", "").is_separator());
    assert_eq!(clone_links(&vec![link(1, "a", "b")]), vec![link(1, "a", "b")]);
    assert_eq!(link(2, "a", "b").clone(), link(2, "a", "b"));
}

#[test]
fn the_current_module_is_the_one_the_link_leads_to() {
    let p = page("aiken/list");
    assert!(p.is_current_module(&link(0, "list", "aiken/list.html")));
    assert!(p.is_current_module(&link(0, "list", "aiken/list")));
    assert!(p.is_current_module(&link(0, "list", "aiken/list.html#map")));
    assert!(!p.is_current_module(&link(0, "list", "aiken/list2.html")));
    assert!(!p.is_current_module(&link(0, "list", "aiken.html")));
    assert!(!p.is_current_module(&link(0, "aiken", "")));
    assert!(page("").is_current_module(&link(0, "aiken", "")));
}

#[test]
fn a_page_of_no_module_is_never_the_current_module() {
    let p = generate_readme("v1", &config(None), "", &vec![], &link(0, "", ""), 0);
    assert!(!p.is_current_module(&link(0, "index", "index.html")));
    assert!(!p.is_current_module(&link(0, "", "")));
}

#[test]
fn pages_become_files() {
    assert_eq!(
        page("aiken/list").file("<html/>".to_string()),
        file("aiken/list.html", "<html/>")
    );
    let readme = generate_readme("v1", &config(None), "", &vec![], &link(0, "", ""), 0);
    assert_eq!(readme.file("<html/>".to_string()), file("index.html", "<html/>"));
}

#[test]
fn the_source_link_of_a_project() {
    assert_eq!(source_link(&None), link(0, "", ""));
    let repository = |platform| {
        Some(Repository { user: "aiken-lang".to_string(), project: "stdlib".to_string(), platform })
    };
    assert_eq!(
        source_link(&repository(Platform::Github)),
        link(0, "aiken-lang/stdlib", "https://github.com/aiken-lang/stdlib")
    );
    assert_eq!(
        source_link(&repository(Platform::Gitlab)),
        link(0, "aiken-lang/stdlib", "https://gitlab.com/aiken-lang/stdlib")
    );
    assert_eq!(
        source_link(&repository(Platform::Bitbucket)),
        link(0, "aiken-lang/stdlib", "https://bitbucket.com/aiken-lang/stdlib")
    );
    assert_eq!(config(None).name.full(), "aiken-lang/stdlib");
}

#[test]
fn the_page_of_a_module() {
    let m = module(
        "aiken/math",
        vec![function("add", true), function("hidden", false), constant("pi"), Definition::Other],
    );
    let links = vec![link(0, "aiken", ""), link(1, "math", "aiken/math.html")];
    let source = link(0, "aiken-lang/stdlib", "https://github.com/aiken-lang/stdlib");
    let (indexes, template) = generate_module("v1.0.0", &config(None), &m, &links, &source, 1700000000);
    assert_eq!(
        template,
        ModuleTemplate {
            aiken_version: "v1.0.0".to_string(),
            breadcrumbs: "..".to_string(),
            page_title: "aiken/math - aiken-lang/stdlib".to_string(),
            module_name: "aiken/math".to_string(),
            project_name: "stdlib".to_string(),
            project_version: "1.2.3".to_string(),
            modules: links.clone(),
            functions: vec![DocFunction {
                name: "add".to_string(),
                signature: "add() -> Int".to_string(),
                documentation: "<p>Does add.</p>\n".to_string(),
                raw_documentation: "Does add.".to_string(),
                source_url: "#todo".to_string(),
            }],
            types: vec![],
            constants: vec![DocConstant {
                name: "pi".to_string(),
                definition: "pi = 1".to_string(),
                documentation: String::new(),
                raw_documentation: String::new(),
                source_url: "#todo".to_string(),
            }],
            documentation: "<p>About.</p>\n".to_string(),
            source: source.clone(),
            timestamp: "1700000000".to_string(),
        }
    );
    assert_eq!(
        indexes,
        vec![
            SearchIndex {
                doc: "aiken/math".to_string(),
                title: "add".to_string(),
                content: "add() -> Int\nDoes add.".to_string(),
                url: "aiken/math.html#add".to_string(),
            },
            SearchIndex {
                doc: "aiken/math".to_string(),
                title: "pi".to_string(),
                content: "pi = 1\n".to_string(),
                url: "aiken/math.html#pi".to_string(),
            },
            SearchIndex {
                doc: "aiken/math".to_string(),
                title: "aiken/math".to_string(),
                content: " About.".to_string(),
                url: "aiken/math.html".to_string(),
            },
        ]
    );
}

#[test]
fn a_module_with_nothing_public_has_nothing_to_search() {
    let m = module("m", vec![function("hidden", false), Definition::Other]);
    let (indexes, template) = generate_module("v1", &config(None), &m, &vec![], &link(0, "", ""), 5);
    assert_eq!(indexes, vec![]);
    assert_eq!(template.functions, vec![]);
    assert_eq!(template.breadcrumbs, ".");
    assert_eq!(template.timestamp, "5");
}

#[test]
fn the_front_page() {
    let links = vec![link(0, "m", "m.html")];
    let source = link(0, "", "");
    assert_eq!(
        generate_readme("v1.0.0", &config(None), "# stdlib\n\nHello.", &links, &source, 42),
        PageTemplate {
            aiken_version: "v1.0.0".to_string(),
            breadcrumbs: ".".to_string(),
            page_title: "aiken-lang/stdlib".to_string(),
            project_name: "stdlib".to_string(),
            project_version: "1.2.3".to_string(),
            modules: links.clone(),
            content: "<h1>stdlib</h1>\n<p>Hello.</p>\n".to_string(),
            source: source.clone(),
            timestamp: "42".to_string(),
        }
    );
    assert_eq!(generate_readme("v", &config(None), "", &links, &source, 0).content, "");
}

#[test]
fn the_files_of_every_site() {
    assert_eq!(
        generate_static_assets(&assets(), vec![index("a<b")]),
        vec![
            file("favicon.svg", "<svg/>"),
            file("css/atom-one-light.min.css", "light"),
            file("css/atom-one-dark.min.css", "dark"),
            file("css/index.css", "css"),
            file("js/highlight.min.js", "highlight"),
            file("js/highlightjs-aiken.js", "aiken"),
            file("js/lunr.min.js", "lunr"),
            file("js/index.js", "index"),
            file(
                "search-data.js",
                "window.Aiken.initSearch([{\"doc\":\"m\",\"title\":\"a<b\",\"content\":\"&lt;c&gt;\",\"url\":\"u\"}]);"
            ),
        ]
    );
}

#[test]
fn the_files_of_a_site_in_order() {
    let pages = vec![
        (vec![index("one")], file("a.html", "A")),
        (vec![], file("empty.html", "E")),
        (vec![index("two"), index("three")], file("b.html", "B")),
    ];
    let all = generate_all(pages, &assets(), file("index.html", "R"));
    assert_eq!(all.len(), 12);
    assert_eq!(all[0], file("a.html", "A"));
    assert_eq!(all[1], file("b.html", "B"));
    assert_eq!(all[2], file("favicon.svg", "<svg/>"));
    assert_eq!(
        all[2..11],
        generate_static_assets(&assets(), vec![index("one"), index("two"), index("three")])[..]
    );
    assert_eq!(all[10].path, "search-data.js");
    assert_eq!(all[11], file("index.html", "R"));
}

#[test]
fn a_site_without_modules_has_the_common_files_and_the_front_page() {
    let all = generate_all(vec![], &assets(), file("index.html", "R"));
    assert_eq!(all.len(), 10);
    assert_eq!(all[8], file("search-data.js", "window.Aiken.initSearch([]);"));
    assert_eq!(all[9], file("index.html", "R"));
}

#[test]
fn the_sidebar_links_documented_modules_by_name() {
    let modules = vec![
        module("b", vec![function("f", true)]),
        module("private", vec![function("f", false)]),
        module("a/z", vec![constant("c")]),
        module("a", vec![function("f", true)]),
        module("empty", vec![]),
        module("B", vec![function("f", true)]),
    ];
    assert_eq!(generate_modules_links(&modules), vec!["B", "a", "a/z", "b"]);
    assert_eq!(generate_modules_links(&vec![]), Vec::<String>::new());
}

#[test]
fn names_are_ordered_as_strings_are() {
    let names = ["", "a", "A", "ab", "b", "a/b", "é", "z", "aa", "a b"];
    for a in names {
        for b in names {
            assert_eq!(name_order(a, b), a.cmp(b));
            assert_eq!(comes_before(a, b), a < b);
        }
    }
    assert_eq!(name_order("a", "b"), Ordering::Less);
    assert_eq!(name_order("b", "a"), Ordering::Greater);
    assert_eq!(name_order("a", "a"), Ordering::Equal);
}

#[test]
fn the_clock_stands_after_1970() {
    let now = new_timestamp();
    assert!(matches!(now, Some(seconds) if seconds > 1_000_000_000));
}

#[test]
fn platforms_by_name() {
    assert_eq!(Platform::Github.name(), "github");
    assert_eq!(Platform::Gitlab.name(), "gitlab");
    assert_eq!(Platform::Bitbucket.name(), "bitbucket");
}

#[test]
fn a_module_has_a_page_exactly_when_the_sidebar_links_to_it() {
    let modules = vec![
        module("a", vec![function("f", true)]),
        module("b", vec![function("f", false)]),
        module("c", vec![constant("c"), Definition::Other]),
        module("d", vec![Definition::Other]),
        module("e", vec![]),
    ];
    let linked = generate_modules_links(&modules);
    for m in &modules {
        let (indexes, _) = generate_module("v", &config(None), m, &vec![], &link(0, "", ""), 0);
        assert_eq!(!indexes.is_empty(), m.has_documentation());
        assert_eq!(!indexes.is_empty(), linked.contains(&m.name));
    }
}
