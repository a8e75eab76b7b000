//! Putting a site together: what each page shows, which files every site
//! has, and in which order they all come out.

use crate::docs::entries::{
    DocConstant, DocConstantView, DocFunction, DocFunctionView, DocType, DocTypeView,
};
use crate::docs::markdown::{markdown_html, render_markdown};
use crate::docs::order::ordered;
use crate::docs::sorting::sorted_names;
use crate::docs::search::{
    escape_html_contents, escaped, search_data, spec_search_data, SearchIndex, SearchIndexView,
};
use crate::docs::{
    clone_links, spec_to_breadcrumbs, to_breadcrumbs, Config, ConfigView, DocFile, DocFileView,
    DocLink, DocLinkView, ModuleTemplate, ModuleTemplateView, PageTemplate, PageTemplateView,
};
use crate::module::{DefinitionView, Module, ModuleView};
use crate::text::{decimal_digits, decimal_text, join, joined};
use crate::views::{
    lemma_deep_view_append, lemma_deep_view_empty, lemma_deep_view_index, lemma_deep_view_push,
    lemma_filter_empty, lemma_filter_map_step, lemma_filter_step,
};
use vstd::prelude::*;

verus! {

/// The entries for the public functions of a module, in their order.
pub open spec fn functions_of(module: ModuleView) -> Seq<DocFunctionView> {
    module.definitions.filter_map(|d: DefinitionView| DocFunction::spec_from_definition(d))
}

/// The entries for the public types of a module, in their order.
pub open spec fn types_of(module: ModuleView) -> Seq<DocTypeView> {
    module.definitions.filter_map(|d: DefinitionView| DocType::spec_from_definition(d))
}

/// The entries for the public constants of a module, in their order.
pub open spec fn constants_of(module: ModuleView) -> Seq<DocConstantView> {
    module.definitions.filter_map(|d: DefinitionView| DocConstant::spec_from_definition(d))
}

/// What can be searched of a module: its functions, then its types,
/// then its constants, and at last the module itself. A module without
/// any of them has nothing to search.
pub open spec fn spec_search_indexes(module: ModuleView) -> Seq<SearchIndexView> {
    let functions = functions_of(module).map_values(
        |f: DocFunctionView| SearchIndex::spec_from_function(module, f),
    );
    let types = types_of(module).map_values(
        |t: DocTypeView| SearchIndex::spec_from_type(module, t),
    );
    let constants = constants_of(module).map_values(
        |c: DocConstantView| SearchIndex::spec_from_constant(module, c),
    );
    if functions.len() + types.len() + constants.len() == 0 {
        Seq::empty()
    } else {
        (functions + types + constants).push(SearchIndex::spec_from_module(module))
    }
}

/// What the page of a module shows.
pub open spec fn spec_module_template(
    aiken_version: Seq<char>,
    config: ConfigView,
    module: ModuleView,
    modules: Seq<DocLinkView>,
    source: DocLinkView,
    timestamp: u64,
) -> ModuleTemplateView {
    ModuleTemplateView {
        aiken_version,
        breadcrumbs: spec_to_breadcrumbs(module.name),
        page_title: module.name + " - "@ + config.name.full(),
        module_name: module.name,
        project_name: config.name.repo,
        project_version: config.version,
        modules,
        functions: functions_of(module),
        types: types_of(module),
        constants: constants_of(module),
        documentation: markdown_html(joined(module.docs, "\n"@)),
        source,
        timestamp: decimal_digits(timestamp as nat),
    }
}

/// Something comes out of a sequence exactly when one of its elements
/// gives something.
proof fn lemma_filter_map_gives<A, B>(s: Seq<A>, f: spec_fn(A) -> Option<B>)
    ensures
        s.filter_map(f).len() > 0 <==> exists|i: int| 0 <= i < s.len() && f(#[trigger] s[i]) is Some,
    decreases s.len(),
{
    if s.len() > 0 {
        let shorter = s.drop_last();
        lemma_filter_map_gives(shorter, f);
        if exists|i: int| 0 <= i < s.len() && f(#[trigger] s[i]) is Some {
            let i = choose|i: int| 0 <= i < s.len() && f(#[trigger] s[i]) is Some;
            if i < s.len() - 1 {
                assert(shorter[i] == s[i]);
            } else {
                assert(s.last() == s[i]);
            }
        }
        if s.filter_map(f).len() > 0 {
            if f(s.last()) is Some {
                assert(s[s.len() - 1] == s.last());
            } else {
                let i = choose|i: int| 0 <= i < shorter.len() && f(#[trigger] shorter[i]) is Some;
                assert(s[i] == shorter[i]);
            }
        }
    }
}

/// A module has something to search exactly when it has something the
/// documentation has an entry for: the modules that get a page are the
/// modules that the sidebar links to.
pub proof fn lemma_searchable_iff_documented(module: ModuleView)
    ensures
        spec_search_indexes(module).len() > 0 <==> module.has_documentation(),
{
    let defs = module.definitions;
    let function = |d: DefinitionView| DocFunction::spec_from_definition(d);
    let kind = |d: DefinitionView| DocType::spec_from_definition(d);
    let constant = |d: DefinitionView| DocConstant::spec_from_definition(d);
    lemma_filter_map_gives(defs, function);
    lemma_filter_map_gives(defs, kind);
    lemma_filter_map_gives(defs, constant);
    assert forall|i: int| 0 <= i < defs.len() implies ((#[trigger] defs[i]).documented() <==> (
        function(defs[i]) is Some || kind(defs[i]) is Some || constant(defs[i]) is Some
    )) by {}
    if module.has_documentation() {
        let i = choose|i: int| 0 <= i < defs.len() && (#[trigger] defs[i]).documented();
        assert(function(defs[i]) is Some || kind(defs[i]) is Some || constant(defs[i]) is Some);
    }
}

/// The entries of a module, by kind.
fn entries_of(module: &Module) -> (r: (Vec<DocFunction>, Vec<DocType>, Vec<DocConstant>))
    ensures
        r.0.deep_view() == functions_of(module.deep_view()),
        r.1.deep_view() == types_of(module.deep_view()),
        r.2.deep_view() == constants_of(module.deep_view()),
{
    let ghost all = module.deep_view().definitions;
    let ghost function = |d: DefinitionView| DocFunction::spec_from_definition(d);
    let ghost kind = |d: DefinitionView| DocType::spec_from_definition(d);
    let ghost constant = |d: DefinitionView| DocConstant::spec_from_definition(d);
    let mut functions: Vec<DocFunction> = Vec::new();
    let mut types: Vec<DocType> = Vec::new();
    let mut constants: Vec<DocConstant> = Vec::new();
    let mut i: usize = 0;
    proof {
        lemma_deep_view_empty(functions);
        lemma_deep_view_empty(types);
        lemma_deep_view_empty(constants);
        assert(all.take(0).filter_map(function) =~= Seq::<DocFunctionView>::empty());
        assert(all.take(0).filter_map(kind) =~= Seq::<DocTypeView>::empty());
        assert(all.take(0).filter_map(constant) =~= Seq::<DocConstantView>::empty());
    }
    while i < module.definitions.len()
        invariant
            i <= module.definitions.len(),
            all == module.deep_view().definitions,
            function == (|d: DefinitionView| DocFunction::spec_from_definition(d)),
            kind == (|d: DefinitionView| DocType::spec_from_definition(d)),
            constant == (|d: DefinitionView| DocConstant::spec_from_definition(d)),
            functions.deep_view() == all.take(i as int).filter_map(function),
            types.deep_view() == all.take(i as int).filter_map(kind),
            constants.deep_view() == all.take(i as int).filter_map(constant),
        decreases module.definitions.len() - i,
    {
        proof {
            lemma_deep_view_index(module.definitions, i as int);
            lemma_filter_map_step(all, function, i as int);
            lemma_filter_map_step(all, kind, i as int);
            lemma_filter_map_step(all, constant, i as int);
        }
        let def = &module.definitions[i];
        if let Some(f) = DocFunction::from_definition(def) {
            let ghost earlier = functions;
            functions.push(f);
            proof {
                lemma_deep_view_push(earlier, functions, f);
            }
        }
        if let Some(t) = DocType::from_definition(def) {
            let ghost earlier = types;
            types.push(t);
            proof {
                lemma_deep_view_push(earlier, types, t);
            }
        }
        if let Some(c) = DocConstant::from_definition(def) {
            let ghost earlier = constants;
            constants.push(c);
            proof {
                lemma_deep_view_push(earlier, constants, c);
            }
        }
        i += 1;
    }
    assert(all.take(i as int) =~= all);
    (functions, types, constants)
}

/// What the page of a module shows, and what can be searched of the
/// module.
pub fn generate_module(
    aiken_version: &str,
    config: &Config,
    module: &Module,
    modules: &Vec<DocLink>,
    source: &DocLink,
    timestamp: u64,
) -> (r: (Vec<SearchIndex>, ModuleTemplate))
    ensures
        r.0.deep_view() == spec_search_indexes(module.deep_view()),
        r.1.deep_view() == spec_module_template(
            aiken_version@,
            config.deep_view(),
            module.deep_view(),
            modules.deep_view(),
            source.deep_view(),
            timestamp,
        ),
{
    let ghost m = module.deep_view();
    let (functions, types, constants) = entries_of(module);
    let mut search_indexes: Vec<SearchIndex> = Vec::new();
    proof {
        lemma_deep_view_empty(search_indexes);
    }
    let ghost of_function = |f: DocFunctionView| SearchIndex::spec_from_function(m, f);
    let ghost of_type = |t: DocTypeView| SearchIndex::spec_from_type(m, t);
    let ghost of_constant = |c: DocConstantView| SearchIndex::spec_from_constant(m, c);

    let mut i: usize = 0;
    while i < functions.len()
        invariant
            i <= functions.len(),
            m == module.deep_view(),
            of_function == (|f: DocFunctionView| SearchIndex::spec_from_function(m, f)),
            search_indexes.deep_view() =~= functions.deep_view().take(i as int).map_values(
                of_function,
            ),
        decreases functions.len() - i,
    {
        proof {
            lemma_deep_view_index(functions, i as int);
        }
        let index = SearchIndex::from_function(module, &functions[i]);
        let ghost earlier = search_indexes;
        search_indexes.push(index);
        proof {
            lemma_deep_view_push(earlier, search_indexes, index);
        }
        i += 1;
    }
    assert(functions.deep_view().take(i as int) =~= functions.deep_view());
    let ghost first = functions.deep_view().map_values(of_function);

    let mut i: usize = 0;
    while i < types.len()
        invariant
            i <= types.len(),
            m == module.deep_view(),
            of_type == (|t: DocTypeView| SearchIndex::spec_from_type(m, t)),
            search_indexes.deep_view() =~= first + types.deep_view().take(i as int).map_values(
                of_type,
            ),
        decreases types.len() - i,
    {
        proof {
            lemma_deep_view_index(types, i as int);
        }
        let index = SearchIndex::from_type(module, &types[i]);
        let ghost earlier = search_indexes;
        search_indexes.push(index);
        proof {
            lemma_deep_view_push(earlier, search_indexes, index);
        }
        i += 1;
    }
    assert(types.deep_view().take(i as int) =~= types.deep_view());
    let ghost second = first + types.deep_view().map_values(of_type);

    let mut i: usize = 0;
    while i < constants.len()
        invariant
            i <= constants.len(),
            m == module.deep_view(),
            of_constant == (|c: DocConstantView| SearchIndex::spec_from_constant(m, c)),
            search_indexes.deep_view() =~= second + constants.deep_view().take(
                i as int,
            ).map_values(of_constant),
        decreases constants.len() - i,
    {
        proof {
            lemma_deep_view_index(constants, i as int);
        }
        let index = SearchIndex::from_constant(module, &constants[i]);
        let ghost earlier = search_indexes;
        search_indexes.push(index);
        proof {
            lemma_deep_view_push(earlier, search_indexes, index);
        }
        i += 1;
    }
    assert(constants.deep_view().take(i as int) =~= constants.deep_view());

    let is_empty = functions.is_empty() && types.is_empty() && constants.is_empty();
    if !is_empty {
        let index = SearchIndex::from_module(module);
        let ghost earlier = search_indexes;
        search_indexes.push(index);
        proof {
            lemma_deep_view_push(earlier, search_indexes, index);
        }
    }
    assert(search_indexes.deep_view() =~= spec_search_indexes(m));

    let mut page_title = module.name.clone();
    page_title.append(" - ");
    page_title.append(config.name.full().as_str());
    let template = ModuleTemplate {
        aiken_version: aiken_version.to_owned(),
        breadcrumbs: to_breadcrumbs(module.name.as_str()),
        documentation: render_markdown(join(&module.docs, "\n").as_str()),
        modules: clone_links(modules),
        project_name: config.name.repo.clone(),
        page_title,
        module_name: module.name.clone(),
        project_version: config.version.clone(),
        functions,
        types,
        constants,
        source: source.clone(),
        timestamp: decimal_text(timestamp),
    };
    (search_indexes, template)
}

/// What the page of the readme shows.
pub open spec fn spec_readme_template(
    aiken_version: Seq<char>,
    config: ConfigView,
    readme: Seq<char>,
    modules: Seq<DocLinkView>,
    source: DocLinkView,
    timestamp: u64,
) -> PageTemplateView {
    PageTemplateView {
        aiken_version,
        breadcrumbs: "."@,
        page_title: config.name.full(),
        project_name: config.name.repo,
        project_version: config.version,
        modules,
        content: markdown_html(readme),
        source,
        timestamp: decimal_digits(timestamp as nat),
    }
}

/// What the front page shows: the project's readme, which is empty
/// where the project has none.
pub fn generate_readme(
    aiken_version: &str,
    config: &Config,
    readme: &str,
    modules: &Vec<DocLink>,
    source: &DocLink,
    timestamp: u64,
) -> (r: PageTemplate)
    ensures
        r.deep_view() == spec_readme_template(
            aiken_version@,
            config.deep_view(),
            readme@,
            modules.deep_view(),
            source.deep_view(),
            timestamp,
        ),
{
    PageTemplate {
        aiken_version: aiken_version.to_owned(),
        breadcrumbs: ".".to_owned(),
        modules: clone_links(modules),
        project_name: config.name.repo.clone(),
        page_title: config.name.full(),
        project_version: config.version.clone(),
        content: render_markdown(readme),
        source: source.clone(),
        timestamp: decimal_text(timestamp),
    }
}

/// The files that are the same for every site.
#[derive(Debug, PartialEq, Eq, Clone)]
pub struct StaticAssets {
    pub favicon: String,
    pub atom_one_light_css: String,
    pub atom_one_dark_css: String,
    pub index_css: String,
    pub highlight_js: String,
    pub highlightjs_aiken_js: String,
    pub lunr_js: String,
    pub index_js: String,
}

/// [`StaticAssets`] as a mathematical value.
pub struct StaticAssetsView {
    pub favicon: Seq<char>,
    pub atom_one_light_css: Seq<char>,
    pub atom_one_dark_css: Seq<char>,
    pub index_css: Seq<char>,
    pub highlight_js: Seq<char>,
    pub highlightjs_aiken_js: Seq<char>,
    pub lunr_js: Seq<char>,
    pub index_js: Seq<char>,
}

impl DeepView for StaticAssets {
    type V = StaticAssetsView;

    open spec fn deep_view(&self) -> StaticAssetsView {
        StaticAssetsView {
            favicon: self.favicon@,
            atom_one_light_css: self.atom_one_light_css@,
            atom_one_dark_css: self.atom_one_dark_css@,
            index_css: self.index_css@,
            highlight_js: self.highlight_js@,
            highlightjs_aiken_js: self.highlightjs_aiken_js@,
            lunr_js: self.lunr_js@,
            index_js: self.index_js@,
        }
    }
}

/// The files of every site, each at its place, and after them the
/// script with the search index, its contents escaped.
pub open spec fn spec_static_assets(
    assets: StaticAssetsView,
    search_indexes: Seq<SearchIndexView>,
) -> Seq<DocFileView> {
    seq![
        DocFileView { path: "favicon.svg"@, content: assets.favicon },
        DocFileView { path: "css/atom-one-light.min.css"@, content: assets.atom_one_light_css },
        DocFileView { path: "css/atom-one-dark.min.css"@, content: assets.atom_one_dark_css },
        DocFileView { path: "css/index.css"@, content: assets.index_css },
        DocFileView { path: "js/highlight.min.js"@, content: assets.highlight_js },
        DocFileView { path: "js/highlightjs-aiken.js"@, content: assets.highlightjs_aiken_js },
        DocFileView { path: "js/lunr.min.js"@, content: assets.lunr_js },
        DocFileView { path: "js/index.js"@, content: assets.index_js },
        DocFileView {
            path: "search-data.js"@,
            content: spec_search_data(
                search_indexes.map_values(|i: SearchIndexView| escaped(i)),
            ),
        },
    ]
}

fn asset(path: &str, content: &String) -> (r: DocFile)
    ensures
        r.deep_view() == (DocFileView { path: path@, content: content@ }),
{
    DocFile { path: path.to_owned(), content: content.clone() }
}

/// The files that every site has, and the script with the search index.
pub fn generate_static_assets(assets: &StaticAssets, search_indexes: Vec<SearchIndex>) -> (r: Vec<
    DocFile,
>)
    ensures
        r.deep_view() == spec_static_assets(assets.deep_view(), search_indexes.deep_view()),
{
    let mut files: Vec<DocFile> = Vec::new();
    files.push(asset("favicon.svg", &assets.favicon));
    files.push(asset("css/atom-one-light.min.css", &assets.atom_one_light_css));
    files.push(asset("css/atom-one-dark.min.css", &assets.atom_one_dark_css));
    files.push(asset("css/index.css", &assets.index_css));
    files.push(asset("js/highlight.min.js", &assets.highlight_js));
    files.push(asset("js/highlightjs-aiken.js", &assets.highlightjs_aiken_js));
    files.push(asset("js/lunr.min.js", &assets.lunr_js));
    files.push(asset("js/index.js", &assets.index_js));
    let escaped_indexes = escape_html_contents(search_indexes);
    files.push(
        DocFile { path: "search-data.js".to_owned(), content: search_data(&escaped_indexes) },
    );
    assert(files.deep_view() =~= spec_static_assets(
        assets.deep_view(),
        search_indexes.deep_view(),
    ));
    files
}

/// The pages that have something to search: only those become files.
pub open spec fn shown(pages: Seq<(Seq<SearchIndexView>, DocFileView)>) -> Seq<
    (Seq<SearchIndexView>, DocFileView),
> {
    pages.filter(|p: (Seq<SearchIndexView>, DocFileView)| p.0.len() > 0)
}

/// The files of a site: the pages of the modules that have something to
/// search, in the order of the modules; then the files of every site,
/// the last of them the search index of all those modules; and at the
/// end the front page.
pub open spec fn spec_generate_all(
    pages: Seq<(Seq<SearchIndexView>, DocFileView)>,
    assets: StaticAssetsView,
    readme: DocFileView,
) -> Seq<DocFileView> {
    shown(pages).map_values(|p: (Seq<SearchIndexView>, DocFileView)| p.1) + spec_static_assets(
        assets,
        shown(pages).map_values(|p: (Seq<SearchIndexView>, DocFileView)| p.0).flatten(),
    ) + seq![readme]
}

/// Puts the files of a site in order. Each module comes with what can
/// be searched of it and with its page, already written out; `readme`
/// is the front page, written out as well.
pub fn generate_all(
    pages: Vec<(Vec<SearchIndex>, DocFile)>,
    assets: &StaticAssets,
    readme: DocFile,
) -> (output_files: Vec<DocFile>)
    ensures
        output_files.deep_view() == spec_generate_all(
            pages.deep_view(),
            assets.deep_view(),
            readme.deep_view(),
        ),
{
    let ghost all = pages.deep_view();
    let ghost has_entries = |p: (Seq<SearchIndexView>, DocFileView)| p.0.len() > 0;
    let mut output_files: Vec<DocFile> = Vec::new();
    let mut search_indexes: Vec<SearchIndex> = Vec::new();
    proof {
        lemma_deep_view_empty(output_files);
        lemma_deep_view_empty(search_indexes);
        lemma_filter_empty(has_entries);
        assert(all.take(0) =~= Seq::empty());
        assert(shown(all.take(0)).map_values(
            |p: (Seq<SearchIndexView>, DocFileView)| p.1,
        ) =~= Seq::<DocFileView>::empty());
        assert(shown(all.take(0)).map_values(
            |p: (Seq<SearchIndexView>, DocFileView)| p.0,
        ) =~= Seq::<Seq<SearchIndexView>>::empty());
    }
    for pair in it: pages
        invariant
            it.seq() == pages@,
            all == pages.deep_view(),
            output_files.deep_view() == shown(all.take(it.index() as int)).map_values(
                |p: (Seq<SearchIndexView>, DocFileView)| p.1,
            ),
            search_indexes.deep_view() == shown(all.take(it.index() as int)).map_values(
                |p: (Seq<SearchIndexView>, DocFileView)| p.0,
            ).flatten(),
    {
        let ghost i = it.index() as int;
        proof {
            lemma_deep_view_index(pages, i);
            lemma_filter_step(all, |p: (Seq<SearchIndexView>, DocFileView)| p.0.len() > 0, i);
        }
        let (indexes, file) = pair;
        if !indexes.is_empty() {
            let ghost earlier_files = output_files;
            let ghost earlier_indexes = search_indexes;
            let ghost added = indexes;
            let mut indexes = indexes;
            search_indexes.append(&mut indexes);
            output_files.push(file);
            proof {
                let page = |p: (Seq<SearchIndexView>, DocFileView)| p.1;
                let entries = |p: (Seq<SearchIndexView>, DocFileView)| p.0;
                let before = shown(all.take(i));
                let after = shown(all.take(i + 1));
                lemma_deep_view_push(earlier_files, output_files, file);
                lemma_deep_view_append(earlier_indexes, added, search_indexes);
                assert(all[i] == (added.deep_view(), file.deep_view()));
                assert(added.deep_view().len() == added@.len());
                assert(after == before.push(all[i]));
                assert(after.map_values(page) =~= before.map_values(page).push(all[i].1));
                assert(after.map_values(entries) =~= before.map_values(entries).push(all[i].0));
                before.map_values(entries).lemma_flatten_push(all[i].0);
            }
        } else {
            proof {
                assert(all[i].0 == indexes.deep_view());
                assert(indexes.deep_view().len() == indexes@.len());
            }
        }
    }
    assert(all.take(pages@.len() as int) =~= all);
    let ghost entries_of_all = search_indexes.deep_view();
    let ghost pages_of_all = output_files.deep_view();
    let mut static_files = generate_static_assets(assets, search_indexes);
    let ghost earlier = output_files;
    let ghost added = static_files;
    output_files.append(&mut static_files);
    proof {
        lemma_deep_view_append(earlier, added, output_files);
    }
    let ghost earlier = output_files;
    output_files.push(readme);
    proof {
        lemma_deep_view_push(earlier, output_files, readme);
        assert(output_files.deep_view() =~= pages_of_all + spec_static_assets(
            assets.deep_view(),
            entries_of_all,
        ) + seq![readme.deep_view()]);
    }
    output_files
}

/// The names of the modules that have a page, as they come.
pub open spec fn documented_names(modules: Seq<ModuleView>) -> Seq<Seq<char>> {
    modules.filter(|m: ModuleView| m.has_documentation()).map_values(|m: ModuleView| m.name)
}

/// The names of the modules that the sidebar links to, in the order of
/// the links: a module is linked when it has something public to show,
/// and the links are sorted by name.
pub fn generate_modules_links(modules: &Vec<Module>) -> (names: Vec<String>)
    ensures
        names.deep_view().to_multiset() == documented_names(modules.deep_view()).to_multiset(),
        ordered(names.deep_view()),
{
    let ghost all = modules.deep_view();
    let ghost has_page = |m: ModuleView| m.has_documentation();
    let mut non_empty_modules: Vec<String> = Vec::new();
    let mut i: usize = 0;
    proof {
        lemma_deep_view_empty(non_empty_modules);
        lemma_filter_empty(has_page);
        assert(all.take(0) =~= Seq::empty());
        assert(documented_names(all.take(0)) =~= Seq::<Seq<char>>::empty());
    }
    while i < modules.len()
        invariant
            i <= modules.len(),
            all == modules.deep_view(),
            non_empty_modules.deep_view() == documented_names(all.take(i as int)),
        decreases modules.len() - i,
    {
        proof {
            lemma_deep_view_index(*modules, i as int);
            lemma_filter_step(all, |m: ModuleView| m.has_documentation(), i as int);
        }
        if modules[i].has_documentation() {
            let name = modules[i].name.clone();
            let ghost earlier = non_empty_modules;
            non_empty_modules.push(name);
            proof {
                lemma_deep_view_push(earlier, non_empty_modules, name);
                assert(documented_names(all.take(i + 1)) =~= documented_names(
                    all.take(i as int),
                ).push(all[i as int].name));
            }
        }
        i += 1;
    }
    assert(all.take(i as int) =~= all);
    sorted_names(non_empty_modules)
}

} // verus!
