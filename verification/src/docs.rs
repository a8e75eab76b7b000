//! The pages of a documentation site: one for each module that has
//! something to show, one for the project's readme, the files that every
//! site has, and the script with the search index. What a page holds is
//! decided here; writing it out as HTML is left to whoever has the
//! templates.

pub mod clock;
pub mod entries;
pub mod markdown;
pub mod order;
pub mod search;
pub mod site;
pub mod sorting;

use crate::docs::entries::{
    DocConstant, DocConstantView, DocFunction, DocFunctionView, DocType, DocTypeView,
};
use crate::text::{
    before, chars_of, join, joined, lemma_split_nonempty, same_text, split, split_text,
    text_before, text_of,
};
use crate::views::lemma_deep_view_push;
use vstd::prelude::*;

verus! {

/// A file of the site: where it goes, below the site's root, and what
/// it holds.
#[derive(Debug, PartialEq, Eq, Clone)]
pub struct DocFile {
    pub path: String,
    pub content: String,
}

/// [`DocFile`] as a mathematical value.
pub struct DocFileView {
    pub path: Seq<char>,
    pub content: Seq<char>,
}

impl DeepView for DocFile {
    type V = DocFileView;

    open spec fn deep_view(&self) -> DocFileView {
        DocFileView { path: self.path@, content: self.content@ }
    }
}

/// An entry of the sidebar.
#[derive(Debug, PartialEq, Eq, PartialOrd, Ord)]
pub struct DocLink {
    pub indent: usize,
    pub name: String,
    pub path: String,
}

/// [`DocLink`] as a mathematical value.
pub struct DocLinkView {
    pub indent: usize,
    pub name: Seq<char>,
    pub path: Seq<char>,
}

impl DeepView for DocLink {
    type V = DocLinkView;

    open spec fn deep_view(&self) -> DocLinkView {
        DocLinkView { indent: self.indent, name: self.name@, path: self.path@ }
    }
}

impl Clone for DocLink {
    fn clone(&self) -> (r: Self)
        ensures
            r.deep_view() == self.deep_view(),
    {
        DocLink { indent: self.indent, name: self.name.clone(), path: self.path.clone() }
    }
}

impl DocLink {
    /// Whether the link has no name.
    pub fn is_empty(&self) -> (r: bool)
        ensures
            r == (self.name@.len() == 0),
    {
        self.name.as_str().is_empty()
    }

    /// Whether the link leads nowhere and only parts the sidebar.
    pub fn is_separator(&self) -> (r: bool)
        ensures
            r == (self.path@.len() == 0),
    {
        self.path.as_str().is_empty()
    }
}

/// A copy of a list of links.
pub fn clone_links(links: &Vec<DocLink>) -> (r: Vec<DocLink>)
    ensures
        r.deep_view() == links.deep_view(),
{
    let mut r: Vec<DocLink> = Vec::new();
    let mut i: usize = 0;
    while i < links.len()
        invariant
            i <= links.len(),
            r.deep_view() =~= links.deep_view().take(i as int),
        decreases links.len() - i,
    {
        let ghost earlier = r;
        let link = links[i].clone();
        r.push(link);
        proof {
            lemma_deep_view_push(earlier, r, link);
        }
        i += 1;
    }
    assert(links.deep_view().take(i as int) =~= links.deep_view());
    r
}

/// The name of a package: who owns it and what it is called.
#[derive(Debug, PartialEq, Eq, Clone)]
pub struct PackageName {
    pub owner: String,
    pub repo: String,
}

/// [`PackageName`] as a mathematical value.
pub struct PackageNameView {
    pub owner: Seq<char>,
    pub repo: Seq<char>,
}

impl DeepView for PackageName {
    type V = PackageNameView;

    open spec fn deep_view(&self) -> PackageNameView {
        PackageNameView { owner: self.owner@, repo: self.repo@ }
    }
}

impl PackageNameView {
    /// The name in full: owner, a slash, and the package.
    pub open spec fn full(self) -> Seq<char> {
        self.owner + "/"@ + self.repo
    }
}

impl PackageName {
    /// The name in full: owner, a slash, and the package.
    pub fn full(&self) -> (r: String)
        ensures
            r@ == self.deep_view().full(),
    {
        let mut r = self.owner.clone();
        r.append("/");
        r.append(self.repo.as_str());
        r
    }
}

/// Where the sources of a project are hosted.
#[derive(Debug, PartialEq, Eq, Clone, Copy, Structural)]
pub enum Platform {
    Github,
    Gitlab,
    Bitbucket,
}

impl Platform {
    /// The platform in lower case, as its address has it.
    pub open spec fn spec_name(self) -> Seq<char> {
        match self {
            Platform::Github => "github"@,
            Platform::Gitlab => "gitlab"@,
            Platform::Bitbucket => "bitbucket"@,
        }
    }

    /// The platform in lower case, as its address has it.
    pub fn name(&self) -> (r: &'static str)
        ensures
            r@ == self.spec_name(),
    {
        match self {
            Platform::Github => "github",
            Platform::Gitlab => "gitlab",
            Platform::Bitbucket => "bitbucket",
        }
    }
}

/// The repository of a project.
#[derive(Debug, PartialEq, Eq, Clone)]
pub struct Repository {
    pub user: String,
    pub project: String,
    pub platform: Platform,
}

/// [`Repository`] as a mathematical value.
pub struct RepositoryView {
    pub user: Seq<char>,
    pub project: Seq<char>,
    pub platform: Platform,
}

impl DeepView for Repository {
    type V = RepositoryView;

    open spec fn deep_view(&self) -> RepositoryView {
        RepositoryView { user: self.user@, project: self.project@, platform: self.platform }
    }
}

/// What the documentation reads of a project's configuration.
#[derive(Debug, PartialEq, Eq, Clone)]
pub struct Config {
    pub name: PackageName,
    pub version: String,
    pub repository: Option<Repository>,
}

/// [`Config`] as a mathematical value.
pub struct ConfigView {
    pub name: PackageNameView,
    pub version: Seq<char>,
    pub repository: Option<RepositoryView>,
}

impl DeepView for Config {
    type V = ConfigView;

    open spec fn deep_view(&self) -> ConfigView {
        ConfigView {
            name: self.name.deep_view(),
            version: self.version@,
            repository: self.repository.deep_view(),
        }
    }
}

/// The link to a project's sources: empty where the project names no
/// repository.
pub open spec fn spec_source_link(repository: Option<RepositoryView>) -> DocLinkView {
    match repository {
        None => DocLinkView { indent: 0, name: Seq::empty(), path: Seq::empty() },
        Some(r) => DocLinkView {
            indent: 0,
            name: r.user + "/"@ + r.project,
            path: "https://"@ + r.platform.spec_name() + ".com/"@ + r.user + "/"@ + r.project,
        },
    }
}

/// The link to a project's sources.
pub fn source_link(repository: &Option<Repository>) -> (r: DocLink)
    ensures
        r.deep_view() == spec_source_link(repository.deep_view()),
{
    match repository {
        None => DocLink { indent: 0, name: String::new(), path: String::new() },
        Some(repository) => {
            let mut name = repository.user.clone();
            name.append("/");
            name.append(repository.project.as_str());
            let mut path = "https://".to_owned();
            path.append(repository.platform.name());
            path.append(".com/");
            path.append(repository.user.as_str());
            path.append("/");
            path.append(repository.project.as_str());
            DocLink { indent: 0, name, path }
        },
    }
}

/// What the page of a module shows.
#[derive(Debug, PartialEq, Eq)]
pub struct ModuleTemplate {
    pub aiken_version: String,
    pub breadcrumbs: String,
    pub page_title: String,
    pub module_name: String,
    pub project_name: String,
    pub project_version: String,
    pub modules: Vec<DocLink>,
    pub functions: Vec<DocFunction>,
    pub types: Vec<DocType>,
    pub constants: Vec<DocConstant>,
    pub documentation: String,
    pub source: DocLink,
    pub timestamp: String,
}

/// [`ModuleTemplate`] as a mathematical value.
pub struct ModuleTemplateView {
    pub aiken_version: Seq<char>,
    pub breadcrumbs: Seq<char>,
    pub page_title: Seq<char>,
    pub module_name: Seq<char>,
    pub project_name: Seq<char>,
    pub project_version: Seq<char>,
    pub modules: Seq<DocLinkView>,
    pub functions: Seq<DocFunctionView>,
    pub types: Seq<DocTypeView>,
    pub constants: Seq<DocConstantView>,
    pub documentation: Seq<char>,
    pub source: DocLinkView,
    pub timestamp: Seq<char>,
}

impl DeepView for ModuleTemplate {
    type V = ModuleTemplateView;

    open spec fn deep_view(&self) -> ModuleTemplateView {
        ModuleTemplateView {
            aiken_version: self.aiken_version@,
            breadcrumbs: self.breadcrumbs@,
            page_title: self.page_title@,
            module_name: self.module_name@,
            project_name: self.project_name@,
            project_version: self.project_version@,
            modules: self.modules.deep_view(),
            functions: self.functions.deep_view(),
            types: self.types.deep_view(),
            constants: self.constants.deep_view(),
            documentation: self.documentation@,
            source: self.source.deep_view(),
            timestamp: self.timestamp@,
        }
    }
}

impl ModuleTemplate {
    /// Whether a link of the sidebar leads to this very page: its path,
    /// up to `.html`, is the name of the module.
    pub fn is_current_module(&self, module: &DocLink) -> (r: bool)
        ensures
            r == (before(module.path@, ".html"@) == self.module_name@),
    {
        let name = text_before(module.path.as_str(), ".html");
        same_text(self.module_name.as_str(), name.as_str())
    }

    /// The file of this page, once it has been written out.
    pub fn file(&self, content: String) -> (r: DocFile)
        ensures
            r.deep_view() == (DocFileView {
                path: self.module_name@ + ".html"@,
                content: content@,
            }),
    {
        let mut path = self.module_name.clone();
        path.append(".html");
        DocFile { path, content }
    }
}

/// What a page that belongs to no module shows.
#[derive(Debug, PartialEq, Eq)]
pub struct PageTemplate {
    pub aiken_version: String,
    pub breadcrumbs: String,
    pub page_title: String,
    pub project_name: String,
    pub project_version: String,
    pub modules: Vec<DocLink>,
    pub content: String,
    pub source: DocLink,
    pub timestamp: String,
}

/// [`PageTemplate`] as a mathematical value.
pub struct PageTemplateView {
    pub aiken_version: Seq<char>,
    pub breadcrumbs: Seq<char>,
    pub page_title: Seq<char>,
    pub project_name: Seq<char>,
    pub project_version: Seq<char>,
    pub modules: Seq<DocLinkView>,
    pub content: Seq<char>,
    pub source: DocLinkView,
    pub timestamp: Seq<char>,
}

impl DeepView for PageTemplate {
    type V = PageTemplateView;

    open spec fn deep_view(&self) -> PageTemplateView {
        PageTemplateView {
            aiken_version: self.aiken_version@,
            breadcrumbs: self.breadcrumbs@,
            page_title: self.page_title@,
            project_name: self.project_name@,
            project_version: self.project_version@,
            modules: self.modules.deep_view(),
            content: self.content@,
            source: self.source.deep_view(),
            timestamp: self.timestamp@,
        }
    }
}

impl PageTemplate {
    /// No link of the sidebar leads to a page that belongs to no module.
    pub fn is_current_module(&self, _module: &DocLink) -> (r: bool)
        ensures
            !r,
    {
        false
    }

    /// The file of the readme's page, once it has been written out.
    pub fn file(&self, content: String) -> (r: DocFile)
        ensures
            r.deep_view() == (DocFileView { path: "index.html"@, content: content@ }),
    {
        DocFile { path: "index.html".to_owned(), content }
    }
}

/// A path without the slash it may begin with.
pub open spec fn without_leading_slash(path: Seq<char>) -> Seq<char> {
    if path.len() > 0 && path[0] == '/' {
        path.skip(1)
    } else {
        path
    }
}

/// How many directories a path goes down.
pub open spec fn depth(path: Seq<char>) -> nat {
    (split(without_leading_slash(path), '/').len() - 1) as nat
}

/// The way from a page back to the root of the site.
pub open spec fn spec_to_breadcrumbs(path: Seq<char>) -> Seq<char> {
    if depth(path) == 0 {
        "."@
    } else {
        joined(Seq::new(depth(path), |i: int| ".."@), "/"@)
    }
}

/// The relative path that leads from the page at `path` back to the
/// root: `..` for each directory the page lies in, and `.` for a page at
/// the root.
pub fn to_breadcrumbs(path: &str) -> (r: String)
    ensures
        r@ == spec_to_breadcrumbs(path@),
{
    let v = chars_of(path);
    let from: usize = if v.len() > 0 && v[0] == '/' {
        1
    } else {
        0
    };
    let stripped = text_of(&v, from, v.len());
    assert(stripped@ =~= without_leading_slash(path@));
    let pieces = split_text(stripped.as_str(), '/');
    proof {
        lemma_split_nonempty(stripped@, '/');
    }
    let levels = pieces.len() - 1;
    if levels == 0 {
        return ".".to_owned();
    }
    let mut ups: Vec<String> = Vec::new();
    let mut i: usize = 0;
    while i < levels
        invariant
            i <= levels,
            ups.deep_view() =~= Seq::new(i as nat, |i: int| ".."@),
        decreases levels - i,
    {
        let ghost earlier = ups;
        let up = "..".to_owned();
        ups.push(up);
        proof {
            lemma_deep_view_push(earlier, ups, up);
        }
        i += 1;
    }
    join(&ups, "/")
}

} // verus!
