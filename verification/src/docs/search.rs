//! The search index of a site: one entry for each thing that can be
//! looked up, and the script that hands them to the page.

use crate::docs::entries::{
    DocConstant, DocConstantView, DocFunction, DocFunctionView, DocType, DocTypeConstructorView,
    DocTypeView,
};
use crate::module::{Module, ModuleView};
use crate::text::{chars_of, join, joined};
use crate::views::{lemma_deep_view_empty, lemma_deep_view_index, lemma_deep_view_push};
use vstd::prelude::*;

verus! {

/// One thing that can be searched: the module it is in, what it is
/// called, the text in which it is searched, and where it stands.
#[derive(Debug, PartialEq, Eq, PartialOrd, Ord)]
pub struct SearchIndex {
    pub doc: String,
    pub title: String,
    pub content: String,
    pub url: String,
}

/// [`SearchIndex`] as a mathematical value.
pub struct SearchIndexView {
    pub doc: Seq<char>,
    pub title: Seq<char>,
    pub content: Seq<char>,
    pub url: Seq<char>,
}

impl DeepView for SearchIndex {
    type V = SearchIndexView;

    open spec fn deep_view(&self) -> SearchIndexView {
        SearchIndexView {
            doc: self.doc@,
            title: self.title@,
            content: self.content@,
            url: self.url@,
        }
    }
}

impl Clone for SearchIndex {
    fn clone(&self) -> (r: Self)
        ensures
            r.deep_view() == self.deep_view(),
    {
        SearchIndex {
            doc: self.doc.clone(),
            title: self.title.clone(),
            content: self.content.clone(),
            url: self.url.clone(),
        }
    }
}

/// Where a module's page stands.
pub open spec fn page_of(module: Seq<char>) -> Seq<char> {
    module + ".html"@
}

/// Where an entry stands on its module's page.
pub open spec fn anchor_of(module: Seq<char>, name: Seq<char>) -> Seq<char> {
    module + ".html#"@ + name
}

/// What is searched of a constructor: how it reads, and its comment.
pub open spec fn constructor_text(constructor: DocTypeConstructorView) -> Seq<char> {
    constructor.definition + "\n"@ + constructor.raw_documentation
}

fn page_url(module: &str) -> (r: String)
    ensures
        r@ == page_of(module@),
{
    let mut r = module.to_owned();
    r.append(".html");
    r
}

fn anchor_url(module: &str, name: &str) -> (r: String)
    ensures
        r@ == anchor_of(module@, name@),
{
    let mut r = module.to_owned();
    r.append(".html#");
    r.append(name);
    r
}

fn two_lines(first: &str, second: &str) -> (r: String)
    ensures
        r@ == first@ + "\n"@ + second@,
{
    let mut r = first.to_owned();
    r.append("\n");
    r.append(second);
    r
}

impl SearchIndex {
    /// What is searched of a function: its signature and its comment.
    pub open spec fn spec_from_function(
        module: ModuleView,
        function: DocFunctionView,
    ) -> SearchIndexView {
        SearchIndexView {
            doc: module.name,
            title: function.name,
            content: function.signature + "\n"@ + function.raw_documentation,
            url: anchor_of(module.name, function.name),
        }
    }

    /// What is searched of a type: how it reads, its comment, and each
    /// of its constructors.
    pub open spec fn spec_from_type(module: ModuleView, type_info: DocTypeView) -> SearchIndexView {
        SearchIndexView {
            doc: module.name,
            title: type_info.name,
            content: type_info.definition + "\n"@ + type_info.raw_documentation + "\n"@ + joined(
                type_info.constructors.map_values(
                    |c: DocTypeConstructorView| constructor_text(c),
                ),
                "\n"@,
            ),
            url: anchor_of(module.name, type_info.name),
        }
    }

    /// What is searched of a constant: how it reads and its comment.
    pub open spec fn spec_from_constant(
        module: ModuleView,
        constant: DocConstantView,
    ) -> SearchIndexView {
        SearchIndexView {
            doc: module.name,
            title: constant.name,
            content: constant.definition + "\n"@ + constant.raw_documentation,
            url: anchor_of(module.name, constant.name),
        }
    }

    /// What is searched of a module: its own documentation.
    pub open spec fn spec_from_module(module: ModuleView) -> SearchIndexView {
        SearchIndexView {
            doc: module.name,
            title: module.name,
            content: joined(module.docs, "\n"@),
            url: page_of(module.name),
        }
    }

    /// The search entry of a function.
    pub fn from_function(module: &Module, function: &DocFunction) -> (r: Self)
        ensures
            r.deep_view() == Self::spec_from_function(module.deep_view(), function.deep_view()),
    {
        SearchIndex {
            doc: module.name.clone(),
            title: function.name.clone(),
            content: two_lines(function.signature.as_str(), function.raw_documentation.as_str()),
            url: anchor_url(module.name.as_str(), function.name.as_str()),
        }
    }

    /// The search entry of a type.
    pub fn from_type(module: &Module, type_info: &DocType) -> (r: Self)
        ensures
            r.deep_view() == Self::spec_from_type(module.deep_view(), type_info.deep_view()),
    {
        let ghost all = type_info.constructors.deep_view();
        let ghost text = |c: DocTypeConstructorView| constructor_text(c);
        let mut texts: Vec<String> = Vec::new();
        let mut i: usize = 0;
        proof {
            lemma_deep_view_empty(texts);
        }
        while i < type_info.constructors.len()
            invariant
                i <= type_info.constructors.len(),
                all == type_info.constructors.deep_view(),
                text == (|c: DocTypeConstructorView| constructor_text(c)),
                texts.deep_view() =~= all.take(i as int).map_values(text),
            decreases type_info.constructors.len() - i,
        {
            proof {
                lemma_deep_view_index(type_info.constructors, i as int);
            }
            let constructor = &type_info.constructors[i];
            let t = two_lines(
                constructor.definition.as_str(),
                constructor.raw_documentation.as_str(),
            );
            let ghost before = texts;
            texts.push(t);
            proof {
                lemma_deep_view_push(before, texts, t);
            }
            i += 1;
        }
        assert(all.take(i as int) =~= all);
        let constructors = join(&texts, "\n");
        let mut content = two_lines(
            type_info.definition.as_str(),
            type_info.raw_documentation.as_str(),
        );
        content.append("\n");
        content.append(constructors.as_str());
        SearchIndex {
            doc: module.name.clone(),
            title: type_info.name.clone(),
            content,
            url: anchor_url(module.name.as_str(), type_info.name.as_str()),
        }
    }

    /// The search entry of a constant.
    pub fn from_constant(module: &Module, constant: &DocConstant) -> (r: Self)
        ensures
            r.deep_view() == Self::spec_from_constant(module.deep_view(), constant.deep_view()),
    {
        SearchIndex {
            doc: module.name.clone(),
            title: constant.name.clone(),
            content: two_lines(constant.definition.as_str(), constant.raw_documentation.as_str()),
            url: anchor_url(module.name.as_str(), constant.name.as_str()),
        }
    }

    /// The search entry of a module.
    pub fn from_module(module: &Module) -> (r: Self)
        ensures
            r.deep_view() == Self::spec_from_module(module.deep_view()),
    {
        SearchIndex {
            doc: module.name.clone(),
            title: module.name.clone(),
            content: join(&module.docs, "\n"),
            url: page_url(module.name.as_str()),
        }
    }
}

/// How a character is written so that a page shows it and does not take
/// it for markup.
pub open spec fn escape_char(c: char) -> Seq<char> {
    if c == '&' {
        "&amp;"@
    } else if c == '<' {
        "&lt;"@
    } else if c == '>' {
        "&gt;"@
    } else if c == '"' {
        "&quot;"@
    } else if c == '\'' {
        "&#39;"@
    } else {
        seq![c]
    }
}

/// A text with each of its characters escaped.
pub open spec fn escape_html(text: Seq<char>) -> Seq<char>
    decreases text.len(),
{
    if text.len() == 0 {
        Seq::empty()
    } else {
        escape_html(text.drop_last()) + escape_char(text.last())
    }
}

/// An entry with its content escaped, and nothing else changed.
pub open spec fn escaped(index: SearchIndexView) -> SearchIndexView {
    SearchIndexView { content: escape_html(index.content), ..index }
}

/// A text with each occurrence of `c` replaced by `with`.
pub open spec fn replace(text: Seq<char>, c: char, with: Seq<char>) -> Seq<char>
    decreases text.len(),
{
    if text.len() == 0 {
        Seq::empty()
    } else {
        replace(text.drop_last(), c, with) + if text.last() == c {
            with
        } else {
            seq![text.last()]
        }
    }
}

/// A text in which the five characters are replaced one kind after the
/// other, the ampersand first.
pub open spec fn replaced_in_turn(text: Seq<char>) -> Seq<char> {
    replace(
        replace(
            replace(replace(replace(text, '&', "&amp;"@), '<', "&lt;"@), '>', "&gt;"@),
            '"',
            "&quot;"@,
        ),
        '\'',
        "&#39;"@,
    )
}

proof fn lemma_replace_concat(a: Seq<char>, b: Seq<char>, c: char, with: Seq<char>)
    ensures
        replace(a + b, c, with) == replace(a, c, with) + replace(b, c, with),
    decreases b.len(),
{
    if b.len() == 0 {
        assert(a + b =~= a);
        assert(replace(a, c, with) + replace(b, c, with) =~= replace(a, c, with));
    } else {
        lemma_replace_concat(a, b.drop_last(), c, with);
        assert((a + b).drop_last() =~= a + b.drop_last());
        assert((a + b).last() == b.last());
        let end = if b.last() == c {
            with
        } else {
            seq![b.last()]
        };
        assert(replace(a, c, with) + replace(b.drop_last(), c, with) + end =~= replace(a, c, with)
            + (replace(b.drop_last(), c, with) + end));
    }
}

proof fn lemma_replace_absent(text: Seq<char>, c: char, with: Seq<char>)
    requires
        !text.contains(c),
    ensures
        replace(text, c, with) == text,
    decreases text.len(),
{
    if text.len() == 0 {
        assert(text =~= Seq::empty());
    } else {
        let shorter = text.drop_last();
        assert(text.last() != c) by {
            assert(text[text.len() - 1] == text.last());
        }
        assert(!shorter.contains(c)) by {
            if shorter.contains(c) {
                let i = choose|i: int| 0 <= i < shorter.len() && shorter[i] == c;
                assert(text[i] == c);
            }
        }
        lemma_replace_absent(shorter, c, with);
        assert(shorter + seq![text.last()] =~= text);
    }
}

proof fn lemma_replace_one(c: char, x: char, with: Seq<char>)
    ensures
        replace(seq![c], x, with) == if c == x {
            with
        } else {
            seq![c]
        },
{
    assert(seq![c].drop_last() =~= Seq::<char>::empty());
    assert(replace(Seq::<char>::empty(), x, with) =~= Seq::<char>::empty());
    assert(Seq::<char>::empty() + with =~= with);
    assert(Seq::<char>::empty() + seq![c] =~= seq![c]);
}

proof fn lemma_free_of(text: Seq<char>, c: char)
    requires
        forall|i: int| 0 <= i < text.len() ==> text[i] != c,
    ensures
        !text.contains(c),
{
}

proof fn lemma_replaced_in_turn_one(c: char)
    ensures
        replaced_in_turn(seq![c]) == escape_char(c),
{
    reveal_strlit("&amp;");
    reveal_strlit("&lt;");
    reveal_strlit("&gt;");
    reveal_strlit("&quot;");
    reveal_strlit("&#39;");
    let amp = "&amp;"@;
    let lt = "&lt;"@;
    let gt = "&gt;"@;
    let quot = "&quot;"@;
    let apos = "&#39;"@;
    let one = seq![c];
    lemma_replace_one(c, '&', amp);
    lemma_replace_one(c, '<', lt);
    lemma_replace_one(c, '>', gt);
    lemma_replace_one(c, '"', quot);
    lemma_replace_one(c, '\'', apos);
    if c == '&' {
        lemma_free_of(amp, '<');
        lemma_free_of(amp, '>');
        lemma_free_of(amp, '"');
        lemma_free_of(amp, '\'');
        lemma_replace_absent(amp, '<', lt);
        lemma_replace_absent(amp, '>', gt);
        lemma_replace_absent(amp, '"', quot);
        lemma_replace_absent(amp, '\'', apos);
    } else if c == '<' {
        lemma_free_of(lt, '>');
        lemma_free_of(lt, '"');
        lemma_free_of(lt, '\'');
        lemma_replace_absent(lt, '>', gt);
        lemma_replace_absent(lt, '"', quot);
        lemma_replace_absent(lt, '\'', apos);
    } else if c == '>' {
        lemma_free_of(gt, '"');
        lemma_free_of(gt, '\'');
        lemma_replace_absent(gt, '"', quot);
        lemma_replace_absent(gt, '\'', apos);
    } else if c == '"' {
        lemma_free_of(quot, '\'');
        lemma_replace_absent(quot, '\'', apos);
    }
}

/// Escaping a text is replacing in it first every ampersand, then
/// every `<`, then every `>`, then every double quote and at last every
/// single quote: what an earlier replacement puts in, no later one
/// touches.
pub proof fn lemma_escape_is_replacing_in_turn(text: Seq<char>)
    ensures
        escape_html(text) == replaced_in_turn(text),
    decreases text.len(),
{
    let amp = "&amp;"@;
    let lt = "&lt;"@;
    let gt = "&gt;"@;
    let quot = "&quot;"@;
    let apos = "&#39;"@;
    if text.len() == 0 {
        assert(replace(text, '&', amp) =~= Seq::<char>::empty());
    } else {
        let shorter = text.drop_last();
        let one = seq![text.last()];
        lemma_escape_is_replacing_in_turn(shorter);
        lemma_replaced_in_turn_one(text.last());
        assert(shorter + one =~= text);
        lemma_replace_concat(shorter, one, '&', amp);
        let s1 = replace(shorter, '&', amp);
        let o1 = replace(one, '&', amp);
        lemma_replace_concat(s1, o1, '<', lt);
        let s2 = replace(s1, '<', lt);
        let o2 = replace(o1, '<', lt);
        lemma_replace_concat(s2, o2, '>', gt);
        let s3 = replace(s2, '>', gt);
        let o3 = replace(o2, '>', gt);
        lemma_replace_concat(s3, o3, '"', quot);
        let s4 = replace(s3, '"', quot);
        let o4 = replace(o3, '"', quot);
        lemma_replace_concat(s4, o4, '\'', apos);
    }
}

/// Escapes a text, so that a page shows it as it is.
pub fn escape_html_content(it: String) -> (r: String)
    ensures
        r@ == escape_html(it@),
{
    let v = chars_of(it.as_str());
    let mut r = String::new();
    let mut i: usize = 0;
    assert(v@.take(0) =~= Seq::<char>::empty());
    while i < v.len()
        invariant
            i <= v.len(),
            r@ == escape_html(v@.take(i as int)),
        decreases v.len() - i,
    {
        proof {
            assert(v@.take(i + 1).drop_last() =~= v@.take(i as int));
        }
        let c = v[i];
        if c == '&' {
            r.append("&amp;");
        } else if c == '<' {
            r.append("&lt;");
        } else if c == '>' {
            r.append("&gt;");
        } else if c == '"' {
            r.append("&quot;");
        } else if c == '\'' {
            r.append("&#39;");
        } else {
            r.push(c);
        }
        i += 1;
    }
    assert(v@.take(i as int) =~= v@);
    r
}

/// Escapes the content of every entry, so that the entries can stand in
/// a page. Titles, module names and addresses stay as they are.
pub fn escape_html_contents(indexes: Vec<SearchIndex>) -> (r: Vec<SearchIndex>)
    ensures
        r.deep_view() == indexes.deep_view().map_values(|i: SearchIndexView| escaped(i)),
{
    let ghost all = indexes.deep_view();
    let mut r: Vec<SearchIndex> = Vec::new();
    proof {
        lemma_deep_view_empty(r);
    }
    for idx in it: indexes
        invariant
            it.seq() == indexes@,
            all == indexes.deep_view(),
            r.deep_view() =~= all.take(it.index() as int).map_values(
                |i: SearchIndexView| escaped(i),
            ),
    {
        proof {
            lemma_deep_view_index(indexes, it.index() as int);
        }
        let e = SearchIndex {
            doc: idx.doc,
            title: idx.title,
            content: escape_html_content(idx.content),
            url: idx.url,
        };
        let ghost before = r;
        r.push(e);
        proof {
            lemma_deep_view_push(before, r, e);
        }
    }
    assert(all.take(indexes@.len() as int) =~= all);
    r
}

/// The JSON string that `serde_json::to_string` writes for a string
/// slice.
pub uninterp spec fn json_string(text: Seq<char>) -> Seq<char>;

/// Writes a string as JSON with `serde_json::to_string`. On a string
/// slice that call has nothing to fail on: it writes into memory, and a
/// string is no map and has no serializer of its own that could refuse.
/// The result depends on the text alone.
#[verifier::external_body]
fn json_quote(text: &str) -> (r: String)
    ensures
        r@ == json_string(text@),
{
    serde_json::to_string(text).unwrap_or_default()
}

/// An entry as a JSON object.
pub open spec fn json_object(index: SearchIndexView) -> Seq<char> {
    "{\"doc\":"@ + json_string(index.doc) + ",\"title\":"@ + json_string(index.title)
        + ",\"content\":"@ + json_string(index.content) + ",\"url\":"@ + json_string(index.url)
        + "}"@
}

/// The entries as a JSON array.
pub open spec fn json_array(indexes: Seq<SearchIndexView>) -> Seq<char> {
    "["@ + joined(indexes.map_values(|i: SearchIndexView| json_object(i)), ","@) + "]"@
}

/// The script that starts the search of a site on its entries.
pub open spec fn spec_search_data(indexes: Seq<SearchIndexView>) -> Seq<char> {
    "window.Aiken.initSearch("@ + json_array(indexes) + ");"@
}

/// Puts together the object of an entry from its four fields, each
/// already written as JSON.
pub fn object_of(doc: &str, title: &str, content: &str, url: &str) -> (r: String)
    ensures
        r@ == "{\"doc\":"@ + doc@ + ",\"title\":"@ + title@ + ",\"content\":"@ + content@
            + ",\"url\":"@ + url@ + "}"@,
{
    let mut r = "{\"doc\":".to_owned();
    r.append(doc);
    r.append(",\"title\":");
    r.append(title);
    r.append(",\"content\":");
    r.append(content);
    r.append(",\"url\":");
    r.append(url);
    r.append("}");
    r
}

/// Puts together the script from the objects of the entries.
pub fn script_of(objects: &Vec<String>) -> (r: String)
    ensures
        r@ == "window.Aiken.initSearch("@ + ("["@ + joined(objects.deep_view(), ","@) + "]"@)
            + ");"@,
{
    let mut r = "window.Aiken.initSearch(".to_owned();
    r.append("[");
    r.append(join(objects, ",").as_str());
    r.append("]");
    r.append(");");
    proof {
        assert(r@ =~= "window.Aiken.initSearch("@ + ("["@ + joined(objects.deep_view(), ","@)
            + "]"@) + ");"@);
    }
    r
}

fn to_json(index: &SearchIndex) -> (r: String)
    ensures
        r@ == json_object(index.deep_view()),
{
    object_of(
        json_quote(index.doc.as_str()).as_str(),
        json_quote(index.title.as_str()).as_str(),
        json_quote(index.content.as_str()).as_str(),
        json_quote(index.url.as_str()).as_str(),
    )
}

/// Writes the script that starts the search on these entries.
pub fn search_data(indexes: &Vec<SearchIndex>) -> (r: String)
    ensures
        r@ == spec_search_data(indexes.deep_view()),
{
    let ghost all = indexes.deep_view();
    let mut objects: Vec<String> = Vec::new();
    let mut i: usize = 0;
    proof {
        lemma_deep_view_empty(objects);
    }
    while i < indexes.len()
        invariant
            i <= indexes.len(),
            all == indexes.deep_view(),
            objects.deep_view() =~= all.take(i as int).map_values(
                |i: SearchIndexView| json_object(i),
            ),
        decreases indexes.len() - i,
    {
        proof {
            lemma_deep_view_index(*indexes, i as int);
        }
        let object = to_json(&indexes[i]);
        let ghost before = objects;
        objects.push(object);
        proof {
            lemma_deep_view_push(before, objects, object);
        }
        i += 1;
    }
    assert(all.take(i as int) =~= all);
    script_of(&objects)
}

} // verus!
