//! The entries of a module's page: one for each public function, type
//! and constant.

use crate::docs::markdown::{markdown_html, raw, raw_doc, render_doc, render_markdown, rendered};
use crate::module::{
    DataType, DataTypeView, Definition, DefinitionView, RecordConstructor,
    RecordConstructorArgView, RecordConstructorView,
};
use crate::text::{clone_strings, join, joined};
use crate::views::{lemma_deep_view_empty, lemma_deep_view_index, lemma_deep_view_push};
use vstd::prelude::*;

verus! {

/// Where an entry links to for its source.
pub const SOURCE_URL: &'static str = "#todo";

/// The entry of a function.
#[derive(Debug, PartialEq, Eq, PartialOrd, Ord)]
pub struct DocFunction {
    pub name: String,
    pub signature: String,
    pub documentation: String,
    pub raw_documentation: String,
    pub source_url: String,
}

/// [`DocFunction`] as a mathematical value.
pub struct DocFunctionView {
    pub name: Seq<char>,
    pub signature: Seq<char>,
    pub documentation: Seq<char>,
    pub raw_documentation: Seq<char>,
    pub source_url: Seq<char>,
}

impl DeepView for DocFunction {
    type V = DocFunctionView;

    open spec fn deep_view(&self) -> DocFunctionView {
        DocFunctionView {
            name: self.name@,
            signature: self.signature@,
            documentation: self.documentation@,
            raw_documentation: self.raw_documentation@,
            source_url: self.source_url@,
        }
    }
}

impl DocFunction {
    /// The entry of a definition, if it is a public function.
    pub open spec fn spec_from_definition(def: DefinitionView) -> Option<DocFunctionView> {
        match def {
            DefinitionView::Fn(f) => if f.public {
                Some(
                    DocFunctionView {
                        name: f.name,
                        signature: f.signature,
                        documentation: rendered(f.doc),
                        raw_documentation: raw(f.doc),
                        source_url: SOURCE_URL@,
                    },
                )
            } else {
                None
            },
            _ => None,
        }
    }

    /// The entry of a definition, if there is one for it.
    pub fn from_definition(def: &Definition) -> (r: Option<Self>)
        ensures
            r.deep_view() == Self::spec_from_definition(def.deep_view()),
    {
        match def {
            Definition::Fn(func_def) => if func_def.public {
                Some(
                    DocFunction {
                        name: func_def.name.clone(),
                        documentation: render_doc(&func_def.doc),
                        raw_documentation: raw_doc(&func_def.doc),
                        signature: func_def.signature.clone(),
                        source_url: SOURCE_URL.to_owned(),
                    },
                )
            } else {
                None
            },
            _ => None,
        }
    }
}

/// The entry of a constant.
#[derive(Debug, PartialEq, Eq, PartialOrd, Ord)]
pub struct DocConstant {
    pub name: String,
    pub definition: String,
    pub documentation: String,
    pub raw_documentation: String,
    pub source_url: String,
}

/// [`DocConstant`] as a mathematical value.
pub struct DocConstantView {
    pub name: Seq<char>,
    pub definition: Seq<char>,
    pub documentation: Seq<char>,
    pub raw_documentation: Seq<char>,
    pub source_url: Seq<char>,
}

impl DeepView for DocConstant {
    type V = DocConstantView;

    open spec fn deep_view(&self) -> DocConstantView {
        DocConstantView {
            name: self.name@,
            definition: self.definition@,
            documentation: self.documentation@,
            raw_documentation: self.raw_documentation@,
            source_url: self.source_url@,
        }
    }
}

impl DocConstant {
    /// The entry of a definition, if it is a public constant.
    pub open spec fn spec_from_definition(def: DefinitionView) -> Option<DocConstantView> {
        match def {
            DefinitionView::ModuleConstant(c) => if c.public {
                Some(
                    DocConstantView {
                        name: c.name,
                        definition: c.definition,
                        documentation: rendered(c.doc),
                        raw_documentation: raw(c.doc),
                        source_url: SOURCE_URL@,
                    },
                )
            } else {
                None
            },
            _ => None,
        }
    }

    /// The entry of a definition, if there is one for it.
    pub fn from_definition(def: &Definition) -> (r: Option<Self>)
        ensures
            r.deep_view() == Self::spec_from_definition(def.deep_view()),
    {
        match def {
            Definition::ModuleConstant(const_def) => if const_def.public {
                Some(
                    DocConstant {
                        name: const_def.name.clone(),
                        documentation: render_doc(&const_def.doc),
                        raw_documentation: raw_doc(&const_def.doc),
                        definition: const_def.definition.clone(),
                        source_url: SOURCE_URL.to_owned(),
                    },
                )
            } else {
                None
            },
            _ => None,
        }
    }
}

/// The entry of a constructor, inside the entry of its type.
#[derive(Debug, PartialEq, Eq, PartialOrd, Ord)]
pub struct DocTypeConstructor {
    pub definition: String,
    pub documentation: String,
    pub raw_documentation: String,
}

/// [`DocTypeConstructor`] as a mathematical value.
pub struct DocTypeConstructorView {
    pub definition: Seq<char>,
    pub documentation: Seq<char>,
    pub raw_documentation: Seq<char>,
}

impl DeepView for DocTypeConstructor {
    type V = DocTypeConstructorView;

    open spec fn deep_view(&self) -> DocTypeConstructorView {
        DocTypeConstructorView {
            definition: self.definition@,
            documentation: self.documentation@,
            raw_documentation: self.raw_documentation@,
        }
    }
}

/// The paragraph that documents a field: only a field with a label and
/// a comment has one.
pub open spec fn field_doc(arg: RecordConstructorArgView) -> Option<Seq<char>> {
    match (arg.label, arg.doc) {
        (Some(label), Some(doc)) => Some("#### `."@ + label + "`\n"@ + doc + "\n<hr/>\n"@),
        _ => None,
    }
}

/// The paragraphs of the fields that have one, a line break between each
/// two.
pub open spec fn fields_doc(arguments: Seq<RecordConstructorArgView>) -> Seq<char> {
    joined(arguments.filter_map(|arg: RecordConstructorArgView| field_doc(arg)), "\n"@)
}

impl DocTypeConstructor {
    /// The entry of a constructor. The comments of its fields follow its
    /// own; a constructor without a comment shows none at all.
    pub open spec fn spec_from_record_constructor(
        constructor: RecordConstructorView,
    ) -> DocTypeConstructorView {
        DocTypeConstructorView {
            definition: constructor.definition,
            documentation: match constructor.doc {
                Some(doc) => markdown_html(doc + "\n"@ + fields_doc(constructor.arguments)),
                None => Seq::empty(),
            },
            raw_documentation: raw(constructor.doc),
        }
    }

    /// The entry of a constructor.
    pub fn from_record_constructor(constructor: &RecordConstructor) -> (r: Self)
        ensures
            r.deep_view() == Self::spec_from_record_constructor(constructor.deep_view()),
    {
        let ghost arguments = constructor.arguments.deep_view();
        let ghost paragraph = |arg: RecordConstructorArgView| field_doc(arg);
        let mut paragraphs: Vec<String> = Vec::new();
        let mut i: usize = 0;
        proof {
            lemma_deep_view_empty(paragraphs);
            assert(arguments.take(0).filter_map(paragraph) =~= Seq::<Seq<char>>::empty());
        }
        while i < constructor.arguments.len()
            invariant
                i <= constructor.arguments.len(),
                arguments == constructor.arguments.deep_view(),
                paragraph == (|arg: RecordConstructorArgView| field_doc(arg)),
                paragraphs.deep_view() == arguments.take(i as int).filter_map(paragraph),
            decreases constructor.arguments.len() - i,
        {
            proof {
                lemma_deep_view_index(constructor.arguments, i as int);
                assert(arguments.take(i + 1).drop_last() =~= arguments.take(i as int));
            }
            let arg = &constructor.arguments[i];
            match (&arg.label, &arg.doc) {
                (Some(label), Some(doc)) => {
                    let mut text = "#### `.".to_owned();
                    text.append(label.as_str());
                    text.append("`\n");
                    text.append(doc.as_str());
                    text.append("\n<hr/>\n");
                    let ghost before = paragraphs;
                    paragraphs.push(text);
                    proof {
                        lemma_deep_view_push(before, paragraphs, text);
                        assert(paragraphs.deep_view() =~= arguments.take(i as int).filter_map(
                            paragraph,
                        ) + seq![text@]);
                    }
                },
                _ => {},
            }
            i += 1;
        }
        assert(arguments.take(i as int) =~= arguments);
        let doc_args = join(&paragraphs, "\n");
        let documentation = match &constructor.doc {
            Some(doc) => {
                let mut text = doc.clone();
                text.append("\n");
                text.append(doc_args.as_str());
                render_markdown(text.as_str())
            },
            None => String::new(),
        };
        DocTypeConstructor {
            definition: constructor.definition.clone(),
            documentation,
            raw_documentation: raw_doc(&constructor.doc),
        }
    }
}

/// The entry of a type.
#[derive(Debug, PartialEq, Eq, PartialOrd, Ord)]
pub struct DocType {
    pub name: String,
    pub definition: String,
    pub documentation: String,
    pub raw_documentation: String,
    pub constructors: Vec<DocTypeConstructor>,
    pub parameters: Vec<String>,
    pub opaque: bool,
    pub source_url: String,
}

/// [`DocType`] as a mathematical value.
pub struct DocTypeView {
    pub name: Seq<char>,
    pub definition: Seq<char>,
    pub documentation: Seq<char>,
    pub raw_documentation: Seq<char>,
    pub constructors: Seq<DocTypeConstructorView>,
    pub parameters: Seq<Seq<char>>,
    pub opaque: bool,
    pub source_url: Seq<char>,
}

impl DeepView for DocType {
    type V = DocTypeView;

    open spec fn deep_view(&self) -> DocTypeView {
        DocTypeView {
            name: self.name@,
            definition: self.definition@,
            documentation: self.documentation@,
            raw_documentation: self.raw_documentation@,
            constructors: self.constructors.deep_view(),
            parameters: self.parameters.deep_view(),
            opaque: self.opaque,
            source_url: self.source_url@,
        }
    }
}

impl DocType {
    /// The entry of a data type: with its constructors where it shows
    /// them, without where it is opaque.
    pub open spec fn of_data_type(info: DataTypeView) -> DocTypeView {
        DocTypeView {
            name: info.name,
            definition: if info.opaque {
                info.opaque_definition
            } else {
                info.definition
            },
            documentation: rendered(info.doc),
            raw_documentation: raw(info.doc),
            constructors: if info.opaque {
                Seq::empty()
            } else {
                info.constructors.map_values(
                    |c: RecordConstructorView| DocTypeConstructor::spec_from_record_constructor(c),
                )
            },
            parameters: info.parameters,
            opaque: info.opaque,
            source_url: SOURCE_URL@,
        }
    }

    /// The entry of a definition, if it is a public type alias or a public
    /// data type.
    pub open spec fn spec_from_definition(def: DefinitionView) -> Option<DocTypeView> {
        match def {
            DefinitionView::TypeAlias(info) => if info.public {
                Some(
                    DocTypeView {
                        name: info.alias,
                        definition: info.definition,
                        documentation: rendered(info.doc),
                        raw_documentation: raw(info.doc),
                        constructors: Seq::empty(),
                        parameters: info.parameters,
                        opaque: false,
                        source_url: SOURCE_URL@,
                    },
                )
            } else {
                None
            },
            DefinitionView::DataType(info) => if info.public {
                Some(Self::of_data_type(info))
            } else {
                None
            },
            _ => None,
        }
    }

    fn constructors_of(info: &DataType) -> (r: Vec<DocTypeConstructor>)
        ensures
            r.deep_view() == info.deep_view().constructors.map_values(
                |c: RecordConstructorView| DocTypeConstructor::spec_from_record_constructor(c),
            ),
    {
        let ghost all = info.constructors.deep_view();
        let ghost entry = |c: RecordConstructorView|
            DocTypeConstructor::spec_from_record_constructor(c);
        let mut r: Vec<DocTypeConstructor> = Vec::new();
        let mut i: usize = 0;
        proof {
            lemma_deep_view_empty(r);
        }
        while i < info.constructors.len()
            invariant
                i <= info.constructors.len(),
                all == info.constructors.deep_view(),
                entry == (|c: RecordConstructorView|
                    DocTypeConstructor::spec_from_record_constructor(c)),
                r.deep_view() =~= all.take(i as int).map_values(entry),
            decreases info.constructors.len() - i,
        {
            proof {
                lemma_deep_view_index(info.constructors, i as int);
            }
            let c = DocTypeConstructor::from_record_constructor(&info.constructors[i]);
            let ghost before = r;
            r.push(c);
            proof {
                lemma_deep_view_push(before, r, c);
            }
            i += 1;
        }
        assert(all.take(i as int) =~= all);
        r
    }

    /// The entry of a definition, if there is one for it.
    pub fn from_definition(def: &Definition) -> (r: Option<Self>)
        ensures
            r.deep_view() == Self::spec_from_definition(def.deep_view()),
    {
        match def {
            Definition::TypeAlias(info) => if info.public {
                let constructors: Vec<DocTypeConstructor> = Vec::new();
                proof {
                    lemma_deep_view_empty(constructors);
                }
                Some(
                    DocType {
                        name: info.alias.clone(),
                        definition: info.definition.clone(),
                        documentation: render_doc(&info.doc),
                        raw_documentation: raw_doc(&info.doc),
                        constructors,
                        parameters: clone_strings(&info.parameters),
                        opaque: false,
                        source_url: SOURCE_URL.to_owned(),
                    },
                )
            } else {
                None
            },
            Definition::DataType(info) => if info.public {
                let constructors = if info.opaque {
                    let none: Vec<DocTypeConstructor> = Vec::new();
                    proof {
                        lemma_deep_view_empty(none);
                    }
                    none
                } else {
                    Self::constructors_of(info)
                };
                let definition = if info.opaque {
                    info.opaque_definition.clone()
                } else {
                    info.definition.clone()
                };
                Some(
                    DocType {
                        name: info.name.clone(),
                        definition,
                        documentation: render_doc(&info.doc),
                        raw_documentation: raw_doc(&info.doc),
                        constructors,
                        parameters: clone_strings(&info.parameters),
                        opaque: info.opaque,
                        source_url: SOURCE_URL.to_owned(),
                    },
                )
            } else {
                None
            },
            _ => None,
        }
    }
}

} // verus!
