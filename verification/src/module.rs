//! The modules of a project as far as tooling looks at them: what each one
//! is called, what it declares, and how each declaration reads.

use crate::text::same_text;
use crate::views::lemma_deep_view_index;
use vstd::prelude::*;

verus! {

/// A function: `signature` is its head as the documentation prints it.
#[derive(Clone, Debug, PartialEq, Eq)]
pub struct Function {
    pub public: bool,
    pub name: String,
    pub doc: Option<String>,
    pub signature: String,
}

/// [`Function`] as a mathematical value.
pub struct FunctionView {
    pub public: bool,
    pub name: Seq<char>,
    pub doc: Option<Seq<char>>,
    pub signature: Seq<char>,
}

impl DeepView for Function {
    type V = FunctionView;

    open spec fn deep_view(&self) -> FunctionView {
        FunctionView {
            public: self.public,
            name: self.name@,
            doc: self.doc.deep_view(),
            signature: self.signature@,
        }
    }
}

/// A type alias: `definition` is the alias as the documentation prints it.
#[derive(Clone, Debug, PartialEq, Eq)]
pub struct TypeAlias {
    pub public: bool,
    pub alias: String,
    pub doc: Option<String>,
    pub parameters: Vec<String>,
    pub definition: String,
}

/// [`TypeAlias`] as a mathematical value.
pub struct TypeAliasView {
    pub public: bool,
    pub alias: Seq<char>,
    pub doc: Option<Seq<char>>,
    pub parameters: Seq<Seq<char>>,
    pub definition: Seq<char>,
}

impl DeepView for TypeAlias {
    type V = TypeAliasView;

    open spec fn deep_view(&self) -> TypeAliasView {
        TypeAliasView {
            public: self.public,
            alias: self.alias@,
            doc: self.doc.deep_view(),
            parameters: self.parameters.deep_view(),
            definition: self.definition@,
        }
    }
}

/// A field of a constructor.
#[derive(Clone, Debug, PartialEq, Eq)]
pub struct RecordConstructorArg {
    pub label: Option<String>,
    pub doc: Option<String>,
}

/// [`RecordConstructorArg`] as a mathematical value.
pub struct RecordConstructorArgView {
    pub label: Option<Seq<char>>,
    pub doc: Option<Seq<char>>,
}

impl DeepView for RecordConstructorArg {
    type V = RecordConstructorArgView;

    open spec fn deep_view(&self) -> RecordConstructorArgView {
        RecordConstructorArgView { label: self.label.deep_view(), doc: self.doc.deep_view() }
    }
}

/// A constructor of a data type: `definition` is the constructor as the
/// documentation prints it.
#[derive(Clone, Debug, PartialEq, Eq)]
pub struct RecordConstructor {
    pub name: String,
    pub doc: Option<String>,
    pub arguments: Vec<RecordConstructorArg>,
    pub definition: String,
}

/// [`RecordConstructor`] as a mathematical value.
pub struct RecordConstructorView {
    pub name: Seq<char>,
    pub doc: Option<Seq<char>>,
    pub arguments: Seq<RecordConstructorArgView>,
    pub definition: Seq<char>,
}

impl DeepView for RecordConstructor {
    type V = RecordConstructorView;

    open spec fn deep_view(&self) -> RecordConstructorView {
        RecordConstructorView {
            name: self.name@,
            doc: self.doc.deep_view(),
            arguments: self.arguments.deep_view(),
            definition: self.definition@,
        }
    }
}

/// A data type. `definition` is the type with its constructors as the
/// documentation prints it, `opaque_definition` the type without them.
#[derive(Clone, Debug, PartialEq, Eq)]
pub struct DataType {
    pub public: bool,
    pub opaque: bool,
    pub name: String,
    pub doc: Option<String>,
    pub parameters: Vec<String>,
    pub constructors: Vec<RecordConstructor>,
    pub definition: String,
    pub opaque_definition: String,
}

/// [`DataType`] as a mathematical value.
pub struct DataTypeView {
    pub public: bool,
    pub opaque: bool,
    pub name: Seq<char>,
    pub doc: Option<Seq<char>>,
    pub parameters: Seq<Seq<char>>,
    pub constructors: Seq<RecordConstructorView>,
    pub definition: Seq<char>,
    pub opaque_definition: Seq<char>,
}

impl DeepView for DataType {
    type V = DataTypeView;

    open spec fn deep_view(&self) -> DataTypeView {
        DataTypeView {
            public: self.public,
            opaque: self.opaque,
            name: self.name@,
            doc: self.doc.deep_view(),
            parameters: self.parameters.deep_view(),
            constructors: self.constructors.deep_view(),
            definition: self.definition@,
            opaque_definition: self.opaque_definition@,
        }
    }
}

impl DataTypeView {
    /// Whether one of the constructors is called `name`.
    pub open spec fn has_constructor(self, name: Seq<char>) -> bool {
        exists|i: int| 0 <= i < self.constructors.len() && (#[trigger] self.constructors[i]).name == name
    }
}

impl DataType {
    /// Whether there is a constructor called `name`.
    pub fn has_constructor(&self, name: &str) -> (r: bool)
        ensures
            r == self.deep_view().has_constructor(name@),
    {
        let mut i: usize = 0;
        while i < self.constructors.len()
            invariant
                i <= self.constructors.len(),
                forall|j: int|
                    0 <= j < i ==> (#[trigger] self.deep_view().constructors[j]).name != name@,
            decreases self.constructors.len() - i,
        {
            proof {
                lemma_deep_view_index(self.constructors, i as int);
            }
            if same_text(self.constructors[i].name.as_str(), name) {
                assert(self.deep_view().constructors[i as int].name == name@);
                return true;
            }
            i += 1;
        }
        false
    }
}

/// A constant: `definition` is the constant as the documentation prints
/// it.
#[derive(Clone, Debug, PartialEq, Eq)]
pub struct ModuleConstant {
    pub public: bool,
    pub name: String,
    pub doc: Option<String>,
    pub definition: String,
}

/// [`ModuleConstant`] as a mathematical value.
pub struct ModuleConstantView {
    pub public: bool,
    pub name: Seq<char>,
    pub doc: Option<Seq<char>>,
    pub definition: Seq<char>,
}

impl DeepView for ModuleConstant {
    type V = ModuleConstantView;

    open spec fn deep_view(&self) -> ModuleConstantView {
        ModuleConstantView {
            public: self.public,
            name: self.name@,
            doc: self.doc.deep_view(),
            definition: self.definition@,
        }
    }
}

/// What a module declares at its top level. Imports, tests and validators
/// name nothing another module could use: they are all `Other`.
#[derive(Clone, Debug, PartialEq, Eq)]
pub enum Definition {
    Fn(Function),
    TypeAlias(TypeAlias),
    DataType(DataType),
    ModuleConstant(ModuleConstant),
    Other,
}

/// [`Definition`] as a mathematical value.
pub enum DefinitionView {
    Fn(FunctionView),
    TypeAlias(TypeAliasView),
    DataType(DataTypeView),
    ModuleConstant(ModuleConstantView),
    Other,
}

impl DeepView for Definition {
    type V = DefinitionView;

    open spec fn deep_view(&self) -> DefinitionView {
        match self {
            Definition::Fn(f) => DefinitionView::Fn(f.deep_view()),
            Definition::TypeAlias(a) => DefinitionView::TypeAlias(a.deep_view()),
            Definition::DataType(t) => DefinitionView::DataType(t.deep_view()),
            Definition::ModuleConstant(c) => DefinitionView::ModuleConstant(c.deep_view()),
            Definition::Other => DefinitionView::Other,
        }
    }
}

impl DefinitionView {
    /// The declaration is public and what it declares is called `name`.
    pub open spec fn defines(self, name: Seq<char>) -> bool {
        match self {
            DefinitionView::Fn(f) => f.public && f.name == name,
            DefinitionView::TypeAlias(a) => a.public && a.alias == name,
            DefinitionView::DataType(t) => t.public && t.name == name,
            DefinitionView::ModuleConstant(c) => c.public && c.name == name,
            DefinitionView::Other => false,
        }
    }

    /// The declaration is a public data type that shows its constructors,
    /// and one of them is called `name`.
    pub open spec fn constructs(self, name: Seq<char>) -> bool {
        match self {
            DefinitionView::DataType(t) => t.public && !t.opaque && t.has_constructor(name),
            _ => false,
        }
    }

    /// The declaration is public and the documentation has an entry for it.
    pub open spec fn documented(self) -> bool {
        match self {
            DefinitionView::Fn(f) => f.public,
            DefinitionView::TypeAlias(a) => a.public,
            DefinitionView::DataType(t) => t.public,
            DefinitionView::ModuleConstant(c) => c.public,
            DefinitionView::Other => false,
        }
    }
}

impl Definition {
    /// Whether the declaration is public and declares `name`.
    pub fn defines(&self, name: &str) -> (r: bool)
        ensures
            r == self.deep_view().defines(name@),
    {
        match self {
            Definition::Fn(f) => f.public && same_text(f.name.as_str(), name),
            Definition::TypeAlias(a) => a.public && same_text(a.alias.as_str(), name),
            Definition::DataType(t) => t.public && same_text(t.name.as_str(), name),
            Definition::ModuleConstant(c) => c.public && same_text(c.name.as_str(), name),
            Definition::Other => false,
        }
    }

    /// Whether the declaration offers a constructor called `name`.
    pub fn constructs(&self, name: &str) -> (r: bool)
        ensures
            r == self.deep_view().constructs(name@),
    {
        match self {
            Definition::DataType(t) => t.public && !t.opaque && t.has_constructor(name),
            _ => false,
        }
    }

    /// Whether the documentation has an entry for the declaration.
    pub fn documented(&self) -> (r: bool)
        ensures
            r == self.deep_view().documented(),
    {
        match self {
            Definition::Fn(f) => f.public,
            Definition::TypeAlias(a) => a.public,
            Definition::DataType(t) => t.public,
            Definition::ModuleConstant(c) => c.public,
            Definition::Other => false,
        }
    }
}

/// One module of the project.
#[derive(Clone, Debug, PartialEq, Eq)]
pub struct Module {
    pub name: String,
    /// The lines of the module's own documentation.
    pub docs: Vec<String>,
    pub definitions: Vec<Definition>,
}

/// [`Module`] as a mathematical value.
pub struct ModuleView {
    pub name: Seq<char>,
    pub docs: Seq<Seq<char>>,
    pub definitions: Seq<DefinitionView>,
}

impl DeepView for Module {
    type V = ModuleView;

    open spec fn deep_view(&self) -> ModuleView {
        ModuleView {
            name: self.name@,
            docs: self.docs.deep_view(),
            definitions: self.definitions.deep_view(),
        }
    }
}

impl ModuleView {
    /// The module offers a function, a type or a constant called `name`.
    pub open spec fn has_definition(self, name: Seq<char>) -> bool {
        exists|i: int| 0 <= i < self.definitions.len() && (#[trigger] self.definitions[i]).defines(name)
    }

    /// The module offers a constructor called `name`.
    pub open spec fn has_constructor(self, name: Seq<char>) -> bool {
        exists|i: int|
            0 <= i < self.definitions.len() && (#[trigger] self.definitions[i]).constructs(name)
    }

    /// The module offers something the documentation has an entry for.
    pub open spec fn has_documentation(self) -> bool {
        exists|i: int| 0 <= i < self.definitions.len() && (#[trigger] self.definitions[i]).documented()
    }
}

impl Module {
    /// Whether the module offers a function, a type or a constant called
    /// `name`.
    pub fn has_definition(&self, name: &str) -> (r: bool)
        ensures
            r == self.deep_view().has_definition(name@),
    {
        let mut i: usize = 0;
        while i < self.definitions.len()
            invariant
                i <= self.definitions.len(),
                forall|j: int|
                    0 <= j < i ==> !(#[trigger] self.deep_view().definitions[j]).defines(name@),
            decreases self.definitions.len() - i,
        {
            proof {
                lemma_deep_view_index(self.definitions, i as int);
            }
            if self.definitions[i].defines(name) {
                assert(self.deep_view().definitions[i as int].defines(name@));
                return true;
            }
            i += 1;
        }
        false
    }

    /// Whether there is a constructor called `name`.
    pub fn has_constructor(&self, name: &str) -> (r: bool)
        ensures
            r == self.deep_view().has_constructor(name@),
    {
        let mut i: usize = 0;
        while i < self.definitions.len()
            invariant
                i <= self.definitions.len(),
                forall|j: int|
                    0 <= j < i ==> !(#[trigger] self.deep_view().definitions[j]).constructs(name@),
            decreases self.definitions.len() - i,
        {
            proof {
                lemma_deep_view_index(self.definitions, i as int);
            }
            if self.definitions[i].constructs(name) {
                assert(self.deep_view().definitions[i as int].constructs(name@));
                return true;
            }
            i += 1;
        }
        false
    }

    /// Whether the module offers something the documentation has an entry
    /// for.
    pub fn has_documentation(&self) -> (r: bool)
        ensures
            r == self.deep_view().has_documentation(),
    {
        let mut i: usize = 0;
        while i < self.definitions.len()
            invariant
                i <= self.definitions.len(),
                forall|j: int|
                    0 <= j < i ==> !(#[trigger] self.deep_view().definitions[j]).documented(),
            decreases self.definitions.len() - i,
        {
            proof {
                lemma_deep_view_index(self.definitions, i as int);
            }
            if self.definitions[i].documented() {
                assert(self.deep_view().definitions[i as int].documented());
                return true;
            }
            i += 1;
        }
        false
    }
}

} // verus!
