use vstd::prelude::*;

verus! {

broadcast use vstd::seq::axiom_seq_index_decreases, vstd::seq::axiom_seq_subrange_decreases, vstd::std_specs::vec::group_vec_axioms;

/// One binding introduced by an import declaration.
pub enum Binding {
    /// `import local from "m";`
    Default { local: String },
    /// `import { imported as local } from "m";`
    Named { imported: String, local: String },
    /// `import * as local from "m";`
    Namespace { local: String },
}

/// An import declaration: a source specifier and its bindings.
/// A declaration with no bindings is a bare (side-effect) import.
pub struct ImportDecl {
    pub specifier: String,
    pub bindings: Vec<Binding>,
}

/// A template literal: raw text chunks interleaved with embedded expressions.
/// A well-formed template with `n` embedded expressions has `n + 1` quasis.
pub struct Template {
    pub quasis: Vec<String>,
    pub exprs: Vec<Expr>,
}

/// The slice of the host expression grammar that the passes read.
/// Everything that is neither an identifier nor a tagged template is a
/// `Node`: an opaque expression that still carries its subexpressions, so
/// that traversal can reach tagged templates nested anywhere.
pub enum Expr {
    Ident { name: String },
    Tagged { tag: Box<Expr>, template: Template },
    Node { children: Vec<Expr> },
}

/// One top-level item of a module.
pub enum ModuleItem {
    Import(ImportDecl),
    Stmt(Expr),
}

/// The root of one module's tree.
pub struct Module {
    pub items: Vec<ModuleItem>,
}

/// Mathematical image of a `Binding`.
#[verifier::ext_equal]
pub enum BindingV {
    Default { local: Seq<char> },
    Named { imported: Seq<char>, local: Seq<char> },
    Namespace { local: Seq<char> },
}

/// Mathematical image of an `ImportDecl`.
#[verifier::ext_equal]
pub struct ImportDeclV {
    pub specifier: Seq<char>,
    pub bindings: Seq<BindingV>,
}

/// Mathematical image of a `Template`.
#[verifier::ext_equal]
pub struct TemplateV {
    pub quasis: Seq<Seq<char>>,
    pub exprs: Seq<ExprV>,
}

/// Mathematical image of an `Expr`.
#[verifier::ext_equal]
pub enum ExprV {
    Ident { name: Seq<char> },
    Tagged { tag: Box<ExprV>, template: TemplateV },
    Node { children: Seq<ExprV> },
}

/// Mathematical image of a `ModuleItem`.
#[verifier::ext_equal]
pub enum ModuleItemV {
    Import(ImportDeclV),
    Stmt(ExprV),
}

/// Mathematical image of a `Module`.
#[verifier::ext_equal]
pub struct ModuleV {
    pub items: Seq<ModuleItemV>,
}

impl ImportDeclV {
    /// The tree invariant: a specifier is never empty.
    pub open spec fn wf(self) -> bool {
        self.specifier.len() > 0
    }
}

pub open spec fn exprs_v_wf(s: Seq<ExprV>) -> bool
    decreases s,
{
    if s.len() == 0 {
        true
    } else {
        s[0].wf() && exprs_v_wf(s.subrange(1, s.len() as int))
    }
}

impl TemplateV {
    /// The tree invariant: `n` embedded expressions come with `n + 1` quasis.
    pub open spec fn wf(self) -> bool
        decreases self,
    {
        &&& self.quasis.len() == self.exprs.len() + 1
        &&& exprs_v_wf(self.exprs)
    }
}

impl ExprV {
    pub open spec fn wf(self) -> bool
        decreases self,
    {
        match self {
            ExprV::Ident { name } => true,
            ExprV::Tagged { tag, template } => (*tag).wf() && template.wf(),
            ExprV::Node { children } => exprs_v_wf(children),
        }
    }
}

impl ModuleItemV {
    pub open spec fn wf(self) -> bool {
        match self {
            ModuleItemV::Import(d) => d.wf(),
            ModuleItemV::Stmt(e) => e.wf(),
        }
    }
}

impl ModuleV {
    pub open spec fn wf(self) -> bool {
        forall|i: int| 0 <= i < self.items.len() ==> (#[trigger] self.items[i]).wf()
    }
}

impl Binding {
    pub open spec fn model(self) -> BindingV {
        match self {
            Binding::Default { local } => BindingV::Default { local: local@ },
            Binding::Named { imported, local } => BindingV::Named {
                imported: imported@,
                local: local@,
            },
            Binding::Namespace { local } => BindingV::Namespace { local: local@ },
        }
    }
}

pub open spec fn bindings_model(s: Seq<Binding>) -> Seq<BindingV> {
    s.map_values(|b: Binding| b.model())
}

impl ImportDecl {
    pub open spec fn model(self) -> ImportDeclV {
        ImportDeclV { specifier: self.specifier@, bindings: bindings_model(self.bindings@) }
    }

    pub open spec fn wf(self) -> bool {
        self.model().wf()
    }
}

pub open spec fn quasis_model(s: Seq<String>) -> Seq<Seq<char>> {
    s.map_values(|q: String| q@)
}

impl Template {
    pub open spec fn model(self) -> TemplateV
        decreases self,
    {
        TemplateV { quasis: quasis_model(self.quasis@), exprs: exprs_model(self.exprs@) }
    }

    pub open spec fn wf(self) -> bool {
        self.model().wf()
    }
}

pub open spec fn exprs_model(s: Seq<Expr>) -> Seq<ExprV>
    decreases s,
{
    if s.len() == 0 {
        Seq::empty()
    } else {
        seq![s[0].model()] + exprs_model(s.subrange(1, s.len() as int))
    }
}

impl Expr {
    pub open spec fn model(self) -> ExprV
        decreases self,
    {
        match self {
            Expr::Ident { name } => ExprV::Ident { name: name@ },
            Expr::Tagged { tag, template } => ExprV::Tagged {
                tag: Box::new((*tag).model()),
                template: template.model(),
            },
            Expr::Node { children } => ExprV::Node { children: exprs_model(children@) },
        }
    }

    pub open spec fn wf(self) -> bool {
        self.model().wf()
    }
}

impl ModuleItem {
    pub open spec fn model(self) -> ModuleItemV {
        match self {
            ModuleItem::Import(d) => ModuleItemV::Import(d.model()),
            ModuleItem::Stmt(e) => ModuleItemV::Stmt(e.model()),
        }
    }

    pub open spec fn wf(self) -> bool {
        self.model().wf()
    }
}

impl Module {
    pub open spec fn model(self) -> ModuleV {
        ModuleV { items: self.items@.map_values(|it: ModuleItem| it.model()) }
    }

    pub open spec fn wf(self) -> bool {
        self.model().wf()
    }
}

/// `exprs_model` is the element-wise image of `Expr::model`.
pub proof fn lemma_exprs_model(s: Seq<Expr>)
    ensures
        exprs_model(s).len() == s.len(),
        forall|i: int| 0 <= i < s.len() ==> exprs_model(s)[i] == (#[trigger] s[i]).model(),
    decreases s,
{
    if s.len() > 0 {
        lemma_exprs_model(s.subrange(1, s.len() as int));
        assert forall|i: int| 0 <= i < s.len() implies exprs_model(s)[i] == (
        #[trigger] s[i]).model() by {
            if i > 0 {
                assert(s.subrange(1, s.len() as int)[i - 1] == s[i]);
            }
        }
    }
}

/// Deep copy of a string vector.
pub fn clone_strings(v: &Vec<String>) -> (r: Vec<String>)
    ensures
        quasis_model(r@) == quasis_model(v@),
        r@.len() == v@.len(),
{
    let mut out: Vec<String> = Vec::new();
    let mut i: usize = 0;
    while i < v.len()
        invariant
            i <= v@.len(),
            out@.len() == i as int,
            forall|j: int| 0 <= j < i ==> (#[trigger] out@[j])@ == v@[j]@,
        decreases v@.len() - i,
    {
        out.push(v[i].clone());
        i += 1;
    }
    proof {
        assert(quasis_model(out@) =~= quasis_model(v@));
    }
    out
}

/// Deep copy of an expression tree.
pub fn clone_expr(e: &Expr) -> (r: Expr)
    ensures
        r.model() == e.model(),
    decreases *e,
{
    match e {
        Expr::Ident { name } => Expr::Ident { name: name.clone() },
        Expr::Tagged { tag, template } => {
            let t = clone_expr(tag);
            let tpl = clone_template(template);
            let r = Expr::Tagged { tag: Box::new(t), template: tpl };
            proof {
                assert(r.model() =~~= e.model());
            }
            r
        },
        Expr::Node { children } => {
            let kids = clone_exprs(children);
            let r = Expr::Node { children: kids };
            proof {
                lemma_exprs_model(kids@);
                lemma_exprs_model(children@);
                assert forall|i: int| 0 <= i < children@.len() implies exprs_model(kids@)[i]
                    == exprs_model(children@)[i] by {
                    assert(kids@[i].model() == children@[i].model());
                }
                assert(exprs_model(kids@) =~= exprs_model(children@));
                assert(r.model() =~~= e.model());
            }
            r
        },
    }
}

/// Deep copy of an expression vector.
pub fn clone_exprs(v: &Vec<Expr>) -> (r: Vec<Expr>)
    ensures
        r@.len() == v@.len(),
        forall|j: int| 0 <= j < v@.len() ==> (#[trigger] r@[j]).model() == v@[j].model(),
    decreases *v,
{
    let mut out: Vec<Expr> = Vec::new();
    let mut i: usize = 0;
    while i < v.len()
        invariant
            i <= v@.len(),
            out@.len() == i as int,
            forall|j: int| 0 <= j < i ==> (#[trigger] out@[j]).model() == v@[j].model(),
        decreases v@.len() - i,
    {
        let x = clone_expr(&v[i]);
        out.push(x);
        i += 1;
    }
    out
}

/// Deep copy of a template.
pub fn clone_template(t: &Template) -> (r: Template)
    ensures
        r.model() == t.model(),
    decreases *t,
{
    let quasis = clone_strings(&t.quasis);
    let exprs = clone_exprs(&t.exprs);
    let r = Template { quasis, exprs };
    proof {
        lemma_exprs_model(r.exprs@);
        lemma_exprs_model(t.exprs@);
        assert forall|i: int| 0 <= i < t.exprs@.len() implies exprs_model(r.exprs@)[i]
            == exprs_model(t.exprs@)[i] by {
            assert(r.exprs@[i].model() == t.exprs@[i].model());
        }
        assert(exprs_model(r.exprs@) =~= exprs_model(t.exprs@));
        assert(r.model() =~~= t.model());
    }
    r
}

/// Deep copy of a binding.
pub fn clone_binding(b: &Binding) -> (r: Binding)
    ensures
        r.model() == b.model(),
{
    match b {
        Binding::Default { local } => Binding::Default { local: local.clone() },
        Binding::Named { imported, local } => Binding::Named {
            imported: imported.clone(),
            local: local.clone(),
        },
        Binding::Namespace { local } => Binding::Namespace { local: local.clone() },
    }
}

/// Deep copy of an import declaration.
pub fn clone_import_decl(d: &ImportDecl) -> (r: ImportDecl)
    ensures
        r.model() == d.model(),
{
    let mut bindings: Vec<Binding> = Vec::new();
    let mut i: usize = 0;
    while i < d.bindings.len()
        invariant
            i <= d.bindings@.len(),
            bindings@.len() == i as int,
            forall|j: int|
                0 <= j < i ==> (#[trigger] bindings@[j]).model() == d.bindings@[j].model(),
        decreases d.bindings@.len() - i,
    {
        let b = clone_binding(&d.bindings[i]);
        bindings.push(b);
        i += 1;
    }
    let r = ImportDecl { specifier: d.specifier.clone(), bindings };
    proof {
        assert(bindings_model(r.bindings@) =~= bindings_model(d.bindings@));
        assert(r.model() =~= d.model());
    }
    r
}

} // verus!
