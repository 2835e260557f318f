use vstd::prelude::*;

use crate::ast::Expr;
use crate::ast::ExprV;
use crate::ast::Module;
use crate::ast::ModuleItem;
use crate::ast::ModuleItemV;
use crate::ast::ModuleV;
use crate::ast::Template;
use crate::ast::TemplateV;
use crate::ast::clone_expr;
use crate::ast::clone_import_decl;
use crate::ast::clone_strings;
use crate::ast::exprs_model;
use crate::ast::lemma_exprs_model;
use crate::ast::quasis_model;
use crate::diag::DiagKind;
use crate::diag::DiagV;
use crate::diag::Diagnostic;
use crate::diag::diags_model;
use crate::sublang::SubLang;
use crate::sublang::lang_result;
use crate::sublang::minify_text;
use crate::sublang::sub_parse_diags_v;
use vstd::string::StringExecFns;

verus! {

broadcast use vstd::seq::axiom_seq_index_decreases, vstd::seq::axiom_seq_subrange_decreases, vstd::std_specs::vec::group_vec_axioms;

/// What a tagged template's tag denotes, resolved once per node: one of the
/// recognized sub-languages, or nothing this pass knows.
#[derive(Clone, Copy, Debug, PartialEq, Eq, Structural)]
pub enum TagKind {
    Markup,
    Stylesheet,
    Unrecognized,
}

/// The embedded-content rewriting pass: a fixed, small map from recognized
/// tag name to the sub-language it denotes.
pub struct TaggedTemplateTransformer {
    pub tags: Vec<(String, SubLang)>,
}

pub open spec fn tags_model(s: Seq<(String, SubLang)>) -> Seq<(Seq<char>, SubLang)> {
    s.map_values(|p: (String, SubLang)| (p.0@, p.1))
}

/// The sub-language for a tag name: the first entry whose key equals `name`.
pub open spec fn tag_lookup_v(entries: Seq<(Seq<char>, SubLang)>, name: Seq<char>) -> Option<
    SubLang,
>
    decreases entries,
{
    if entries.len() == 0 {
        None
    } else if entries[0].0 == name {
        Some(entries[0].1)
    } else {
        tag_lookup_v(entries.subrange(1, entries.len() as int), name)
    }
}

/// The default recognized set: `html` denotes markup, `css` a stylesheet.
pub open spec fn default_tags_v() -> Seq<(Seq<char>, SubLang)> {
    seq![("html"@, SubLang::Markup), ("css"@, SubLang::Stylesheet)]
}

/// Classification of a tag expression: a tag is read only when it is a
/// simple identifier; every other tag shape is unrecognized.
pub open spec fn classify_v(tag: ExprV, entries: Seq<(Seq<char>, SubLang)>) -> TagKind {
    match tag {
        ExprV::Ident { name } => match tag_lookup_v(entries, name) {
            Some(SubLang::Markup) => TagKind::Markup,
            Some(SubLang::Stylesheet) => TagKind::Stylesheet,
            None => TagKind::Unrecognized,
        },
        _ => TagKind::Unrecognized,
    }
}

pub open spec fn kind_lang(k: TagKind) -> SubLang {
    match k {
        TagKind::Stylesheet => SubLang::Stylesheet,
        _ => SubLang::Markup,
    }
}

/// What a diagnostic about a tagged template names: the tag identifier, or
/// nothing when the tag is not a simple identifier.
pub open spec fn tag_subject_v(tag: ExprV) -> Seq<char> {
    match tag {
        ExprV::Ident { name } => name,
        _ => Seq::empty(),
    }
}

/// The static text of a template: its quasis joined in order. Complete only
/// when the template embeds no expressions.
pub open spec fn static_text_v(t: TemplateV) -> Seq<char> {
    t.quasis.flatten()
}

/// The template that replaces a rewritten node's content: a single trailing
/// quasi holding `text`, and no embedded expressions.
pub open spec fn replaced_template_v(text: Seq<char>) -> TemplateV {
    TemplateV { quasis: seq![text], exprs: Seq::empty() }
}

/// Image of the pass on one expression. A recognized tag over a template
/// with no embedded expressions has its content replaced by the minified (on
/// parse failure: original) static text, and its children are not revisited;
/// every other tagged template keeps its shape and its children are
/// traversed; everything else is traversed.
pub open spec fn rw_expr_v(e: ExprV, entries: Seq<(Seq<char>, SubLang)>) -> ExprV
    decreases e,
{
    match e {
        ExprV::Ident { name } => ExprV::Ident { name },
        ExprV::Node { children } => ExprV::Node { children: rw_exprs_v(children, entries) },
        ExprV::Tagged { tag, template } => {
            let k = classify_v(*tag, entries);
            if k is Unrecognized || template.exprs.len() > 0 {
                ExprV::Tagged {
                    tag: Box::new(rw_expr_v(*tag, entries)),
                    template: rw_template_v(template, entries),
                }
            } else {
                ExprV::Tagged {
                    tag,
                    template: replaced_template_v(
                        lang_result(kind_lang(k), static_text_v(template)),
                    ),
                }
            }
        },
    }
}

pub open spec fn rw_exprs_v(s: Seq<ExprV>, entries: Seq<(Seq<char>, SubLang)>) -> Seq<ExprV>
    decreases s,
{
    if s.len() == 0 {
        Seq::empty()
    } else {
        seq![rw_expr_v(s[0], entries)] + rw_exprs_v(s.subrange(1, s.len() as int), entries)
    }
}

pub open spec fn rw_template_v(t: TemplateV, entries: Seq<(Seq<char>, SubLang)>) -> TemplateV
    decreases t,
{
    TemplateV { quasis: t.quasis, exprs: rw_exprs_v(t.exprs, entries) }
}

/// The diagnostics the pass emits at one expression, in traversal order: the
/// node's own record first, then those of its children.
pub open spec fn expr_diags_v(e: ExprV, entries: Seq<(Seq<char>, SubLang)>) -> Seq<DiagV>
    decreases e,
{
    match e {
        ExprV::Ident { name } => Seq::empty(),
        ExprV::Node { children } => exprs_diags_v(children, entries),
        ExprV::Tagged { tag, template } => {
            let k = classify_v(*tag, entries);
            if k is Unrecognized {
                seq![DiagV { kind: DiagKind::UnrecognizedTag, subject: tag_subject_v(*tag) }]
                    + expr_diags_v(*tag, entries) + template_diags_v(template, entries)
            } else if template.exprs.len() > 0 {
                seq![DiagV { kind: DiagKind::DynamicTemplate, subject: tag_subject_v(*tag) }]
                    + expr_diags_v(*tag, entries) + template_diags_v(template, entries)
            } else {
                sub_parse_diags_v(kind_lang(k), static_text_v(template))
            }
        },
    }
}

pub open spec fn exprs_diags_v(s: Seq<ExprV>, entries: Seq<(Seq<char>, SubLang)>) -> Seq<DiagV>
    decreases s,
{
    if s.len() == 0 {
        Seq::empty()
    } else {
        exprs_diags_v(s.subrange(0, s.len() - 1), entries) + expr_diags_v(
            s[s.len() - 1],
            entries,
        )
    }
}

pub open spec fn template_diags_v(t: TemplateV, entries: Seq<(Seq<char>, SubLang)>) -> Seq<DiagV>
    decreases t,
{
    exprs_diags_v(t.exprs, entries)
}

/// Image of the pass on a module: statements rewritten, imports untouched.
pub open spec fn rw_module_v(m: ModuleV, entries: Seq<(Seq<char>, SubLang)>) -> ModuleV {
    ModuleV {
        items: m.items.map_values(
            |it: ModuleItemV|
                match it {
                    ModuleItemV::Import(d) => ModuleItemV::Import(d),
                    ModuleItemV::Stmt(e) => ModuleItemV::Stmt(rw_expr_v(e, entries)),
                },
        ),
    }
}

/// The pass's diagnostics over a module, in source order.
pub open spec fn module_tpl_diags_v(
    items: Seq<ModuleItemV>,
    entries: Seq<(Seq<char>, SubLang)>,
) -> Seq<DiagV>
    decreases items,
{
    if items.len() == 0 {
        Seq::empty()
    } else {
        module_tpl_diags_v(items.subrange(0, items.len() - 1), entries) + (match items[items.len()
            - 1] {
            ModuleItemV::Import(_) => Seq::empty(),
            ModuleItemV::Stmt(e) => expr_diags_v(e, entries),
        })
    }
}

/// `rw_exprs_v` is the element-wise image of `rw_expr_v`.
pub proof fn lemma_rw_exprs_v(s: Seq<ExprV>, entries: Seq<(Seq<char>, SubLang)>)
    ensures
        rw_exprs_v(s, entries).len() == s.len(),
        forall|i: int|
            0 <= i < s.len() ==> rw_exprs_v(s, entries)[i] == rw_expr_v(
                #[trigger] s[i],
                entries,
            ),
    decreases s,
{
    if s.len() > 0 {
        lemma_rw_exprs_v(s.subrange(1, s.len() as int), entries);
        assert forall|i: int| 0 <= i < s.len() implies rw_exprs_v(s, entries)[i] == rw_expr_v(
            #[trigger] s[i],
            entries,
        ) by {
            if i > 0 {
                assert(s.subrange(1, s.len() as int)[i - 1] == s[i]);
            }
        }
    }
}

/// Join a template's raw text chunks in order.
pub fn concat_quasis(quasis: &Vec<String>) -> (r: String)
    ensures
        r@ == quasis_model(quasis@).flatten(),
{
    let mut out = String::new();
    let mut i: usize = 0;
    while i < quasis.len()
        invariant
            i <= quasis@.len(),
            out@ == quasis_model(quasis@.take(i as int)).flatten(),
        decreases quasis@.len() - i,
    {
        proof {
            assert(quasis_model(quasis@.take(i + 1)) =~= quasis_model(
                quasis@.take(i as int),
            ).push(quasis@[i as int]@));
            quasis_model(quasis@.take(i as int)).lemma_flatten_push(quasis@[i as int]@);
        }
        out.append(quasis[i].as_str());
        i += 1;
    }
    proof {
        assert(quasis@.take(quasis@.len() as int) =~= quasis@);
    }
    out
}

/// The static text of a template: the concatenation of its quasis when it
/// embeds no expressions, and nothing otherwise — one or more embedded
/// expressions make the static text incomplete.
pub fn template_static_text(t: &Template) -> (r: Option<String>)
    ensures
        t.exprs@.len() == 0 ==> (r matches Some(s) && s@ == static_text_v(t.model())),
        t.exprs@.len() > 0 ==> r is None,
{
    if t.exprs.len() > 0 {
        None
    } else {
        Some(concat_quasis(&t.quasis))
    }
}

/// Build the node that replaces a rewritten tagged template: the original
/// tag, a single trailing quasi holding `text`, and no embedded expressions.
pub fn replace_tagged_content(tag: &Expr, text: String) -> (r: Expr)
    ensures
        r.model() == (ExprV::Tagged {
            tag: Box::new(tag.model()),
            template: replaced_template_v(text@),
        }),
{
    let ghost tv = text@;
    let mut quasis: Vec<String> = Vec::new();
    quasis.push(text);
    proof {
        assert(quasis_model(quasis@) =~= seq![tv]);
    }
    let exprs: Vec<Expr> = Vec::new();
    proof {
        assert(exprs_model(exprs@) =~= Seq::<ExprV>::empty());
    }
    let template = Template { quasis, exprs };
    proof {
        assert(template.model() =~= replaced_template_v(tv));
    }
    let t2 = clone_expr(tag);
    let r = Expr::Tagged { tag: Box::new(t2), template };
    proof {
        assert(r.model() == (ExprV::Tagged {
            tag: Box::new(tag.model()),
            template: replaced_template_v(tv),
        }));
    }
    r
}

impl TaggedTemplateTransformer {
    pub open spec fn model(self) -> Seq<(Seq<char>, SubLang)> {
        tags_model(self.tags@)
    }

    /// The pass with the default recognized set: `html` and `css`.
    pub fn new() -> (r: Self)
        ensures
            r.model() == default_tags_v(),
    {
        let mut tags: Vec<(String, SubLang)> = Vec::new();
        tags.push((String::from_str("html"), SubLang::Markup));
        tags.push((String::from_str("css"), SubLang::Stylesheet));
        let r = TaggedTemplateTransformer { tags };
        proof {
            assert(r.model() =~= default_tags_v());
        }
        r
    }

    /// The pass with a caller-chosen recognized set.
    pub fn with_tags(tags: Vec<(String, SubLang)>) -> (r: Self)
        ensures
            r.model() == tags_model(tags@),
    {
        TaggedTemplateTransformer { tags }
    }

    /// The sub-language denoted by `name`, if any.
    fn lookup_lang(&self, name: &String) -> (r: Option<SubLang>)
        ensures
            r == tag_lookup_v(self.model(), name@),
    {
        let mut i: usize = 0;
        proof {
            assert(self.model().subrange(0, self.model().len() as int) =~= self.model());
        }
        while i < self.tags.len()
            invariant
                i <= self.tags@.len(),
                tag_lookup_v(self.model(), name@) == tag_lookup_v(
                    self.model().subrange(i as int, self.model().len() as int),
                    name@,
                ),
            decreases self.tags@.len() - i,
        {
            proof {
                assert(self.model().subrange(i as int, self.model().len() as int)[0]
                    == self.model()[i as int]);
                assert(self.model().subrange(i as int, self.model().len() as int).subrange(
                    1,
                    self.model().subrange(i as int, self.model().len() as int).len() as int,
                ) =~= self.model().subrange(i + 1, self.model().len() as int));
            }
            if self.tags[i].0 == *name {
                return Some(self.tags[i].1);
            }
            i += 1;
        }
        proof {
            assert(self.model().subrange(self.model().len() as int, self.model().len() as int).len()
                == 0);
        }
        None
    }

    /// Resolve a tag expression to the closed set of rewrite behaviors.
    pub fn classify(&self, tag: &Expr) -> (r: TagKind)
        ensures
            r == classify_v(tag.model(), self.model()),
    {
        match tag {
            Expr::Ident { name } => match self.lookup_lang(name) {
                Some(SubLang::Markup) => TagKind::Markup,
                Some(SubLang::Stylesheet) => TagKind::Stylesheet,
                None => TagKind::Unrecognized,
            },
            _ => TagKind::Unrecognized,
        }
    }

    /// Rewrite one expression tree, appending this pass's diagnostics in
    /// traversal order.
    pub fn rewrite_expr(&self, e: &Expr, diags: &mut Vec<Diagnostic>) -> (r: Expr)
        ensures
            r.model() == rw_expr_v(e.model(), self.model()),
            diags_model(final(diags)@) == diags_model(old(diags)@) + expr_diags_v(
                e.model(),
                self.model(),
            ),
        decreases *e,
    {
        match e {
            Expr::Ident { name } => {
                let r = Expr::Ident { name: name.clone() };
                proof {
                    assert(diags_model(diags@) =~= diags_model(diags@) + expr_diags_v(
                        e.model(),
                        self.model(),
                    ));
                }
                r
            },
            Expr::Node { children } => {
                let kids = self.rewrite_exprs(children, diags);
                let r = Expr::Node { children: kids };
                proof {
                    assert(r.model() =~~= rw_expr_v(e.model(), self.model()));
                }
                r
            },
            Expr::Tagged { tag, template } => {
                let kind = self.classify(tag);
                proof {
                    lemma_exprs_model(template.exprs@);
                }
                if kind != TagKind::Unrecognized && template.exprs.len() == 0 {
                    let lang = if kind == TagKind::Markup {
                        SubLang::Markup
                    } else {
                        SubLang::Stylesheet
                    };
                    let text = concat_quasis(&template.quasis);
                    let minified = minify_text(lang, &text, diags);
                    let r = replace_tagged_content(tag, minified);
                    proof {
                        assert(lang == kind_lang(kind));
                        assert(text@ == static_text_v(template.model()));
                        assert(r.model() =~~= rw_expr_v(e.model(), self.model()));
                        assert(diags_model(diags@) =~= diags_model(old(diags)@) + expr_diags_v(
                            e.model(),
                            self.model(),
                        ));
                    }
                    r
                } else {
                    let subject = match &**tag {
                        Expr::Ident { name } => name.clone(),
                        _ => String::new(),
                    };
                    let diag_kind = if kind == TagKind::Unrecognized {
                        DiagKind::UnrecognizedTag
                    } else {
                        DiagKind::DynamicTemplate
                    };
                    let d = Diagnostic { kind: diag_kind, subject, detail: String::new() };
                    diags.push(d);
                    let ghost mid = diags@;
                    let ntag = self.rewrite_expr(tag, diags);
                    let ntpl = self.rewrite_template(template, diags);
                    let r = Expr::Tagged { tag: Box::new(ntag), template: ntpl };
                    proof {
                        assert(diags_model(mid) =~= diags_model(old(diags)@).push(
                            DiagV {
                                kind: diag_kind,
                                subject: tag_subject_v(tag.model()),
                            },
                        ));
                        assert(r.model() =~~= rw_expr_v(e.model(), self.model()));
                        assert(diags_model(diags@) =~= diags_model(old(diags)@) + expr_diags_v(
                            e.model(),
                            self.model(),
                        ));
                    }
                    r
                }
            },
        }
    }

    /// Rewrite each expression of a vector in order.
    fn rewrite_exprs(&self, v: &Vec<Expr>, diags: &mut Vec<Diagnostic>) -> (r: Vec<Expr>)
        ensures
            exprs_model(r@) == rw_exprs_v(exprs_model(v@), self.model()),
            diags_model(final(diags)@) == diags_model(old(diags)@) + exprs_diags_v(
                exprs_model(v@),
                self.model(),
            ),
        decreases *v,
    {
        let ghost sv = exprs_model(v@);
        proof {
            lemma_exprs_model(v@);
        }
        let mut out: Vec<Expr> = Vec::new();
        let mut i: usize = 0;
        while i < v.len()
            invariant
                i <= v@.len(),
                out@.len() == i as int,
                sv == exprs_model(v@),
                sv.len() == v@.len(),
                forall|j: int| 0 <= j < v@.len() ==> sv[j] == (#[trigger] v@[j]).model(),
                forall|j: int|
                    0 <= j < i ==> (#[trigger] out@[j]).model() == rw_expr_v(sv[j], self.model()),
                diags_model(diags@) == diags_model(old(diags)@) + exprs_diags_v(
                    sv.subrange(0, i as int),
                    self.model(),
                ),
            decreases v@.len() - i,
        {
            proof {
                assert(exprs_diags_v(sv.subrange(0, i as int), self.model()) == exprs_diags_v(
                    sv.subrange(0, i + 1).subrange(0, i as int),
                    self.model(),
                )) by {
                    assert(sv.subrange(0, i + 1).subrange(0, i as int) =~= sv.subrange(
                        0,
                        i as int,
                    ));
                }
                assert(sv.subrange(0, i + 1)[i as int] == sv[i as int]);
            }
            let x = self.rewrite_expr(&v[i], diags);
            out.push(x);
            i += 1;
            proof {
                assert(diags_model(diags@) =~= diags_model(old(diags)@) + exprs_diags_v(
                    sv.subrange(0, i as int),
                    self.model(),
                ));
            }
        }
        proof {
            assert(sv.subrange(0, sv.len() as int) =~= sv);
            lemma_rw_exprs_v(sv, self.model());
            lemma_exprs_model(out@);
            assert forall|k: int| 0 <= k < sv.len() implies exprs_model(out@)[k] == rw_exprs_v(
                sv,
                self.model(),
            )[k] by {
                assert(out@[k].model() == rw_expr_v(sv[k], self.model()));
            }
            assert(exprs_model(out@) =~= rw_exprs_v(sv, self.model()));
        }
        out
    }

    /// Rewrite the embedded expressions of a template; its quasis are kept.
    pub fn rewrite_template(&self, t: &Template, diags: &mut Vec<Diagnostic>) -> (r: Template)
        ensures
            r.model() == rw_template_v(t.model(), self.model()),
            diags_model(final(diags)@) == diags_model(old(diags)@) + template_diags_v(
                t.model(),
                self.model(),
            ),
        decreases *t,
    {
        let quasis = clone_strings(&t.quasis);
        let exprs = self.rewrite_exprs(&t.exprs, diags);
        let r = Template { quasis, exprs };
        proof {
            assert(r.model() =~~= rw_template_v(t.model(), self.model()));
        }
        r
    }

    /// Run the pass over a module: every statement's expression tree is
    /// rewritten, in source order; import declarations pass through
    /// unchanged.
    pub fn rewrite_module(&self, m: &Module, diags: &mut Vec<Diagnostic>) -> (r: Module)
        ensures
            r.model() == rw_module_v(m.model(), self.model()),
            diags_model(final(diags)@) == diags_model(old(diags)@) + module_tpl_diags_v(
                m.model().items,
                self.model(),
            ),
            m.wf() ==> r.wf(),
    {
        let mut items: Vec<ModuleItem> = Vec::new();
        let mut i: usize = 0;
        while i < m.items.len()
            invariant
                i <= m.items@.len(),
                items@.len() == i as int,
                forall|j: int|
                    0 <= j < i ==> (#[trigger] items@[j]).model() == rw_module_v(
                        m.model(),
                        self.model(),
                    ).items[j],
                diags_model(diags@) == diags_model(old(diags)@) + module_tpl_diags_v(
                    m.model().items.subrange(0, i as int),
                    self.model(),
                ),
            decreases m.items@.len() - i,
        {
            proof {
                assert(m.model().items.subrange(0, i + 1).subrange(0, i as int) =~= m.model()
                    .items.subrange(0, i as int));
                assert(m.model().items.subrange(0, i + 1)[i as int] == m.model().items[i as int]);
                assert(m.model().items[i as int] == m.items@[i as int].model());
            }
            let it = &m.items[i];
            let nit = match it {
                ModuleItem::Import(dcl) => ModuleItem::Import(clone_import_decl(dcl)),
                ModuleItem::Stmt(e) => ModuleItem::Stmt(self.rewrite_expr(e, diags)),
            };
            items.push(nit);
            i += 1;
        }
        let r = Module { items };
        proof {
            assert(m.model().items.subrange(0, m.items@.len() as int) =~= m.model().items);
            assert(r.model() =~= rw_module_v(m.model(), self.model()));
            if m.wf() {
                crate::laws::lemma_rw_module_wf(m.model(), self.model());
            }
        }
        r
    }
}

} // verus!
