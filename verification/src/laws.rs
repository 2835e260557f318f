use vstd::prelude::*;

use crate::ast::BindingV;
use crate::ast::ExprV;
use crate::ast::ImportDeclV;
use crate::ast::ModuleItemV;
use crate::ast::ModuleV;
use crate::ast::TemplateV;
use crate::diag::DiagKind;
use crate::diag::DiagV;
use crate::imports::PackageConfigV;
use crate::imports::default_export_name;
use crate::imports::lookup_v;
use crate::imports::rewrite_import_v;
use crate::imports::rewrite_module_imports_v;
use crate::sublang::SubLang;
use crate::sublang::lang_parses;
use crate::sublang::lang_result;
use crate::templates::classify_v;
use crate::templates::expr_diags_v;
use crate::templates::kind_lang;
use crate::templates::lemma_rw_exprs_v;
use crate::templates::replaced_template_v;
use crate::templates::rw_expr_v;
use crate::templates::rw_exprs_v;
use crate::templates::rw_module_v;
use crate::templates::rw_template_v;
use crate::templates::static_text_v;

verus! {

broadcast use vstd::seq::axiom_seq_index_decreases, vstd::seq::axiom_seq_subrange_decreases;

/// Specifier rewrite totality: after the import pass, every import
/// declaration whose specifier is a configured package name carries that
/// package's `transform_path` as its specifier, and every other item of the
/// module — statements, and imports of unconfigured packages — is unchanged.
pub proof fn lemma_specifier_rewrite_totality(
    m: ModuleV,
    entries: Seq<(Seq<char>, PackageConfigV)>,
)
    ensures
        rewrite_module_imports_v(m, entries).items.len() == m.items.len(),
        forall|i: int|
            0 <= i < m.items.len() ==> match #[trigger] m.items[i] {
                ModuleItemV::Import(d) => {
                    &&& rewrite_module_imports_v(m, entries).items[i] == ModuleItemV::Import(
                        rewrite_import_v(d, entries),
                    )
                    &&& (lookup_v(entries, d.specifier) matches Some(cfg) ==> rewrite_import_v(
                        d,
                        entries,
                    ).specifier == cfg.transform_path)
                    &&& (lookup_v(entries, d.specifier) is None ==> rewrite_import_v(d, entries)
                        == d)
                },
                ModuleItemV::Stmt(_) => rewrite_module_imports_v(m, entries).items[i]
                    == m.items[i],
            },
{
}

/// Default-binding policy: on a matched declaration, a default-import
/// binding is kept as a default-import binding when `skip_default_conversion`
/// is set, and is converted into the equivalent named binding of the target
/// module's default export when it is not. Other bindings are never touched.
pub proof fn lemma_default_binding_policy(
    d: ImportDeclV,
    entries: Seq<(Seq<char>, PackageConfigV)>,
    j: int,
    local: Seq<char>,
)
    requires
        0 <= j < d.bindings.len(),
        (lookup_v(entries, d.specifier) is Some),
        d.bindings[j] == (BindingV::Default { local }),
    ensures
        rewrite_import_v(d, entries).bindings.len() == d.bindings.len(),
        lookup_v(entries, d.specifier).unwrap().skip_default_conversion ==> rewrite_import_v(
            d,
            entries,
        ).bindings[j] == (BindingV::Default { local }),
        !lookup_v(entries, d.specifier).unwrap().skip_default_conversion ==> rewrite_import_v(
            d,
            entries,
        ).bindings[j] == (BindingV::Named { imported: default_export_name(), local }),
{
}

/// Whether the embedded-content pass changes anything at or below `e`: true
/// exactly when some tagged template with a recognized identifier tag and no
/// embedded expressions occurs in `e`.
pub open spec fn expr_has_rewritable_v(e: ExprV, entries: Seq<(Seq<char>, SubLang)>) -> bool
    decreases e,
{
    match e {
        ExprV::Ident { name } => false,
        ExprV::Node { children } => exprs_have_rewritable_v(children, entries),
        ExprV::Tagged { tag, template } => {
            ||| (!(classify_v(*tag, entries) is Unrecognized) && template.exprs.len() == 0)
            ||| expr_has_rewritable_v(*tag, entries)
            ||| exprs_have_rewritable_v(template.exprs, entries)
        },
    }
}

pub open spec fn exprs_have_rewritable_v(
    s: Seq<ExprV>,
    entries: Seq<(Seq<char>, SubLang)>,
) -> bool
    decreases s,
{
    if s.len() == 0 {
        false
    } else {
        expr_has_rewritable_v(s[0], entries) || exprs_have_rewritable_v(
            s.subrange(1, s.len() as int),
            entries,
        )
    }
}

/// An expression with no rewritable template inside is a fixed point of the
/// embedded-content pass.
pub proof fn lemma_rw_identity(e: ExprV, entries: Seq<(Seq<char>, SubLang)>)
    requires
        !expr_has_rewritable_v(e, entries),
    ensures
        rw_expr_v(e, entries) == e,
    decreases e,
{
    match e {
        ExprV::Ident { name } => {},
        ExprV::Node { children } => {
            lemma_rw_seq_identity(children, entries);
            assert(rw_expr_v(e, entries) == e);
        },
        ExprV::Tagged { tag, template } => {
            lemma_rw_identity(*tag, entries);
            lemma_rw_seq_identity(template.exprs, entries);
            assert(rw_template_v(template, entries) =~= template);
            assert(rw_expr_v(e, entries) == e);
        },
    }
}

pub proof fn lemma_rw_seq_identity(s: Seq<ExprV>, entries: Seq<(Seq<char>, SubLang)>)
    requires
        !exprs_have_rewritable_v(s, entries),
    ensures
        rw_exprs_v(s, entries) == s,
    decreases s,
{
    if s.len() > 0 {
        lemma_rw_identity(s[0], entries);
        lemma_rw_seq_identity(s.subrange(1, s.len() as int), entries);
        assert(rw_exprs_v(s, entries) =~= s);
    }
}

/// Template expression guard: a tagged template with one or more embedded
/// expressions is never minified — its tag, quasis and expressions come out
/// exactly as they went in, provided no nested rewritable template hides in
/// its tag or expressions (a nested recognized static template would itself
/// be rewritten, which is the subject of `lemma_nested_recognized_rewritten`).
pub proof fn lemma_template_expression_guard(
    tag: ExprV,
    template: TemplateV,
    entries: Seq<(Seq<char>, SubLang)>,
)
    requires
        template.exprs.len() >= 1,
        !expr_has_rewritable_v(tag, entries),
        !exprs_have_rewritable_v(template.exprs, entries),
    ensures
        rw_expr_v(ExprV::Tagged { tag: Box::new(tag), template }, entries) == (ExprV::Tagged {
            tag: Box::new(tag),
            template,
        }),
{
    lemma_rw_identity(ExprV::Tagged { tag: Box::new(tag), template }, entries);
}

/// Fallback on parse failure: a recognized static template whose text its
/// sub-language parser rejects comes out with its content byte-identical to
/// the original static text, plus exactly one diagnostic carrying that text.
pub proof fn lemma_fallback_on_parse_failure(
    tag: ExprV,
    template: TemplateV,
    entries: Seq<(Seq<char>, SubLang)>,
)
    requires
        !(classify_v(tag, entries) is Unrecognized),
        template.exprs.len() == 0,
        !lang_parses(kind_lang(classify_v(tag, entries)), static_text_v(template)),
    ensures
        rw_expr_v(ExprV::Tagged { tag: Box::new(tag), template }, entries) == (ExprV::Tagged {
            tag: Box::new(tag),
            template: replaced_template_v(static_text_v(template)),
        }),
        expr_diags_v(ExprV::Tagged { tag: Box::new(tag), template }, entries) == seq![
            DiagV { kind: DiagKind::SubParseError, subject: static_text_v(template) },
        ],
{
}

/// Unrecognized-tag pass-through: a tagged template whose tag is not a
/// recognized identifier keeps its tag shape and its quasis; only its tag
/// and embedded expressions are traversed.
pub proof fn lemma_unrecognized_passthrough(
    tag: ExprV,
    template: TemplateV,
    entries: Seq<(Seq<char>, SubLang)>,
)
    requires
        classify_v(tag, entries) is Unrecognized,
    ensures
        rw_expr_v(ExprV::Tagged { tag: Box::new(tag), template }, entries) == (ExprV::Tagged {
            tag: Box::new(rw_expr_v(tag, entries)),
            template: TemplateV {
                quasis: template.quasis,
                exprs: rw_exprs_v(template.exprs, entries),
            },
        }),
{
    assert(rw_template_v(template, entries) == TemplateV {
        quasis: template.quasis,
        exprs: rw_exprs_v(template.exprs, entries),
    });
}

/// Recursion under an unrecognized tag: a recognized static template nested
/// in the expressions of an unrecognized-tag template is still rewritten.
pub proof fn lemma_nested_recognized_rewritten(
    tag: ExprV,
    template: TemplateV,
    entries: Seq<(Seq<char>, SubLang)>,
    j: int,
    tag2: ExprV,
    tpl2: TemplateV,
)
    requires
        classify_v(tag, entries) is Unrecognized,
        0 <= j < template.exprs.len(),
        template.exprs[j] == (ExprV::Tagged { tag: Box::new(tag2), template: tpl2 }),
        !(classify_v(tag2, entries) is Unrecognized),
        tpl2.exprs.len() == 0,
    ensures
        rw_expr_v(ExprV::Tagged { tag: Box::new(tag), template }, entries) == (ExprV::Tagged {
            tag: Box::new(rw_expr_v(tag, entries)),
            template: TemplateV {
                quasis: template.quasis,
                exprs: rw_exprs_v(template.exprs, entries),
            },
        }),
        rw_exprs_v(template.exprs, entries)[j] == (ExprV::Tagged {
            tag: Box::new(tag2),
            template: replaced_template_v(
                lang_result(kind_lang(classify_v(tag2, entries)), static_text_v(tpl2)),
            ),
        }),
{
    lemma_unrecognized_passthrough(tag, template, entries);
    lemma_rw_exprs_v(template.exprs, entries);
}

/// The embedded-content pass preserves the tree invariant: a well-formed
/// expression is rewritten to a well-formed expression (in particular, a
/// replaced template has one quasi and no embedded expressions).
pub proof fn lemma_rw_wf(e: ExprV, entries: Seq<(Seq<char>, SubLang)>)
    requires
        e.wf(),
    ensures
        rw_expr_v(e, entries).wf(),
    decreases e,
{
    match e {
        ExprV::Ident { name } => {},
        ExprV::Node { children } => {
            lemma_rw_seq_wf(children, entries);
        },
        ExprV::Tagged { tag, template } => {
            assert((*tag).wf() && template.wf());
            let k = classify_v(*tag, entries);
            if k is Unrecognized || template.exprs.len() > 0 {
                assert(crate::ast::exprs_v_wf(template.exprs));
                lemma_rw_wf(*tag, entries);
                lemma_rw_seq_wf(template.exprs, entries);
                lemma_rw_exprs_v(template.exprs, entries);
                assert(rw_template_v(template, entries).wf());
            } else {
                let text = lang_result(kind_lang(k), static_text_v(template));
                assert(crate::ast::exprs_v_wf(replaced_template_v(text).exprs));
                assert(replaced_template_v(text).wf());
            }
        },
    }
}

pub proof fn lemma_rw_seq_wf(s: Seq<ExprV>, entries: Seq<(Seq<char>, SubLang)>)
    requires
        crate::ast::exprs_v_wf(s),
    ensures
        crate::ast::exprs_v_wf(rw_exprs_v(s, entries)),
    decreases s,
{
    if s.len() > 0 {
        let rest = s.subrange(1, s.len() as int);
        lemma_rw_wf(s[0], entries);
        lemma_rw_seq_wf(rest, entries);
        let out = rw_exprs_v(s, entries);
        assert(out[0] == rw_expr_v(s[0], entries));
        assert(out.subrange(1, out.len() as int) =~= rw_exprs_v(rest, entries));
        assert(crate::ast::exprs_v_wf(out));
    }
}

/// The embedded-content pass preserves well-formedness of a whole module.
pub proof fn lemma_rw_module_wf(m: ModuleV, entries: Seq<(Seq<char>, SubLang)>)
    requires
        m.wf(),
    ensures
        rw_module_v(m, entries).wf(),
{
    let out = rw_module_v(m, entries);
    assert forall|i: int| 0 <= i < out.items.len() implies (#[trigger] out.items[i]).wf() by {
        assert(m.items[i].wf());
        match m.items[i] {
            ModuleItemV::Import(d) => {},
            ModuleItemV::Stmt(e) => {
                lemma_rw_wf(e, entries);
            },
        }
    }
}

/// Composition: the embedded-content pass operates on disjoint node kinds,
/// so after the whole pipeline every import declaration is exactly what the
/// import pass alone makes of it.
pub proof fn lemma_pipeline_keeps_imports(
    m: ModuleV,
    packages: Seq<(Seq<char>, PackageConfigV)>,
    tags: Seq<(Seq<char>, SubLang)>,
)
    ensures
        crate::pipeline::pipeline_v(m, packages, tags).items.len() == m.items.len(),
        forall|i: int|
            0 <= i < m.items.len() ==> ((#[trigger] m.items[i]) matches ModuleItemV::Import(d)
                ==> crate::pipeline::pipeline_v(m, packages, tags).items[i]
                == ModuleItemV::Import(rewrite_import_v(d, packages))),
{
}

} // verus!
