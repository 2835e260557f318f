use tplmin::ast::{Binding, Expr, ImportDecl, Module, ModuleItem, Template};
use tplmin::templates::template_static_text;
use tplmin::diag::{DiagKind, Diagnostic};
use tplmin::imports::{ImportRewriter, PackageConfig};
use tplmin::pipeline::run_pipeline;
use tplmin::sublang::{minify_text, SubLang};
use tplmin::templates::{TagKind, TaggedTemplateTransformer};

fn mod1_policy(prevent_full_import: bool, skip_default_conversion: bool) -> ImportRewriter {
    ImportRewriter::new(vec![(
        "mod1".to_string(),
        PackageConfig {
            transform_path: "deps/mod1.js".to_string(),
            prevent_full_import,
            skip_default_conversion,
        },
    )])
}

fn default_import(specifier: &str, local: &str) -> ImportDecl {
    ImportDecl {
        specifier: specifier.to_string(),
        bindings: vec![Binding::Default { local: local.to_string() }],
    }
}

#[test]
fn default_binding_preserved_when_skipping_conversion() {
    let rewriter = mod1_policy(false, true);
    let mut diags: Vec<Diagnostic> = Vec::new();
    let out = rewriter.rewrite_import(&default_import("mod1", "m"), &mut diags);
    assert_eq!(out.specifier, "deps/mod1.js");
    assert_eq!(out.bindings.len(), 1);
    assert!(matches!(&out.bindings[0], Binding::Default { local } if local == "m"));
    assert_eq!(diags.len(), 0);
}

#[test]
fn default_binding_converted_to_named() {
    let rewriter = mod1_policy(false, false);
    let mut diags: Vec<Diagnostic> = Vec::new();
    let out = rewriter.rewrite_import(&default_import("mod1", "m"), &mut diags);
    assert_eq!(out.specifier, "deps/mod1.js");
    assert!(matches!(
        &out.bindings[0],
        Binding::Named { imported, local } if imported == "default" && local == "m"
    ));
    assert_eq!(diags.len(), 0);
}

#[test]
fn unmatched_import_passes_through() {
    let rewriter = mod1_policy(false, true);
    let mut diags: Vec<Diagnostic> = Vec::new();
    let out = rewriter.rewrite_import(&default_import("mod2", "m"), &mut diags);
    assert_eq!(out.specifier, "mod2");
    assert!(matches!(&out.bindings[0], Binding::Default { local } if local == "m"));
    assert_eq!(diags.len(), 0);
}

#[test]
fn named_bindings_preserved() {
    let rewriter = mod1_policy(false, false);
    let mut diags: Vec<Diagnostic> = Vec::new();
    let decl = ImportDecl {
        specifier: "mod1".to_string(),
        bindings: vec![Binding::Named {
            imported: "a".to_string(),
            local: "b".to_string(),
        }],
    };
    let out = rewriter.rewrite_import(&decl, &mut diags);
    assert_eq!(out.specifier, "deps/mod1.js");
    assert!(matches!(
        &out.bindings[0],
        Binding::Named { imported, local } if imported == "a" && local == "b"
    ));
}

#[test]
fn prevent_full_import_flags_namespace_import() {
    let rewriter = mod1_policy(true, true);
    let mut diags: Vec<Diagnostic> = Vec::new();
    let decl = ImportDecl {
        specifier: "mod1".to_string(),
        bindings: vec![Binding::Namespace { local: "ns".to_string() }],
    };
    let out = rewriter.rewrite_import(&decl, &mut diags);
    // The rewrite is still applied; the violation is only reported.
    assert_eq!(out.specifier, "deps/mod1.js");
    assert_eq!(diags.len(), 1);
    assert!(matches!(diags[0].kind, DiagKind::PolicyViolation));
    assert_eq!(diags[0].subject, "mod1");
}

#[test]
fn prevent_full_import_flags_bare_import() {
    let rewriter = mod1_policy(true, true);
    let mut diags: Vec<Diagnostic> = Vec::new();
    let decl = ImportDecl { specifier: "mod1".to_string(), bindings: vec![] };
    let out = rewriter.rewrite_import(&decl, &mut diags);
    assert_eq!(out.specifier, "deps/mod1.js");
    assert_eq!(diags.len(), 1);
    assert!(matches!(diags[0].kind, DiagKind::PolicyViolation));
}

fn tagged(tag: &str, quasis: &[&str], exprs: Vec<Expr>) -> Expr {
    Expr::Tagged {
        tag: Box::new(Expr::Ident { name: tag.to_string() }),
        template: Template {
            quasis: quasis.iter().map(|q| q.to_string()).collect(),
            exprs,
        },
    }
}

fn single_quasi_text(e: &Expr) -> Option<String> {
    match e {
        Expr::Tagged { template, .. } if template.exprs.is_empty() && template.quasis.len() == 1 => {
            Some(template.quasis[0].clone())
        }
        _ => None,
    }
}

#[test]
fn css_template_is_minified() {
    let t = TaggedTemplateTransformer::new();
    let mut diags: Vec<Diagnostic> = Vec::new();
    let out = t.rewrite_expr(&tagged("css", &["a { color: red; }"], vec![]), &mut diags);
    assert_eq!(single_quasi_text(&out).unwrap(), "a{color:red}");
    assert_eq!(diags.len(), 0);
}

#[test]
fn html_template_is_minified() {
    let t = TaggedTemplateTransformer::new();
    let mut diags: Vec<Diagnostic> = Vec::new();
    let out = t.rewrite_expr(
        &tagged("html", &["<DIV>  <p>Hi</p>   </DIV>"], vec![]),
        &mut diags,
    );
    let text = single_quasi_text(&out).unwrap();
    assert_eq!(text, "<div><p>Hi</p></div>");
    assert_eq!(diags.len(), 0);
}

#[test]
fn html_comments_are_stripped() {
    let t = TaggedTemplateTransformer::new();
    let mut diags: Vec<Diagnostic> = Vec::new();
    let out = t.rewrite_expr(
        &tagged("html", &["<div><!-- note --><b>x</b></div>"], vec![]),
        &mut diags,
    );
    assert_eq!(single_quasi_text(&out).unwrap(), "<div><b>x</b></div>");
}

#[test]
fn minification_is_idempotent_on_minified_css() {
    let mut diags: Vec<Diagnostic> = Vec::new();
    let once = minify_text(
        SubLang::Stylesheet,
        &"a { color: red; }\nb { margin: 0px; }".to_string(),
        &mut diags,
    );
    let twice = minify_text(SubLang::Stylesheet, &once, &mut diags);
    assert_eq!(once, twice);
    assert_eq!(diags.len(), 0);
}

#[test]
fn minification_is_idempotent_on_minified_html() {
    let mut diags: Vec<Diagnostic> = Vec::new();
    let once = minify_text(
        SubLang::Markup,
        &"<DIV>  <p>Hi <b>there</b></p>   </DIV>".to_string(),
        &mut diags,
    );
    let twice = minify_text(SubLang::Markup, &once, &mut diags);
    assert_eq!(once, twice);
    assert_eq!(diags.len(), 0);
}

#[test]
fn template_with_expression_is_unchanged() {
    let t = TaggedTemplateTransformer::new();
    let mut diags: Vec<Diagnostic> = Vec::new();
    let input = tagged(
        "html",
        &["<div>", "</div>"],
        vec![Expr::Ident { name: "x".to_string() }],
    );
    let out = t.rewrite_expr(&input, &mut diags);
    match &out {
        Expr::Tagged { tag, template } => {
            assert!(matches!(&**tag, Expr::Ident { name } if name == "html"));
            assert_eq!(template.quasis, vec!["<div>".to_string(), "</div>".to_string()]);
            assert_eq!(template.exprs.len(), 1);
            assert!(matches!(&template.exprs[0], Expr::Ident { name } if name == "x"));
        }
        _ => panic!("expected a tagged template"),
    }
    assert_eq!(diags.len(), 1);
    assert!(matches!(diags[0].kind, DiagKind::DynamicTemplate));
    assert_eq!(diags[0].subject, "html");
}

#[test]
fn unrecognized_tag_passes_through_and_nested_is_rewritten() {
    let t = TaggedTemplateTransformer::new();
    let mut diags: Vec<Diagnostic> = Vec::new();
    let nested = tagged("css", &["a { color: red; }"], vec![]);
    let input = tagged("gql", &["q", "r"], vec![nested]);
    let out = t.rewrite_expr(&input, &mut diags);
    match &out {
        Expr::Tagged { tag, template } => {
            assert!(matches!(&**tag, Expr::Ident { name } if name == "gql"));
            assert_eq!(template.quasis, vec!["q".to_string(), "r".to_string()]);
            assert_eq!(template.exprs.len(), 1);
            assert_eq!(
                single_quasi_text(&template.exprs[0]).unwrap(),
                "a{color:red}"
            );
        }
        _ => panic!("expected a tagged template"),
    }
    assert_eq!(diags.len(), 1);
    assert!(matches!(diags[0].kind, DiagKind::UnrecognizedTag));
    assert_eq!(diags[0].subject, "gql");
}

#[test]
fn dynamic_tag_expression_is_unrecognized() {
    let t = TaggedTemplateTransformer::new();
    let kind = t.classify(&Expr::Node { children: vec![] });
    assert_eq!(kind, TagKind::Unrecognized);
    assert_eq!(t.classify(&Expr::Ident { name: "html".to_string() }), TagKind::Markup);
    assert_eq!(t.classify(&Expr::Ident { name: "css".to_string() }), TagKind::Stylesheet);
    assert_eq!(t.classify(&Expr::Ident { name: "sql".to_string() }), TagKind::Unrecognized);
}

#[test]
fn invalid_stylesheet_falls_back_to_original_text() {
    let t = TaggedTemplateTransformer::new();
    let mut diags: Vec<Diagnostic> = Vec::new();
    let text = "@media {{{";
    let out = t.rewrite_expr(&tagged("css", &[text], vec![]), &mut diags);
    let kept = single_quasi_text(&out).unwrap();
    if diags.is_empty() {
        // The stylesheet parser recovered; the content was still minified,
        // not dropped.
        assert!(!kept.is_empty());
    } else {
        assert_eq!(kept, text);
        assert_eq!(diags.len(), 1);
        assert!(matches!(diags[0].kind, DiagKind::SubParseError));
        assert_eq!(diags[0].subject, text);
    }
}

#[test]
fn pipeline_runs_both_passes_in_order() {
    let rewriter = mod1_policy(false, true);
    let templates = TaggedTemplateTransformer::new();
    let module = Module {
        items: vec![
            ModuleItem::Import(default_import("mod1", "m")),
            ModuleItem::Stmt(tagged("css", &["a { color: red; }"], vec![])),
            ModuleItem::Stmt(tagged("other", &["zzz"], vec![])),
        ],
    };
    let (out, diags) = run_pipeline(&rewriter, &templates, &module);
    assert_eq!(out.items.len(), 3);
    match &out.items[0] {
        ModuleItem::Import(d) => assert_eq!(d.specifier, "deps/mod1.js"),
        _ => panic!("expected an import"),
    }
    match &out.items[1] {
        ModuleItem::Stmt(e) => assert_eq!(single_quasi_text(e).unwrap(), "a{color:red}"),
        _ => panic!("expected a statement"),
    }
    match &out.items[2] {
        ModuleItem::Stmt(Expr::Tagged { template, .. }) => {
            assert_eq!(template.quasis, vec!["zzz".to_string()]);
        }
        _ => panic!("expected a statement"),
    }
    assert_eq!(diags.len(), 1);
    assert!(matches!(diags[0].kind, DiagKind::UnrecognizedTag));
    assert_eq!(diags[0].subject, "other");
}

#[test]
fn static_text_concatenates_quasis_in_order() {
    let t = Template {
        quasis: vec!["ab".to_string(), "cd".to_string(), "e".to_string()],
        exprs: vec![],
    };
    // A template with no expressions normally has one quasi; the text is the
    // join of whatever quasis are present.
    assert_eq!(template_static_text(&t).unwrap(), "abcde");
    let dynamic = Template {
        quasis: vec!["a".to_string(), "b".to_string()],
        exprs: vec![Expr::Ident { name: "x".to_string() }],
    };
    assert!(template_static_text(&dynamic).is_none());
}

#[test]
fn empty_module_yields_empty_output_and_no_diagnostics() {
    let rewriter = mod1_policy(false, true);
    let templates = TaggedTemplateTransformer::new();
    let module = Module { items: vec![] };
    let (out, diags) = run_pipeline(&rewriter, &templates, &module);
    assert_eq!(out.items.len(), 0);
    assert_eq!(diags.len(), 0);
}
