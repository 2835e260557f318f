use vstd::prelude::*;

use crate::diag::DiagKind;
use crate::diag::DiagV;
use crate::diag::Diagnostic;
use crate::diag::diags_model;
use swc_common::BytePos;
use swc_common::input::StringInput;
use swc_css_codegen::writer::basic::BasicCssWriter;
use swc_css_codegen::writer::basic::BasicCssWriterConfig;
use swc_html_codegen::writer::basic::BasicHtmlWriter;
use swc_html_codegen::writer::basic::BasicHtmlWriterConfig;

verus! {

/// The embedded sub-languages a recognized tag can denote.
#[derive(Clone, Copy, PartialEq, Eq, Structural)]
pub enum SubLang {
    Markup,
    Stylesheet,
}

/// Whether the markup parser accepts a text. Decided by
/// `swc_html_parser`; a function of the text alone.
pub uninterp spec fn markup_parses(s: Seq<char>) -> bool;

/// The text that parsing, minifying and re-serializing a markup text yields,
/// for a text that `markup_parses` accepts. Computed by `swc_html_parser`,
/// `swc_html_minifier` and `swc_html_codegen` with this crate's fixed
/// options; a function of the text alone.
pub uninterp spec fn markup_minified(s: Seq<char>) -> Seq<char>;

/// Whether the stylesheet parser accepts a text. Decided by
/// `swc_css_parser`; a function of the text alone.
pub uninterp spec fn style_parses(s: Seq<char>) -> bool;

/// The text that parsing and re-serializing (with minification) a stylesheet
/// text yields, for a text that `style_parses` accepts. Computed by
/// `swc_css_parser` and `swc_css_codegen`; a function of the text alone.
pub uninterp spec fn style_minified(s: Seq<char>) -> Seq<char>;

pub open spec fn lang_parses(lang: SubLang, s: Seq<char>) -> bool {
    match lang {
        SubLang::Markup => markup_parses(s),
        SubLang::Stylesheet => style_parses(s),
    }
}

pub open spec fn lang_minified(lang: SubLang, s: Seq<char>) -> Seq<char> {
    match lang {
        SubLang::Markup => markup_minified(s),
        SubLang::Stylesheet => style_minified(s),
    }
}

/// What minification leaves in a template: the minified text where the
/// sub-language parser accepts the static text, and the original text
/// verbatim where it does not — content is never dropped.
pub open spec fn lang_result(lang: SubLang, s: Seq<char>) -> Seq<char> {
    if lang_parses(lang, s) {
        lang_minified(lang, s)
    } else {
        s
    }
}

/// The diagnostics that minifying one text surfaces: one record carrying the
/// offending text when the sub-language parser rejects it, nothing otherwise.
pub open spec fn sub_parse_diags_v(lang: SubLang, s: Seq<char>) -> Seq<DiagV> {
    if lang_parses(lang, s) {
        Seq::empty()
    } else {
        seq![DiagV { kind: DiagKind::SubParseError, subject: s }]
    }
}

#[verifier::external_type_specification]
#[verifier::external_body]
pub struct ExElement(swc_html_ast::Element);

#[verifier::external_type_specification]
#[verifier::external_body]
pub struct ExDocumentFragment(swc_html_ast::DocumentFragment);

/// The context element under which markup fragments are parsed and minified:
/// a plain HTML `div`, as for a template destined for element content.
#[verifier::external_body]
fn div_context() -> swc_html_ast::Element {
    swc_html_ast::Element {
        span: Default::default(),
        namespace: swc_html_ast::Namespace::HTML,
        tag_name: "div".into(),
        attributes: vec![],
        is_self_closing: false,
        children: vec![],
        content: None,
    }
}

/// Relies on `swc_html_minifier::minify_document_fragment`, with the fixed
/// policy of this pass: collapse all whitespace, strip comments (keeping
/// none), strip and merge empty metadata elements, normalize attributes,
/// minify embedded JSON, scripts and styles, minify conditional comments;
/// keep empty, redundant and boolean attributes, and keep attribute order
/// and attribute-value order. The remaining options keep their defaults.
#[verifier::external_body]
fn minify_markup_fragment(doc: &mut swc_html_ast::DocumentFragment) {
    let options = swc_html_minifier::option::MinifyOptions {
        collapse_whitespaces: swc_html_minifier::option::CollapseWhitespaces::All,
        preserve_comments: None,
        remove_empty_attributes: false,
        remove_redundant_attributes: swc_html_minifier::option::RemoveRedundantAttributes::None,
        collapse_boolean_attributes: false,
        sort_space_separated_attribute_values: false,
        ..Default::default()
    };
    swc_html_minifier::minify_document_fragment(doc, &div_context(), &options);
}

/// Relies on `swc_html_codegen::CodeGenerator::emit`: emitting into an
/// in-memory string cannot fail.
#[verifier::external_body]
fn render_markup_fragment(doc: &swc_html_ast::DocumentFragment) -> (r: String) {
    let mut out = String::new();
    let wr = BasicHtmlWriter::new(&mut out, None, BasicHtmlWriterConfig::default());
    let mut g = swc_html_codegen::CodeGenerator::new(
        wr,
        swc_html_codegen::CodegenConfig { scripting_enabled: true, minify: false, ..Default::default() },
    );
    swc_html_codegen::Emit::emit(&mut g, doc).unwrap();
    out
}

/// Relies on `swc_html_parser::parser::Parser::parse_document_fragment` (in
/// a no-quirks `div` context) and, through the two wrappers above, on the
/// markup minifier and code generator: whether parsing succeeds, and the
/// re-serialized text when it does, are functions of the input text alone,
/// here named `markup_parses` and `markup_minified`. On a parse failure the
/// error's rendering is returned, of which nothing is claimed.
#[verifier::external_body]
fn ex_minify_markup(code: &str) -> (r: Result<String, String>)
    ensures
        r is Ok <==> markup_parses(code@),
        r matches Ok(t) ==> t@ == markup_minified(code@),
{
    let input = StringInput::new(code, BytePos(0), BytePos(code.len() as u32));
    let mut parser = swc_html_parser::parser::Parser::new(
        swc_html_parser::lexer::Lexer::new(input),
        Default::default(),
    );
    match parser.parse_document_fragment(div_context(), swc_html_ast::DocumentMode::NoQuirks, None) {
        Ok(mut doc) => {
            minify_markup_fragment(&mut doc);
            Ok(render_markup_fragment(&doc))
        },
        Err(e) => Err(format!("{:?}", e)),
    }
}

/// Relies on `swc_css_parser::parser::Parser::parse_all` and
/// `swc_css_codegen::CodeGenerator::emit` with `minify: true`: whether
/// parsing succeeds, and the minified serialization when it does, are
/// functions of the input text alone, here named `style_parses` and
/// `style_minified`. Minification of a stylesheet is unconditional. On a
/// parse failure the error's rendering is returned, of which nothing is
/// claimed.
#[verifier::external_body]
fn ex_minify_style(code: &str) -> (r: Result<String, String>)
    ensures
        r is Ok <==> style_parses(code@),
        r matches Ok(t) ==> t@ == style_minified(code@),
{
    let input = StringInput::new(code, BytePos(0), BytePos(code.len() as u32));
    let lexer = swc_css_parser::lexer::Lexer::new(input, None, Default::default());
    let mut parser = swc_css_parser::parser::Parser::new(lexer, Default::default());
    let sheet = match parser.parse_all() {
        Ok(s) => s,
        Err(e) => return Err(format!("{:?}", e)),
    };
    let mut out = String::new();
    let wr = BasicCssWriter::new(&mut out, None, BasicCssWriterConfig::default());
    let cfg = swc_css_codegen::CodegenConfig { minify: true };
    let mut g = swc_css_codegen::CodeGenerator::new(wr, cfg);
    swc_css_codegen::Emit::emit(&mut g, &sheet).unwrap();
    Ok(out)
}

/// Minify a text as the given sub-language. On parse failure the original
/// text is handed back unchanged and one diagnostic carrying the offending
/// text (and the parser's message as detail) is appended: a sub-language
/// parse error never drops content and never aborts the run.
pub fn minify_text(lang: SubLang, code: &String, diags: &mut Vec<Diagnostic>) -> (r: String)
    ensures
        r@ == lang_result(lang, code@),
        diags_model(final(diags)@) == diags_model(old(diags)@) + sub_parse_diags_v(lang, code@),
{
    let res = match lang {
        SubLang::Markup => ex_minify_markup(code.as_str()),
        SubLang::Stylesheet => ex_minify_style(code.as_str()),
    };
    match res {
        Ok(t) => {
            proof {
                assert(diags_model(diags@) =~= diags_model(diags@) + sub_parse_diags_v(
                    lang,
                    code@,
                ));
            }
            t
        },
        Err(e) => {
            let d = Diagnostic { kind: DiagKind::SubParseError, subject: code.clone(), detail: e };
            diags.push(d);
            proof {
                assert(diags_model(diags@) =~= diags_model(old(diags)@) + sub_parse_diags_v(
                    lang,
                    code@,
                ));
            }
            code.clone()
        },
    }
}

} // verus!
