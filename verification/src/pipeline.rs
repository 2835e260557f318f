use vstd::prelude::*;

use crate::ast::Module;
use crate::ast::ModuleV;
use crate::diag::Diagnostic;
use crate::diag::DiagV;
use crate::diag::diags_model;
use crate::imports::ImportRewriter;
use crate::imports::PackageConfigV;
use crate::imports::module_import_diags_v;
use crate::imports::rewrite_module_imports_v;
use crate::sublang::SubLang;
use crate::templates::TaggedTemplateTransformer;
use crate::templates::module_tpl_diags_v;
use crate::templates::rw_module_v;

verus! {

/// Image of the whole pipeline on one module: import rewriting first, then
/// embedded-content rewriting, in that fixed order.
pub open spec fn pipeline_v(
    m: ModuleV,
    packages: Seq<(Seq<char>, PackageConfigV)>,
    tags: Seq<(Seq<char>, SubLang)>,
) -> ModuleV {
    rw_module_v(rewrite_module_imports_v(m, packages), tags)
}

/// The diagnostics of a whole run: those of the import pass, then those of
/// the embedded-content pass over the import-rewritten tree.
pub open spec fn pipeline_diags_v(
    m: ModuleV,
    packages: Seq<(Seq<char>, PackageConfigV)>,
    tags: Seq<(Seq<char>, SubLang)>,
) -> Seq<DiagV> {
    module_import_diags_v(m.items, packages) + module_tpl_diags_v(
        rewrite_module_imports_v(m, packages).items,
        tags,
    )
}

/// Run both passes over one module tree, in the fixed order, and hand back
/// the transformed tree together with the run's diagnostics. Serialization
/// of the result is the caller's business.
pub fn run_pipeline(
    imports: &ImportRewriter,
    templates: &TaggedTemplateTransformer,
    m: &Module,
) -> (r: (Module, Vec<Diagnostic>))
    ensures
        r.0.model() == pipeline_v(m.model(), imports.model(), templates.model()),
        diags_model(r.1@) == pipeline_diags_v(m.model(), imports.model(), templates.model()),
        imports.wf() && m.wf() ==> r.0.wf(),
{
    let mut diags: Vec<Diagnostic> = Vec::new();
    let mid = imports.rewrite_module(m, &mut diags);
    let out = templates.rewrite_module(&mid, &mut diags);
    proof {
        assert(diags_model(Seq::<Diagnostic>::empty()) =~= Seq::<DiagV>::empty());
        assert(diags_model(diags@) =~= pipeline_diags_v(
            m.model(),
            imports.model(),
            templates.model(),
        ));
    }
    (out, diags)
}

} // verus!
