use vstd::prelude::*;

use crate::ast::Binding;
use crate::ast::BindingV;
use crate::ast::ImportDecl;
use crate::ast::ImportDeclV;
use crate::ast::Module;
use crate::ast::ModuleItem;
use crate::ast::ModuleItemV;
use crate::ast::ModuleV;
use crate::diag::DiagKind;
use crate::diag::DiagV;
use crate::diag::Diagnostic;
use crate::diag::diags_model;

verus! {

broadcast use vstd::seq::axiom_seq_index_decreases, vstd::seq::axiom_seq_subrange_decreases, vstd::std_specs::vec::group_vec_axioms;

/// The per-package rewrite policy.
pub struct PackageConfig {
    /// The specifier that a matched declaration is redirected to.
    pub transform_path: String,
    /// Flag a bare or namespace import of the package as a policy violation.
    pub prevent_full_import: bool,
    /// Keep a default-import binding as a default-import binding instead of
    /// converting it into a named binding.
    pub skip_default_conversion: bool,
}

/// Mathematical image of a `PackageConfig`.
#[verifier::ext_equal]
pub struct PackageConfigV {
    pub transform_path: Seq<char>,
    pub prevent_full_import: bool,
    pub skip_default_conversion: bool,
}

impl PackageConfig {
    pub open spec fn model(self) -> PackageConfigV {
        PackageConfigV {
            transform_path: self.transform_path@,
            prevent_full_import: self.prevent_full_import,
            skip_default_conversion: self.skip_default_conversion,
        }
    }
}

/// The import-rewriting pass: a read-only map from package name to policy,
/// applied to every import declaration of a module.
pub struct ImportRewriter {
    pub packages: Vec<(String, PackageConfig)>,
}

pub open spec fn packages_model(s: Seq<(String, PackageConfig)>) -> Seq<(Seq<char>, PackageConfigV)> {
    s.map_values(|p: (String, PackageConfig)| (p.0@, p.1.model()))
}

/// The policy for `name`: the first (and, under `wf`, the only) entry whose
/// key equals `name`.
pub open spec fn lookup_v(entries: Seq<(Seq<char>, PackageConfigV)>, name: Seq<char>) -> Option<
    PackageConfigV,
>
    decreases entries,
{
    if entries.len() == 0 {
        None
    } else if entries[0].0 == name {
        Some(entries[0].1)
    } else {
        lookup_v(entries.subrange(1, entries.len() as int), name)
    }
}

/// The imported name a default binding is converted to when
/// `skip_default_conversion` is false: the module's default export.
pub open spec fn default_export_name() -> Seq<char> {
    "default"@
}

/// How one binding of a matched declaration is rewritten.
pub open spec fn rewrite_binding_v(b: BindingV, skip_default_conversion: bool) -> BindingV {
    match b {
        BindingV::Default { local } => {
            if skip_default_conversion {
                BindingV::Default { local }
            } else {
                BindingV::Named { imported: default_export_name(), local }
            }
        },
        _ => b,
    }
}

/// A bare or namespace import: no per-binding narrowing of what is imported.
pub open spec fn is_full_import_v(d: ImportDeclV) -> bool {
    ||| d.bindings.len() == 0
    ||| exists|i: int| 0 <= i < d.bindings.len() && d.bindings[i] is Namespace
}

/// How one declaration is rewritten: a declaration whose specifier is not a
/// configured package name passes through unchanged; a matched one gets the
/// policy's `transform_path` as its specifier and its bindings mapped through
/// `rewrite_binding_v`.
pub open spec fn rewrite_import_v(
    d: ImportDeclV,
    entries: Seq<(Seq<char>, PackageConfigV)>,
) -> ImportDeclV {
    match lookup_v(entries, d.specifier) {
        None => d,
        Some(cfg) => ImportDeclV {
            specifier: cfg.transform_path,
            bindings: d.bindings.map_values(
                |b: BindingV| rewrite_binding_v(b, cfg.skip_default_conversion),
            ),
        },
    }
}

/// The diagnostics that rewriting one declaration surfaces: one policy
/// violation when `prevent_full_import` is set and the matched declaration is
/// a bare or namespace import, and nothing otherwise. The rewrite is still
/// applied to a flagged declaration.
pub open spec fn import_diags_v(
    d: ImportDeclV,
    entries: Seq<(Seq<char>, PackageConfigV)>,
) -> Seq<DiagV> {
    match lookup_v(entries, d.specifier) {
        None => Seq::empty(),
        Some(cfg) => {
            if cfg.prevent_full_import && is_full_import_v(d) {
                seq![DiagV { kind: DiagKind::PolicyViolation, subject: d.specifier }]
            } else {
                Seq::empty()
            }
        },
    }
}

/// Image of the whole pass on a module: import items rewritten, statements
/// untouched.
pub open spec fn rewrite_module_imports_v(
    m: ModuleV,
    entries: Seq<(Seq<char>, PackageConfigV)>,
) -> ModuleV {
    ModuleV {
        items: m.items.map_values(
            |it: ModuleItemV|
                match it {
                    ModuleItemV::Import(d) => ModuleItemV::Import(rewrite_import_v(d, entries)),
                    ModuleItemV::Stmt(e) => ModuleItemV::Stmt(e),
                },
        ),
    }
}

/// The pass's diagnostics, in source order of the declarations.
pub open spec fn module_import_diags_v(
    items: Seq<ModuleItemV>,
    entries: Seq<(Seq<char>, PackageConfigV)>,
) -> Seq<DiagV>
    decreases items,
{
    if items.len() == 0 {
        Seq::empty()
    } else {
        module_import_diags_v(items.subrange(0, items.len() - 1), entries) + (match items[items.len()
            - 1] {
            ModuleItemV::Import(d) => import_diags_v(d, entries),
            ModuleItemV::Stmt(_) => Seq::empty(),
        })
    }
}

impl ImportRewriter {
    pub open spec fn model(self) -> Seq<(Seq<char>, PackageConfigV)> {
        packages_model(self.packages@)
    }

    /// The configuration invariant: package names are distinct, and every
    /// target path is a non-empty specifier (so that rewriting preserves the
    /// tree invariant on declarations).
    pub open spec fn wf(self) -> bool {
        &&& forall|i: int, j: int|
            0 <= i < j < self.model().len() ==> (#[trigger] self.model()[i]).0 != (
            #[trigger] self.model()[j]).0
        &&& forall|i: int|
            0 <= i < self.model().len() ==> (#[trigger] self.model()[i]).1.transform_path.len() > 0
    }

    pub fn new(packages: Vec<(String, PackageConfig)>) -> (r: Self)
        ensures
            r.packages == packages,
    {
        ImportRewriter { packages }
    }

    /// The index of the entry for `name`, if one exists.
    fn lookup_index(&self, name: &String) -> (r: Option<usize>)
        ensures
            match r {
                Some(i) => i < self.packages@.len() && self.model()[i as int].0 == name@
                    && lookup_v(self.model(), name@) == Some(self.model()[i as int].1),
                None => lookup_v(self.model(), name@) is None,
            },
    {
        let mut i: usize = 0;
        proof {
            assert(self.model().subrange(0, self.model().len() as int) =~= self.model());
        }
        while i < self.packages.len()
            invariant
                i <= self.packages@.len(),
                lookup_v(self.model(), name@) == lookup_v(
                    self.model().subrange(i as int, self.model().len() as int),
                    name@,
                ),
            decreases self.packages@.len() - i,
        {
            proof {
                assert(self.model().subrange(i as int, self.model().len() as int)[0]
                    == self.model()[i as int]);
                assert(self.model().subrange(i as int, self.model().len() as int).subrange(
                    1,
                    self.model().subrange(i as int, self.model().len() as int).len() as int,
                ) =~= self.model().subrange(i + 1, self.model().len() as int));
            }
            if self.packages[i].0 == *name {
                return Some(i);
            }
            i += 1;
        }
        proof {
            assert(self.model().subrange(
                self.model().len() as int,
                self.model().len() as int,
            ).len() == 0);
        }
        None
    }

    /// Rewrite one import declaration per the policy map, appending any
    /// policy-violation diagnostic to `diags`.
    pub fn rewrite_import(&self, d: &ImportDecl, diags: &mut Vec<Diagnostic>) -> (r: ImportDecl)
        ensures
            r.model() == rewrite_import_v(d.model(), self.model()),
            diags_model(final(diags)@) == diags_model(old(diags)@) + import_diags_v(
                d.model(),
                self.model(),
            ),
            self.wf() && d.wf() ==> r.wf(),
    {
        let idx = self.lookup_index(&d.specifier);
        match idx {
            None => {
                let r = crate::ast::clone_import_decl(d);
                proof {
                    assert(diags_model(diags@) =~= diags_model(diags@) + import_diags_v(
                        d.model(),
                        self.model(),
                    ));
                }
                r
            },
            Some(pi) => {
                let cfg = &self.packages[pi].1;
                let mut full = d.bindings.len() == 0;
                let mut bindings: Vec<Binding> = Vec::new();
                let mut i: usize = 0;
                while i < d.bindings.len()
                    invariant
                        i <= d.bindings@.len(),
                        bindings@.len() == i as int,
                        forall|j: int|
                            0 <= j < i ==> (#[trigger] bindings@[j]).model() == rewrite_binding_v(
                                d.bindings@[j].model(),
                                cfg.skip_default_conversion,
                            ),
                        full == (d.bindings@.len() == 0 || exists|j: int|
                            0 <= j < i && d.bindings@[j].model() is Namespace),
                    decreases d.bindings@.len() - i,
                {
                    let b = &d.bindings[i];
                    let nb = match b {
                        Binding::Default { local } => {
                            if cfg.skip_default_conversion {
                                Binding::Default { local: local.clone() }
                            } else {
                                Binding::Named {
                                    imported: String::from_str("default"),
                                    local: local.clone(),
                                }
                            }
                        },
                        Binding::Named { imported, local } => Binding::Named {
                            imported: imported.clone(),
                            local: local.clone(),
                        },
                        Binding::Namespace { local } => {
                            full = true;
                            Binding::Namespace { local: local.clone() }
                        },
                    };
                    bindings.push(nb);
                    i += 1;
                }
                if cfg.prevent_full_import && full {
                    let diag = Diagnostic {
                        kind: DiagKind::PolicyViolation,
                        subject: d.specifier.clone(),
                        detail: String::from_str("full import of a package whose policy prevents it"),
                    };
                    diags.push(diag);
                }
                let r = ImportDecl { specifier: cfg.transform_path.clone(), bindings };
                proof {
                    if full && d.bindings@.len() > 0 {
                        let j = choose|j: int|
                            0 <= j < d.bindings@.len() && d.bindings@[j].model() is Namespace;
                        assert(d.model().bindings[j] is Namespace);
                    }
                    if is_full_import_v(d.model()) && d.bindings@.len() > 0 {
                        let j = choose|j: int|
                            0 <= j < d.model().bindings.len() && d.model().bindings[j] is Namespace;
                        assert(d.bindings@[j].model() is Namespace);
                    }
                    assert(full == is_full_import_v(d.model()));
                    assert(r.model().bindings =~= d.model().bindings.map_values(
                        |b: BindingV| rewrite_binding_v(b, cfg.skip_default_conversion),
                    ));
                    assert(r.model() =~= rewrite_import_v(d.model(), self.model()));
                    assert(diags_model(diags@) =~= diags_model(old(diags)@) + import_diags_v(
                        d.model(),
                        self.model(),
                    ));
                }
                r
            },
        }
    }

    /// Run the pass over a module: every import declaration is rewritten per
    /// the policy map, in source order; statements pass through unchanged.
    pub fn rewrite_module(&self, m: &Module, diags: &mut Vec<Diagnostic>) -> (r: Module)
        ensures
            r.model() == rewrite_module_imports_v(m.model(), self.model()),
            diags_model(final(diags)@) == diags_model(old(diags)@) + module_import_diags_v(
                m.model().items,
                self.model(),
            ),
            self.wf() && m.wf() ==> r.wf(),
    {
        let mut items: Vec<ModuleItem> = Vec::new();
        let mut i: usize = 0;
        while i < m.items.len()
            invariant
                i <= m.items@.len(),
                items@.len() == i as int,
                forall|j: int|
                    0 <= j < i ==> (#[trigger] items@[j]).model() == rewrite_module_imports_v(
                        m.model(),
                        self.model(),
                    ).items[j],
                diags_model(diags@) == diags_model(old(diags)@) + module_import_diags_v(
                    m.model().items.subrange(0, i as int),
                    self.model(),
                ),
                self.wf() && m.wf() ==> forall|j: int|
                    0 <= j < i ==> (#[trigger] items@[j]).wf(),
        decreases m.items@.len() - i,
        {
            proof {
                assert(m.model().items.subrange(0, i + 1).subrange(0, i as int) =~= m.model()
                    .items.subrange(0, i as int));
                assert(m.model().items.subrange(0, i + 1)[i as int] == m.model().items[i as int]);
                assert(m.model().items[i as int] == m.items@[i as int].model());
            }
            let it = &m.items[i];
            let nit = match it {
                ModuleItem::Import(dcl) => {
                    let nd = self.rewrite_import(dcl, diags);
                    ModuleItem::Import(nd)
                },
                ModuleItem::Stmt(e) => ModuleItem::Stmt(crate::ast::clone_expr(e)),
            };
            items.push(nit);
            i += 1;
        }
        let r = Module { items };
        proof {
            assert(m.model().items.subrange(0, m.items@.len() as int) =~= m.model().items);
            assert(r.model() =~= rewrite_module_imports_v(m.model(), self.model()));
        }
        r
    }
}

} // verus!
