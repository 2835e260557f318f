use vstd::prelude::*;

verus! {

/// The recoverable conditions that the passes report.
pub enum DiagKind {
    /// `prevent_full_import` was set and a matched declaration is a bare or
    /// namespace import.
    PolicyViolation,
    /// A recognized tag whose template carries embedded expressions, so its
    /// static text cannot be assembled.
    DynamicTemplate,
    /// A tagged template whose tag is not a recognized identifier.
    UnrecognizedTag,
    /// The static text of a recognized template was rejected by its
    /// sub-language parser; the original text was kept.
    SubParseError,
}

/// One recoverable condition, surfaced to the caller alongside the
/// transformed tree. `subject` identifies what the record is about (a
/// specifier, a tag name, or the offending text); `detail` carries free text
/// such as a parser's error message.
pub struct Diagnostic {
    pub kind: DiagKind,
    pub subject: String,
    pub detail: String,
}

/// Mathematical image of a `Diagnostic`. The `detail` field is left out: for
/// sub-language parse errors it holds a formatted message whose exact text no
/// contract pins down.
#[verifier::ext_equal]
pub struct DiagV {
    pub kind: DiagKind,
    pub subject: Seq<char>,
}

impl Diagnostic {
    pub open spec fn model(self) -> DiagV {
        DiagV { kind: self.kind, subject: self.subject@ }
    }
}

pub open spec fn diags_model(s: Seq<Diagnostic>) -> Seq<DiagV> {
    s.map_values(|d: Diagnostic| d.model())
}

} // verus!
