//! The structural model of the declaration the transformation consumes and
//! of the one it emits.

use vstd::prelude::*;
use crate::mode::Mode;

verus! {

/// A function declaration as the transformation consumes it: the qualifiers
/// and markers the logic reads, the signature's rendered pieces as plain
/// text, and the ordered body statements. Pieces the transformation does not
/// read are carried verbatim.
#[derive(Debug, PartialEq, Eq)]
pub struct FnDecl {
    /// Pre-existing non-configuration attributes, each rendered verbatim.
    pub attrs: Vec<String>,
    /// The visibility, rendered; empty for an inherited one.
    pub vis: String,
    pub is_const: bool,
    pub is_unsafe: bool,
    /// The declaration's own name.
    pub name: String,
    /// The generic parameter list, rendered without its angle brackets;
    /// empty when the declaration has none.
    pub generic_params: String,
    /// The `where` clause, rendered; empty when the declaration has none.
    pub where_clause: String,
    /// The ordered parameter list, rendered.
    pub params: String,
    pub is_variadic: bool,
    /// The return type, rendered with its arrow; empty when the declaration
    /// leaves it implicit.
    pub ret: String,
    /// The ordered body statements, each rendered.
    pub body: Vec<String>,
}

/// Spec-level mirror of `FnDecl`.
pub struct FnDeclV {
    pub attrs: Seq<Seq<char>>,
    pub vis: Seq<char>,
    pub is_const: bool,
    pub is_unsafe: bool,
    pub name: Seq<char>,
    pub generic_params: Seq<char>,
    pub where_clause: Seq<char>,
    pub params: Seq<char>,
    pub is_variadic: bool,
    pub ret: Seq<char>,
    pub body: Seq<Seq<char>>,
}

impl View for FnDecl {
    type V = FnDeclV;

    open spec fn view(&self) -> FnDeclV {
        FnDeclV {
            attrs: self.attrs.deep_view(),
            vis: self.vis@,
            is_const: self.is_const,
            is_unsafe: self.is_unsafe,
            name: self.name@,
            generic_params: self.generic_params@,
            where_clause: self.where_clause@,
            params: self.params@,
            is_variadic: self.is_variadic,
            ret: self.ret@,
            body: self.body.deep_view(),
        }
    }
}

/// The rewritten declaration, ready to be substituted at the original site:
/// directives resolved, convention fixed, and the declaration pieces to
/// emit. In `Import` mode it describes the single declaration inside a
/// foreign block scoped under the resolved convention.
#[derive(Debug, PartialEq, Eq)]
pub struct Synthesized {
    /// The terminal mode: `Export` for an inline definition, `Import` for a
    /// foreign-block declaration.
    pub mode: Mode,
    /// The feature guard, when conditional inclusion was requested.
    pub feature_guard: Option<String>,
    /// The rename directive's payload, when a rename was requested.
    pub export_name: Option<String>,
    /// Whether the mangling-suppression directive is attached.
    pub no_mangle: bool,
    /// The resolved calling convention the declaration is scoped under.
    pub abi: String,
    pub attrs: Vec<String>,
    pub vis: String,
    pub is_const: bool,
    pub is_unsafe: bool,
    pub name: String,
    pub generic_params: String,
    pub where_clause: String,
    pub params: String,
    pub is_variadic: bool,
    pub ret: String,
    /// The body statements; always empty in `Import` mode.
    pub body: Vec<String>,
}

/// Spec-level mirror of `Synthesized`.
pub struct SynthesizedV {
    pub mode: Mode,
    pub feature_guard: Option<Seq<char>>,
    pub export_name: Option<Seq<char>>,
    pub no_mangle: bool,
    pub abi: Seq<char>,
    pub attrs: Seq<Seq<char>>,
    pub vis: Seq<char>,
    pub is_const: bool,
    pub is_unsafe: bool,
    pub name: Seq<char>,
    pub generic_params: Seq<char>,
    pub where_clause: Seq<char>,
    pub params: Seq<char>,
    pub is_variadic: bool,
    pub ret: Seq<char>,
    pub body: Seq<Seq<char>>,
}

impl View for Synthesized {
    type V = SynthesizedV;

    open spec fn view(&self) -> SynthesizedV {
        SynthesizedV {
            mode: self.mode,
            feature_guard: crate::abi::opt_str_view(self.feature_guard),
            export_name: crate::abi::opt_str_view(self.export_name),
            no_mangle: self.no_mangle,
            abi: self.abi@,
            attrs: self.attrs.deep_view(),
            vis: self.vis@,
            is_const: self.is_const,
            is_unsafe: self.is_unsafe,
            name: self.name@,
            generic_params: self.generic_params@,
            where_clause: self.where_clause@,
            params: self.params@,
            is_variadic: self.is_variadic,
            ret: self.ret@,
            body: self.body.deep_view(),
        }
    }
}

} // verus!
