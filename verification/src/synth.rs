//! The declaration synthesizer and the whole transformation pipeline.

use vstd::prelude::*;
use crate::abi::Caps;
use crate::abi::spec_caps;
use crate::config::AttrValue;
use crate::config::Config;
use crate::config::ConfigV;
use crate::config::parse_config;
use crate::config::spec_parse;
use crate::decl::FnDecl;
use crate::decl::FnDeclV;
use crate::decl::Synthesized;
use crate::decl::SynthesizedV;
use crate::error::Error;
use crate::error::ErrorV;
use crate::mode::Mode;
use crate::mode::infer_mode;
use crate::mode::spec_infer_mode;

verus! {

/// The convention the declaration is scoped under: the configured one, or
/// the default language convention when none is set.
pub open spec fn spec_resolved_abi(abi: Option<Seq<char>>) -> Seq<char> {
    match abi {
        Some(a) => a,
        None => "Rust"@,
    }
}

/// The rewritten declaration, piece by piece. The feature guard and rename
/// directives carry the configured values exactly; the suppression directive
/// is attached only to an exported definition of a convention that mangles;
/// the generic parameter list and its `where` clause survive only under a
/// convention that supports generics; an imported declaration loses its
/// qualifiers and its body.
pub open spec fn spec_synthesize(d: FnDeclV, c: ConfigV, m: Mode) -> SynthesizedV {
    let caps = spec_caps(c.abi);
    SynthesizedV {
        mode: m,
        feature_guard: c.feature_guard,
        export_name: c.exported_name,
        no_mangle: m == Mode::Export && caps.mangles_symbol,
        abi: spec_resolved_abi(c.abi),
        attrs: d.attrs,
        vis: d.vis,
        is_const: m == Mode::Export && d.is_const,
        is_unsafe: m == Mode::Export && d.is_unsafe,
        name: d.name,
        generic_params: if caps.supports_generics {
            d.generic_params
        } else {
            Seq::<char>::empty()
        },
        where_clause: if caps.supports_generics {
            d.where_clause
        } else {
            Seq::<char>::empty()
        },
        params: d.params,
        is_variadic: d.is_variadic,
        ret: d.ret,
        body: if m == Mode::Export {
            d.body
        } else {
            Seq::<Seq<char>>::empty()
        },
    }
}

/// Synthesizes the rewritten declaration from the original declaration, the
/// parsed configuration, its capability record, and the resolved mode.
pub fn synthesize(decl: FnDecl, cfg: &Config, caps: Caps, mode: Mode) -> (out: Synthesized)
    requires
        caps == spec_caps(cfg@.abi),
    ensures
        out@ == spec_synthesize(decl@, cfg@, mode),
{
    let abi: String = match &cfg.abi {
        Some(a) => a.clone(),
        None => "Rust".to_owned(),
    };
    let feature_guard: Option<String> = match &cfg.feature_guard {
        Some(f) => Some(f.clone()),
        None => None,
    };
    let export_name: Option<String> = match &cfg.exported_name {
        Some(n) => Some(n.clone()),
        None => None,
    };
    let is_export = mode == Mode::Export;
    let body: Vec<String> = if is_export {
        decl.body
    } else {
        Vec::new()
    };
    proof {
        if !is_export {
            assert(body.deep_view() =~= Seq::<Seq<char>>::empty());
        }
    }
    let out = Synthesized {
        mode,
        feature_guard,
        export_name,
        no_mangle: is_export && caps.mangles_symbol,
        abi,
        attrs: decl.attrs,
        vis: decl.vis,
        is_const: is_export && decl.is_const,
        is_unsafe: is_export && decl.is_unsafe,
        name: decl.name,
        generic_params: if caps.supports_generics {
            decl.generic_params
        } else {
            String::new()
        },
        where_clause: if caps.supports_generics {
            decl.where_clause
        } else {
            String::new()
        },
        params: decl.params,
        is_variadic: decl.is_variadic,
        ret: decl.ret,
        body,
    };
    out
}

/// The whole transformation: parse the configuration, infer the final mode,
/// and synthesize the rewritten declaration; the first failure is returned
/// and produces no output.
pub fn reprfn(pairs: &Vec<(String, AttrValue)>, decl: FnDecl) -> (r: Result<Synthesized, Error>)
    ensures
        ({
            let parsed = spec_parse(pairs@);
            match r {
                Ok(out) => {
                    &&& parsed is Ok
                    &&& out@ == spec_synthesize(
                        decl@,
                        parsed->Ok_0,
                        spec_infer_mode(parsed->Ok_0.mode, decl@.body.len()),
                    )
                },
                Err(e) => parsed == Err::<ConfigV, ErrorV>(e@),
            }
        }),
{
    let (cfg, caps) = match parse_config(pairs) {
        Ok(p) => p,
        Err(e) => {
            return Err(e);
        },
    };
    let m = infer_mode(&cfg.mode, &decl.body);
    Ok(synthesize(decl, &cfg, caps, m))
}

} // verus!
