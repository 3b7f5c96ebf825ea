//! The transformation mode and its inference from the declaration's body.

use vstd::prelude::*;

verus! {

/// The two terminal transformation modes: an exported definition or an
/// imported, bodyless foreign declaration.
#[derive(Clone, Copy, Debug, PartialEq, Eq, Structural)]
pub enum Mode {
    Export,
    Import,
}

/// The resolved mode: an explicit choice wins; otherwise an empty body means
/// the declaration is a stub to be imported, and a non-empty body means it
/// supplies an implementation to be exported.
pub open spec fn spec_infer_mode(explicit: Option<Mode>, body_len: nat) -> Mode {
    match explicit {
        Some(m) => m,
        None => if body_len == 0 {
            Mode::Import
        } else {
            Mode::Export
        },
    }
}

/// Resolves the final transformation mode from the configured mode and the
/// declaration's body statements.
pub fn infer_mode(explicit: &Option<Mode>, body: &Vec<String>) -> (m: Mode)
    ensures
        m == spec_infer_mode(*explicit, body@.len()),
{
    match explicit {
        Some(m) => *m,
        None => if body.len() == 0 {
            Mode::Import
        } else {
            Mode::Export
        },
    }
}

} // verus!
