//! Structured diagnostics of the transformation pipeline, each with an exact
//! message.

use vstd::prelude::*;
use vstd::string::StringExecFns;
use crate::abi::abi_list;
use crate::abi::abi_registry;

verus! {

/// A structured diagnostic from the transformation pipeline.
#[derive(Debug, PartialEq, Eq)]
pub enum Error {
    /// The requested calling convention is not a registry member.
    InvalidAbi { value: String },
    /// The requested mode is not one of the three legal strings.
    InvalidMode { value: String },
    /// A recognized configuration key carries a value that is not a quoted
    /// string.
    MalformedAttribute { key: String },
    /// The annotated item is not a function declaration.
    MalformedDeclaration,
}

/// Spec-level mirror of `Error`.
pub enum ErrorV {
    InvalidAbi { value: Seq<char> },
    InvalidMode { value: Seq<char> },
    MalformedAttribute { key: Seq<char> },
    MalformedDeclaration,
}

impl View for Error {
    type V = ErrorV;

    open spec fn view(&self) -> ErrorV {
        match self {
            Error::InvalidAbi { value } => ErrorV::InvalidAbi { value: value@ },
            Error::InvalidMode { value } => ErrorV::InvalidMode { value: value@ },
            Error::MalformedAttribute { key } => ErrorV::MalformedAttribute { key: key@ },
            Error::MalformedDeclaration => ErrorV::MalformedDeclaration,
        }
    }
}

/// The registry rendered for diagnostics: every entry quoted, in registry
/// order, separated by commas.
pub open spec fn spec_render_entries(l: Seq<Seq<char>>) -> Seq<char>
    decreases l.len(),
{
    if l.len() == 0 {
        Seq::<char>::empty()
    } else {
        let sep: Seq<char> = if l.len() == 1 {
            Seq::<char>::empty()
        } else {
            ", "@
        };
        spec_render_entries(l.drop_last()) + sep + "\""@ + l.last() + "\""@
    }
}

/// The message carried by each diagnostic. An `InvalidAbi` message enumerates
/// the whole registry.
pub open spec fn spec_message(e: ErrorV) -> Seq<char> {
    match e {
        ErrorV::InvalidAbi { value } => "Invalid ABI '"@ + value + "', expecting one of ["@
            + spec_render_entries(abi_list()) + "]"@,
        ErrorV::InvalidMode { value } => "invalid mode '"@ + value
            + "', expecting one of '['none', 'import', 'export']'"@,
        ErrorV::MalformedAttribute { key } => "malformed attribute: the value of '"@ + key
            + "' must be a quoted string"@,
        ErrorV::MalformedDeclaration => "expected a function declaration"@,
    }
}

/// Builds the quoted, comma-separated registry listing used in `InvalidAbi`
/// diagnostics.
fn render_entries() -> (s: String)
    ensures
        s@ == spec_render_entries(abi_list()),
{
    let reg = abi_registry();
    let mut s = String::new();
    let mut i: usize = 0;
    while i < reg.len()
        invariant
            i <= reg.len(),
            reg.deep_view() == abi_list(),
            s@ == spec_render_entries(abi_list().take(i as int)),
        decreases reg.len() - i,
    {
        let ghost prev = s@;
        if i > 0 {
            s.append(", ");
        }
        s.append("\"");
        s.append(reg[i].as_str());
        s.append("\"");
        proof {
            let l = abi_list();
            assert(l.take(i + 1).drop_last() =~= l.take(i as int));
            assert(l.take(i + 1).last() == l[i as int]);
            assert(s@ =~= spec_render_entries(l.take(i + 1)));
        }
        i += 1;
    }
    proof {
        assert(abi_list().take(abi_list().len() as int) =~= abi_list());
    }
    s
}

impl Error {
    /// The diagnostic's message.
    pub fn message(&self) -> (s: String)
        ensures
            s@ == spec_message(self@),
    {
        match self {
            Error::InvalidAbi { value } => {
                let mut s: String = "Invalid ABI '".to_owned();
                s.append(value.as_str());
                s.append("', expecting one of [");
                let entries = render_entries();
                s.append(entries.as_str());
                s.append("]");
                s
            },
            Error::InvalidMode { value } => {
                let mut s: String = "invalid mode '".to_owned();
                s.append(value.as_str());
                s.append("', expecting one of '['none', 'import', 'export']'");
                s
            },
            Error::MalformedAttribute { key } => {
                let mut s: String = "malformed attribute: the value of '".to_owned();
                s.append(key.as_str());
                s.append("' must be a quoted string");
                s
            },
            Error::MalformedDeclaration => "expected a function declaration".to_owned(),
        }
    }
}

} // verus!
