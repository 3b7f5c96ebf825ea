//! The ABI registry: the closed set of recognized calling-convention
//! identifiers, membership validation, and the capability record derived
//! from a resolved convention.

use vstd::prelude::*;
use crate::error::Error;
use crate::error::ErrorV;

verus! {

/// The closed set of recognized calling-convention identifiers, in registry
/// order. The final entry is the sentinel meaning "no convention enforced".
pub open spec fn abi_list() -> Seq<Seq<char>> {
    seq![
        "Rust"@,
        "C"@,
        "C-unwind"@,
        "C-cmse-nonsecure-call"@,
        "C-cmse-nonsecure-entry"@,
        "cdecl"@,
        "rust-call"@,
        "stdcall"@,
        "stdcall-unwind"@,
        "fastcall"@,
        "vectorcall"@,
        "thiscall"@,
        "thiscall-unwind"@,
        "aapcs"@,
        "win64"@,
        "sysv64"@,
        "ptx-kernel"@,
        "msp430-interrupt"@,
        "x86-interrupt"@,
        "efiapi"@,
        "avr-interrupt"@,
        "avr-non-blocking-interrupt"@,
        "riscv-interrupt-m"@,
        "riscv-interrupt-s"@,
        "wasm"@,
        "system"@,
        "system-unwind"@,
        "rust-intrinsic"@,
        "platform-intrinsic"@,
        "unadjusted"@,
        "none"@,
    ]
}

/// A candidate identifier is valid exactly when the registry holds it.
pub open spec fn is_registered(s: Seq<char>) -> bool {
    abi_list().contains(s)
}

/// String equality by content.
pub fn str_equal(a: &str, b: &str) -> (r: bool)
    ensures
        r == (a@ == b@),
{
    let x: String = a.to_owned();
    let y: String = b.to_owned();
    x == y
}

/// The registry as runtime strings, in the same order as `abi_list`.
pub fn abi_registry() -> (v: Vec<String>)
    ensures
        v.deep_view() == abi_list(),
{
    let mut v: Vec<String> = Vec::new();
    v.push("Rust".to_owned());
    v.push("C".to_owned());
    v.push("C-unwind".to_owned());
    v.push("C-cmse-nonsecure-call".to_owned());
    v.push("C-cmse-nonsecure-entry".to_owned());
    v.push("cdecl".to_owned());
    v.push("rust-call".to_owned());
    v.push("stdcall".to_owned());
    v.push("stdcall-unwind".to_owned());
    v.push("fastcall".to_owned());
    v.push("vectorcall".to_owned());
    v.push("thiscall".to_owned());
    v.push("thiscall-unwind".to_owned());
    v.push("aapcs".to_owned());
    v.push("win64".to_owned());
    v.push("sysv64".to_owned());
    v.push("ptx-kernel".to_owned());
    v.push("msp430-interrupt".to_owned());
    v.push("x86-interrupt".to_owned());
    v.push("efiapi".to_owned());
    v.push("avr-interrupt".to_owned());
    v.push("avr-non-blocking-interrupt".to_owned());
    v.push("riscv-interrupt-m".to_owned());
    v.push("riscv-interrupt-s".to_owned());
    v.push("wasm".to_owned());
    v.push("system".to_owned());
    v.push("system-unwind".to_owned());
    v.push("rust-intrinsic".to_owned());
    v.push("platform-intrinsic".to_owned());
    v.push("unadjusted".to_owned());
    v.push("none".to_owned());
    proof {
        assert(v.deep_view() =~= abi_list());
    }
    v
}

/// Capability record derived from a resolved calling convention: whether the
/// convention mangles the exported symbol (so a suppression directive must be
/// emitted) and whether it can carry generic parameters. The two flags are
/// always computed together from the resolved convention, never set
/// independently.
#[derive(Clone, Copy, Debug, PartialEq, Eq, Structural)]
pub struct Caps {
    pub mangles_symbol: bool,
    pub supports_generics: bool,
}

/// The conventions that keep language-native symbol handling: the default
/// language convention and its call-by-value and intrinsic relatives.
pub open spec fn in_native_family(s: Seq<char>) -> bool {
    s == "Rust"@ || s == "rust-call"@ || s == "rust-intrinsic"@
}

/// The view of an optional resolved convention.
pub open spec fn opt_str_view(o: Option<String>) -> Option<Seq<char>> {
    match o {
        Some(s) => Some(s@),
        None => None,
    }
}

/// The capability record for a resolved convention. `None` stands for "no
/// convention enforced", which mangles the symbol and carries no generics.
pub open spec fn spec_caps(abi: Option<Seq<char>>) -> Caps {
    match abi {
        Some(a) => if in_native_family(a) {
            Caps { mangles_symbol: false, supports_generics: true }
        } else {
            Caps { mangles_symbol: true, supports_generics: false }
        },
        None => Caps { mangles_symbol: true, supports_generics: false },
    }
}

/// Computes the capability record of a resolved convention, the one place
/// where the native-family exception is decided.
pub fn caps_for(abi: &Option<String>) -> (c: Caps)
    ensures
        c == spec_caps(opt_str_view(*abi)),
{
    match abi {
        Some(a) => {
            if str_equal(a.as_str(), "Rust") || str_equal(a.as_str(), "rust-call")
                || str_equal(a.as_str(), "rust-intrinsic") {
                Caps { mangles_symbol: false, supports_generics: true }
            } else {
                Caps { mangles_symbol: true, supports_generics: false }
            }
        },
        None => Caps { mangles_symbol: true, supports_generics: false },
    }
}

/// The two capability flags co-vary: a resolved convention supports generic
/// parameters exactly when it does not mangle the symbol.
pub proof fn lemma_caps_covary(abi: Option<Seq<char>>)
    ensures
        spec_caps(abi).supports_generics == !spec_caps(abi).mangles_symbol,
{
}

/// The registry is closed: it holds exactly 31 identifiers.
pub proof fn lemma_registry_size()
    ensures
        abi_list().len() == 31,
{
}

/// Registry membership test for a candidate identifier.
pub fn valid_abi(abi: &str) -> (r: bool)
    ensures
        r == is_registered(abi@),
{
    let reg = abi_registry();
    let mut i: usize = 0;
    while i < reg.len()
        invariant
            i <= reg.len(),
            reg.deep_view() == abi_list(),
            forall|j: int| 0 <= j < i ==> abi_list()[j] != abi@,
        decreases reg.len() - i,
    {
        if str_equal(abi, reg[i].as_str()) {
            proof {
                assert(abi_list()[i as int] == abi@);
            }
            return true;
        }
        i += 1;
    }
    false
}

/// Validates a candidate convention against the registry: a member comes back
/// unchanged, anything else fails with `InvalidAbi`.
pub fn validate(abi: String) -> (r: Result<String, Error>)
    ensures
        r is Ok <==> is_registered(abi@),
        r is Ok ==> r->Ok_0 == abi,
        r is Err ==> r->Err_0@ == (ErrorV::InvalidAbi { value: abi@ }),
{
    if valid_abi(abi.as_str()) {
        Ok(abi)
    } else {
        Err(Error::InvalidAbi { value: abi })
    }
}

} // verus!
