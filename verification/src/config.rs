//! The configuration parser: turns the attribute's key/value pairs into a
//! structured configuration and its derived capability record, validating
//! each value.

use vstd::prelude::*;
use crate::abi::Caps;
use crate::abi::caps_for;
use crate::abi::is_registered;
use crate::abi::opt_str_view;
use crate::abi::spec_caps;
use crate::abi::str_equal;
use crate::abi::valid_abi;
use crate::error::Error;
use crate::error::ErrorV;
use crate::mode::Mode;

verus! {

/// The value of one `key = value` pair: a quoted string, or any other form
/// of value, which no recognized key accepts.
#[derive(Debug, PartialEq, Eq)]
pub enum AttrValue {
    Quoted(String),
    Unquoted,
}

/// The per-invocation configuration. An unset field means "use the default":
/// the platform convention for `abi`, the declaration's own name for
/// `exported_name`, body-based inference for `mode`, unconditional inclusion
/// for `feature_guard`.
#[derive(Debug, PartialEq, Eq)]
pub struct Config {
    pub abi: Option<String>,
    pub exported_name: Option<String>,
    pub mode: Option<Mode>,
    pub feature_guard: Option<String>,
}

/// Spec-level mirror of `Config`.
pub struct ConfigV {
    pub abi: Option<Seq<char>>,
    pub exported_name: Option<Seq<char>>,
    pub mode: Option<Mode>,
    pub feature_guard: Option<Seq<char>>,
}

impl View for Config {
    type V = ConfigV;

    open spec fn view(&self) -> ConfigV {
        ConfigV {
            abi: opt_str_view(self.abi),
            exported_name: opt_str_view(self.exported_name),
            mode: self.mode,
            feature_guard: opt_str_view(self.feature_guard),
        }
    }
}

/// The configuration before any key is seen: everything unset.
pub open spec fn spec_empty_config() -> ConfigV {
    ConfigV { abi: None, exported_name: None, mode: None, feature_guard: None }
}

/// One key/value pair applied to a configuration, exactly as the parser
/// treats it: a recognized key demands a quoted string, the `abi` value is
/// validated against the registry before the sentinel is considered, the
/// `"none"` sentinel unsets a field, and an unrecognized key changes nothing.
pub open spec fn spec_parse_step(c: ConfigV, key: Seq<char>, value: AttrValue) -> Result<
    ConfigV,
    ErrorV,
> {
    if key == "abi"@ {
        match value {
            AttrValue::Quoted(s) => if !is_registered(s@) {
                Err(ErrorV::InvalidAbi { value: s@ })
            } else if s@ == "none"@ {
                Ok(ConfigV { abi: None, ..c })
            } else {
                Ok(ConfigV { abi: Some(s@), ..c })
            },
            AttrValue::Unquoted => Err(ErrorV::MalformedAttribute { key: key }),
        }
    } else if key == "name"@ {
        match value {
            AttrValue::Quoted(s) => if s@ == "none"@ {
                Ok(ConfigV { exported_name: None, ..c })
            } else {
                Ok(ConfigV { exported_name: Some(s@), ..c })
            },
            AttrValue::Unquoted => Err(ErrorV::MalformedAttribute { key: key }),
        }
    } else if key == "mode"@ {
        match value {
            AttrValue::Quoted(s) => if s@ == "none"@ {
                Ok(ConfigV { mode: None, ..c })
            } else if s@ == "import"@ {
                Ok(ConfigV { mode: Some(Mode::Import), ..c })
            } else if s@ == "export"@ {
                Ok(ConfigV { mode: Some(Mode::Export), ..c })
            } else {
                Err(ErrorV::InvalidMode { value: s@ })
            },
            AttrValue::Unquoted => Err(ErrorV::MalformedAttribute { key: key }),
        }
    } else if key == "feature"@ {
        match value {
            AttrValue::Quoted(s) => if s@ == "none"@ {
                Ok(ConfigV { feature_guard: None, ..c })
            } else {
                Ok(ConfigV { feature_guard: Some(s@), ..c })
            },
            AttrValue::Unquoted => Err(ErrorV::MalformedAttribute { key: key }),
        }
    } else {
        Ok(c)
    }
}

/// The pairs applied in order from an intermediate configuration; the first
/// failure short-circuits, and a later occurrence of a key overrides an
/// earlier one.
pub open spec fn spec_parse_from(c: ConfigV, pairs: Seq<(String, AttrValue)>) -> Result<
    ConfigV,
    ErrorV,
>
    decreases pairs.len(),
{
    if pairs.len() == 0 {
        Ok(c)
    } else {
        match spec_parse_step(c, pairs[0].0@, pairs[0].1) {
            Ok(c2) => spec_parse_from(c2, pairs.skip(1)),
            Err(e) => Err(e),
        }
    }
}

/// The whole attribute list parsed from the all-unset configuration.
pub open spec fn spec_parse(pairs: Seq<(String, AttrValue)>) -> Result<ConfigV, ErrorV> {
    spec_parse_from(spec_empty_config(), pairs)
}

/// Parses the attribute's key/value pairs in order into a configuration and
/// the capability record of its resolved convention.
pub fn parse_config(pairs: &Vec<(String, AttrValue)>) -> (r: Result<(Config, Caps), Error>)
    ensures
        ({
            let parsed = spec_parse(pairs@);
            match r {
                Ok(p) => {
                    &&& parsed is Ok
                    &&& p.0@ == parsed->Ok_0
                    &&& p.1 == spec_caps(parsed->Ok_0.abi)
                },
                Err(e) => parsed == Err::<ConfigV, ErrorV>(e@),
            }
        }),
{
    let mut cfg = Config { abi: None, exported_name: None, mode: None, feature_guard: None };
    let mut i: usize = 0;
    proof {
        assert(pairs@.skip(0) =~= pairs@);
        assert(cfg@ == spec_empty_config());
    }
    while i < pairs.len()
        invariant
            i <= pairs.len(),
            spec_parse(pairs@) == spec_parse_from(cfg@, pairs@.skip(i as int)),
        decreases pairs.len() - i,
    {
        proof {
            assert(pairs@.skip(i as int)[0] == pairs@[i as int]);
            assert(pairs@.skip(i as int).skip(1) =~= pairs@.skip(i as int + 1));
        }
        let key = &pairs[i].0;
        let value = &pairs[i].1;
        if str_equal(key.as_str(), "abi") {
            match value {
                AttrValue::Quoted(s) => {
                    if !valid_abi(s.as_str()) {
                        return Err(Error::InvalidAbi { value: s.clone() });
                    } else if str_equal(s.as_str(), "none") {
                        cfg.abi = None;
                    } else {
                        cfg.abi = Some(s.clone());
                    }
                },
                AttrValue::Unquoted => {
                    return Err(Error::MalformedAttribute { key: key.clone() });
                },
            }
        } else if str_equal(key.as_str(), "name") {
            match value {
                AttrValue::Quoted(s) => {
                    if str_equal(s.as_str(), "none") {
                        cfg.exported_name = None;
                    } else {
                        cfg.exported_name = Some(s.clone());
                    }
                },
                AttrValue::Unquoted => {
                    return Err(Error::MalformedAttribute { key: key.clone() });
                },
            }
        } else if str_equal(key.as_str(), "mode") {
            match value {
                AttrValue::Quoted(s) => {
                    if str_equal(s.as_str(), "none") {
                        cfg.mode = None;
                    } else if str_equal(s.as_str(), "import") {
                        cfg.mode = Some(Mode::Import);
                    } else if str_equal(s.as_str(), "export") {
                        cfg.mode = Some(Mode::Export);
                    } else {
                        return Err(Error::InvalidMode { value: s.clone() });
                    }
                },
                AttrValue::Unquoted => {
                    return Err(Error::MalformedAttribute { key: key.clone() });
                },
            }
        } else if str_equal(key.as_str(), "feature") {
            match value {
                AttrValue::Quoted(s) => {
                    if str_equal(s.as_str(), "none") {
                        cfg.feature_guard = None;
                    } else {
                        cfg.feature_guard = Some(s.clone());
                    }
                },
                AttrValue::Unquoted => {
                    return Err(Error::MalformedAttribute { key: key.clone() });
                },
            }
        }
        i += 1;
    }
    proof {
        assert(pairs@.skip(pairs@.len() as int) =~= Seq::<(String, AttrValue)>::empty());
    }
    let caps = caps_for(&cfg.abi);
    Ok((cfg, caps))
}

} // verus!
