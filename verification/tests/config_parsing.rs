use reprfn::config::parse_config;
use reprfn::config::AttrValue;
use reprfn::error::Error;
use reprfn::mode::Mode;

fn quoted(key: &str, value: &str) -> (String, AttrValue) {
    (key.to_string(), AttrValue::Quoted(value.to_string()))
}

#[test]
fn empty_attribute_leaves_everything_unset() {
    let (cfg, caps) = parse_config(&vec![]).expect("an empty attribute is valid");
    assert_eq!(cfg.abi, None);
    assert_eq!(cfg.exported_name, None);
    assert_eq!(cfg.mode, None);
    assert_eq!(cfg.feature_guard, None);
    assert!(caps.mangles_symbol);
    assert!(!caps.supports_generics);
}

#[test]
fn abi_key_resolves_and_derives_capabilities() {
    let (cfg, caps) = parse_config(&vec![quoted("abi", "C")]).expect("C is registered");
    assert_eq!(cfg.abi, Some("C".to_string()));
    assert!(caps.mangles_symbol);
    assert!(!caps.supports_generics);

    let (cfg, caps) = parse_config(&vec![quoted("abi", "Rust")]).expect("Rust is registered");
    assert_eq!(cfg.abi, Some("Rust".to_string()));
    assert!(!caps.mangles_symbol);
    assert!(caps.supports_generics);
}

#[test]
fn abi_sentinel_unsets_the_convention() {
    let (cfg, caps) = parse_config(&vec![quoted("abi", "none")]).expect("the sentinel is legal");
    assert_eq!(cfg.abi, None);
    assert!(caps.mangles_symbol);
    assert!(!caps.supports_generics);
}

#[test]
fn unknown_abi_value_is_rejected() {
    let err = parse_config(&vec![quoted("abi", "Pascal")]).expect_err("Pascal is not registered");
    assert_eq!(
        err,
        Error::InvalidAbi {
            value: "Pascal".to_string()
        }
    );
}

#[test]
fn name_key_and_its_sentinel() {
    let (cfg, _) = parse_config(&vec![quoted("name", "my_c_function")]).unwrap();
    assert_eq!(cfg.exported_name, Some("my_c_function".to_string()));

    let (cfg, _) = parse_config(&vec![quoted("name", "none")]).unwrap();
    assert_eq!(cfg.exported_name, None);
}

#[test]
fn mode_key_accepts_the_three_legal_strings() {
    let (cfg, _) = parse_config(&vec![quoted("mode", "import")]).unwrap();
    assert_eq!(cfg.mode, Some(Mode::Import));

    let (cfg, _) = parse_config(&vec![quoted("mode", "export")]).unwrap();
    assert_eq!(cfg.mode, Some(Mode::Export));

    let (cfg, _) = parse_config(&vec![quoted("mode", "none")]).unwrap();
    assert_eq!(cfg.mode, None);
}

#[test]
fn illegal_mode_value_is_rejected_with_its_message() {
    let err = parse_config(&vec![quoted("mode", "exported")]).expect_err("not a legal mode");
    assert_eq!(
        err,
        Error::InvalidMode {
            value: "exported".to_string()
        }
    );
    assert_eq!(
        err.message(),
        "invalid mode 'exported', expecting one of '['none', 'import', 'export']'"
    );
}

#[test]
fn feature_key_and_its_sentinel() {
    let (cfg, _) = parse_config(&vec![quoted("feature", "extra")]).unwrap();
    assert_eq!(cfg.feature_guard, Some("extra".to_string()));

    let (cfg, _) = parse_config(&vec![quoted("feature", "none")]).unwrap();
    assert_eq!(cfg.feature_guard, None);
}

#[test]
fn unrecognized_keys_are_ignored() {
    let pairs = vec![
        quoted("abi", "C"),
        quoted("color", "blue"),
        ("shape".to_string(), AttrValue::Unquoted),
    ];
    let (cfg, _) = parse_config(&pairs).expect("unknown keys have no effect");
    assert_eq!(cfg.abi, Some("C".to_string()));
}

#[test]
fn unquoted_value_on_a_recognized_key_is_malformed() {
    let pairs = vec![("abi".to_string(), AttrValue::Unquoted)];
    let err = parse_config(&pairs).expect_err("a recognized key demands a quoted string");
    assert_eq!(
        err,
        Error::MalformedAttribute {
            key: "abi".to_string()
        }
    );
    assert_eq!(
        err.message(),
        "malformed attribute: the value of 'abi' must be a quoted string"
    );
}

#[test]
fn later_occurrences_override_earlier_ones() {
    let pairs = vec![quoted("abi", "C"), quoted("abi", "Rust")];
    let (cfg, caps) = parse_config(&pairs).unwrap();
    assert_eq!(cfg.abi, Some("Rust".to_string()));
    assert!(!caps.mangles_symbol);
    assert!(caps.supports_generics);

    let pairs = vec![quoted("name", "a"), quoted("name", "none")];
    let (cfg, _) = parse_config(&pairs).unwrap();
    assert_eq!(cfg.exported_name, None);
}

#[test]
fn the_first_failure_short_circuits() {
    let pairs = vec![
        quoted("abi", "Pascal"),
        quoted("abi", "C"),
        quoted("mode", "sideways"),
    ];
    let err = parse_config(&pairs).expect_err("the first invalid value decides");
    assert_eq!(
        err,
        Error::InvalidAbi {
            value: "Pascal".to_string()
        }
    );
}

#[test]
fn malformed_declaration_message() {
    assert_eq!(
        Error::MalformedDeclaration.message(),
        "expected a function declaration"
    );
}
