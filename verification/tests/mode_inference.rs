use reprfn::mode::infer_mode;
use reprfn::mode::Mode;

#[test]
fn unset_mode_with_empty_body_means_import() {
    let body: Vec<String> = vec![];
    assert_eq!(infer_mode(&None, &body), Mode::Import);
}

#[test]
fn unset_mode_with_nonempty_body_means_export() {
    let body = vec!["return ;".to_string()];
    assert_eq!(infer_mode(&None, &body), Mode::Export);
}

#[test]
fn explicit_mode_wins_over_the_body() {
    let empty: Vec<String> = vec![];
    let full = vec!["return ;".to_string()];
    assert_eq!(infer_mode(&Some(Mode::Export), &empty), Mode::Export);
    assert_eq!(infer_mode(&Some(Mode::Import), &full), Mode::Import);
}
