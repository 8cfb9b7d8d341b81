use rustc_to_wasm_compiler::version::{find_version_text, parse_version_output, VersionOutputError};

#[test]
fn version_text_of_a_release() {
    assert_eq!(
        find_version_text("rustc 1.80.0 (051478957 2024-07-21)\n"),
        Some("1.80.0")
    );
}

#[test]
fn version_text_of_a_nightly() {
    assert_eq!(
        find_version_text("rustc 1.83.0-nightly (eb4e23467 2024-10-09)"),
        Some("1.83.0-nightly")
    );
}

#[test]
fn version_text_is_greedy() {
    assert_eq!(find_version_text("rustc 1.0 (a) (b)"), Some("1.0 (a)"));
}

#[test]
fn version_text_takes_first_matching_line() {
    assert_eq!(
        find_version_text("note rustc 1.2.3 (x)\nrustc 9.9.9 (y)\n"),
        Some("1.2.3")
    );
}

#[test]
fn version_text_stays_on_one_line() {
    assert_eq!(find_version_text("rustc 1.2.3 (x\n)"), None);
    assert_eq!(find_version_text("rustc 1.2.3\n(x)"), None);
    assert_eq!(
        find_version_text("rustc 1.2.3 (x\n)\nrustc 4.5.6 (y)"),
        Some("4.5.6")
    );
}

#[test]
fn version_text_absent() {
    assert_eq!(find_version_text(""), None);
    assert_eq!(find_version_text("cargo 1.80.0 (abc)"), None);
    assert_eq!(find_version_text("rustc 1.80.0"), None);
}

#[test]
fn version_output_parses() {
    let version = parse_version_output("rustc 1.80.0 (051478957 2024-07-21)\n".into()).unwrap();
    assert_eq!(version, semver::Version::new(1, 80, 0));
}

#[test]
fn version_output_without_match() {
    match parse_version_output("cargo 1.80.0".into()) {
        Err(VersionOutputError::RegexNoMatch(output)) => assert_eq!(output, "cargo 1.80.0"),
        _ => panic!("expected no match"),
    }
}

#[test]
fn version_output_not_semver() {
    assert!(matches!(
        parse_version_output("rustc 1.80 (abc)".into()),
        Err(VersionOutputError::VersionParseFailed(_))
    ));
    assert!(matches!(
        parse_version_output("rustc  (abc)".into()),
        Err(VersionOutputError::VersionParseFailed(_))
    ));
}
