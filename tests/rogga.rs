use orogene::diagnostics::{Diagnostic, DiagnosticCategory, DiagnosticError, ErrorMeta, FsPath};
use orogene::package_spec::package_spec;
use orogene::rogga::RoggaError;

#[test]
fn missing_version() {
    let spec = package_spec("react@^18").unwrap();
    let e = RoggaError::MissingVersion(spec, "18.9.9".to_string());
    assert_eq!(DiagnosticCategory::Misc, e.category());
    assert_eq!("rogga::missing_version", e.label());
    assert_eq!(
        Some("Try using `oro view` to see what versions are available".to_string()),
        e.advice()
    );
    assert_eq!(
        "Package for `npm:react@^18` was found, but resolved version `18.9.9` does not exist.",
        e.message()
    );
}

#[test]
fn spec_errors_delegate() {
    let inner = package_spec("!").unwrap_err();
    let expected = DiagnosticError::from_diagnostic(package_spec("!").unwrap_err());
    let e = RoggaError::PackageSpecError(inner);
    assert_eq!(DiagnosticCategory::Parse, e.category());
    assert_eq!("package_spec::invalid", e.label());
    let d = DiagnosticError::from_diagnostic(e);
    assert_eq!(expected.render(), d.render());
    match (expected.meta(), d.meta()) {
        (Some(ErrorMeta::Parse(a)), Some(ErrorMeta::Parse(b))) => {
            assert_eq!(a.input, b.input);
            assert_eq!((a.row, a.col), (b.row, b.col));
        }
        other => panic!("wrong metadata: {:?}", other),
    }
}

#[test]
fn collaborator_errors_delegate() {
    let inner = DiagnosticError::ad_hoc("no route".to_string(), "client::offline");
    let e = RoggaError::OroClientError(inner);
    assert_eq!("client::offline", e.label());
    assert_eq!(DiagnosticCategory::Misc, e.category());
    assert_eq!("no route", e.message());
    let inner = DiagnosticError::ad_hoc("cycle".to_string(), "resolver::cycle");
    let e = RoggaError::ResolverError(inner);
    assert_eq!("resolver::cycle", e.label());
    assert_eq!("cycle", e.message());
}

#[test]
fn io_errors_carry_their_path() {
    let io = std::io::Error::new(std::io::ErrorKind::NotFound, "no such directory");
    let e = RoggaError::IoError(io, "/work/pkg".to_string());
    assert_eq!(DiagnosticCategory::Fs, e.category());
    assert_eq!("rogga::dir::read", e.label());
    assert!(e.advice().is_none());
    assert_eq!("/work/pkg", e.path().unwrap().path);
    assert_eq!("no such directory", e.message());
    let d = DiagnosticError::from_diagnostic(e);
    match d.meta() {
        Some(ErrorMeta::Path(p)) => assert_eq!("/work/pkg", p.path),
        other => panic!("wrong metadata: {:?}", other),
    }
}

#[test]
fn codec_and_url_errors() {
    let json = serde_json::from_str::<serde_json::Value>("{").unwrap_err();
    let text = json.to_string();
    let e = RoggaError::SerdeError(json);
    assert_eq!(DiagnosticCategory::Misc, e.category());
    assert_eq!("rogga::serde", e.label());
    assert_eq!(text, e.message());

    let url = url::Url::parse("no scheme").unwrap_err();
    let e = RoggaError::UrlError(url);
    assert_eq!("rogga::bad_url", e.label());
    assert_eq!("relative URL without a base", e.message());
}

#[test]
fn misc_errors() {
    let e = RoggaError::MiscError("oops".to_string());
    assert_eq!("rogga::misc", e.label());
    assert_eq!("A miscellaneous error occurred: oops", e.message());
}
