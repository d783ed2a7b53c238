use orogene::diagnostics::{Diagnostic, DiagnosticCategory, DiagnosticError, ErrorMeta, Parseable};
use orogene::package_spec::{package_spec, NpmRequirement, PackageSpec, SpecContext};

fn npm(spec: &PackageSpec) -> (Option<String>, String, bool) {
    match spec {
        PackageSpec::Npm { name, requirement } => match requirement {
            NpmRequirement::Range(r) => (name.clone(), r.clone(), true),
            NpmRequirement::Tag(t) => (name.clone(), t.clone(), false),
        },
        other => panic!("not an npm spec: {:?}", other),
    }
}

#[test]
fn alias_recursion() {
    let spec = package_spec("foo@npm:bar@^1.0.0").unwrap();
    match spec {
        PackageSpec::Alias { name, target } => {
            assert_eq!("foo", name);
            assert_eq!((Some("bar".to_string()), "^1.0.0".to_string(), true), npm(&target));
        }
        other => panic!("not an alias: {:?}", other),
    }
}

#[test]
fn prefix_is_optional() {
    let prefixed = package_spec("npm:bar@^1.0.0").unwrap();
    let bare = package_spec("bar@^1.0.0").unwrap();
    assert_eq!(npm(&prefixed), npm(&bare));
    assert_eq!((Some("bar".to_string()), "^1.0.0".to_string(), true), npm(&bare));
}

#[test]
fn prefix_ignores_case() {
    let spec = package_spec("NPM:bar@next").unwrap();
    assert_eq!((Some("bar".to_string()), "next".to_string(), false), npm(&spec));
    match package_spec("File:../up").unwrap() {
        PackageSpec::Path { location } => assert_eq!("../up", location),
        other => panic!("not a path: {:?}", other),
    }
}

#[test]
fn path_round_trip() {
    let spec = package_spec("file:./local/pkg").unwrap();
    match &spec {
        PackageSpec::Path { location } => assert_eq!("./local/pkg", location),
        other => panic!("not a path: {:?}", other),
    }
    let text = spec.to_text();
    assert_eq!("file:./local/pkg", text);
    match package_spec(&text).unwrap() {
        PackageSpec::Path { location } => assert_eq!("./local/pkg", location),
        other => panic!("not a path: {:?}", other),
    }
}

#[test]
fn bare_paths() {
    for input in ["./a", "../b/c", "/abs/path", "~/home/pkg", "."] {
        match package_spec(input).unwrap() {
            PackageSpec::Path { location } => assert_eq!(input, location),
            other => panic!("not a path: {:?}", other),
        }
    }
}

#[test]
fn name_alone_asks_for_latest() {
    let spec = package_spec("react").unwrap();
    assert_eq!((Some("react".to_string()), "latest".to_string(), false), npm(&spec));
}

#[test]
fn scoped_names() {
    let spec = package_spec("@scope/pkg@~2.1").unwrap();
    assert_eq!((Some("@scope/pkg".to_string()), "~2.1".to_string(), true), npm(&spec));
    let alias = package_spec("@my/alias@npm:@scope/pkg@1.x").unwrap();
    match alias {
        PackageSpec::Alias { name, target } => {
            assert_eq!("@my/alias", name);
            assert_eq!((Some("@scope/pkg".to_string()), "1.x".to_string(), true), npm(&target));
        }
        other => panic!("not an alias: {:?}", other),
    }
}

#[test]
fn bare_range_has_no_name() {
    let spec = package_spec(">=1.2.3 <2").unwrap();
    assert_eq!((None, ">=1.2.3 <2".to_string(), true), npm(&spec));
    let spec = package_spec("1.0.0").unwrap();
    assert_eq!((None, "1.0.0".to_string(), true), npm(&spec));
}

#[test]
fn alias_of_a_path() {
    match package_spec("local@file:./vendor/x").unwrap() {
        PackageSpec::Alias { name, target } => {
            assert_eq!("local", name);
            match *target {
                PackageSpec::Path { location } => assert_eq!("./vendor/x", location),
                other => panic!("not a path: {:?}", other),
            }
        }
        other => panic!("not an alias: {:?}", other),
    }
}

#[test]
fn parsing_is_repeatable() {
    for input in ["foo@npm:bar@^1.0.0", "bar", "file:./x", "@a/b@1"] {
        let a = package_spec(input).unwrap();
        let b = package_spec(input).unwrap();
        assert_eq!(format!("{:?}", a), format!("{:?}", b));
    }
}

#[test]
fn canonical_text_parses_back() {
    for input in ["foo@npm:bar@^1.0.0", "bar", "@a/b@1", "^2", "file:/x", "x@file:./y"] {
        let a = package_spec(input).unwrap();
        let b = package_spec(&a.to_text()).unwrap();
        assert_eq!(format!("{:?}", a), format!("{:?}", b));
    }
    assert_eq!("npm:bar@latest", package_spec("bar").unwrap().to_text());
}

#[test]
fn furthest_failure_is_reported() {
    let e = package_spec("bar@!!").unwrap_err();
    assert_eq!("bar@!!", e.input);
    assert_eq!(4, e.offset);
    assert_eq!(SpecContext::Npm, e.context);

    let e = package_spec("").unwrap_err();
    assert_eq!(0, e.offset);
    assert_eq!(SpecContext::Alias, e.context);

    let e = package_spec("file:nope").unwrap_err();
    assert_eq!(5, e.offset);
    assert_eq!(SpecContext::Path, e.context);

    let e = package_spec("foo@npm:bar@").unwrap_err();
    assert_eq!(12, e.offset);
    assert_eq!(SpecContext::Alias, e.context);
}

#[test]
fn parse_error_is_a_parse_diagnostic() {
    let e = package_spec("a\nb@!").unwrap_err();
    assert_eq!(DiagnosticCategory::Parse, e.category());
    assert_eq!("package_spec::invalid", e.label());
    assert!(e.advice().is_some());
    let meta = e.parse_report().unwrap();
    assert_eq!(0, meta.row);
    assert_eq!(1, meta.col);
    assert_eq!(
        "Invalid package specifier `a\nb@!`: the alias form matched the furthest.",
        e.message()
    );
    let d = DiagnosticError::from_diagnostic(e);
    assert_eq!(DiagnosticCategory::Parse, d.category());
    match d.meta() {
        Some(ErrorMeta::Parse(m)) => assert_eq!("a\nb@!", m.input),
        other => panic!("wrong metadata: {:?}", other),
    }
}
