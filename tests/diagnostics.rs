use orogene::diagnostics::{
    AsDiagnostic, Classification, Declaration, Diagnostic, DiagnosticCategory, DiagnosticError,
    ErrorMeta, FsPath, Net, NetMeta, ParseMeta, Parseable, PathMeta,
};

/// An error that offers every kind of metadata, whatever its category.
struct Offers {
    category: DiagnosticCategory,
    url: Option<String>,
    advice: Option<String>,
}

impl Net for Offers {
    fn net(&self) -> Option<NetMeta> {
        Some(NetMeta { host: "registry.example".to_string(), url: self.url.clone() })
    }
}

impl FsPath for Offers {
    fn path(&self) -> Option<PathMeta> {
        Some(PathMeta { path: "/tmp/pkg".to_string() })
    }
}

impl Parseable for Offers {
    fn parse_report(&self) -> Option<ParseMeta> {
        Some(ParseMeta { input: "x".to_string(), row: 0, col: 0, path: None })
    }
}

impl Diagnostic for Offers {
    fn classification(&self) -> Classification {
        let d = Declaration::new().category(self.category).label("test::offers");
        match &self.advice {
            Some(a) => d.advice(a).classify(),
            None => d.classify(),
        }
    }

    fn message(&self) -> String {
        "connection refused".to_string()
    }
}

#[test]
fn net_render_order() {
    let e = Offers {
        category: DiagnosticCategory::Net,
        url: Some("https://registry.example/pkg".to_string()),
        advice: Some("Check your network.".to_string()),
    };
    let d = DiagnosticError::from_diagnostic(e);
    assert_eq!(
        "test::offers @ https://registry.example/pkg\n\nconnection refused\n\nhelp: Check your network.",
        d.render()
    );
}

#[test]
fn net_render_falls_back_to_host() {
    let e = Offers { category: DiagnosticCategory::Net, url: None, advice: None };
    let d = DiagnosticError::from_diagnostic(e);
    assert_eq!("test::offers @ registry.example\n\nconnection refused", d.render());
}

#[test]
fn other_categories_render_without_endpoint() {
    let e = Offers { category: DiagnosticCategory::Fs, url: None, advice: Some("Look.".to_string()) };
    let d = DiagnosticError::from_diagnostic(e);
    assert_eq!("test::offers\n\nconnection refused\n\nhelp: Look.", d.render());
}

#[test]
fn styled_render_colors_when_forced() {
    colored::control::set_override(true);
    let e = Offers {
        category: DiagnosticCategory::Net,
        url: Some("https://r.example".to_string()),
        advice: Some("Retry.".to_string()),
    };
    let d = DiagnosticError::from_diagnostic(e);
    let styled = d.render_styled();
    colored::control::unset_override();
    assert!(styled.starts_with("\u{1b}["));
    assert!(styled.contains("test::offers"));
    assert!(styled.contains("https://r.example"));
    assert!(styled.contains("connection refused"));
    assert!(styled.ends_with(": Retry."));
    assert_ne!(d.render(), styled);
}

#[test]
fn metadata_matches_category() {
    let cases = [
        DiagnosticCategory::Misc,
        DiagnosticCategory::Net,
        DiagnosticCategory::Fs,
        DiagnosticCategory::Parse,
    ];
    for category in cases {
        for url in [None, Some("https://u.example".to_string())] {
            for advice in [None, Some("a".to_string())] {
                let d = DiagnosticError::from_diagnostic(Offers {
                    category,
                    url: url.clone(),
                    advice: advice.clone(),
                });
                assert_eq!(category, d.category());
                assert_eq!(&advice, d.advice());
                match (category, d.meta()) {
                    (DiagnosticCategory::Misc, None) => {}
                    (DiagnosticCategory::Net, Some(ErrorMeta::Net(m))) => assert_eq!(url, m.url),
                    (DiagnosticCategory::Fs, Some(ErrorMeta::Path(m))) => assert_eq!("/tmp/pkg", m.path),
                    (DiagnosticCategory::Parse, Some(ErrorMeta::Parse(m))) => assert_eq!("x", m.input),
                    (c, m) => panic!("{:?} carries {:?}", c, m),
                }
            }
        }
    }
}

#[test]
fn ad_hoc_errors_are_misc() {
    let r: Result<u8, std::num::ParseIntError> = "zz".parse::<u8>();
    let d = r.as_diagnostic("test::adhoc").unwrap_err();
    assert_eq!(DiagnosticCategory::Misc, d.category());
    assert_eq!("test::adhoc", d.label());
    assert!(d.advice().is_none());
    assert!(d.meta().is_none());
    assert_eq!("invalid digit found in string", d.cause());
    let ok: Result<u8, std::num::ParseIntError> = Ok(7);
    assert_eq!(7, ok.as_diagnostic("unused").unwrap());
}

#[test]
fn classified_errors_delegate_to_themselves() {
    let d = DiagnosticError::ad_hoc("boom".to_string(), "test::boom");
    let c = d.classification();
    assert_eq!(DiagnosticCategory::Misc, c.category);
    assert_eq!("test::boom", c.label);
    assert_eq!("boom", d.message());
}
