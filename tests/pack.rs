use orogene::pack::{always_ignored_patterns, OroPack, PKG_PATH};

#[test]
fn patterns_list_files_then_ignores() {
    let mut pack = OroPack::new();
    assert!(!pack.is_loaded());
    pack.load(vec!["src/module.js".to_string(), "package.json".to_string()]);
    assert!(pack.is_loaded());
    let patterns = pack.include_patterns();
    assert_eq!(26, patterns.len());
    assert_eq!("src/module.js", patterns[0]);
    assert_eq!("package.json", patterns[1]);
    assert_eq!("!.gitignore", patterns[2]);
    assert_eq!("!/archived-packages/**", patterns[25]);
    assert_eq!("package.json", PKG_PATH);
}

#[test]
fn no_files_gives_only_ignores() {
    let mut pack = OroPack::default();
    assert!(!pack.is_loaded());
    pack.load(Vec::new());
    let patterns = pack.include_patterns();
    let ignored = always_ignored_patterns();
    assert_eq!(24, ignored.len());
    assert_eq!(ignored.len(), patterns.len());
    for (p, g) in patterns.iter().zip(ignored.iter()) {
        assert_eq!(format!("!{}", g), *p);
    }
}
