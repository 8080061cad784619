use cmark_render::error::{ErrorKind, Fatal};
use cmark_render::theme::{ThemeAlias, ThemeRegistry};

#[test]
fn public_names_are_listed_in_order() {
    let registry = ThemeRegistry::load();
    assert_eq!(
        registry.names(),
        vec![
            "base16-ocean-dark",
            "base16-eighties-dark",
            "base16-mocha-dark",
            "base16-ocean-light",
            "inspired-github",
            "solarized-dark",
            "solarized-light",
        ]
    );
}

#[test]
fn public_names_resolve_to_engine_themes() {
    let registry = ThemeRegistry::load();
    assert_eq!(registry.resolve("base16-ocean-dark").unwrap(), "base16-ocean.dark");
    assert_eq!(registry.resolve("inspired-github").unwrap(), "InspiredGitHub");
    assert_eq!(registry.resolve("solarized-light").unwrap(), "Solarized (light)");
}

#[test]
fn every_listed_theme_has_a_stylesheet() {
    let registry = ThemeRegistry::load();
    for name in registry.names() {
        assert!(registry.resolve(&name).is_ok());
        let css = registry.css(&name).unwrap();
        assert!(css.contains(".code {"));
        assert_ne!(css, name);
    }
}

#[test]
fn stylesheets_differ_between_themes() {
    let registry = ThemeRegistry::load();
    assert_ne!(
        registry.css("solarized-dark").unwrap(),
        registry.css("solarized-light").unwrap()
    );
}

#[test]
fn unknown_theme_fails_as_unknown_theme() {
    let registry = ThemeRegistry::load();
    match registry.resolve("no-such-theme") {
        Err(Fatal::UnknownTheme(name)) => assert_eq!(name, "no-such-theme"),
        other => panic!("unexpected: {:?}", other),
    }
    match registry.css("no-such-theme") {
        Err(Fatal::UnknownTheme(name)) => assert_eq!(name, "no-such-theme"),
        other => panic!("unexpected: {:?}", other),
    }
    let failure = registry.css("Solarized (dark)").unwrap_err();
    assert_eq!(failure.kind(), ErrorKind::UnknownTheme);
    assert!(failure.message().contains("Solarized (dark)"));
    assert_eq!(registry.resolve("SOLARIZED-DARK").unwrap_err().kind(), ErrorKind::UnknownTheme);
}

#[test]
fn alias_without_a_theme_is_missing_theme() {
    let registry = ThemeRegistry::with_aliases(vec![
        ThemeAlias { public: String::from("ghost"), canonical: String::from("No Such Theme") },
        ThemeAlias { public: String::from("ocean"), canonical: String::from("base16-ocean.dark") },
        ThemeAlias { public: String::from("ocean"), canonical: String::from("Solarized (dark)") },
    ]);
    match registry.resolve("ghost") {
        Err(Fatal::MissingTheme(name)) => assert_eq!(name, "No Such Theme"),
        other => panic!("unexpected: {:?}", other),
    }
    let failure = registry.css("ghost").unwrap_err();
    assert_eq!(failure.kind(), ErrorKind::MissingTheme);
    assert!(failure.message().contains("No Such Theme"));
    assert_eq!(registry.resolve("ocean").unwrap(), "base16-ocean.dark");
    assert_eq!(registry.resolve("solarized-dark").unwrap_err().kind(), ErrorKind::UnknownTheme);
    assert_eq!(registry.names(), vec!["ghost", "ocean", "ocean"]);
}
