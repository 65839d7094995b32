//! The fallback resolution rule: with no host resolver registered, a
//! specifier resolves to the originating file's directory joined with the
//! specifier, and the call never fails.

use css_bridge::bridge::SourceBridge;
use css_bridge::paths::fallback_resolve;
use css_bridge::rendezvous::Rendezvous;

#[test]
fn fallback_joins_directory_and_specifier() {
    assert_eq!(fallback_resolve("base.css", "src/entry.css"), "src/base.css");
}

#[test]
fn fallback_keeps_nested_directories() {
    assert_eq!(
        fallback_resolve("shared/colors.css", "site/styles/entry.css"),
        "site/styles/shared/colors.css"
    );
}

#[test]
fn fallback_without_directory_is_the_specifier() {
    assert_eq!(fallback_resolve("base.css", "entry.css"), "base.css");
}

#[test]
fn fallback_with_empty_specifier_keeps_the_directory() {
    assert_eq!(fallback_resolve("", "a/b/c.css"), "a/b/");
}

#[test]
fn fallback_uses_the_last_separator() {
    assert_eq!(fallback_resolve("x.css", "a/b/c/d.css"), "a/b/c/x.css");
}

#[test]
fn resolve_without_host_resolver_never_fails() {
    let bridge = SourceBridge::new(None, None);
    let ch = Rendezvous::new();
    let resolved = bridge.resolve(&ch, "theme.css", "www/css/site.css").unwrap();
    assert_eq!(resolved, "www/css/theme.css");
    assert!(!bridge.has_resolver());
    assert!(!bridge.has_reader());
}
