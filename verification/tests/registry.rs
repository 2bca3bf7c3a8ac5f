use nuimo::registry::{topic_to_name, ApplyOutcome, GlyphRegistry, RegisteredGlyph};

#[test]
fn apply_inserts_and_tombstones() {
    let mut r = GlyphRegistry::new();
    let payload = br#"{"name":"play","pattern":"**","builtin":false}"#;
    r.apply("play", payload);
    let g = r.get("play").unwrap();
    assert_eq!(g.pattern, "**");
    assert!(!g.builtin);

    r.apply("play", &[]);
    assert!(r.get("play").is_none());
}

#[test]
fn topic_to_name_matches_prefix() {
    assert_eq!(topic_to_name("system/glyphs/play"), Some("play"));
    assert_eq!(
        topic_to_name("system/glyphs/volume_bar"),
        Some("volume_bar")
    );
    assert_eq!(topic_to_name("device/nuimo/x/feedback/y"), None);
}

#[test]
fn apply_keys_by_the_topic_name() {
    let mut r = GlyphRegistry::new();
    r.apply("alias", br#"{"name":"pause","pattern":"* *"}"#);
    assert!(r.get("pause").is_none());
    let g = r.get("alias").unwrap();
    assert_eq!(g.name, "alias");
    assert_eq!(g.pattern, "* *");
    assert!(!g.builtin); // defaulted
}

#[test]
fn apply_ignores_undecodable_payloads() {
    let mut r = GlyphRegistry::new();
    r.apply("play", br#"{"name":"play","pattern":"*"}"#);
    r.apply("play", b"not json");
    r.apply("play", br#"{"pattern":"**"}"#); // no name
    assert_eq!(r.get("play").unwrap().pattern, "*");
}

#[test]
fn upsert_replaces_and_keeps_others() {
    let mut r = GlyphRegistry::new();
    r.upsert(RegisteredGlyph { name: "a".into(), pattern: "1".into(), builtin: false });
    r.upsert(RegisteredGlyph { name: "b".into(), pattern: "2".into(), builtin: true });
    r.upsert(RegisteredGlyph { name: "a".into(), pattern: "3".into(), builtin: false });
    assert_eq!(r.get("a").unwrap().pattern, "3");
    assert!(r.get("b").unwrap().builtin);
    r.remove("a");
    assert!(r.get("a").is_none());
    assert_eq!(r.get("b").unwrap().pattern, "2");
    r.remove("zzz");
    assert!(r.get("b").is_some());
}

#[test]
fn topic_to_name_edge_cases() {
    assert_eq!(topic_to_name("system/glyphs/"), Some(""));
    assert_eq!(topic_to_name("system/glyphs"), None);
    assert_eq!(topic_to_name("xsystem/glyphs/a"), None);
    assert_eq!(topic_to_name("system/glyphs/a/b"), None);
}

#[test]
fn apply_reports_what_it_did() {
    let mut r = GlyphRegistry::new();
    assert_eq!(r.apply("x", br#"{"name":"x"}"#), ApplyOutcome::Stored);
    assert_eq!(r.get("x").unwrap().pattern, "");
    assert_eq!(r.apply("x", b"{"), ApplyOutcome::Undecodable);
    assert_eq!(r.apply("x", b""), ApplyOutcome::Removed);
    assert!(r.get("x").is_none());
}
