use uppies::trim_version;

#[test]
fn test_trim_version() {
    assert_eq!(trim_version("1.2.3\n"), "1.2.3");
    assert_eq!(trim_version("  abc123  "), "abc123");
    assert_eq!(trim_version("v1.2.3\n"), "1.2.3");
    assert_eq!(trim_version("  v2.0.0  "), "2.0.0");
}

#[test]
fn normalize_examples() {
    assert_eq!(trim_version("v1.2.3\n"), "1.2.3");
    assert_eq!(trim_version("  v2.0.0  "), "2.0.0");
    assert_eq!(trim_version("abc123\n"), "abc123");
}

#[test]
fn normalize_is_idempotent_on_examples() {
    for s in ["v1.2.3\n", "  v2.0.0  ", "abc123\n", "", "   ", "v", "\t1.0\r\n", "version"] {
        let once = trim_version(s);
        assert_eq!(trim_version(once), once);
    }
}

#[test]
fn normalize_strips_one_v_only() {
    assert_eq!(trim_version("vv1"), "v1");
    assert_eq!(trim_version("v"), "");
    assert_eq!(trim_version(""), "");
}

#[test]
fn normalize_trims_unicode_whitespace() {
    assert_eq!(trim_version("\u{a0}\u{3000}v3.1\u{2028}"), "3.1");
    assert_eq!(trim_version("\u{b}1.0\u{c}"), "1.0");
}

#[test]
fn normalize_keeps_inner_whitespace() {
    assert_eq!(trim_version("  1.0 beta \n"), "1.0 beta");
}
