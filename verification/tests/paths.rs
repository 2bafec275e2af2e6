use cmux::paths::{config_path, path_basename, path_join, path_parent, session_path, shorten_path};

#[test]
fn test_config_path_xdg() {
    assert_eq!(
        config_path(Some("/tmp/test-xdg-config"), Some("/home/lee")),
        "/tmp/test-xdg-config/cmux/config.toml"
    );
}

#[test]
fn config_path_falls_back_to_home() {
    assert_eq!(config_path(None, Some("/home/lee")), "/home/lee/.config/cmux/config.toml");
    assert_eq!(config_path(None, None), "./.config/cmux/config.toml");
    assert_eq!(config_path(Some("/x/"), None), "/x/cmux/config.toml");
    assert_eq!(config_path(Some(""), None), "cmux/config.toml");
}

#[test]
fn session_path_per_slot() {
    assert_eq!(session_path(Some("/data"), None, 1), "/data/cmux/session.json");
    assert_eq!(session_path(None, Some("/home/lee"), 2), "/home/lee/.local/share/cmux/session-2.json");
}

#[test]
fn join_matches_pathbuf() {
    for (b, c) in [("", "cmux"), ("/", "cmux"), ("/a", "cmux"), ("/a/", "cmux"), ("a//", "x")] {
        let expected = std::path::PathBuf::from(b).join(c);
        assert_eq!(path_join(b, c), expected.to_str().unwrap());
    }
}

#[test]
fn basename_examples() {
    assert_eq!(path_basename("/home/lee/Desktop/cmux"), "cmux");
    assert_eq!(path_basename(""), "");
    assert_eq!(path_basename("/"), "/");
    assert_eq!(path_basename("///"), "/");
    assert_eq!(path_basename("/home/lee/"), "lee");
    assert_eq!(path_basename("cmux"), "cmux");
}

#[test]
fn parent_examples() {
    assert_eq!(path_parent("~/Desktop/cmux"), "~/Desktop");
    assert_eq!(path_parent("/foo"), "/");
    assert_eq!(path_parent("~"), "~");
    assert_eq!(path_parent("cmux"), "cmux");
    assert_eq!(path_parent(""), "");
}

#[test]
fn shorten_examples() {
    let home = Some("/home/lee");
    assert_eq!(shorten_path("/home/lee", home), "~");
    assert_eq!(shorten_path("/home/lee/src/cmux", home), "~/src/cmux");
    assert_eq!(shorten_path("/home/leex", home), "/home/leex");
    assert_eq!(shorten_path("/etc", home), "/etc");
    assert_eq!(shorten_path("", home), "");
    assert_eq!(shorten_path("/home/lee/x", None), "/home/lee/x");
}
