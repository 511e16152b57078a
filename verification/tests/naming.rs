use tctrl::fallback_session_name;

#[test]
fn fallback_takes_final_component() {
    assert_eq!(fallback_session_name("/home/user/proj").as_str(), "proj");
}

#[test]
fn fallback_on_relative_path() {
    assert_eq!(fallback_session_name("relative").as_str(), "relative");
}

#[test]
fn fallback_ignores_trailing_separator() {
    assert_eq!(fallback_session_name("/a/b/").as_str(), "b");
    assert_eq!(fallback_session_name("/a/b///").as_str(), "b");
}

#[test]
fn fallback_replaces_spaces_commas_periods() {
    assert_eq!(
        fallback_session_name("/tmp/my project, v1.2").as_str(),
        "my_project__v1_2"
    );
    assert_eq!(fallback_session_name("/a/b.c.d").as_str(), "b_c_d");
    assert_eq!(fallback_session_name("a b").as_str(), "a_b");
}

#[test]
fn fallback_result_is_nonempty_and_clean() {
    let cases = ["/x/y z", "/a/.,. ", "...", "/", "plain"];
    for c in cases {
        let name = fallback_session_name(c);
        assert!(!name.is_empty());
        assert!(!name.contains(' '));
        assert!(!name.contains(','));
        assert!(!name.contains('.'));
    }
}

#[test]
fn root_resolves_to_unnamed() {
    assert_eq!(fallback_session_name("/").as_str(), "unnamed");
}

#[test]
fn empty_path_resolves_to_unnamed() {
    assert_eq!(fallback_session_name("").as_str(), "unnamed");
    assert_eq!(fallback_session_name("///").as_str(), "unnamed");
}

#[test]
fn fallback_is_deterministic() {
    let first = fallback_session_name("/home/user/some dir");
    let second = fallback_session_name("/home/user/some dir");
    assert_eq!(first, second);
}
