use minerva_worker::net::download::{local_path_for_job, local_path_from_host, sanitize_component};

#[test]
fn sanitize_replaces_forbidden_characters() {
    assert_eq!(sanitize_component("a<b>c:d\"e/f\\g|h?i*j"), "a_b_c_d_e_f_g_h_i_j");
    assert_eq!(sanitize_component("tab\there\u{1}"), "tab_here_");
}

#[test]
fn sanitize_trims_space_and_dots() {
    assert_eq!(sanitize_component("  x. "), "x");
    assert_eq!(sanitize_component("name..."), "name");
    assert_eq!(sanitize_component("\u{a0}name\u{3000}"), "name");
}

#[test]
fn sanitize_never_leaves_empty_or_dots() {
    assert_eq!(sanitize_component(""), "_");
    assert_eq!(sanitize_component("   "), "_");
    assert_eq!(sanitize_component("."), "_");
    assert_eq!(sanitize_component(".."), "_");
}

#[test]
fn sanitize_is_idempotent_on_its_results() {
    for s in ["a<b", "  x. ", "..", "file.txt", "we|rd*"] {
        let once = sanitize_component(s);
        assert_eq!(sanitize_component(&once), once);
    }
}

#[test]
fn sanitize_can_uncover_space() {
    // Trailing dots go after the trim, so a space may end the result.
    assert_eq!(sanitize_component("a ."), "a ");
    assert_eq!(sanitize_component("a "), "a");
}

#[test]
fn job_path_components() {
    let p = local_path_for_job("https://example.com/x/y", "/files/a%20b/c?.txt");
    assert_eq!(p, vec!["example.com", "files", "a b", "c_.txt"]);
}

#[test]
fn job_path_host_is_parsed() {
    let p = local_path_for_job("https://EXAMPLE.org:8443/x", "d");
    assert_eq!(p, vec!["example.org", "d"]);
    let p = local_path_for_job("http://[::1]:8080/", "d");
    assert_eq!(p, vec!["[__1]", "d"]);
}

#[test]
fn job_path_without_host() {
    let p = local_path_for_job("not a url", "//a//b/");
    assert_eq!(p, vec!["unknown-host", "a", "b"]);
    let p = local_path_from_host(None, "x");
    assert_eq!(p, vec!["unknown-host", "x"]);
}

#[test]
fn job_path_cannot_climb() {
    let p = local_path_from_host(Some("h".to_string()), "../..%2F..%2Fetc/passwd");
    assert_eq!(p, vec!["h", "_", "_", "_", "etc", "passwd"]);
    for c in &p {
        assert!(c != "." && c != ".." && !c.contains('/') && !c.contains('\\'));
    }
}
