use minerva_worker::net::auth::{login_url, parse_token_from_request, url_decode};
use minerva_worker::net::download::url_decode_path;

#[test]
fn login_url_names_local_callback() {
    assert_eq!(
        login_url("https://api.example.org"),
        "https://api.example.org/auth/discord/login?worker_callback=http://127.0.0.1:19283/"
    );
}

#[test]
fn url_decode_percent_and_plus() {
    assert_eq!(url_decode("a%20b+c"), "a b c");
    assert_eq!(url_decode("%41%4a%4A"), "AJJ");
}

#[test]
fn url_decode_bad_escape_drops_two_bytes() {
    assert_eq!(url_decode("%zz1"), "1");
    assert_eq!(url_decode("x%4"), "x");
    assert_eq!(url_decode("100%"), "100");
    assert_eq!(url_decode("%4g7"), "7");
}

#[test]
fn url_decode_works_on_bytes() {
    // Each byte becomes the character with the same code.
    assert_eq!(url_decode("%C3%A9"), "\u{c3}\u{a9}");
    assert_eq!(url_decode("\u{e9}"), "\u{c3}\u{a9}");
}

#[test]
fn url_decode_leaves_plain_ascii() {
    assert_eq!(url_decode("eyJhbGciOiJIUzI1NiJ9.abc_DEF-123"), "eyJhbGciOiJIUzI1NiJ9.abc_DEF-123");
}

#[test]
fn path_decoding_keeps_plus() {
    assert_eq!(url_decode_path("/a%20b/+c"), "/a b/+c");
    assert_eq!(url_decode("/a%20b/+c"), "/a b/ c");
    assert_eq!(url_decode_path("/a%20b/c"), url_decode("/a%20b/c"));
}

#[test]
fn token_from_callback_request() {
    let req = "GET /?token=abc.def HTTP/1.1\r\nHost: 127.0.0.1:19283\r\n\r\n";
    assert_eq!(parse_token_from_request(req), Some("abc.def".to_string()));
}

#[test]
fn token_after_other_pairs_is_decoded() {
    let req = "GET /?state=1&token=a%2Bb+c HTTP/1.1\r\n";
    assert_eq!(parse_token_from_request(req), Some("a+b c".to_string()));
}

#[test]
fn pair_without_equals_ends_search() {
    assert_eq!(parse_token_from_request("GET /?flag&token=x HTTP/1.1"), None);
}

#[test]
fn no_query_no_token() {
    assert_eq!(parse_token_from_request("GET / HTTP/1.1\r\n"), None);
    assert_eq!(parse_token_from_request(""), None);
    assert_eq!(parse_token_from_request("GET\n/?token=x HTTP/1.1"), None);
    assert_eq!(parse_token_from_request("GET /?other=1 HTTP/1.1"), None);
}

#[test]
fn token_edge_cases() {
    assert_eq!(parse_token_from_request("GET /?token=x"), Some("x".to_string()));
    assert_eq!(parse_token_from_request("GET /?token= HTTP/1.1"), Some(String::new()));
    assert_eq!(parse_token_from_request("GET /?token=a=b HTTP/1.1"), Some("a=b".to_string()));
    assert_eq!(parse_token_from_request("GET /?token=x&token=y HTTP/1.1"), Some("x".to_string()));
    assert_eq!(parse_token_from_request("GET /?a=1?token=2 HTTP/1.1"), None);
    assert_eq!(parse_token_from_request("  GET   /?token=t\u{a0}HTTP/1.1"), Some("t".to_string()));
}

#[test]
fn decoding_never_lengthens() {
    for s in ["%41%42", "a+b", "%zz", "plain", "%e2%82%ac", "\u{e9}\u{e9}"] {
        assert!(url_decode(s).chars().count() <= s.len());
        assert!(url_decode_path(s).chars().count() <= s.len());
    }
}

#[test]
fn percent_round_trip_both_cases() {
    let t = "Hi there+/?&=%~";
    let upper: String = t.bytes().map(|b| format!("%{:02X}", b)).collect();
    let lower: String = t.bytes().map(|b| format!("%{:02x}", b)).collect();
    assert_eq!(url_decode(&upper), t);
    assert_eq!(url_decode(&lower), t);
    assert_eq!(url_decode_path(&upper), t);
    assert_eq!(url_decode_path(&lower), t);
}

#[test]
fn path_decoding_leaves_plain_ascii_with_plus() {
    assert_eq!(url_decode_path("dir/a+b c.txt"), "dir/a+b c.txt");
}
