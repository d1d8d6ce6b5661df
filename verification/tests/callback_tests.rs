use gmail_drafts::callback::{choose_code, extract_code, find_from, locate_code};

#[test]
fn code_before_another_parameter_is_decoded() {
    let line = b"GET /auth/callback?code=abc%20def&state=xyz HTTP/1.1";
    assert_eq!(extract_code(line), Some(b"abc def".to_vec()));
}

#[test]
fn code_at_the_end_of_the_line() {
    let line = b"GET /auth/callback?code=abc123";
    assert_eq!(extract_code(line), Some(b"abc123".to_vec()));
}

#[test]
fn code_without_separator_runs_to_the_end_of_the_line() {
    let line = b"GET /auth/callback?code=abc123 HTTP/1.1\r\n";
    assert_eq!(extract_code(line), Some(b"abc123 HTTP/1.1\r\n".to_vec()));
}

#[test]
fn code_may_follow_other_parameters() {
    let line = b"GET /auth/callback?state=xyz&code=4%2F0Ab&scope=mail HTTP/1.1\r\n";
    assert_eq!(locate_code(line), Some((34, 41)));
    assert_eq!(extract_code(line), Some(b"4/0Ab".to_vec()));
}

#[test]
fn plus_is_kept_by_decoding() {
    let line = b"GET /auth/callback?code=a+b%2Bc&x=1";
    assert_eq!(extract_code(line), Some(b"a+b+c".to_vec()));
}

#[test]
fn empty_code_is_still_a_code() {
    let line = b"GET /auth/callback?code=&state=1 HTTP/1.1";
    assert_eq!(locate_code(line), Some((24, 24)));
    assert_eq!(extract_code(line), Some(Vec::new()));
}

#[test]
fn other_route_is_ignored() {
    assert_eq!(extract_code(b"GET /favicon.ico?code=abc HTTP/1.1"), None);
    assert_eq!(locate_code(b"POST /auth/callback?code=abc HTTP/1.1"), None);
    assert_eq!(extract_code(b""), None);
}

#[test]
fn callback_without_code_is_ignored() {
    assert_eq!(extract_code(b"GET /auth/callback?error=access_denied HTTP/1.1"), None);
}

#[test]
fn undecodable_code_is_kept_as_it_stood() {
    let line = b"GET /auth/callback?code=%FF%FE&state=1 HTTP/1.1";
    assert_eq!(extract_code(line), Some(b"%FF%FE".to_vec()));
}

#[test]
fn decoded_multibyte_code() {
    let line = b"GET /auth/callback?code=%C3%A9&state=1 HTTP/1.1";
    assert_eq!(extract_code(line), Some("\u{e9}".as_bytes().to_vec()));
}

#[test]
fn choose_code_prefers_decoded_utf8() {
    assert_eq!(choose_code(b"a%20b".to_vec(), b"a b".to_vec()), b"a b".to_vec());
    assert_eq!(choose_code(b"%FF".to_vec(), vec![0xFF]), b"%FF".to_vec());
    assert_eq!(choose_code(Vec::new(), Vec::new()), Vec::<u8>::new());
}

#[test]
fn find_from_gives_the_first_place() {
    assert_eq!(find_from(b"abcabc", b"bc", 0), Some(1));
    assert_eq!(find_from(b"abcabc", b"bc", 2), Some(4));
    assert_eq!(find_from(b"abcabc", b"bc", 5), None);
    assert_eq!(find_from(b"abcabc", b"abcabcd", 0), None);
    assert_eq!(find_from(b"abc", b"", 3), Some(3));
    assert_eq!(find_from(b"abc", b"", 4), None);
    assert_eq!(find_from(b"", b"a", 0), None);
}
