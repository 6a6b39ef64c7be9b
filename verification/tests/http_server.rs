use notecli::http_server::{lets_in, new_token};

#[test]
fn open_paths_take_no_token() {
    assert!(lets_in("/api", None, "t"));
    assert!(lets_in("/api/accounts", Some("Bearer x"), "t"));
    assert!(!lets_in("/api/", None, "t"));
    assert!(!lets_in("/api/accounts/x", None, "t"));
}

#[test]
fn other_paths_take_the_token() {
    let path = "/api/misskey.io/timeline/home";
    assert!(lets_in(path, Some("Bearer t"), "t"));
    assert!(!lets_in(path, None, "t"));
    assert!(!lets_in(path, Some("Bearer u"), "t"));
    assert!(!lets_in(path, Some("Bearer t "), "t"));
    assert!(!lets_in(path, Some("bearer t"), "t"));
    assert!(!lets_in(path, Some("t"), "t"));
}

#[test]
fn each_run_has_its_own_token() {
    let token = new_token();
    assert_eq!(token.len(), 36);
    assert_eq!(&token[14..15], "4");
    assert_ne!(token, new_token());
}
