use lingua_gate::guard::{authorize, bearer_token, query_token};

fn some(s: &str) -> Option<String> {
    Some(s.to_string())
}

#[test]
fn bearer_prefix_is_stripped() {
    assert_eq!(bearer_token("Bearer abc"), some("abc"));
    assert_eq!(bearer_token("Bearer "), some(""));
    assert_eq!(bearer_token("Basic abc"), None);
    assert_eq!(bearer_token("bearer abc"), None);
}

#[test]
fn query_token_is_found() {
    assert_eq!(query_token("token=abc"), some("abc"));
    assert_eq!(query_token("a=1&token=abc&b=2"), some("abc"));
    assert_eq!(query_token("token&token=x"), some("x"));
    assert_eq!(query_token("token=a=b"), some("a"));
    assert_eq!(query_token("tokens=abc"), None);
    assert_eq!(query_token(""), None);
}

#[test]
fn open_mode_authorizes_everything() {
    assert!(authorize(&None, &None, &None));
    assert!(authorize(&None, &some("Bearer wrong"), &some("token=wrong")));
    assert!(authorize(&some(""), &None, &None));
}

#[test]
fn secret_needs_an_exact_match() {
    let secret = some("s3");
    assert!(authorize(&secret, &some("Bearer s3"), &None));
    assert!(authorize(&secret, &None, &some("x=1&token=s3")));
    assert!(authorize(&secret, &some("Bearer no"), &some("token=s3")));
    assert!(!authorize(&secret, &None, &None));
    assert!(!authorize(&secret, &some("Bearer s3x"), &some("token=s")));
    assert!(!authorize(&secret, &some("s3"), &None));
}
