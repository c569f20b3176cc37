//! The shared secret.

use hostcmd::auth::{authorization_header, is_authorized};

#[test]
fn holder_of_the_secret_is_let_in() {
    for secret in ["secret", "", "two words\t!", "~"] {
        let header = authorization_header(secret).expect("the secret is visible");
        assert_eq!(header, format!("Bearer {secret}").into_bytes());
        assert!(is_authorized(Some(&header), secret));
    }
}

#[test]
fn other_secret_is_refused() {
    let header = authorization_header("secret").expect("the secret is visible");
    for secret in ["", "secre", "secret ", "Secret", "secret1"] {
        assert!(!is_authorized(Some(&header), secret));
    }
}

#[test]
fn other_headers_are_refused() {
    assert!(!is_authorized(None, ""));
    assert!(!is_authorized(None, "secret"));
    assert!(!is_authorized(Some(b""), ""));
    assert!(!is_authorized(Some(b"secret"), "secret"));
    assert!(!is_authorized(Some(b"bearer secret"), "secret"));
    assert!(!is_authorized(Some(b"Bearer"), ""));
    assert!(!is_authorized(Some(b" Bearer secret"), "secret"));
}

#[test]
fn secret_that_is_not_visible_is_never_let_in() {
    let header = authorization_header("schlüssel").expect("the bytes may stand in a header");
    assert_eq!(header, "Bearer schlüssel".as_bytes());
    assert!(!is_authorized(Some(&header), "schlüssel"));
}

#[test]
fn control_characters_are_no_header() {
    for secret in ["a\nb", "\u{0}", "\u{7f}"] {
        match authorization_header(secret) {
            Err(error) => assert_eq!(
                error.chain(),
                "invalid authorization header value: failed to parse header value"
            ),
            Ok(_) => panic!("expected a refusal"),
        }
    }
}
