use zero2prod::configuration::{ssl_mode, SslMode};

#[test]
fn encryption_is_required_on_request() {
    assert_eq!(ssl_mode(true), SslMode::Require);
    assert_eq!(ssl_mode(false), SslMode::Prefer);
}
