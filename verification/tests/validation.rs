//! The validator and sanitizer boundary cases: token charset and length,
//! URL schemes, markup escaping and command-injection rejection.

use tunnelforge_core::sanitize::MessageSanitizer;
use tunnelforge_core::validate::{InputValidator, ValidationError};

#[test]
fn token_boundary_cases() {
    let v = InputValidator::new();
    assert_eq!(v.validate_token(""), Err(ValidationError::Empty));
    let long = "A".repeat(10000);
    assert_eq!(v.validate_token(&long), Err(ValidationError::TooLong));
    let exactly_max = "A".repeat(4096);
    assert_eq!(v.validate_token(&exactly_max), Ok(()));
    let over_max = "A".repeat(4097);
    assert_eq!(v.validate_token(&over_max), Err(ValidationError::TooLong));
    assert_eq!(v.validate_token("valid-token-12345678901234567890"), Ok(()));
    assert_eq!(v.validate_token("a.b_c-9"), Ok(()));
    assert_eq!(v.validate_token("invalid!@#$"), Err(ValidationError::InvalidCharacter));
    assert_eq!(v.validate_token("with space"), Err(ValidationError::InvalidCharacter));
    assert_eq!(v.validate_token("tab\there"), Err(ValidationError::InvalidCharacter));
}

#[test]
fn url_boundary_cases() {
    let v = InputValidator::new();
    assert_eq!(v.validate_url("https://example.com"), Ok(()));
    assert_eq!(v.validate_url("http://localhost:4020"), Ok(()));
    assert_eq!(v.validate_url("ws://127.0.0.1:4020/ws"), Ok(()));
    assert_eq!(v.validate_url("wss://example.com/ws"), Ok(()));
    assert_eq!(v.validate_url("javascript:alert(1)"), Err(ValidationError::InvalidScheme));
    assert_eq!(v.validate_url("file:///etc/passwd"), Err(ValidationError::InvalidScheme));
    assert_eq!(v.validate_url(""), Err(ValidationError::Empty));
    assert_eq!(v.validate_url("not-a-url"), Err(ValidationError::MalformedUrl));
    assert_eq!(v.validate_url("https://"), Err(ValidationError::MalformedUrl));
    assert_eq!(v.validate_url("://example.com"), Err(ValidationError::MalformedUrl));
    assert_eq!(v.validate_url("https:/example.com"), Err(ValidationError::MalformedUrl));
    assert_eq!(v.validate_url("https://exa mple.com"), Err(ValidationError::InvalidCharacter));
    let long = format!("https://example.com/{}", "a".repeat(3000));
    assert_eq!(v.validate_url(&long), Err(ValidationError::TooLong));
}

#[test]
fn html_sanitizer_escapes_markup() {
    let out = MessageSanitizer::sanitize_html("<script>x</script>");
    assert_eq!(out, "&lt;script&gt;x&lt;/script&gt;");
    assert!(!out.contains('<'));
    assert!(!out.contains('>'));

    assert_eq!(MessageSanitizer::sanitize_html("a & b"), "a &amp; b");
    assert_eq!(MessageSanitizer::sanitize_html("\"quoted\""), "&quot;quoted&quot;");
    assert_eq!(MessageSanitizer::sanitize_html("it's"), "it&#x27;s");
    assert_eq!(MessageSanitizer::sanitize_html("plain text"), "plain text");
    assert_eq!(MessageSanitizer::sanitize_html(""), "");
}

#[test]
fn command_sanitizer_rejects_injection() {
    assert!(MessageSanitizer::sanitize_command("; rm -rf /").is_err());
    assert!(MessageSanitizer::sanitize_command("a | b").is_err());
    assert!(MessageSanitizer::sanitize_command("`whoami`").is_err());
    assert!(MessageSanitizer::sanitize_command("$(id)").is_err());
    assert!(MessageSanitizer::sanitize_command("a > b").is_err());
    assert!(MessageSanitizer::sanitize_command("a < b").is_err());
    assert!(MessageSanitizer::sanitize_command("a && b").is_err());
    assert!(MessageSanitizer::sanitize_command("line\nbreak").is_err());

    assert_eq!(MessageSanitizer::sanitize_command("Hello, world!").unwrap(), "Hello, world!");
    assert_eq!(MessageSanitizer::sanitize_command("ls -la /tmp").unwrap(), "ls -la /tmp");
}

#[test]
fn message_pipeline_escapes_then_scans() {
    assert_eq!(MessageSanitizer::sanitize_message("Hello, world!").unwrap(), "Hello, world!");
    assert!(MessageSanitizer::sanitize_message("; rm -rf /").is_err());
    // Markup is escaped into entities, whose `&` and `;` the command scan
    // then refuses: a frame carrying markup never reaches subscribers raw.
    assert!(MessageSanitizer::sanitize_message("<script>alert(1)</script>").is_err());
}

#[test]
fn validation_error_messages_are_nonempty() {
    assert!(!ValidationError::Empty.message().is_empty());
    assert!(!ValidationError::TooLong.message().is_empty());
    assert!(!ValidationError::InvalidCharacter.message().is_empty());
    assert!(!ValidationError::InvalidScheme.message().is_empty());
    assert!(!ValidationError::MalformedUrl.message().is_empty());
}
