use gilvave::validation::{
    cured_username, sanitize_message, validate_message, validate_username,
};

#[test]
fn test_valid_usernames() {
    assert!(validate_username("Alex").is_ok());
    assert!(validate_username("Дмитрий_123").is_ok());
    assert!(validate_username("user-name").is_ok());
    assert!(validate_username("john.doe").is_ok());
    assert!(validate_username("Jose\u{0301}").is_ok());
    assert!(validate_username("René").is_ok());
}

#[test]
fn test_invalid_length() {
    assert!(validate_username("").is_err());
    assert!(validate_username("a").is_err());
    assert!(validate_username(&"a".repeat(33)).is_err());
}

#[test]
fn test_spaces_rejection() {
    assert!(validate_username("user name").is_err());
    assert!(validate_username("user\tname").is_err());
    assert!(validate_username("user\nname").is_err());
}

#[test]
fn test_invisible_chars_rejection() {
    assert!(validate_username("admin\u{200B}").is_err());
    assert!(validate_username("admin\u{FEFF}").is_err());
    assert!(validate_username("ad\u{00AD}min").is_err());
    assert!(validate_username("ad\u{2060}min").is_err());
}

#[test]
fn test_bidi_override_rejection() {
    assert!(validate_username("\u{202E}nimdA").is_err());
    assert!(validate_username("user\u{2066}name").is_err());
}

#[test]
fn test_zalgo_rejection() {
    let zalgo = "ž̵̓";
    assert!(validate_username(zalgo).is_err());
    assert!(validate_username("a\u{0300}\u{0301}\u{0302}").is_err());
}

#[test]
fn test_mixed_script_homoglyph_rejection() {
    assert!(validate_username("Аdmin").is_err());
    assert!(validate_username("pаypаl").is_err());
    assert!(validate_username("Админ").is_ok());
    assert!(validate_username("Admin").is_ok());
}

#[test]
fn test_mathematical_alphanumeric_font_rejection() {
    assert!(validate_username("𝐀𝐝𝐦𝐢𝐧").is_err());
    assert!(validate_username("Ａｄｍｉｎ").is_err());
}

#[test]
fn test_cured_username() {
    assert_eq!(cured_username("Admin"), "admin");
    assert_eq!(cured_username("АДМИН"), "админ");
    assert_eq!(cured_username("Ａｄｍｉｎ"), "admin");
}

#[test]
fn test_sanitize_message_bidi() {
    let malicious = "Check this: \u{202E}moc.elpmaxe//:sptth\u{202C} now!";
    let sanitized = sanitize_message(malicious);
    assert!(!sanitized.contains('\u{202E}'));
    assert!(!sanitized.contains('\u{202C}'));
    assert_eq!(sanitized, "Check this: moc.elpmaxe//:sptth now!");
}

#[test]
fn test_sanitize_message_invisible() {
    let text = "Hello\u{200B}\u{FEFF}\u{00AD} World\u{2060}!";
    let sanitized = sanitize_message(text);
    assert_eq!(sanitized, "Hello World!");
}

#[test]
fn test_sanitize_message_zalgo_capping() {
    let zalgo = "H\u{0300}\u{0301}\u{0302}\u{0303}\u{0304}\u{0305}ello";
    let sanitized = sanitize_message(zalgo);
    assert_eq!(sanitized, "H\u{0300}\u{0301}ello");
}

#[test]
fn test_sanitize_message_preserves_multilingual_and_emojis() {
    let msg = "Привет, мир! Hello world! Ça va? René. Emojis: 👨‍👩‍👧 ❤️ 🚀 🎉";
    let sanitized = sanitize_message(msg);
    assert_eq!(sanitized, msg);
}

#[test]
fn test_validate_message_empty() {
    assert!(validate_message("    ").is_err());
    assert!(validate_message("\u{200B}\u{FEFF}\u{00AD}").is_err());
    assert!(validate_message("  \u{200B}  \u{FEFF}  ").is_err());
    assert!(validate_message("Привет!").is_ok());
}
