use gilvave::avatar::process_avatar;
use gilvave::dto::channel::ChannelType;
use gilvave::dto::user::{Avatar, User};
use gilvave::error::CoreError;
use gilvave::event::{
    DispatchPayload, GatewayEvent, HelloPayload, IdentifyPayload, MessageCreateEvent, ReadyEvent,
};
use gilvave::gateway::{handle_event, GatewayAction};
use gilvave::ids::{ChannelId, MessageId, UserId, Uuid};
use gilvave::password::{check_password, hash_password, verify_password};
use gilvave::dto::user::{IpAddress, SessionCheckInfo, SessionCreateInfo};
use gilvave::ids::SessionId;
use gilvave::model::{Channel, ChannelType as StoredChannelType, Server, ServerMember};
use gilvave::session::unexpired_session;
use gilvave::security::{auth_step, extract_token, AuthAction, AuthEvent, TokenClaims};
use gilvave::storage::object_url;
use gilvave::tokens::{generate_refresh_token, hash_refresh_token};
use gilvave::validation::{
    is_allowed_username_symbol, is_bidi_override, is_combining_mark, is_cyrillic_letter,
    is_greek_letter, is_invisible_char, is_latin_letter, sanitize_message, validate_message,
    validate_username, UsernameFault,
};

// ----- user names -----

#[test]
fn username_fault_messages() {
    assert_eq!(validate_username("   "), Err(UsernameFault::Empty.message()));
    assert_eq!(validate_username("a"), Err(UsernameFault::BadLength.message()));
    assert_eq!(validate_username("ab\u{0007}"), Err(UsernameFault::Control.message()));
    assert_eq!(validate_username("ab\u{00A0}cd"), Err(UsernameFault::Whitespace.message()));
    assert_eq!(validate_username("ab\u{202E}"), Err(UsernameFault::Bidi.message()));
    assert_eq!(validate_username("ab\u{200B}"), Err(UsernameFault::Invisible.message()));
    assert_eq!(validate_username("ab\u{0300}\u{0301}"), Err(UsernameFault::Zalgo.message()));
    assert_eq!(validate_username("ab!"), Err(UsernameFault::Disallowed.message()));
    assert_eq!(validate_username("Аdmin"), Err(UsernameFault::MixedScripts.message()));
    assert_eq!(
        validate_username("a"),
        Err("Имя пользователя должно содержать от 2 до 32 символов")
    );
}

#[test]
fn username_surrounding_whitespace_is_ignored() {
    assert!(validate_username("  Alex\t\n").is_ok());
    assert!(validate_username(" a ").is_err());
}

#[test]
fn username_length_bounds() {
    assert!(validate_username(&"a".repeat(32)).is_ok());
    assert!(validate_username("ab").is_ok());
}

#[test]
fn username_three_marks_apart_are_zalgo() {
    assert!(validate_username("a\u{0300}b\u{0301}").is_ok());
    assert!(validate_username("a\u{0300}b\u{0301}c\u{0302}").is_err());
}

#[test]
fn username_greek_alone_is_accepted() {
    assert!(validate_username("Αθηνα").is_ok());
    assert!(validate_username("Αθηνаa").is_err());
}

#[test]
fn username_refuses_math_signs() {
    assert_eq!(validate_username("2×2"), Err(UsernameFault::Disallowed.message()));
    assert_eq!(validate_username("a÷b"), Err(UsernameFault::Disallowed.message()));
    assert!(validate_username("Øyvind").is_ok());
}

#[test]
fn character_classes() {
    assert!(is_bidi_override('\u{2067}'));
    assert!(!is_bidi_override('a'));
    assert!(is_invisible_char('\u{E0041}'));
    assert!(!is_invisible_char(' '));
    assert!(is_combining_mark('\u{FE20}'));
    assert!(!is_combining_mark('\u{0370}'));
    assert!(is_latin_letter('ÿ'));
    assert!(!is_latin_letter('Ж'));
    assert!(is_latin_letter('×'));
    assert!(is_latin_letter('÷'));
    assert!(is_latin_letter('Ø'));
    assert!(is_latin_letter('ø'));
    assert!(is_cyrillic_letter('Ж'));
    assert!(is_greek_letter('Ω'));
    assert!(is_allowed_username_symbol('_'));
    assert!(!is_allowed_username_symbol('@'));
}

// ----- messages -----

#[test]
fn sanitize_keeps_one_joiner_of_a_run() {
    assert_eq!(sanitize_message("a\u{200D}\u{200D}\u{200C}b"), "a\u{200D}b");
}

#[test]
fn sanitize_stripped_chars_do_not_break_a_mark_run() {
    assert_eq!(sanitize_message("e\u{0300}\u{200B}\u{0301}\u{0302}x"), "e\u{0300}\u{0301}x");
}

#[test]
fn sanitize_joiner_run_counterexample() {
    // A joiner after a capped mark is kept even though the previous kept
    // character is also a joiner.
    assert_eq!(
        sanitize_message("x\u{0300}\u{0301}\u{200D}\u{0302}\u{200D}"),
        "x\u{0300}\u{0301}\u{200D}\u{200D}"
    );
}

#[test]
fn sanitize_natural_text_unchanged() {
    let text = "Résumé — naïve café, код: `let x = 1;` 👍🏽";
    assert_eq!(sanitize_message(text), text);
}

#[test]
fn message_length_limit() {
    assert_eq!(
        validate_message(&"a".repeat(4001)),
        Err("Сообщение слишком длинное (максимум 4000 символов)")
    );
    assert!(validate_message(&"a".repeat(4000)).is_ok());
    assert!(validate_message(&format!("  {}  ", "a".repeat(4000))).is_ok());
}

#[test]
fn message_is_returned_untrimmed() {
    assert_eq!(validate_message("  hi\u{200B} "), Ok(String::from("  hi ")));
    assert_eq!(validate_message(""), Err("Сообщение не может быть пустым"));
}

// ----- channel types -----

#[test]
fn channel_type_database_bytes() {
    assert_eq!(ChannelType::TEXT.to_sql_bytes(), b"TEXT".to_vec());
    assert_eq!(ChannelType::VOICE.to_sql_bytes(), b"VOICE".to_vec());
    assert_eq!(ChannelType::from_sql_bytes(b"TEXT"), Some(ChannelType::TEXT));
    assert_eq!(ChannelType::from_sql_bytes(b"VOICE  "), Some(ChannelType::VOICE));
    assert_eq!(ChannelType::from_sql_bytes(b"VOICE"), None);
    assert_eq!(ChannelType::from_sql_bytes(b"text"), None);
}

#[test]
fn channel_type_round_trip() {
    let t = ChannelType::TEXT;
    assert_eq!(ChannelType::from_sql_bytes(&t.to_sql_bytes()), Some(t));
    let v = ChannelType::VOICE;
    assert_eq!(ChannelType::from_sql_bytes(&v.to_sql_bytes()), None);
}

// ----- errors -----

#[test]
fn error_status_codes() {
    let s = String::new;
    assert_eq!(CoreError::Unauthorized(s()).status_code(), 401);
    assert_eq!(CoreError::BadRequest(s()).status_code(), 400);
    assert_eq!(CoreError::Forbidden(s()).status_code(), 403);
    assert_eq!(CoreError::Conflict(s()).status_code(), 409);
    assert_eq!(CoreError::PayloadTooLarge(s()).status_code(), 413);
    assert_eq!(CoreError::UnsupportedMediaType(s()).status_code(), 415);
    assert_eq!(CoreError::UnprocessableEntity(s()).status_code(), 422);
    assert_eq!(CoreError::InternalServerError(s()).status_code(), 500);
}

#[test]
fn error_response_body_escapes_text() {
    let e = CoreError::BadRequest("say \"hi\"\n".to_string());
    assert_eq!(e.response_body(), "{\"error\":\"say \\\"hi\\\"\\n\"}");
    let (status, body) = CoreError::Forbidden("User not found".to_string()).into_response_parts();
    assert_eq!(status, 403);
    assert_eq!(body, "{\"error\":\"User not found\"}");
}

// ----- gateway -----

fn sample_message() -> MessageCreateEvent {
    MessageCreateEvent {
        id: MessageId(Uuid::nil()),
        channel_id: ChannelId(Uuid::nil()),
        author_id: UserId(Uuid::nil()),
        content: "hello".to_string(),
    }
}

#[test]
fn gateway_decisions() {
    assert!(matches!(
        handle_event(GatewayEvent::Heartbeat),
        GatewayAction::Reply(GatewayEvent::HeartbeatAck)
    ));
    match handle_event(GatewayEvent::Identify(IdentifyPayload { token: "tok".to_string() })) {
        GatewayAction::Authenticate(t) => assert_eq!(t, "tok"),
        other => panic!("unexpected {:?}", other),
    }
    match handle_event(GatewayEvent::Dispatch(DispatchPayload::MessageCreate(sample_message()))) {
        GatewayAction::Broadcast(DispatchPayload::MessageCreate(m)) => assert_eq!(m.content, "hello"),
        other => panic!("unexpected {:?}", other),
    }
    assert!(matches!(
        handle_event(GatewayEvent::Hello(HelloPayload { heartbeat_interval: 5 })),
        GatewayAction::Ignore
    ));
    assert!(matches!(handle_event(GatewayEvent::HeartbeatAck), GatewayAction::Ignore));
    assert!(matches!(
        handle_event(GatewayEvent::Dispatch(DispatchPayload::Ready(ReadyEvent {
            user_id: UserId(Uuid::nil())
        }))),
        GatewayAction::Ignore
    ));
}

// ----- request authentication -----

fn unauthorized_text(r: Result<String, CoreError>) -> String {
    match r {
        Err(CoreError::Unauthorized(m)) => m,
        other => panic!("unexpected {:?}", other),
    }
}

#[test]
fn token_from_authorization_header() {
    assert_eq!(extract_token(Some("Bearer eyJabc"), Some("token=x"), None).unwrap(), "eyJabc");
    assert_eq!(extract_token(Some("Bearer "), None, None).unwrap(), "");
    assert_eq!(
        unauthorized_text(extract_token(Some("Basic abc"), Some("token=x"), None)),
        "Invalid authorization header format"
    );
}

#[test]
fn token_from_query() {
    assert_eq!(extract_token(None, Some("a=1&token=xyz&b=2"), None).unwrap(), "xyz");
    assert_eq!(extract_token(None, Some("access_token=a=b"), None).unwrap(), "a=b");
    assert_eq!(extract_token(None, Some("tok=1&&token="), None).unwrap(), "");
    assert_eq!(
        unauthorized_text(extract_token(None, Some("a=1&tokenx=2"), Some("eyJ"))),
        "Missing authorization header"
    );
}

#[test]
fn token_from_websocket_protocol() {
    assert_eq!(extract_token(None, None, Some("json, eyJhbG ")).unwrap(), "eyJhbG");
    assert_eq!(extract_token(None, None, Some("json,chat")).unwrap(), "json,chat");
    assert_eq!(
        unauthorized_text(extract_token(None, None, None)),
        "Missing authorization header"
    );
}

fn user(active: bool) -> User {
    User {
        id: UserId(Uuid::nil()),
        username: "alex".to_string(),
        email: "a@b.c".to_string(),
        password_hash: String::new(),
        is_active: active,
        avatar: String::new(),
    }
}

fn claims() -> TokenClaims {
    TokenClaims { jti: Uuid::from_u128(7), sub: UserId(Uuid::from_u128(9)) }
}

#[test]
fn authentication_steps() {
    let c = claims();
    assert!(matches!(
        auth_step(AuthEvent::TokenChecked(Some(c))),
        AuthAction::CheckBlacklist(k) if k == c && k.jti == Uuid::from_u128(7)
    ));
    assert!(matches!(
        auth_step(AuthEvent::TokenChecked(None)),
        AuthAction::Reject(CoreError::Unauthorized(ref m)) if m == "Invalid token"
    ));
    assert!(matches!(
        auth_step(AuthEvent::BlacklistChecked(c, Err(()))),
        AuthAction::Reject(CoreError::InternalServerError(ref m)) if m == "Error occurred while checking token blacklist"
    ));
    assert!(matches!(
        auth_step(AuthEvent::BlacklistChecked(c, Ok(true))),
        AuthAction::Reject(CoreError::Unauthorized(ref m)) if m == "Token is blacklisted"
    ));
    assert!(matches!(
        auth_step(AuthEvent::BlacklistChecked(c, Ok(false))),
        AuthAction::FetchUser(k) if k.sub == UserId(Uuid::from_u128(9))
    ));
    assert!(matches!(
        auth_step(AuthEvent::UserFetched(c, Err(()))),
        AuthAction::Reject(CoreError::InternalServerError(ref m)) if m == "Error occurred while fetching user"
    ));
    assert!(matches!(
        auth_step(AuthEvent::UserFetched(c, Ok(None))),
        AuthAction::Reject(CoreError::Forbidden(ref m)) if m == "User not found"
    ));
    assert!(matches!(
        auth_step(AuthEvent::UserFetched(c, Ok(Some(user(false))))),
        AuthAction::Reject(CoreError::Unauthorized(ref m)) if m == "User is inactive"
    ));
    assert!(matches!(
        auth_step(AuthEvent::UserFetched(c, Ok(Some(user(true))))),
        AuthAction::Accept(ref u) if u.username == "alex" && u.is_active
    ));
}

// ----- passwords and tokens -----

#[test]
fn password_round_trip() {
    let hash = hash_password("correct horse").unwrap();
    assert!(hash.starts_with("$argon2id$"));
    assert!(verify_password(&hash, "correct horse"));
    assert!(!verify_password(&hash, "wrong horse"));
    assert_ne!(hash, hash_password("correct horse").unwrap());
    assert_eq!(check_password(&hash, "correct horse"), Some(true));
    assert_eq!(check_password("not a hash", "x"), None);
}

#[test]
fn refresh_tokens() {
    let a = generate_refresh_token().unwrap();
    let b = generate_refresh_token().unwrap();
    assert_eq!(a.chars().count(), 86);
    assert!(a.chars().all(|c| c.is_ascii_alphanumeric() || c == '-' || c == '_'));
    assert_ne!(a, b);
    assert_eq!(
        hash_refresh_token("abc"),
        "ba7816bf8f01cfea414140de5dae2223b00361a396177a9cb410ff61f20015ad"
    );
    assert_eq!(hash_refresh_token(&a), hash_refresh_token(&a.clone()));
    assert_eq!(hash_refresh_token("").len(), 64);
}

// ----- avatars -----

fn png_bytes(width: u32, height: u32) -> Vec<u8> {
    let img = image::RgbImage::from_pixel(width, height, image::Rgb([200, 10, 10]));
    let mut out = Vec::new();
    image::DynamicImage::ImageRgb8(img)
        .write_to(&mut std::io::Cursor::new(&mut out), image::ImageFormat::Png)
        .unwrap();
    out
}

#[test]
fn avatar_too_large() {
    let avatar = Avatar { filename: "a.png".to_string(), bytes: vec![0u8; 5 * 1024 * 1024 + 1] };
    assert!(matches!(
        process_avatar(&avatar),
        Err(CoreError::PayloadTooLarge(ref m)) if m == "Avatar too large. Max 5 MB"
    ));
}

#[test]
fn avatar_unsupported_format() {
    let avatar = Avatar { filename: "a.gif".to_string(), bytes: b"GIF89a....".to_vec() };
    assert!(matches!(
        process_avatar(&avatar),
        Err(CoreError::UnsupportedMediaType(ref m)) if m == "Only JPEG, PNG, WebP images are supported"
    ));
}

#[test]
fn avatar_invalid_data() {
    let avatar = Avatar { filename: "a.PNG".to_string(), bytes: b"not an image".to_vec() };
    assert!(matches!(
        process_avatar(&avatar),
        Err(CoreError::UnprocessableEntity(ref m)) if m.starts_with("Invalid image data: ")
    ));
}

#[test]
fn avatar_converted_to_webp() {
    let avatar = Avatar { filename: "noext".to_string(), bytes: png_bytes(1024, 600) };
    let (bytes, mime) = process_avatar(&avatar).unwrap();
    assert_eq!(mime, "image/webp");
    assert_eq!(&bytes[0..4], b"RIFF");
    assert_eq!(&bytes[8..12], b"WEBP");
    let decoded = image::load_from_memory(&bytes).unwrap();
    assert_eq!((decoded.width(), decoded.height()), (512, 300));
}

#[test]
fn avatar_small_image_scaled_up() {
    let avatar = Avatar { filename: "a.png".to_string(), bytes: png_bytes(100, 50) };
    let (bytes, _) = process_avatar(&avatar).unwrap();
    let decoded = image::load_from_memory(&bytes).unwrap();
    assert_eq!((decoded.width(), decoded.height()), (512, 256));
}

#[test]
fn avatar_is_the_webp_of_the_fitted_image() {
    let input = png_bytes(300, 700);
    let avatar = Avatar { filename: "a.png".to_string(), bytes: input.clone() };
    let (bytes, _) = process_avatar(&avatar).unwrap();
    let fitted = image::load_from_memory(&input)
        .unwrap()
        .resize(512, 512, image::imageops::FilterType::Lanczos3);
    let mut expected: Vec<u8> = Vec::new();
    fitted.write_to(&mut std::io::Cursor::new(&mut expected), image::ImageFormat::WebP).unwrap();
    assert_eq!(bytes, expected);
    assert_eq!((fitted.width(), fitted.height()), (219, 512));
}

// ----- storage -----

#[test]
fn storage_object_url() {
    assert_eq!(object_url("http://s3:8333", "images", "a.png"), "http://s3:8333/images/a.png");
}

// ----- laws on sample values -----

#[test]
fn accepted_usernames_survive_sanitizing() {
    for name in ["Jose\u{0301}", "Дмитрий_123", "john.doe", "Αθηνα"] {
        assert!(validate_username(name).is_ok());
        assert_eq!(sanitize_message(name), name);
    }
}

#[test]
fn sanitizing_only_removes_characters() {
    let input = "a\u{202E}b\u{200B}c\u{0300}\u{0301}\u{0302}d\u{200D}\u{200D}e";
    let out = sanitize_message(input);
    assert_eq!(out, "abc\u{0300}\u{0301}d\u{200D}e");
    let mut rest = input.chars();
    assert!(out.chars().all(|c| rest.any(|d| d == c)));
}

#[test]
fn authorization_header_decides_alone() {
    assert_eq!(extract_token(Some("Bearer a"), Some("token=b"), Some("eyc")).unwrap(), "a");
    assert_eq!(extract_token(Some("Bearer a"), None, None).unwrap(), "a");
}

// ----- sessions -----

#[test]
fn access_token_expiry_adds_the_lifetime() {
    assert_eq!(gilvave::session::access_token_expiry(1_700_000_000, 20 * 60), 1_700_001_200);
    assert_eq!(gilvave::session::access_token_expiry(0, 0), 0);
}

#[test]
fn sessions_expire_at_their_instant() {
    let info = SessionCheckInfo {
        id: SessionId(Uuid::from_u128(1)),
        user_id: UserId(Uuid::from_u128(2)),
        expires_at: 1_000,
    };
    assert_eq!(
        unexpired_session(info, 999),
        Some((SessionId(Uuid::from_u128(1)), UserId(Uuid::from_u128(2))))
    );
    assert_eq!(unexpired_session(info, 1_000), None);
    assert_eq!(unexpired_session(info, 5_000), None);
}

#[test]
fn stored_types_hold_their_fields() {
    let info = SessionCreateInfo {
        user_id: UserId(Uuid::nil()),
        refresh_token_hash: vec![1, 2, 3],
        device_info: "{}".to_string(),
        ip_address: IpAddress::V4([127, 0, 0, 1]),
    };
    assert_eq!(info.ip_address, IpAddress::V4([127, 0, 0, 1]));
    let server = Server {
        id: gilvave::ids::ServerId(Uuid::nil()),
        name: "s".to_string(),
        owner_id: UserId(Uuid::nil()),
        icon_url: String::new(),
        created_at: 0,
    };
    let member = ServerMember { server_id: server.id, user_id: server.owner_id, joined_at: 5 };
    let channel = Channel {
        id: ChannelId(Uuid::nil()),
        server_id: member.server_id,
        name: "general".to_string(),
        channel_type: StoredChannelType::TEXT,
        position: 0,
        created_at: 0,
    };
    assert_eq!(channel.channel_type, StoredChannelType::TEXT);
    assert_eq!(member.joined_at, 5);
}
