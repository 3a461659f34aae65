use yewchat::chat::Chat;
use yewchat::login::login;
use yewchat::protocol::{MsgTypes, WebSocketMessage};
use yewchat::text::{ends_with, is_white_space, make_avatar_url, trim};

#[test]
fn trim_removes_surrounding_ascii_whitespace() {
    assert_eq!(trim("  hello world \t\n"), "hello world");
}

#[test]
fn trim_removes_unicode_whitespace() {
    assert_eq!(trim("\u{3000}\u{00A0}hi\u{2003}\u{85}"), "hi");
}

#[test]
fn trim_of_blank_is_empty() {
    assert_eq!(trim(" \t \r\n "), "");
    assert_eq!(trim(""), "");
}

#[test]
fn trim_keeps_inner_whitespace_and_other_chars() {
    assert_eq!(trim("a  b"), "a  b");
    assert_eq!(trim("é ü"), "é ü");
}

#[test]
fn ends_with_matches_suffix() {
    assert!(ends_with("https://x.org/cat.gif", ".gif"));
    assert!(!ends_with("https://x.org/cat.gifv", ".gif"));
    assert!(!ends_with("gif", ".gif"));
    assert!(ends_with(".gif", ".gif"));
    assert!(ends_with("anything", ""));
}

#[test]
fn avatar_url_is_dicebear_address() {
    assert_eq!(
        make_avatar_url("alice"),
        "https://avatars.dicebear.com/api/adventurer-neutral/alice.svg"
    );
    assert_eq!(
        make_avatar_url(""),
        "https://avatars.dicebear.com/api/adventurer-neutral/.svg"
    );
}

#[test]
fn login_trims_the_typed_name() {
    assert_eq!(login("  indra  "), Some("indra".to_string()));
}

#[test]
fn login_refuses_blank_names() {
    assert_eq!(login(""), None);
    assert_eq!(login("   \t"), None);
}

#[test]
fn login_name_is_stable() {
    let first = login(" \u{3000}bob smith\n").unwrap();
    assert_eq!(first, "bob smith");
    assert_eq!(login(&first), Some(first.clone()));
}

#[test]
fn login_then_enter_announces_trimmed_name() {
    let name = login("  alice  ").unwrap();
    let (chat, announce) = Chat::create(name);
    assert_eq!(chat.current_user(), "alice");
    assert_eq!(
        announce,
        WebSocketMessage { message_type: MsgTypes::Register, data_array: None, data: Some("alice".to_string()) }
    );
}

#[test]
fn whitespace_set_is_unicode_white_space() {
    for c in ['\t', '\n', '\u{b}', '\u{c}', '\r', ' ', '\u{85}', '\u{a0}', '\u{1680}', '\u{2000}', '\u{200a}', '\u{2028}', '\u{2029}', '\u{202f}', '\u{205f}', '\u{3000}'] {
        assert!(is_white_space(c));
        assert_eq!(is_white_space(c), c.is_whitespace());
    }
    for c in ['a', '0', '\u{200b}', '\u{180e}', '\u{feff}', '\u{8}', '\u{e}', '越'] {
        assert!(!is_white_space(c));
        assert_eq!(is_white_space(c), c.is_whitespace());
    }
}
