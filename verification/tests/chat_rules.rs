use yewchat::chat::{key_message, outgoing_message, profiles_from, Action, Chat, Event, Msg, UserProfile};
use yewchat::protocol::{MessageData, MsgTypes, WebSocketMessage};

fn frame(message_type: MsgTypes, data_array: Option<Vec<&str>>, data: Option<&str>) -> WebSocketMessage {
    WebSocketMessage {
        message_type,
        data_array: data_array.map(|v| v.into_iter().map(|s| s.to_string()).collect()),
        data: data.map(|s| s.to_string()),
    }
}

fn line(from: &str, message: &str) -> MessageData {
    MessageData { from: from.to_string(), message: message.to_string() }
}

fn avatar(name: &str) -> String {
    format!("https://avatars.dicebear.com/api/adventurer-neutral/{}.svg", name)
}

#[test]
fn create_announces_the_user() {
    let (chat, announce) = Chat::create("alice".to_string());
    assert!(chat.users().is_empty());
    assert!(chat.messages().is_empty());
    assert_eq!(chat.current_user(), "alice");
    assert_eq!(announce, frame(MsgTypes::Register, None, Some("alice")));
}

#[test]
fn users_frame_replaces_roster() {
    let (mut chat, _) = Chat::create("alice".to_string());
    let (redraw, action) = chat.update(Event::Received(frame(MsgTypes::Users, Some(vec!["alice", "bob"]), None)));
    assert!(redraw);
    assert_eq!(action, Action::Nothing);
    assert_eq!(
        chat.users(),
        &vec![
            UserProfile { name: "alice".to_string(), avatar: avatar("alice") },
            UserProfile { name: "bob".to_string(), avatar: avatar("bob") },
        ]
    );
    let (redraw, _) = chat.update(Event::Received(frame(MsgTypes::Users, Some(vec!["carol"]), None)));
    assert!(redraw);
    assert_eq!(chat.users(), &vec![UserProfile { name: "carol".to_string(), avatar: avatar("carol") }]);
}

#[test]
fn users_frame_without_names_empties_roster() {
    let (mut chat, _) = Chat::create("alice".to_string());
    chat.update(Event::Received(frame(MsgTypes::Users, Some(vec!["bob"]), None)));
    let (redraw, action) = chat.update(Event::Received(frame(MsgTypes::Users, None, None)));
    assert!(redraw);
    assert_eq!(action, Action::Nothing);
    assert!(chat.users().is_empty());
}

#[test]
fn register_frame_is_ignored() {
    let (mut chat, _) = Chat::create("alice".to_string());
    let (redraw, action) = chat.update(Event::Received(frame(MsgTypes::Register, None, Some("bob"))));
    assert!(!redraw);
    assert_eq!(action, Action::Nothing);
    assert!(chat.users().is_empty());
    assert!(chat.messages().is_empty());
}

#[test]
fn message_frame_asks_to_decode_payload() {
    let (mut chat, _) = Chat::create("alice".to_string());
    let payload = r#"{"from":"bob","message":"hi"}"#;
    let (redraw, action) = chat.update(Event::Received(frame(MsgTypes::Message, None, Some(payload))));
    assert!(!redraw);
    assert_eq!(action, Action::DecodeMessage(payload.to_string()));
    assert!(chat.messages().is_empty());
}

#[test]
fn decoded_messages_are_appended_in_order() {
    let (mut chat, _) = Chat::create("alice".to_string());
    let (redraw, action) = chat.update(Event::MessageDecoded(line("bob", "hi")));
    assert!(redraw);
    assert_eq!(action, Action::Nothing);
    chat.update(Event::MessageDecoded(line("alice", "hello")));
    assert_eq!(chat.messages(), &vec![line("bob", "hi"), line("alice", "hello")]);
}

#[test]
fn submit_without_input_does_nothing() {
    let (mut chat, _) = Chat::create("alice".to_string());
    assert_eq!(chat.update(Event::Submit(None)), (false, Action::Nothing));
}

#[test]
fn submit_blank_line_sends_nothing() {
    let (mut chat, _) = Chat::create("alice".to_string());
    assert_eq!(chat.update(Event::Submit(Some(" \t ".to_string()))), (false, Action::Nothing));
    assert!(chat.messages().is_empty());
}

#[test]
fn submit_sends_trimmed_line_and_keeps_state() {
    let (mut chat, _) = Chat::create("alice".to_string());
    let (redraw, action) = chat.update(Event::Submit(Some("  hello there \n".to_string())));
    assert!(!redraw);
    assert_eq!(action, Action::SendAndClear(frame(MsgTypes::Message, None, Some("hello there"))));
    assert!(chat.messages().is_empty());
    assert_eq!(chat.current_user(), "alice");
}

#[test]
fn outgoing_message_of_blank_is_none() {
    assert_eq!(outgoing_message("   "), None);
    assert_eq!(outgoing_message(" x "), Some(frame(MsgTypes::Message, None, Some("x"))));
}

#[test]
fn profiles_from_builds_avatars() {
    let names = vec!["a b".to_string(), "z".to_string()];
    let ps = profiles_from(&names);
    assert_eq!(ps.len(), 2);
    assert_eq!(ps[0].name, "a b");
    assert_eq!(ps[0].avatar, avatar("a b"));
    assert_eq!(ps[1].avatar, avatar("z"));
}

#[test]
fn message_views_mark_own_messages_and_gifs() {
    let (mut chat, _) = Chat::create("alice".to_string());
    chat.update(Event::Received(frame(MsgTypes::Users, Some(vec!["alice", "bob"]), None)));
    chat.update(Event::MessageDecoded(line("bob", "hi")));
    chat.update(Event::MessageDecoded(line("alice", "https://media.example/cat.gif")));
    chat.update(Event::MessageDecoded(line("dave", "who is here?")));
    let views = chat.message_views();
    assert_eq!(views.len(), 3);
    assert_eq!(views[0].from, "bob");
    assert_eq!(views[0].avatar, avatar("bob"));
    assert!(!views[0].is_me);
    assert!(!views[0].is_gif);
    assert_eq!(views[0].text, "hi");
    assert!(views[1].is_me);
    assert!(views[1].is_gif);
    assert_eq!(views[1].avatar, avatar("alice"));
    // a sender who is not online still gets the avatar of their name
    assert_eq!(views[2].avatar, avatar("dave"));
    assert!(!views[2].is_me);
}

#[test]
fn enter_key_submits() {
    assert_eq!(key_message("Enter"), Some(Msg::SubmitMessage));
    assert_eq!(key_message("a"), None);
    assert_eq!(key_message("enter"), None);
}
