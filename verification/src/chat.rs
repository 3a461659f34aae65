//! The chat room as the client sees it: the roster of online users, the
//! messages received so far and the user's own name, with the rules that move
//! it from one event to the next and that decide how each message is shown.

use vstd::prelude::*;

use crate::protocol::{
    message_frame, opt_text, register_frame, texts, FrameModel, MessageData, MessageModel,
    MsgTypes, WebSocketMessage,
};
use crate::text::{avatar_url, ends_with, has_suffix, make_avatar_url, trim, trimmed};

verus! {

/// What the chat component reacts to.
#[derive(Clone, Debug, PartialEq, Eq)]
pub enum Msg {
    /// A raw frame arrived from the socket.
    HandleMsg(String),
    /// The user asked to send what the input box holds.
    SubmitMessage,
}

/// Someone online, with the picture shown next to their name.
#[derive(Clone, Debug, PartialEq, Eq)]
pub struct UserProfile {
    pub name: String,
    pub avatar: String,
}

/// A profile as character sequences.
pub struct ProfileModel {
    pub name: Seq<char>,
    pub avatar: Seq<char>,
}

impl View for UserProfile {
    type V = ProfileModel;

    open spec fn view(&self) -> ProfileModel {
        ProfileModel { name: self.name@, avatar: self.avatar@ }
    }
}

/// The profile of the user called `name`.
pub open spec fn profile_of(name: Seq<char>) -> ProfileModel {
    ProfileModel { name: name, avatar: avatar_url(name) }
}

/// The roster that a list of online names stands for: one profile per name,
/// in the same order.
pub open spec fn roster(names: Seq<Seq<char>>) -> Seq<ProfileModel> {
    Seq::new(names.len(), |i: int| profile_of(names[i]))
}

/// Every profile shows the avatar of its own name.
pub open spec fn roster_consistent(users: Seq<ProfileModel>) -> bool {
    forall|i: int| 0 <= i < users.len() ==> #[trigger] users[i].avatar == avatar_url(users[i].name)
}

/// The profiles held by a vector.
pub open spec fn profiles(v: Seq<UserProfile>) -> Seq<ProfileModel> {
    v.map_values(|p: UserProfile| p@)
}

/// The chat lines held by a vector.
pub open spec fn message_models(v: Seq<MessageData>) -> Seq<MessageModel> {
    v.map_values(|m: MessageData| m@)
}

/// The state of the chat room as character sequences.
pub struct ChatModel {
    pub users: Seq<ProfileModel>,
    pub messages: Seq<MessageModel>,
    pub current_user: Seq<char>,
}

/// The chat room as this client knows it.
pub struct Chat {
    users: Vec<UserProfile>,
    messages: Vec<MessageData>,
    current_user: String,
}

impl View for Chat {
    type V = ChatModel;

    closed spec fn view(&self) -> ChatModel {
        ChatModel {
            users: profiles(self.users@),
            messages: message_models(self.messages@),
            current_user: self.current_user@,
        }
    }
}

impl Chat {
    #[verifier::type_invariant]
    closed spec fn inv(self) -> bool {
        roster_consistent(profiles(self.users@))
    }
}

/// An event the chat state reacts to, once every frame is decoded.
#[derive(Clone, Debug, PartialEq, Eq)]
pub enum Event {
    /// A frame arrived from the server.
    Received(WebSocketMessage),
    /// The payload of a `Message` frame, decoded as a chat line.
    MessageDecoded(MessageData),
    /// The user asked to send the input box's text (`None` when there is no
    /// input box to read).
    Submit(Option<String>),
}

/// What the component must do after the chat state took an event.
#[derive(Clone, Debug, PartialEq, Eq)]
pub enum Action {
    /// Nothing.
    Nothing,
    /// Decode this text as a chat line and hand it back as
    /// `Event::MessageDecoded`.
    DecodeMessage(String),
    /// Send this frame on the socket, then empty the input box.
    SendAndClear(WebSocketMessage),
}

/// An event as character sequences.
pub enum EventModel {
    Received(FrameModel),
    MessageDecoded(MessageModel),
    Submit(Option<Seq<char>>),
}

/// An action as character sequences.
pub enum ActionModel {
    Nothing,
    DecodeMessage(Seq<char>),
    SendAndClear(FrameModel),
}

impl View for Event {
    type V = EventModel;

    open spec fn view(&self) -> EventModel {
        match self {
            Event::Received(f) => EventModel::Received(f@),
            Event::MessageDecoded(m) => EventModel::MessageDecoded(m@),
            Event::Submit(o) => EventModel::Submit(opt_text(*o)),
        }
    }
}

impl View for Action {
    type V = ActionModel;

    open spec fn view(&self) -> ActionModel {
        match self {
            Action::Nothing => ActionModel::Nothing,
            Action::DecodeMessage(s) => ActionModel::DecodeMessage(s@),
            Action::SendAndClear(f) => ActionModel::SendAndClear(f@),
        }
    }
}

/// The frame that a submitted input line becomes: none when it is blank,
/// else a chat line holding the input without its surrounding whitespace.
pub open spec fn outgoing(input: Seq<char>) -> Option<FrameModel> {
    if trimmed(input).len() == 0 {
        None
    } else {
        Some(message_frame(trimmed(input)))
    }
}

/// Whether the chat state accepts `e`: a `Message` frame from the server
/// must carry its payload.
pub open spec fn accepts(e: EventModel) -> bool {
    match e {
        EventModel::Received(f) => f.message_type == MsgTypes::Message ==> f.data is Some,
        _ => true,
    }
}

/// How the chat state answers an event: the next state, whether the screen
/// must be drawn again, and what the component must do.
pub open spec fn step(m: ChatModel, e: EventModel) -> (ChatModel, bool, ActionModel) {
    match e {
        EventModel::Received(f) => match f.message_type {
            MsgTypes::Users => (
                ChatModel {
                    users: roster(
                        match f.data_array {
                            Some(names) => names,
                            None => Seq::empty(),
                        },
                    ),
                    ..m
                },
                true,
                ActionModel::Nothing,
            ),
            MsgTypes::Message => (m, false, ActionModel::DecodeMessage(f.data.unwrap())),
            MsgTypes::Register => (m, false, ActionModel::Nothing),
        },
        EventModel::MessageDecoded(md) => (
            ChatModel { messages: m.messages.push(md), ..m },
            true,
            ActionModel::Nothing,
        ),
        EventModel::Submit(input) => match input {
            Some(text) => match outgoing(text) {
                Some(frame) => (m, false, ActionModel::SendAndClear(frame)),
                None => (m, false, ActionModel::Nothing),
            },
            None => (m, false, ActionModel::Nothing),
        },
    }
}

/// Builds the profiles of the users called `names`, in order.
pub fn profiles_from(names: &Vec<String>) -> (r: Vec<UserProfile>)
    ensures
        profiles(r@) == roster(texts(names@)),
        r@.len() == names@.len(),
        forall|i: int|
            0 <= i < names@.len() ==> {
                &&& #[trigger] r@[i].name@ == names@[i]@
                &&& r@[i].avatar@ == "https://avatars.dicebear.com/api/adventurer-neutral/"@
                    + names@[i]@ + ".svg"@
            },
{
    let mut r: Vec<UserProfile> = Vec::new();
    let n = names.len();
    let mut i: usize = 0;
    while i < n
        invariant
            n == names@.len(),
            i <= n,
            r@.len() == i,
            forall|k: int| 0 <= k < i ==> #[trigger] r@[k]@ == profile_of(names@[k]@),
        decreases n - i,
    {
        let name = names[i].clone();
        let avatar = make_avatar_url(name.as_str());
        r.push(UserProfile { name, avatar });
        i = i + 1;
    }
    assert(profiles(r@) =~= roster(texts(names@)));
    assert forall|i: int| 0 <= i < names@.len() implies {
        &&& #[trigger] r@[i].name@ == names@[i]@
        &&& r@[i].avatar@ == "https://avatars.dicebear.com/api/adventurer-neutral/"@ + names@[i]@
            + ".svg"@
    } by {
        assert(r@[i]@ == profile_of(names@[i]@));
    }
    r
}

/// The frame that a submitted input line becomes, if any (see `outgoing`).
pub fn outgoing_message(input: &str) -> (r: Option<WebSocketMessage>)
    ensures
        match r {
            Some(f) => outgoing(input@) == Some(f@),
            None => outgoing(input@) is None,
        },
{
    let text = trim(input);
    if text.as_str().is_empty() {
        None
    } else {
        Some(WebSocketMessage::message(text))
    }
}

impl Chat {
    /// The room as it is when the user `username` enters it, and the frame
    /// that announces them to the server.
    pub fn create(username: String) -> (r: (Chat, WebSocketMessage))
        ensures
            r.0@.users == Seq::<ProfileModel>::empty(),
            r.0@.messages == Seq::<MessageModel>::empty(),
            r.0@.current_user == username@,
            r.1@ == register_frame(username@),
            r.1.message_type == MsgTypes::Register,
            r.1.data_array is None,
            r.1.data matches Some(d) && d@ == username@,
    {
        let announce = WebSocketMessage::register(username.clone());
        let chat = Chat { users: Vec::new(), messages: Vec::new(), current_user: username };
        assert(profiles(chat.users@) =~= Seq::<ProfileModel>::empty());
        assert(message_models(chat.messages@) =~= Seq::<MessageModel>::empty());
        (chat, announce)
    }

    /// Takes one event; returns whether the screen must be drawn again and
    /// what the component must do next.
    pub fn update(&mut self, event: Event) -> (r: (bool, Action))
        requires
            accepts(event@),
        ensures
            (final(self)@, r.0, r.1@) == step(old(self)@, event@),
    {
        proof {
            use_type_invariant(&*self);
        }
        match event {
            Event::Received(frame) => match frame.message_type {
                MsgTypes::Users => {
                    let names = match frame.data_array {
                        Some(names) => names,
                        None => Vec::new(),
                    };
                    let users = profiles_from(&names);
                    proof {
                        assert(texts(names@) == match frame@.data_array {
                            Some(ns) => ns,
                            None => Seq::<Seq<char>>::empty(),
                        });
                        assert forall|i: int| 0 <= i < profiles(users@).len() implies
                            #[trigger] profiles(users@)[i].avatar == avatar_url(profiles(users@)[i].name) by {
                        }
                    }
                    self.users = users;
                    (true, Action::Nothing)
                },
                MsgTypes::Message => {
                    let data = frame.data.unwrap();
                    (false, Action::DecodeMessage(data))
                },
                MsgTypes::Register => (false, Action::Nothing),
            },
            Event::MessageDecoded(md) => {
                let mut messages: Vec<MessageData> = Vec::new();
                std::mem::swap(&mut messages, &mut self.messages);
                messages.push(md);
                self.messages = messages;
                assert(message_models(self.messages@) =~= old(self)@.messages.push(md@));
                (true, Action::Nothing)
            },
            Event::Submit(input) => match input {
                Some(text) => match outgoing_message(text.as_str()) {
                    Some(frame) => (false, Action::SendAndClear(frame)),
                    None => (false, Action::Nothing),
                },
                None => (false, Action::Nothing),
            },
        }
    }
}

/// The avatar shown next to a message from `name`: that of the first online
/// user with this name, else the avatar address of the name itself.
pub open spec fn lookup_avatar(users: Seq<ProfileModel>, name: Seq<char>) -> Seq<char>
    decreases users.len(),
{
    if users.len() == 0 {
        avatar_url(name)
    } else if users[0].name == name {
        users[0].avatar
    } else {
        lookup_avatar(users.drop_first(), name)
    }
}

/// How one received message is put on screen.
#[derive(Clone, Debug, PartialEq, Eq)]
pub struct MessageView {
    /// Who wrote it.
    pub from: String,
    /// The picture shown beside it.
    pub avatar: String,
    /// Whether the user of this client wrote it (drawn on the right).
    pub is_me: bool,
    /// Whether the text is the address of a GIF (drawn as an image).
    pub is_gif: bool,
    /// The text itself.
    pub text: String,
}

/// A message's appearance as character sequences.
pub struct MessageViewModel {
    pub from: Seq<char>,
    pub avatar: Seq<char>,
    pub is_me: bool,
    pub is_gif: bool,
    pub text: Seq<char>,
}

impl View for MessageView {
    type V = MessageViewModel;

    open spec fn view(&self) -> MessageViewModel {
        MessageViewModel {
            from: self.from@,
            avatar: self.avatar@,
            is_me: self.is_me,
            is_gif: self.is_gif,
            text: self.text@,
        }
    }
}

/// Whether `v` shows the message `md` under its sender's name with its text
/// unchanged, as the user's own exactly when the sender is `me`, and as a GIF
/// exactly when the text ends with the four characters ".gif".
pub open spec fn is_shown_as(v: MessageViewModel, md: MessageModel, me: Seq<char>) -> bool {
    let t = md.message;
    &&& v.from == md.from
    &&& v.text == t
    &&& v.is_me == (md.from == me)
    &&& v.is_gif == (t.len() >= 4 && t.subrange(t.len() - 4, t.len() as int) == seq![
        '.',
        'g',
        'i',
        'f',
    ])
}

/// How the message `md` appears in the room `m`.
pub open spec fn shown(m: ChatModel, md: MessageModel) -> MessageViewModel {
    MessageViewModel {
        from: md.from,
        avatar: lookup_avatar(m.users, md.from),
        is_me: md.from == m.current_user,
        is_gif: has_suffix(md.message, ".gif"@),
        text: md.message,
    }
}

proof fn lemma_lookup_skip(users: Seq<ProfileModel>, name: Seq<char>, k: int)
    requires
        0 <= k < users.len(),
        users[k].name != name,
    ensures
        lookup_avatar(users.skip(k), name) == lookup_avatar(users.skip(k + 1), name),
{
    assert(users.skip(k).drop_first() =~= users.skip(k + 1));
}

/// Where every profile shows the avatar of its own name, a message from
/// `name` is shown with the avatar of `name`, whether or not `name` is online.
pub proof fn lemma_shown_avatar_is_senders(users: Seq<ProfileModel>, name: Seq<char>)
    requires
        roster_consistent(users),
    ensures
        lookup_avatar(users, name) == avatar_url(name),
    decreases users.len(),
{
    if users.len() > 0 && users[0].name != name {
        assert(roster_consistent(users.drop_first())) by {
            assert forall|i: int| 0 <= i < users.drop_first().len() implies
                #[trigger] users.drop_first()[i].avatar == avatar_url(users.drop_first()[i].name) by {
                assert(users.drop_first()[i] == users[i + 1]);
            }
        }
        lemma_shown_avatar_is_senders(users.drop_first(), name);
    }
}

/// The avatar shown next to a message from `name`, among `users`.
fn avatar_for(users: &Vec<UserProfile>, name: &String) -> (r: String)
    ensures
        r@ == lookup_avatar(profiles(users@), name@),
{
    let n = users.len();
    let mut k: usize = 0;
    assert(profiles(users@).skip(0) =~= profiles(users@));
    while k < n
        invariant
            n == users@.len(),
            k <= n,
            lookup_avatar(profiles(users@), name@) == lookup_avatar(profiles(users@).skip(k as int), name@),
        decreases n - k,
    {
        if users[k].name == *name {
            assert(profiles(users@).skip(k as int)[0] == users@[k as int]@);
            return users[k].avatar.clone();
        }
        proof {
            lemma_lookup_skip(profiles(users@), name@, k as int);
        }
        k = k + 1;
    }
    assert(profiles(users@).skip(n as int).len() == 0);
    make_avatar_url(name.as_str())
}

impl Chat {
    /// The users online, in the order the server listed them.
    pub fn users(&self) -> (r: &Vec<UserProfile>)
        ensures
            profiles(r@) == self@.users,
            roster_consistent(self@.users),
    {
        proof {
            use_type_invariant(self);
        }
        &self.users
    }

    /// The messages received, oldest first.
    pub fn messages(&self) -> (r: &Vec<MessageData>)
        ensures
            message_models(r@) == self@.messages,
    {
        &self.messages
    }

    /// The name of the user of this client.
    pub fn current_user(&self) -> (r: &String)
        ensures
            r@ == self@.current_user,
    {
        &self.current_user
    }

    /// How each received message is put on screen, oldest first.
    pub fn message_views(&self) -> (r: Vec<MessageView>)
        ensures
            r@.len() == self@.messages.len(),
            forall|i: int|
                0 <= i < r@.len() ==> #[trigger] r@[i]@ == shown(self@, self@.messages[i]),
            forall|i: int|
                0 <= i < r@.len() ==> #[trigger] r@[i].avatar@ == avatar_url(
                    self@.messages[i].from,
                ),
            forall|i: int|
                0 <= i < r@.len() ==> is_shown_as(#[trigger] r@[i]@, self@.messages[i], self@.current_user),
    {
        proof {
            use_type_invariant(self);
        }
        let n = self.messages.len();
        let mut r: Vec<MessageView> = Vec::new();
        let mut i: usize = 0;
        while i < n
            invariant
                n == self.messages@.len(),
                i <= n,
                r@.len() == i,
                roster_consistent(self@.users),
                forall|k: int| 0 <= k < i ==> #[trigger] r@[k]@ == shown(self@, self@.messages[k]),
            decreases n - i,
        {
            let m = &self.messages[i];
            let avatar = avatar_for(&self.users, &m.from);
            let is_me = m.from == self.current_user;
            let is_gif = ends_with(m.message.as_str(), ".gif");
            r.push(
                MessageView {
                    from: m.from.clone(),
                    avatar,
                    is_me,
                    is_gif,
                    text: m.message.clone(),
                },
            );
            i = i + 1;
        }
        proof {
            assert forall|i: int| 0 <= i < r@.len() implies #[trigger] r@[i].avatar@ == avatar_url(
                self@.messages[i].from,
            ) by {
                assert(r@[i]@ == shown(self@, self@.messages[i]));
                lemma_shown_avatar_is_senders(self@.users, self@.messages[i].from);
            }
            reveal_strlit(".gif");
            assert(".gif"@ =~= seq!['.', 'g', 'i', 'f']);
            assert forall|i: int| 0 <= i < r@.len() implies is_shown_as(
                #[trigger] r@[i]@,
                self@.messages[i],
                self@.current_user,
            ) by {
                assert(r@[i]@ == shown(self@, self@.messages[i]));
            }
        }
        r
    }
}

/// What a key pressed in the input box asks for: Enter submits the line,
/// any other key nothing.
pub fn key_message(key: &str) -> (r: Option<Msg>)
    ensures
        r == (if key@ == "Enter"@ {
            Some(Msg::SubmitMessage)
        } else {
            None
        }),
{
    if String::from_str(key) == String::from_str("Enter") {
        Some(Msg::SubmitMessage)
    } else {
        None
    }
}

} // verus!
