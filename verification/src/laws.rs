//! What holds of the chat room over every event and every input.

use vstd::prelude::*;

use crate::chat::{
    accepts, outgoing, roster_consistent, shown, step, ActionModel, ChatModel, EventModel,
    lemma_shown_avatar_is_senders,
};
use crate::protocol::{message_frame, register_frame, FrameModel, MessageModel, MsgTypes};
use crate::text::{
    lemma_trim_end_shape, lemma_trim_start_shape, lemma_trimmed_edges, lemma_trimmed_idempotent,
    trim_start, trimmed, unicode_white_space,
};

verus! {

/// No event changes who the user of this client is.
pub proof fn law_current_user_is_fixed(m: ChatModel, e: EventModel)
    requires
        accepts(e),
    ensures
        step(m, e).0.current_user == m.current_user,
{
}

/// Every event keeps each online user's avatar that of their own name.
pub proof fn law_roster_stays_consistent(m: ChatModel, e: EventModel)
    requires
        accepts(e),
        roster_consistent(m.users),
    ensures
        roster_consistent(step(m, e).0.users),
{
}

/// A `Users` frame replaces the roster whatever it was before: two rooms
/// that receive the same frame have the same roster, the same messages as
/// before, and taking the frame a second time changes nothing.
pub proof fn law_users_frame_replaces_roster(m1: ChatModel, m2: ChatModel, f: FrameModel)
    requires
        f.message_type == MsgTypes::Users,
    ensures
        step(m1, EventModel::Received(f)).0.users == step(m2, EventModel::Received(f)).0.users,
        step(m1, EventModel::Received(f)).0.messages == m1.messages,
        step(step(m1, EventModel::Received(f)).0, EventModel::Received(f)).0 == step(
            m1,
            EventModel::Received(f),
        ).0,
{
}

/// Messages are never dropped or reordered: after any event the earlier
/// messages are still there, first, in the same order, and at most one new
/// message follows them.
pub proof fn law_messages_only_grow(m: ChatModel, e: EventModel)
    requires
        accepts(e),
    ensures
        m.messages.len() <= step(m, e).0.messages.len() <= m.messages.len() + 1,
        step(m, e).0.messages.subrange(0, m.messages.len() as int) == m.messages,
{
    assert(step(m, e).0.messages.subrange(0, m.messages.len() as int) =~= m.messages);
}

/// Registration frames from the server are ignored.
pub proof fn law_register_frames_are_ignored(m: ChatModel, f: FrameModel)
    requires
        f.message_type == MsgTypes::Register,
    ensures
        step(m, EventModel::Received(f)) == (m, false, ActionModel::Nothing),
{
}

/// Submitting a line never changes the room or asks for a redraw.
pub proof fn law_submit_keeps_state(m: ChatModel, input: Option<Seq<char>>)
    ensures
        step(m, EventModel::Submit(input)).0 == m,
        !step(m, EventModel::Submit(input)).1,
{
}

/// What is sent for a submitted line is a chat line that is not empty,
/// neither starts nor ends with whitespace, and is its own trimmed form;
/// nothing is sent for a blank line.
pub proof fn law_sent_lines_are_trimmed(m: ChatModel, input: Seq<char>)
    ensures
        match step(m, EventModel::Submit(Some(input))).2 {
            ActionModel::SendAndClear(f) => {
                &&& f.message_type == MsgTypes::Message
                &&& f.data_array is None
                &&& f.data == Some(trimmed(input))
                &&& trimmed(input).len() > 0
                &&& !unicode_white_space(trimmed(input)[0])
                &&& !unicode_white_space(trimmed(input).last())
                &&& trimmed(trimmed(input)) == trimmed(input)
            },
            ActionModel::Nothing => trimmed(input).len() == 0,
            ActionModel::DecodeMessage(_) => false,
        },
{
    lemma_trimmed_edges(input);
    lemma_trimmed_idempotent(input);
}

/// The name a user enters the room under (see `login::login`) is the typed
/// text without surrounding whitespace: when it is not empty it neither starts
/// nor ends with whitespace, logging in under it again yields it again, and a
/// line typed with the same text is sent as that same text.
pub proof fn law_login_name_is_stable(typed: Seq<char>)
    ensures
        trimmed(typed).len() > 0 ==> {
            &&& !unicode_white_space(trimmed(typed)[0])
            &&& !unicode_white_space(trimmed(typed).last())
            &&& trimmed(trimmed(typed)) == trimmed(typed)
            &&& trimmed(trimmed(typed)).len() > 0
        },
        outgoing(trimmed(typed)) == outgoing(typed),
{
    lemma_trimmed_edges(typed);
    lemma_trimmed_idempotent(typed);
}

/// Trimming removes whitespace around the text and nothing else: the result
/// is the stretch of the input from its first to its last non-whitespace
/// character (empty when there is none), whatever the input's length.
pub proof fn law_trim_keeps_everything_between_the_edges(s: Seq<char>)
    ensures
        exists|i: int, j: int|
            {
                &&& 0 <= i <= j <= s.len()
                &&& trimmed(s) == s.subrange(i, j)
                &&& forall|k: int| 0 <= k < i ==> #[trigger] unicode_white_space(s[k])
                &&& forall|k: int| j <= k < s.len() ==> #[trigger] unicode_white_space(s[k])
                &&& i < j ==> !unicode_white_space(s[i]) && !unicode_white_space(s[j - 1])
            },
        s.len() > 0 && !unicode_white_space(s[0]) && !unicode_white_space(s[s.len() - 1])
            ==> trimmed(s) == s,
{
    lemma_trim_start_shape(s);
    let ts = trim_start(s);
    lemma_trim_end_shape(ts);
    lemma_trimmed_edges(s);
    let i = s.len() - ts.len();
    let j = i + trimmed(s).len();
    assert(trimmed(s) =~= s.subrange(i, j));
    assert forall|k: int| j <= k < s.len() implies #[trigger] unicode_white_space(s[k]) by {
        assert(s[k] == ts[k - i]);
    }
    if i < j {
        assert(s[i] == trimmed(s)[0]);
        assert(s[j - 1] == trimmed(s).last());
    }
    if s.len() > 0 && !unicode_white_space(s[0]) && !unicode_white_space(s[s.len() - 1]) {
        assert(i == 0) by {
            if i > 0 {
                assert(unicode_white_space(s[0]));
            }
        }
        assert(j == s.len()) by {
            if j < s.len() {
                assert(unicode_white_space(s[s.len() - 1]));
            }
        }
        assert(s.subrange(0, s.len() as int) =~= s);
    }
}

/// A submitted line is sent as the text between its first and last
/// non-whitespace characters; a line that neither starts nor ends with
/// whitespace is sent as it was typed, whatever its length.
pub proof fn law_submitted_line_is_sent_whole(m: ChatModel, s: Seq<char>)
    requires
        s.len() > 0,
        !unicode_white_space(s[0]),
        !unicode_white_space(s[s.len() - 1]),
    ensures
        step(m, EventModel::Submit(Some(s))).0 == m,
        !step(m, EventModel::Submit(Some(s))).1,
        step(m, EventModel::Submit(Some(s))).2 matches ActionModel::SendAndClear(f) && f.message_type
            == MsgTypes::Message && f.data_array is None && f.data == Some(s),
{
    law_trim_keeps_everything_between_the_edges(s);
    assert(trimmed(s) == s);
    assert(outgoing(s) == Some(message_frame(s)));
}

/// The frame announcing a user carries their name unchanged; a chat-line
/// frame carries its text unchanged.
pub proof fn law_frames_carry_their_text(name: Seq<char>)
    ensures
        register_frame(name).message_type == MsgTypes::Register,
        register_frame(name).data_array is None,
        register_frame(name).data == Some(name),
        message_frame(name).message_type == MsgTypes::Message,
        message_frame(name).data_array is None,
        message_frame(name).data == Some(name),
{
}

/// After a `Users` frame the roster lists every name of the frame, once, in
/// the frame's order, each with the dicebear avatar of that name; with no
/// list the roster is empty. Messages and the current user stay, and the
/// screen is redrawn.
pub proof fn law_users_frame_lists_every_name(m: ChatModel, f: FrameModel)
    requires
        f.message_type == MsgTypes::Users,
    ensures
        ({
            let r = step(m, EventModel::Received(f));
            &&& r.1
            &&& r.2 == ActionModel::Nothing
            &&& r.0.messages == m.messages
            &&& r.0.current_user == m.current_user
            &&& match f.data_array {
                Some(ns) => {
                    &&& r.0.users.len() == ns.len()
                    &&& forall|i: int|
                        0 <= i < ns.len() ==> {
                            &&& #[trigger] r.0.users[i].name == ns[i]
                            &&& r.0.users[i].avatar
                                == "https://avatars.dicebear.com/api/adventurer-neutral/"@ + ns[i]
                                + ".svg"@
                        }
                },
                None => r.0.users.len() == 0,
            }
        }),
{
}

/// Every decoded message is kept: it is added after all earlier messages,
/// which stay as they were, and the screen is redrawn; nothing else changes.
pub proof fn law_decoded_message_is_appended(m: ChatModel, md: MessageModel)
    ensures
        ({
            let r = step(m, EventModel::MessageDecoded(md));
            &&& r.1
            &&& r.2 == ActionModel::Nothing
            &&& r.0.messages.len() == m.messages.len() + 1
            &&& r.0.messages.subrange(0, m.messages.len() as int) == m.messages
            &&& r.0.messages[m.messages.len() as int] == md
            &&& r.0.users == m.users
            &&& r.0.current_user == m.current_user
        }),
{
    assert(step(m, EventModel::MessageDecoded(md)).0.messages.subrange(0, m.messages.len() as int)
        =~= m.messages);
}

/// How a message appears: under its sender's name, with the dicebear avatar
/// of that name (where every online profile shows its own name's avatar), as
/// the user's own exactly when the sender is the current user, as a GIF
/// exactly when its text ends with the four characters ".gif", and with its
/// text unchanged.
pub proof fn law_message_appearance(m: ChatModel, md: MessageModel)
    ensures
        shown(m, md).from == md.from,
        shown(m, md).text == md.message,
        shown(m, md).is_me == (md.from == m.current_user),
        shown(m, md).is_gif == (md.message.len() >= 4 && md.message.subrange(
            md.message.len() - 4,
            md.message.len() as int,
        ) == seq!['.', 'g', 'i', 'f']),
        roster_consistent(m.users) ==> shown(m, md).avatar
            == "https://avatars.dicebear.com/api/adventurer-neutral/"@ + md.from + ".svg"@,
{
    reveal_strlit(".gif");
    assert(".gif"@ =~= seq!['.', 'g', 'i', 'f']);
    if roster_consistent(m.users) {
        lemma_shown_avatar_is_senders(m.users, md.from);
    }
}

} // verus!
