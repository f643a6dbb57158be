//! What holds of the state machine over all states, frames and texts.

use crate::chat::{
    after_frame, after_msg, colors_derived, frame_change, msg_change, roster_of,
    sender_color_from, submit_frame, Change, ChatState, Msg, Participant,
};
use crate::color::color_of;
use crate::json::json_text_value;
use crate::protocol::{
    envelope_text, frame_envelope, payload_message, Envelope, Message, MsgTypes,
};
use crate::text::{is_blank, trimmed, trimmed_empty_iff_blank};
use vstd::prelude::*;

verus! {

/// The state after a run of frames, handled in order.
pub open spec fn after_frames(state: ChatState, frames: Seq<Seq<char>>) -> ChatState
    decreases frames.len(),
{
    if frames.len() == 0 {
        state
    } else {
        after_frame(after_frames(state, frames.drop_last()), frames.last())
    }
}

/// Whether a frame holds a `users` envelope.
pub open spec fn is_users_frame(raw: Seq<char>) -> bool {
    frame_envelope(raw) matches Some(envelope) && envelope.kind == MsgTypes::Users
}

/// The names that a `users` frame carries.
pub open spec fn frame_names(raw: Seq<char>) -> Seq<Seq<char>> {
    match frame_envelope(raw) {
        Some(envelope) => match envelope.data_array {
            Some(names) => names,
            None => Seq::empty(),
        },
        None => Seq::empty(),
    }
}

/// Whether a frame holds a `message` envelope whose `data` holds a chat
/// message.
pub open spec fn is_message_frame(raw: Seq<char>) -> bool {
    match frame_envelope(raw) {
        Some(envelope) => envelope.kind == MsgTypes::Message && match envelope.data {
            Some(data) => payload_message(data) is Some,
            None => false,
        },
        None => false,
    }
}

/// The chat message that a `message` frame carries.
pub open spec fn frame_message(raw: Seq<char>) -> Message {
    payload_message(frame_envelope(raw)->0.data->0)->0
}

/// The chat messages of a run of `message` frames.
pub open spec fn frame_messages(frames: Seq<Seq<char>>) -> Seq<Message> {
    Seq::new(frames.len(), |i: int| frame_message(frames[i]))
}

/// A `users` frame replaces the roster by the participants it names, in its
/// order, whoever was there before; the log and the display mode stay.
pub proof fn users_frame_replaces_roster(state: ChatState, raw: Seq<char>)
    requires
        is_users_frame(raw),
    ensures
        after_frame(state, raw) == (ChatState { roster: roster_of(frame_names(raw)), ..state }),
        colors_derived(after_frame(state, raw).roster),
        frame_change(raw) == Change::Roster,
{
    assert(roster_of(Seq::<Seq<char>>::empty()) =~= Seq::empty());
}

/// The same `users` frame a second time changes nothing.
pub proof fn users_frame_idempotent(state: ChatState, raw: Seq<char>)
    requires
        is_users_frame(raw),
    ensures
        after_frame(after_frame(state, raw), raw) == after_frame(state, raw),
{
    users_frame_replaces_roster(state, raw);
    users_frame_replaces_roster(after_frame(state, raw), raw);
}

/// A `message` frame appends its chat message and changes nothing else.
pub proof fn message_frame_appends(state: ChatState, raw: Seq<char>)
    requires
        is_message_frame(raw),
    ensures
        after_frame(state, raw) == (ChatState { log: state.log.push(frame_message(raw)), ..state }),
        frame_change(raw) == Change::Log,
{
}

/// A run of `message` frames appends their chat messages in the order of
/// arrival: the log grows by one entry per frame, what was in it stays in
/// front, and the roster and the display mode stay.
pub proof fn message_frames_append(state: ChatState, frames: Seq<Seq<char>>)
    requires
        forall|i: int| 0 <= i < frames.len() ==> is_message_frame(#[trigger] frames[i]),
    ensures
        after_frames(state, frames) == (ChatState {
            log: state.log + frame_messages(frames),
            ..state
        }),
        after_frames(state, frames).log.len() == state.log.len() + frames.len(),
    decreases frames.len(),
{
    if frames.len() == 0 {
        assert(state.log + frame_messages(frames) =~= state.log);
    } else {
        let front = frames.drop_last();
        message_frames_append(state, front);
        message_frame_appends(after_frames(state, front), frames.last());
        assert((state.log + frame_messages(front)).push(frame_message(frames.last()))
            =~= state.log + frame_messages(frames));
    }
}

/// Whether a frame is malformed: it is not JSON, or the JSON is no
/// envelope, or it is a `message` envelope whose `data` is absent or holds
/// no chat message.
pub open spec fn is_malformed_frame(raw: Seq<char>) -> bool {
    match json_text_value(raw) {
        None => true,
        Some(_) => match frame_envelope(raw) {
            None => true,
            Some(envelope) => envelope.kind == MsgTypes::Message && match envelope.data {
                None => true,
                Some(data) => payload_message(data) is None,
            },
        },
    }
}

/// A malformed frame is discarded: the state stays as it was, and nothing
/// is said to have been written.
pub proof fn malformed_frame_discarded(state: ChatState, raw: Seq<char>)
    requires
        is_malformed_frame(raw),
    ensures
        after_frame(state, raw) == state,
        frame_change(raw) == Change::Nothing,
{
}

/// An inbound `register` envelope is ignored.
pub proof fn register_frame_ignored(state: ChatState, raw: Seq<char>)
    requires
        frame_envelope(raw) matches Some(envelope) && envelope.kind == MsgTypes::Register,
    ensures
        after_frame(state, raw) == state,
        frame_change(raw) == Change::Nothing,
{
}

/// An event leaves every part of the state but the one it is said to write
/// as it was.
pub proof fn change_bounds_effect(state: ChatState, msg: Msg)
    ensures
        msg_change(msg) != Change::Roster ==> after_msg(state, msg).roster == state.roster,
        msg_change(msg) != Change::Log ==> after_msg(state, msg).log == state.log,
        msg_change(msg) != Change::DisplayMode ==> after_msg(state, msg).dark_mode
            == state.dark_mode,
        msg_change(msg) == Change::Nothing ==> after_msg(state, msg) == state,
{
}

/// No event breaks the rule that a participant's colour is that of the name.
pub proof fn colors_stay_derived(state: ChatState, msg: Msg)
    requires
        colors_derived(state.roster),
    ensures
        colors_derived(after_msg(state, msg).roster),
{
    match msg {
        Msg::HandleMsg(raw) => {
            assert(roster_of(Seq::<Seq<char>>::empty()) =~= Seq::empty());
        },
        _ => {},
    }
}

/// Looking from any position on gives the colour of the sender's name.
proof fn sender_color_from_any(roster: Seq<Participant>, from: Seq<char>, at: int)
    requires
        colors_derived(roster),
        0 <= at,
    ensures
        sender_color_from(roster, from, at) == color_of(from),
    decreases roster.len() - at,
{
    if at < roster.len() && roster[at].name != from {
        sender_color_from_any(roster, from, at + 1);
    }
}

/// Where every participant has the colour of the name, a message is shown
/// in the colour of its sender's name, whether the sender is in the roster
/// or not.
pub proof fn sender_color_is_name_color(roster: Seq<Participant>, from: Seq<char>)
    requires
        colors_derived(roster),
    ensures
        sender_color_from(roster, from, 0) == color_of(from),
{
    sender_color_from_any(roster, from, 0);
}

/// Submitting sends nothing exactly where the text is white space only
/// (an empty text is); any other text sends a `message` envelope whose
/// `data` is the trimmed text.
pub proof fn submit_sends_unless_blank(text: Seq<char>)
    ensures
        submit_frame(text) is None <==> is_blank(text),
        !is_blank(text) ==> submit_frame(text) == Some(
            envelope_text(
                Envelope { kind: MsgTypes::Message, data_array: None, data: Some(trimmed(text)) },
            ),
        ),
{
    trimmed_empty_iff_blank(text);
}

/// Submitting a text, blank or not, leaves the state as it was.
pub proof fn submit_keeps_state(state: ChatState, text: String)
    ensures
        after_msg(state, Msg::SubmitMessage(text)) == state,
{
}

} // verus!
