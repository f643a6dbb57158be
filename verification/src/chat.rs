//! The chat state machine: the roster of connected participants, the log of
//! messages and the display mode, and what each event does to them.

use crate::color::{color_index, color_of, palette_color};
use crate::protocol::{
    encode_envelope, envelope_text, frame_envelope, parse_envelope, parse_message,
    payload_message, texts_of, Envelope, Message, MessageData, MsgTypes, WebSocketMessage,
};
use crate::text::{ends_with, has_suffix, trim, trimmed};
use vstd::prelude::*;
use vstd::string::*;

verus! {

/// An event for the state machine.
#[derive(Debug)]
pub enum Msg {
    /// A frame arrived.
    HandleMsg(String),
    /// The user submitted the text of the input field.
    SubmitMessage(String),
    /// The user switched between the light and the dark display.
    ToggleDarkMode,
    /// The user emptied the log.
    ClearChat,
}

/// A connected participant as shown: the name, and the colour derived from it.
#[derive(Debug)]
pub struct UserProfile {
    pub name: String,
    pub color: String,
}

/// The mathematical content of a [`UserProfile`].
pub struct Participant {
    pub name: Seq<char>,
    pub color: Seq<char>,
}

/// The state of the chat.
#[derive(Debug)]
pub struct Chat {
    pub users: Vec<UserProfile>,
    pub messages: Vec<MessageData>,
    pub dark_mode: bool,
}

/// The mathematical content of a [`Chat`].
pub struct ChatState {
    pub roster: Seq<Participant>,
    pub log: Seq<Message>,
    pub dark_mode: bool,
}

/// The part of the state that an event wrote.
#[derive(Clone, Copy, Debug, PartialEq, Eq, Structural)]
pub enum Change {
    Nothing,
    Roster,
    Log,
    DisplayMode,
}

/// What the surroundings have to do after an event.
#[derive(Debug)]
pub struct Outcome {
    /// The part of the state that was written.
    pub change: Change,
    /// Whether the state is to be drawn again: whether any part was written.
    pub redraw: bool,
    /// A frame to send.
    pub outbound: Option<String>,
    /// The input field is to be emptied.
    pub clear_input: bool,
}

impl View for UserProfile {
    type V = Participant;

    open spec fn view(&self) -> Participant {
        Participant { name: self.name@, color: self.color@ }
    }
}

impl View for Chat {
    type V = ChatState;

    open spec fn view(&self) -> ChatState {
        ChatState {
            roster: Seq::new(self.users@.len(), |i: int| self.users@[i]@),
            log: Seq::new(self.messages@.len(), |i: int| self.messages@[i]@),
            dark_mode: self.dark_mode,
        }
    }
}

/// The state in which a chat starts: nobody there, nothing said, light.
pub open spec fn initial_state() -> ChatState {
    ChatState { roster: Seq::empty(), log: Seq::empty(), dark_mode: false }
}

/// The roster that a snapshot of names gives: one participant per name, in
/// the same order, each with the colour of the name.
pub open spec fn roster_of(names: Seq<Seq<char>>) -> Seq<Participant> {
    Seq::new(names.len(), |i: int| Participant { name: names[i], color: color_of(names[i]) })
}

/// Whether every participant has the colour of the name.
pub open spec fn colors_derived(roster: Seq<Participant>) -> bool {
    forall|i: int|
        0 <= i < roster.len() ==> (#[trigger] roster[i]).color == color_of(roster[i].name)
}

/// The state after an envelope arrived: `users` replaces the roster (by
/// nobody where it carries no list), `message` appends the chat message that
/// its `data` holds, where it holds one; anything else changes nothing.
pub open spec fn after_envelope(state: ChatState, envelope: Envelope) -> ChatState {
    match envelope.kind {
        MsgTypes::Users => ChatState {
            roster: match envelope.data_array {
                Some(names) => roster_of(names),
                None => Seq::empty(),
            },
            ..state
        },
        MsgTypes::Message => match envelope.data {
            Some(data) => match payload_message(data) {
                Some(message) => ChatState { log: state.log.push(message), ..state },
                None => state,
            },
            None => state,
        },
        MsgTypes::Register => state,
    }
}

/// The part of the state that an envelope writes.
pub open spec fn envelope_change(envelope: Envelope) -> Change {
    match envelope.kind {
        MsgTypes::Users => Change::Roster,
        MsgTypes::Message => if envelope.data matches Some(data) && payload_message(data) is Some {
            Change::Log
        } else {
            Change::Nothing
        },
        MsgTypes::Register => Change::Nothing,
    }
}

/// The state after a frame arrived: a frame that holds no envelope is
/// discarded.
pub open spec fn after_frame(state: ChatState, raw: Seq<char>) -> ChatState {
    match frame_envelope(raw) {
        Some(envelope) => after_envelope(state, envelope),
        None => state,
    }
}

/// The part of the state that a frame writes.
pub open spec fn frame_change(raw: Seq<char>) -> Change {
    match frame_envelope(raw) {
        Some(envelope) => envelope_change(envelope),
        None => Change::Nothing,
    }
}

/// The frame that submitting `text` sends: none where `text` is white space
/// only, else a `message` envelope whose `data` is the trimmed text.
pub open spec fn submit_frame(text: Seq<char>) -> Option<Seq<char>> {
    if trimmed(text).len() == 0 {
        None
    } else {
        Some(
            envelope_text(
                Envelope { kind: MsgTypes::Message, data_array: None, data: Some(trimmed(text)) },
            ),
        )
    }
}

/// The frame by which `username` registers.
pub open spec fn register_frame(username: Seq<char>) -> Seq<char> {
    envelope_text(Envelope { kind: MsgTypes::Register, data_array: None, data: Some(username) })
}

/// The state after an event.
pub open spec fn after_msg(state: ChatState, msg: Msg) -> ChatState {
    match msg {
        Msg::HandleMsg(raw) => after_frame(state, raw@),
        Msg::SubmitMessage(_) => state,
        Msg::ToggleDarkMode => ChatState { dark_mode: !state.dark_mode, ..state },
        Msg::ClearChat => ChatState { log: Seq::empty(), ..state },
    }
}

/// The part of the state that an event writes.
pub open spec fn msg_change(msg: Msg) -> Change {
    match msg {
        Msg::HandleMsg(raw) => frame_change(raw@),
        Msg::SubmitMessage(_) => Change::Nothing,
        Msg::ToggleDarkMode => Change::DisplayMode,
        Msg::ClearChat => Change::Log,
    }
}

/// The frame that an event sends.
pub open spec fn msg_outbound(msg: Msg) -> Option<Seq<char>> {
    match msg {
        Msg::SubmitMessage(text) => submit_frame(text@),
        _ => None,
    }
}

/// The colour in which a message from `from` is shown: that of the first
/// participant of that name, and the colour of the name where there is none.
pub open spec fn sender_color_from(roster: Seq<Participant>, from: Seq<char>, at: int) -> Seq<char>
    decreases roster.len() - at,
{
    if at < 0 || at >= roster.len() {
        color_of(from)
    } else if roster[at].name == from {
        roster[at].color
    } else {
        sender_color_from(roster, from, at + 1)
    }
}

/// Whether a message's text names a picture, to be shown in place of the
/// text: whether it ends with `.gif`, `.jpg` or `.png`.
pub open spec fn names_image(text: Seq<char>) -> bool {
    ends_with(text, ".gif"@) || ends_with(text, ".jpg"@) || ends_with(text, ".png"@)
}

/// Tells whether a message is shown as a picture.
pub fn shows_image(message: &MessageData) -> (b: bool)
    ensures
        b == names_image(message@.message),
{
    let text = message.message.as_str();
    has_suffix(text, ".gif") || has_suffix(text, ".jpg") || has_suffix(text, ".png")
}

impl Chat {
    /// Whether the roster's colours are those of its names.
    pub open spec fn wf(&self) -> bool {
        colors_derived(self@.roster)
    }

    /// The colour of `name`: the palette entry that the sum of its code
    /// points selects.
    pub fn get_user_color(name: &str) -> (color: String)
        ensures
            color@ == color_of(name@),
    {
        String::from_str(palette_color(color_index(name)))
    }

    /// A chat in its initial state, and the frame that registers `username`.
    pub fn create(username: &str) -> (r: (Chat, String))
        ensures
            r.0@ == initial_state(),
            r.0.wf(),
            r.1@ == register_frame(username@),
    {
        let envelope = WebSocketMessage {
            message_type: MsgTypes::Register,
            data_array: None,
            data: Some(String::from_str(username)),
        };
        let chat = Chat { users: Vec::new(), messages: Vec::new(), dark_mode: false };
        assert(chat@.roster =~= Seq::empty());
        assert(chat@.log =~= Seq::empty());
        (chat, encode_envelope(&envelope))
    }

    /// Replaces the roster by one participant per name.
    pub fn set_roster(&mut self, names: &Vec<String>)
        ensures
            final(self)@ == (ChatState { roster: roster_of(texts_of(names@)), ..old(self)@ }),
            final(self).wf(),
    {
        let mut users: Vec<UserProfile> = Vec::new();
        let mut i: usize = 0;
        while i < names.len()
            invariant
                i <= names.len(),
                users@.len() == i,
                forall|k: int|
                    0 <= k < i ==> (#[trigger] users@[k])@ == (Participant {
                        name: names@[k]@,
                        color: color_of(names@[k]@),
                    }),
            decreases names.len() - i,
        {
            let name = names[i].clone();
            let color = Chat::get_user_color(name.as_str());
            users.push(UserProfile { name, color });
            i = i + 1;
        }
        self.users = users;
        assert(self@.roster =~= roster_of(texts_of(names@)));
        assert(self@.log =~= old(self)@.log);
    }

    /// Appends a message to the log.
    pub fn push_message(&mut self, message: MessageData)
        ensures
            final(self)@ == (ChatState { log: old(self)@.log.push(message@), ..old(self)@ }),
            old(self).wf() ==> final(self).wf(),
    {
        self.messages.push(message);
        assert(self@.log =~= old(self)@.log.push(message@));
        assert(self@.roster =~= old(self)@.roster);
    }

    /// Applies an envelope that was read from a frame, and says which part
    /// of the state it wrote.
    pub fn apply_envelope(&mut self, envelope: &WebSocketMessage) -> (change: Change)
        ensures
            final(self)@ == after_envelope(old(self)@, envelope@),
            change == envelope_change(envelope@),
            old(self).wf() ==> final(self).wf(),
    {
        match envelope.message_type {
            MsgTypes::Users => {
                match &envelope.data_array {
                    Some(names) => {
                        self.set_roster(names);
                    },
                    None => {
                        let nobody: Vec<String> = Vec::new();
                        self.set_roster(&nobody);
                        assert(roster_of(texts_of(nobody@)) =~= Seq::empty());
                    },
                }
                Change::Roster
            },
            MsgTypes::Message => {
                match &envelope.data {
                    Some(data) => match parse_message(data.as_str()) {
                        Some(message) => {
                            self.push_message(message);
                            Change::Log
                        },
                        None => Change::Nothing,
                    },
                    None => Change::Nothing,
                }
            },
            MsgTypes::Register => Change::Nothing,
        }
    }

    /// Handles a frame: one that holds no envelope is discarded, and so is
    /// a `message` envelope that holds no chat message.
    pub fn handle_frame(&mut self, raw: &str) -> (change: Change)
        ensures
            final(self)@ == after_frame(old(self)@, raw@),
            change == frame_change(raw@),
            old(self).wf() ==> final(self).wf(),
    {
        match parse_envelope(raw) {
            Some(envelope) => self.apply_envelope(&envelope),
            None => Change::Nothing,
        }
    }

    /// The frame to send for a submitted text, if any.
    pub fn submit(text: &str) -> (frame: Option<String>)
        ensures
            match frame {
                Some(f) => submit_frame(text@) == Some(f@),
                None => submit_frame(text@) is None,
            },
    {
        let value = trim(text);
        if value.unicode_len() == 0 {
            None
        } else {
            let envelope = WebSocketMessage {
                message_type: MsgTypes::Message,
                data_array: None,
                data: Some(String::from_str(value)),
            };
            Some(encode_envelope(&envelope))
        }
    }

    /// Switches between the light and the dark display.
    pub fn toggle_dark_mode(&mut self)
        ensures
            final(self)@ == (ChatState { dark_mode: !old(self)@.dark_mode, ..old(self)@ }),
            old(self).wf() ==> final(self).wf(),
    {
        self.dark_mode = !self.dark_mode;
        assert(self@.roster =~= old(self)@.roster);
        assert(self@.log =~= old(self)@.log);
    }

    /// Empties the log.
    pub fn clear(&mut self)
        ensures
            final(self)@ == (ChatState { log: Seq::empty(), ..old(self)@ }),
            old(self).wf() ==> final(self).wf(),
    {
        self.messages.clear();
        assert(self@.roster =~= old(self)@.roster);
        assert(self@.log =~= Seq::empty());
    }

    /// Handles an event, and says what is left for the surroundings to do:
    /// to draw, to send, to empty the input field.
    pub fn update(&mut self, msg: Msg) -> (outcome: Outcome)
        ensures
            final(self)@ == after_msg(old(self)@, msg),
            old(self).wf() ==> final(self).wf(),
            outcome.change == msg_change(msg),
            outcome.redraw == (msg_change(msg) != Change::Nothing),
            match outcome.outbound {
                Some(frame) => msg_outbound(msg) == Some(frame@),
                None => msg_outbound(msg) is None,
            },
            outcome.clear_input == msg_outbound(msg) is Some,
    {
        match &msg {
            Msg::HandleMsg(raw) => {
                let change = self.handle_frame(raw.as_str());
                Outcome {
                    change,
                    redraw: change != Change::Nothing,
                    outbound: None,
                    clear_input: false,
                }
            },
            Msg::SubmitMessage(text) => {
                let outbound = Chat::submit(text.as_str());
                let clear_input = outbound.is_some();
                Outcome { change: Change::Nothing, redraw: false, outbound, clear_input }
            },
            Msg::ToggleDarkMode => {
                self.toggle_dark_mode();
                Outcome {
                    change: Change::DisplayMode,
                    redraw: true,
                    outbound: None,
                    clear_input: false,
                }
            },
            Msg::ClearChat => {
                self.clear();
                Outcome { change: Change::Log, redraw: true, outbound: None, clear_input: false }
            },
        }
    }

    /// The colour in which a message from `from` is shown.
    pub fn sender_color(&self, from: &str) -> (color: String)
        ensures
            color@ == sender_color_from(self@.roster, from@, 0),
    {
        let wanted = String::from_str(from);
        let mut i: usize = 0;
        while i < self.users.len()
            invariant
                i <= self.users.len(),
                wanted@ == from@,
                sender_color_from(self@.roster, from@, i as int) == sender_color_from(
                    self@.roster,
                    from@,
                    0,
                ),
            decreases self.users.len() - i,
        {
            if self.users[i].name == wanted {
                return self.users[i].color.clone();
            }
            i = i + 1;
        }
        Chat::get_user_color(from)
    }
}

} // verus!
