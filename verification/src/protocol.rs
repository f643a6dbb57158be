//! The wire protocol: one JSON envelope per frame, and the chat message that
//! a `message` envelope carries as JSON text of its own.

use crate::json::{json_string_text, json_text_value, member, parse_json, quote, Json, JsonModel};
use vstd::prelude::*;
use vstd::string::*;

verus! {

/// The kind of an envelope.
#[derive(Clone, Copy, Debug, PartialEq, Eq, Structural)]
pub enum MsgTypes {
    Users,
    Register,
    Message,
}

/// An envelope: `users` carries the roster in `data_array`, `register` the
/// registering name in `data`, `message` a JSON-encoded chat message in `data`.
#[derive(Debug)]
pub struct WebSocketMessage {
    pub message_type: MsgTypes,
    pub data_array: Option<Vec<String>>,
    pub data: Option<String>,
}

/// A chat message: who sent it, and what it says.
#[derive(Debug)]
pub struct MessageData {
    pub from: String,
    pub message: String,
}

/// The mathematical content of a [`WebSocketMessage`].
pub struct Envelope {
    pub kind: MsgTypes,
    pub data_array: Option<Seq<Seq<char>>>,
    pub data: Option<Seq<char>>,
}

/// The mathematical content of a [`MessageData`].
pub struct Message {
    pub from: Seq<char>,
    pub message: Seq<char>,
}

/// The texts of a list of strings.
pub open spec fn texts_of(names: Seq<String>) -> Seq<Seq<char>> {
    Seq::new(names.len(), |i: int| names[i]@)
}

impl View for WebSocketMessage {
    type V = Envelope;

    open spec fn view(&self) -> Envelope {
        Envelope {
            kind: self.message_type,
            data_array: match self.data_array {
                Some(names) => Some(texts_of(names@)),
                None => None,
            },
            data: match self.data {
                Some(text) => Some(text@),
                None => None,
            },
        }
    }
}

impl View for MessageData {
    type V = Message;

    open spec fn view(&self) -> Message {
        Message { from: self.from@, message: self.message@ }
    }
}

/// The kind that the protocol writes as `name`.
pub open spec fn kind_named(name: Seq<char>) -> Option<MsgTypes> {
    if name == "users"@ {
        Some(MsgTypes::Users)
    } else if name == "register"@ {
        Some(MsgTypes::Register)
    } else if name == "message"@ {
        Some(MsgTypes::Message)
    } else {
        None
    }
}

/// How the protocol writes `kind`.
pub open spec fn kind_name(kind: MsgTypes) -> Seq<char> {
    match kind {
        MsgTypes::Users => "users"@,
        MsgTypes::Register => "register"@,
        MsgTypes::Message => "message"@,
    }
}

/// A member that holds a string or nothing: absent and `null` read as
/// nothing; anything but a string is malformed (the outer `None`).
pub open spec fn text_or_null(field: Option<JsonModel>) -> Option<Option<Seq<char>>> {
    match field {
        None => Some(None),
        Some(JsonModel::Null) => Some(None),
        Some(JsonModel::Text(text)) => Some(Some(text)),
        _ => None,
    }
}

/// Whether every item is a string.
pub open spec fn all_text(items: Seq<JsonModel>) -> bool {
    forall|i: int| 0 <= i < items.len() ==> #[trigger] items[i] is Text
}

/// The strings of a list of string items.
pub open spec fn texts(items: Seq<JsonModel>) -> Seq<Seq<char>> {
    Seq::new(items.len(), |i: int| items[i]->Text_0)
}

/// A member that holds a list of strings or nothing: absent and `null` read
/// as nothing; anything but a list of strings is malformed (the outer `None`).
pub open spec fn text_list_or_null(field: Option<JsonModel>) -> Option<Option<Seq<Seq<char>>>> {
    match field {
        None => Some(None),
        Some(JsonModel::Null) => Some(None),
        Some(JsonModel::List(items)) => if all_text(items) {
            Some(Some(texts(items)))
        } else {
            None
        },
        _ => None,
    }
}

/// The envelope that a JSON document holds: an object whose `messageType`
/// names a kind, whose `dataArray` is a list of strings or nothing and whose
/// `data` is a string or nothing. Other members are not read.
pub open spec fn envelope_of(json: JsonModel) -> Option<Envelope> {
    match json {
        JsonModel::Record(fields) => match member(fields, "messageType"@) {
            Some(JsonModel::Text(name)) => match (
                kind_named(name),
                text_list_or_null(member(fields, "dataArray"@)),
                text_or_null(member(fields, "data"@)),
            ) {
                (Some(kind), Some(data_array), Some(data)) => Some(
                    Envelope { kind, data_array, data },
                ),
                _ => None,
            },
            _ => None,
        },
        _ => None,
    }
}

/// The chat message that a JSON document holds: an object whose `from` and
/// `message` are strings.
pub open spec fn message_of(json: JsonModel) -> Option<Message> {
    match json {
        JsonModel::Record(fields) => match (member(fields, "from"@), member(fields, "message"@)) {
            (Some(JsonModel::Text(from)), Some(JsonModel::Text(message))) => Some(
                Message { from, message },
            ),
            _ => None,
        },
        _ => None,
    }
}

/// The envelope that a frame holds, `None` where the frame is not JSON or
/// the JSON is no envelope.
pub open spec fn frame_envelope(raw: Seq<char>) -> Option<Envelope> {
    match json_text_value(raw) {
        Some(json) => envelope_of(json),
        None => None,
    }
}

/// The chat message that the `data` of a `message` envelope holds.
pub open spec fn payload_message(data: Seq<char>) -> Option<Message> {
    match json_text_value(data) {
        Some(json) => message_of(json),
        None => None,
    }
}

/// The content of a member that was looked up.
pub open spec fn found_model(field: Option<&Json>) -> Option<JsonModel> {
    match field {
        Some(json) => Some(json.model()),
        None => None,
    }
}

/// Reads a kind from its name.
pub fn kind_from_name(name: &String) -> (r: Option<MsgTypes>)
    ensures
        r == kind_named(name@),
{
    if *name == String::from_str("users") {
        Some(MsgTypes::Users)
    } else if *name == String::from_str("register") {
        Some(MsgTypes::Register)
    } else if *name == String::from_str("message") {
        Some(MsgTypes::Message)
    } else {
        None
    }
}

/// Reads a member that holds a string or nothing.
pub fn optional_text(field: Option<&Json>) -> (r: Option<Option<String>>)
    ensures
        match r {
            Some(Some(text)) => text_or_null(found_model(field)) == Some(Some(text@)),
            Some(None) => text_or_null(found_model(field)) == Some(None::<Seq<char>>),
            None => text_or_null(found_model(field)) is None,
        },
{
    match field {
        None => Some(None),
        Some(Json::Null) => Some(None),
        Some(Json::Text(text)) => Some(Some(text.clone())),
        Some(_) => None,
    }
}

/// Reads a member that holds a list of strings or nothing.
pub fn optional_text_list(field: Option<&Json>) -> (r: Option<Option<Vec<String>>>)
    ensures
        match r {
            Some(Some(names)) => text_list_or_null(found_model(field)) == Some(
                Some(texts_of(names@)),
            ),
            Some(None) => text_list_or_null(found_model(field)) == Some(None::<Seq<Seq<char>>>),
            None => text_list_or_null(found_model(field)) is None,
        },
{
    match field {
        None => Some(None),
        Some(Json::Null) => Some(None),
        Some(Json::List(items)) => {
            let ghost model = field.unwrap().model()->List_0;
            proof {
                reveal_with_fuel(Json::model, 2);
            }
            let mut names: Vec<String> = Vec::new();
            let mut i: usize = 0;
            while i < items.len()
                invariant
                    i <= items.len(),
                    field == Some(&Json::List(*items)),
                    field.unwrap().model() == JsonModel::List(model),
                    names@.len() == i,
                    model.len() == items.len(),
                    forall|k: int|
                        0 <= k < items.len() ==> #[trigger] model[k] == items@[k].model(),
                    forall|k: int|
                        0 <= k < i ==> #[trigger] model[k] == JsonModel::Text(names@[k]@),
                decreases items.len() - i,
            {
                match &items[i] {
                    Json::Text(text) => {
                        names.push(text.clone());
                    },
                    _ => {
                        assert(!(model[i as int] is Text));
                        return None;
                    },
                }
                i = i + 1;
            }
            assert(all_text(model));
            assert(texts_of(names@) =~= texts(model));
            Some(Some(names))
        },
        Some(_) => None,
    }
}

/// Reads an envelope from a JSON document.
pub fn decode_envelope(json: &Json) -> (r: Option<WebSocketMessage>)
    ensures
        match r {
            Some(envelope) => envelope_of(json.model()) == Some(envelope@),
            None => envelope_of(json.model()) is None,
        },
{
    let kind = match json.get("messageType") {
        Some(Json::Text(name)) => match kind_from_name(name) {
            Some(kind) => kind,
            None => {
                return None;
            },
        },
        _ => {
            return None;
        },
    };
    let data_array = match optional_text_list(json.get("dataArray")) {
        Some(data_array) => data_array,
        None => {
            return None;
        },
    };
    let data = match optional_text(json.get("data")) {
        Some(data) => data,
        None => {
            return None;
        },
    };
    Some(WebSocketMessage { message_type: kind, data_array, data })
}

/// Reads a chat message from a JSON document.
pub fn decode_message(json: &Json) -> (r: Option<MessageData>)
    ensures
        match r {
            Some(message) => message_of(json.model()) == Some(message@),
            None => message_of(json.model()) is None,
        },
{
    match (json.get("from"), json.get("message")) {
        (Some(Json::Text(from)), Some(Json::Text(message))) => Some(
            MessageData { from: from.clone(), message: message.clone() },
        ),
        _ => None,
    }
}

/// The first `n` of `names`, each written as a JSON string, with commas
/// between them.
pub open spec fn quoted_list(names: Seq<Seq<char>>, n: int) -> Seq<char>
    decreases n,
{
    if n <= 0 {
        Seq::empty()
    } else if n == 1 {
        json_string_text(names[0])
    } else {
        quoted_list(names, n - 1) + ","@ + json_string_text(names[n - 1])
    }
}

/// How the `dataArray` member is written.
pub open spec fn data_array_text(data_array: Option<Seq<Seq<char>>>) -> Seq<char> {
    match data_array {
        Some(names) => "["@ + quoted_list(names, names.len() as int) + "]"@,
        None => "null"@,
    }
}

/// How the `data` member is written.
pub open spec fn data_text(data: Option<Seq<char>>) -> Seq<char> {
    match data {
        Some(text) => json_string_text(text),
        None => "null"@,
    }
}

/// The frame that carries `envelope`: a JSON object with the members
/// `messageType`, `dataArray` and `data`, in this order and without spaces.
pub open spec fn envelope_text(envelope: Envelope) -> Seq<char> {
    "{\"messageType\":\""@ + kind_name(envelope.kind) + "\",\"dataArray\":"@ + data_array_text(
        envelope.data_array,
    ) + ",\"data\":"@ + data_text(envelope.data) + "}"@
}

/// The protocol's name of `kind`.
pub fn kind_str(kind: MsgTypes) -> (name: &'static str)
    ensures
        name@ == kind_name(kind),
{
    match kind {
        MsgTypes::Users => "users",
        MsgTypes::Register => "register",
        MsgTypes::Message => "message",
    }
}

/// Writes the `dataArray` member.
pub fn encode_data_array(data_array: &Option<Vec<String>>) -> (text: String)
    ensures
        text@ == data_array_text(
            match *data_array {
                Some(names) => Some(texts_of(names@)),
                None => None,
            },
        ),
{
    match data_array {
        None => String::from_str("null"),
        Some(names) => {
            let mut list = String::new();
            let mut i: usize = 0;
            while i < names.len()
                invariant
                    i <= names.len(),
                    list@ == quoted_list(texts_of(names@), i as int),
                decreases names.len() - i,
            {
                let quoted = quote(names[i].as_str());
                if i > 0 {
                    list.append(",");
                } else {
                    assert(list@ + quoted@ =~= quoted@);
                }
                list.append(quoted.as_str());
                i = i + 1;
            }
            let mut text = String::from_str("[");
            text.append(list.as_str());
            text.append("]");
            text
        },
    }
}

/// Writes the `data` member.
pub fn encode_data(data: &Option<String>) -> (text: String)
    ensures
        text@ == data_text(
            match *data {
                Some(d) => Some(d@),
                None => None,
            },
        ),
{
    match data {
        Some(d) => quote(d.as_str()),
        None => String::from_str("null"),
    }
}

/// Writes an envelope as a frame.
pub fn encode_envelope(envelope: &WebSocketMessage) -> (frame: String)
    ensures
        frame@ == envelope_text(envelope@),
{
    let mut frame = String::from_str("{\"messageType\":\"");
    frame.append(kind_str(envelope.message_type));
    frame.append("\",\"dataArray\":");
    frame.append(encode_data_array(&envelope.data_array).as_str());
    frame.append(",\"data\":");
    frame.append(encode_data(&envelope.data).as_str());
    frame.append("}");
    frame
}

/// Reads an envelope from a frame.
pub fn parse_envelope(raw: &str) -> (r: Option<WebSocketMessage>)
    ensures
        match r {
            Some(envelope) => frame_envelope(raw@) == Some(envelope@),
            None => frame_envelope(raw@) is None,
        },
{
    match parse_json(raw) {
        Some(json) => decode_envelope(&json),
        None => None,
    }
}

/// Reads a chat message from the `data` of a `message` envelope.
pub fn parse_message(data: &str) -> (r: Option<MessageData>)
    ensures
        match r {
            Some(message) => payload_message(data@) == Some(message@),
            None => payload_message(data@) is None,
        },
{
    match parse_json(data) {
        Some(json) => decode_message(&json),
        None => None,
    }
}

} // verus!
