//! The typed records of a messenger conversation, and the verified decoder
//! that builds them from a JSON document.
//!
//! Every decoding rule — which fields are required, which are optional, and
//! what shape each must have — is stated as a spec function over
//! [`JsonValue`], and each executable decoder is proved to follow it exactly:
//! it succeeds precisely on the documents the rule accepts, and otherwise
//! reports a [`Error::ParseError`] instead of aborting.

use vstd::prelude::*;
use vstd::string::StringExecFns;

use crate::error::Error;
use crate::json::{json_of, lookup, parse_json_text, spec_lookup, JsonValue};

verus! {

/// A whole conversation: its header and its messages, in source order.
#[derive(Debug, Clone, PartialEq)]
pub struct Conversation {
    pub header: ConversationHeader,
    pub messages: Vec<Message>,
}

/// Top-level information about a conversation (everything but the messages).
#[derive(Debug, Clone, PartialEq)]
pub struct ConversationHeader {
    pub participants: Vec<Participant>,
    pub title: String,
    pub is_still_participant: bool,
    pub thread_type: ThreadType,
    pub thread_path: String,
}

/// One named participant of a conversation.
#[derive(Debug, Clone, PartialEq)]
pub struct Participant {
    pub name: String,
}

/// One message of a conversation. Exactly one indexed document corresponds to
/// each message.
#[derive(Debug, Clone, PartialEq)]
pub struct Message {
    pub sender_name: String,
    pub timestamp_ms: i64,
    pub content: String,
    pub sticker: Option<Sticker>,
    /// Expected to be `Some` when the message type is `Share`.
    pub share: Option<Share>,
    pub photos: Option<Vec<Photo>>,
    pub message_type: MessageType,
}

/// The typed record recovered for one matched document: exactly one value per
/// stored field.
#[derive(Debug, Clone, PartialEq)]
pub struct StoredMessage {
    pub sender_name: String,
    pub timestamp_ms: i64,
    pub content: String,
}

/// An image reference attached to a message.
#[derive(Debug, Clone, PartialEq)]
pub struct Sticker {
    pub uri: String,
}

/// A link attached to a message.
#[derive(Debug, Clone, PartialEq)]
pub struct Share {
    pub link: String,
}

/// One photo attached to a message.
#[derive(Debug, Clone, PartialEq)]
pub struct Photo {
    pub uri: String,
    pub creation_timestamp: i64,
}

/// The closed set of message kinds.
#[derive(Debug, Clone, PartialEq)]
pub enum MessageType {
    Generic,
    Share,
}

/// The closed set of thread kinds.
#[derive(Debug, Clone, PartialEq)]
pub enum ThreadType {
    Regular,
}

/// The mathematical value of a [`Photo`].
pub struct PhotoView {
    pub uri: Seq<char>,
    pub creation_timestamp: int,
}

/// The mathematical value of a [`Message`].
pub struct MessageView {
    pub sender_name: Seq<char>,
    pub timestamp_ms: int,
    pub content: Seq<char>,
    pub sticker: Option<Seq<char>>,
    pub share: Option<Seq<char>>,
    pub photos: Option<Seq<PhotoView>>,
    pub message_type: MessageType,
}

/// The mathematical value of a [`ConversationHeader`]; each participant is
/// its name.
pub struct ConversationHeaderView {
    pub participants: Seq<Seq<char>>,
    pub title: Seq<char>,
    pub is_still_participant: bool,
    pub thread_type: ThreadType,
    pub thread_path: Seq<char>,
}

/// The mathematical value of a [`Conversation`].
pub struct ConversationView {
    pub header: ConversationHeaderView,
    pub messages: Seq<MessageView>,
}

/// The mathematical value of a [`StoredMessage`].
pub struct StoredMessageView {
    pub sender_name: Seq<char>,
    pub timestamp_ms: int,
    pub content: Seq<char>,
}

impl View for Photo {
    type V = PhotoView;

    open spec fn view(&self) -> PhotoView {
        PhotoView { uri: self.uri@, creation_timestamp: self.timestamp_spec() }
    }
}

impl Photo {
    pub open spec fn timestamp_spec(&self) -> int {
        self.creation_timestamp as int
    }
}

impl View for Participant {
    type V = Seq<char>;

    open spec fn view(&self) -> Seq<char> {
        self.name@
    }
}

impl View for Message {
    type V = MessageView;

    open spec fn view(&self) -> MessageView {
        MessageView {
            sender_name: self.sender_name@,
            timestamp_ms: self.timestamp_ms as int,
            content: self.content@,
            sticker: match self.sticker {
                Some(s) => Some(s.uri@),
                None => None,
            },
            share: match self.share {
                Some(s) => Some(s.link@),
                None => None,
            },
            photos: match self.photos {
                Some(ps) => Some(ps@.map_values(|p: Photo| p@)),
                None => None,
            },
            message_type: self.message_type,
        }
    }
}

impl View for ConversationHeader {
    type V = ConversationHeaderView;

    open spec fn view(&self) -> ConversationHeaderView {
        ConversationHeaderView {
            participants: self.participants@.map_values(|p: Participant| p@),
            title: self.title@,
            is_still_participant: self.is_still_participant,
            thread_type: self.thread_type,
            thread_path: self.thread_path@,
        }
    }
}

impl View for Conversation {
    type V = ConversationView;

    open spec fn view(&self) -> ConversationView {
        ConversationView {
            header: self.header@,
            messages: self.messages@.map_values(|m: Message| m@),
        }
    }
}

impl View for StoredMessage {
    type V = StoredMessageView;

    open spec fn view(&self) -> StoredMessageView {
        StoredMessageView {
            sender_name: self.sender_name@,
            timestamp_ms: self.timestamp_ms as int,
            content: self.content@,
        }
    }
}

// ---------------------------------------------------------------------------
// Decoding rules, as spec functions over `JsonValue`.
// ---------------------------------------------------------------------------

/// The text under `key`, when the entry exists and holds a string.
pub open spec fn spec_str_entry(es: Seq<(String, JsonValue)>, key: Seq<char>) -> Option<Seq<char>> {
    match spec_lookup(es, key) {
        Some(JsonValue::Text(s)) => Some(s@),
        _ => None,
    }
}

/// The integer under `key`, when the entry exists and holds one that fits a
/// signed 64-bit value.
pub open spec fn spec_i64_entry(es: Seq<(String, JsonValue)>, key: Seq<char>) -> Option<int> {
    match spec_lookup(es, key) {
        Some(JsonValue::Int(i)) => Some(i as int),
        _ => None,
    }
}

/// The boolean under `key`, when the entry exists and holds one.
pub open spec fn spec_bool_entry(es: Seq<(String, JsonValue)>, key: Seq<char>) -> Option<bool> {
    match spec_lookup(es, key) {
        Some(JsonValue::Bool(b)) => Some(b),
        _ => None,
    }
}

/// An optional attachment under `outer`: absent or null decodes to `None`;
/// an object decodes to the text under `inner`; anything else is rejected.
pub open spec fn spec_opt_obj_str(
    es: Seq<(String, JsonValue)>,
    outer: Seq<char>,
    inner: Seq<char>,
) -> Option<Option<Seq<char>>> {
    match spec_lookup(es, outer) {
        None => Some(None),
        Some(JsonValue::Null) => Some(None),
        Some(JsonValue::Obj(entries)) => match spec_str_entry(entries@, inner) {
            Some(s) => Some(Some(s)),
            None => None,
        },
        Some(_) => None,
    }
}

/// One photo: an object with a string `uri` and an integer
/// `creation_timestamp`.
pub open spec fn spec_photo_of(v: JsonValue) -> Option<PhotoView> {
    match v {
        JsonValue::Obj(entries) => if spec_str_entry(entries@, "uri"@) is Some
            && spec_i64_entry(entries@, "creation_timestamp"@) is Some {
            Some(
                (PhotoView {
                    uri: spec_str_entry(entries@, "uri"@).unwrap(),
                    creation_timestamp: spec_i64_entry(entries@, "creation_timestamp"@).unwrap(),
                }),
            )
        } else {
            None
        },
        _ => None,
    }
}

/// A photo list: every element must decode as a photo.
pub open spec fn spec_photos_of(items: Seq<JsonValue>) -> Option<Seq<PhotoView>> {
    if forall|k: int| 0 <= k < items.len() ==> spec_photo_of(#[trigger] items[k]) is Some {
        Some(items.map_values(|x: JsonValue| spec_photo_of(x).unwrap()))
    } else {
        None
    }
}

/// The optional `photos` field: absent or null decodes to `None`; an array
/// decodes element by element; anything else is rejected.
pub open spec fn spec_opt_photos(es: Seq<(String, JsonValue)>) -> Option<Option<Seq<PhotoView>>> {
    match spec_lookup(es, "photos"@) {
        None => Some(None),
        Some(JsonValue::Null) => Some(None),
        Some(JsonValue::Arr(items)) => match spec_photos_of(items@) {
            Some(ps) => Some(Some(ps)),
            None => None,
        },
        Some(_) => None,
    }
}

/// The required `type` tag: the text `Generic` or `Share`.
pub open spec fn spec_type_entry(es: Seq<(String, JsonValue)>) -> Option<MessageType> {
    match spec_lookup(es, "type"@) {
        Some(JsonValue::Text(s)) => if s@ == "Generic"@ {
            Some(MessageType::Generic)
        } else if s@ == "Share"@ {
            Some(MessageType::Share)
        } else {
            None
        },
        _ => None,
    }
}

/// The required `thread_type` tag: the text `regular`.
pub open spec fn spec_thread_type_entry(es: Seq<(String, JsonValue)>) -> Option<ThreadType> {
    match spec_lookup(es, "thread_type"@) {
        Some(JsonValue::Text(s)) => if s@ == "regular"@ {
            Some(ThreadType::Regular)
        } else {
            None
        },
        _ => None,
    }
}

/// One message, from an object's entries: `sender_name`, `timestamp_ms`,
/// `content` and `type` are required; `sticker`, `share` and `photos` are
/// optional.
pub open spec fn spec_message_of_entries(es: Seq<(String, JsonValue)>) -> Option<MessageView> {
    if spec_str_entry(es, "sender_name"@) is Some && spec_i64_entry(es, "timestamp_ms"@) is Some
        && spec_str_entry(es, "content"@) is Some && spec_opt_obj_str(es, "sticker"@, "uri"@) is Some
        && spec_opt_obj_str(es, "share"@, "link"@) is Some && spec_opt_photos(es) is Some
        && spec_type_entry(es) is Some {
        Some(
            (MessageView {
                sender_name: spec_str_entry(es, "sender_name"@).unwrap(),
                timestamp_ms: spec_i64_entry(es, "timestamp_ms"@).unwrap(),
                content: spec_str_entry(es, "content"@).unwrap(),
                sticker: spec_opt_obj_str(es, "sticker"@, "uri"@).unwrap(),
                share: spec_opt_obj_str(es, "share"@, "link"@).unwrap(),
                photos: spec_opt_photos(es).unwrap(),
                message_type: spec_type_entry(es).unwrap(),
            }),
        )
    } else {
        None
    }
}

/// One message: an object decoded by [`spec_message_of_entries`].
pub open spec fn spec_message_of(v: JsonValue) -> Option<MessageView> {
    match v {
        JsonValue::Obj(entries) => spec_message_of_entries(entries@),
        _ => None,
    }
}

/// A message list: every element must decode as a message.
pub open spec fn spec_messages_of(items: Seq<JsonValue>) -> Option<Seq<MessageView>> {
    if forall|k: int| 0 <= k < items.len() ==> spec_message_of(#[trigger] items[k]) is Some {
        Some(items.map_values(|x: JsonValue| spec_message_of(x).unwrap()))
    } else {
        None
    }
}

/// One participant: an object with a string `name`.
pub open spec fn spec_participant_of(v: JsonValue) -> Option<Seq<char>> {
    match v {
        JsonValue::Obj(entries) => spec_str_entry(entries@, "name"@),
        _ => None,
    }
}

/// A participant list: every element must decode as a participant.
pub open spec fn spec_participants_of(items: Seq<JsonValue>) -> Option<Seq<Seq<char>>> {
    if forall|k: int| 0 <= k < items.len() ==> spec_participant_of(#[trigger] items[k]) is Some {
        Some(items.map_values(|x: JsonValue| spec_participant_of(x).unwrap()))
    } else {
        None
    }
}

/// The required `participants` field: an array of participants.
pub open spec fn spec_participants_entry(es: Seq<(String, JsonValue)>) -> Option<Seq<Seq<char>>> {
    match spec_lookup(es, "participants"@) {
        Some(JsonValue::Arr(items)) => spec_participants_of(items@),
        _ => None,
    }
}

/// A conversation header, from an object's entries. The header fields sit
/// beside `messages` at the top level of the document, so a header can also
/// be decoded from a whole conversation object.
pub open spec fn spec_header_of_entries(es: Seq<(String, JsonValue)>) -> Option<
    ConversationHeaderView,
> {
    if spec_participants_entry(es) is Some && spec_str_entry(es, "title"@) is Some
        && spec_bool_entry(es, "is_still_participant"@) is Some && spec_thread_type_entry(es)
        is Some && spec_str_entry(es, "thread_path"@) is Some {
        Some(
            (ConversationHeaderView {
                participants: spec_participants_entry(es).unwrap(),
                title: spec_str_entry(es, "title"@).unwrap(),
                is_still_participant: spec_bool_entry(es, "is_still_participant"@).unwrap(),
                thread_type: spec_thread_type_entry(es).unwrap(),
                thread_path: spec_str_entry(es, "thread_path"@).unwrap(),
            }),
        )
    } else {
        None
    }
}

/// A conversation header: an object decoded by [`spec_header_of_entries`].
pub open spec fn spec_header_of(v: JsonValue) -> Option<ConversationHeaderView> {
    match v {
        JsonValue::Obj(entries) => spec_header_of_entries(entries@),
        _ => None,
    }
}

/// The required `messages` field: an array of messages.
pub open spec fn spec_messages_entry(es: Seq<(String, JsonValue)>) -> Option<Seq<MessageView>> {
    match spec_lookup(es, "messages"@) {
        Some(JsonValue::Arr(items)) => spec_messages_of(items@),
        _ => None,
    }
}

/// A whole conversation: one object holding both the header fields and the
/// `messages` array.
pub open spec fn spec_conversation_of(v: JsonValue) -> Option<ConversationView> {
    match v {
        JsonValue::Obj(entries) => if spec_header_of_entries(entries@) is Some
            && spec_messages_entry(entries@) is Some {
            Some(
                (ConversationView {
                    header: spec_header_of_entries(entries@).unwrap(),
                    messages: spec_messages_entry(entries@).unwrap(),
                }),
            )
        } else {
            None
        },
        _ => None,
    }
}

/// A one-element string array under `key`, as the engine returns stored text
/// fields.
pub open spec fn spec_one_str_entry(es: Seq<(String, JsonValue)>, key: Seq<char>) -> Option<
    Seq<char>,
> {
    match spec_lookup(es, key) {
        Some(JsonValue::Arr(items)) => if items@.len() == 1 {
            match items@[0] {
                JsonValue::Text(s) => Some(s@),
                _ => None,
            }
        } else {
            None
        },
        _ => None,
    }
}

/// A one-element integer array under `key`, as the engine returns stored
/// integer fields.
pub open spec fn spec_one_i64_entry(es: Seq<(String, JsonValue)>, key: Seq<char>) -> Option<int> {
    match spec_lookup(es, key) {
        Some(JsonValue::Arr(items)) => if items@.len() == 1 {
            match items@[0] {
                JsonValue::Int(i) => Some(i as int),
                _ => None,
            }
        } else {
            None
        },
        _ => None,
    }
}

/// A stored message: an object whose `sender_name`, `timestamp_ms` and
/// `content` each hold exactly one value.
pub open spec fn spec_stored_message_of(v: JsonValue) -> Option<StoredMessageView> {
    match v {
        JsonValue::Obj(entries) => if spec_one_str_entry(entries@, "sender_name"@) is Some
            && spec_one_i64_entry(entries@, "timestamp_ms"@) is Some && spec_one_str_entry(
            entries@,
            "content"@,
        ) is Some {
            Some(
                (StoredMessageView {
                    sender_name: spec_one_str_entry(entries@, "sender_name"@).unwrap(),
                    timestamp_ms: spec_one_i64_entry(entries@, "timestamp_ms"@).unwrap(),
                    content: spec_one_str_entry(entries@, "content"@).unwrap(),
                }),
            )
        } else {
            None
        },
        _ => None,
    }
}

// ---------------------------------------------------------------------------
// Executable decoders, each proved against its rule.
// ---------------------------------------------------------------------------

/// A parse failure naming the field that was missing or malformed.
fn parse_fail(key: &str) -> (r: Error)
    ensures
        r is ParseError,
{
    Error::ParseError("missing or malformed field: ".to_owned().concat(key))
}

/// Reads the required string field `key`.
fn str_entry(entries: &Vec<(String, JsonValue)>, key: &str) -> (r: Result<String, Error>)
    ensures
        r is Ok <==> spec_str_entry(entries@, key@) is Some,
        r matches Ok(s) ==> Some(s@) == spec_str_entry(entries@, key@),
        r matches Err(e) ==> e is ParseError,
{
    match lookup(entries, key) {
        Some(JsonValue::Text(s)) => Ok(s.clone()),
        _ => Err(parse_fail(key)),
    }
}

/// Reads the required integer field `key`.
fn i64_entry(entries: &Vec<(String, JsonValue)>, key: &str) -> (r: Result<i64, Error>)
    ensures
        r is Ok <==> spec_i64_entry(entries@, key@) is Some,
        r matches Ok(i) ==> Some(i as int) == spec_i64_entry(entries@, key@),
        r matches Err(e) ==> e is ParseError,
{
    match lookup(entries, key) {
        Some(JsonValue::Int(i)) => Ok(*i),
        _ => Err(parse_fail(key)),
    }
}

/// Reads the required boolean field `key`.
fn bool_entry(entries: &Vec<(String, JsonValue)>, key: &str) -> (r: Result<bool, Error>)
    ensures
        r is Ok <==> spec_bool_entry(entries@, key@) is Some,
        r matches Ok(b) ==> Some(b) == spec_bool_entry(entries@, key@),
        r matches Err(e) ==> e is ParseError,
{
    match lookup(entries, key) {
        Some(JsonValue::Bool(b)) => Ok(*b),
        _ => Err(parse_fail(key)),
    }
}

/// Reads the optional attachment `outer`, returning the text under `inner`
/// when the attachment is present.
fn opt_obj_str(entries: &Vec<(String, JsonValue)>, outer: &str, inner: &str) -> (r: Result<
    Option<String>,
    Error,
>)
    ensures
        r is Ok <==> spec_opt_obj_str(entries@, outer@, inner@) is Some,
        r matches Ok(s) ==> Some(
            match s {
                Some(t) => Some(t@),
                None => None,
            },
        ) == spec_opt_obj_str(entries@, outer@, inner@),
        r matches Err(e) ==> e is ParseError,
{
    match lookup(entries, outer) {
        None => Ok(None),
        Some(JsonValue::Null) => Ok(None),
        Some(JsonValue::Obj(inner_entries)) => match str_entry(inner_entries, inner) {
            Ok(s) => Ok(Some(s)),
            Err(e) => Err(e),
        },
        Some(_) => Err(parse_fail(outer)),
    }
}

/// Decodes one photo.
pub fn photo_from_json(v: &JsonValue) -> (r: Result<Photo, Error>)
    ensures
        r is Ok <==> spec_photo_of(*v) is Some,
        r matches Ok(p) ==> Some(p@) == spec_photo_of(*v),
        r matches Err(e) ==> e is ParseError,
{
    match v {
        JsonValue::Obj(entries) => {
            let uri = match str_entry(entries, "uri") {
                Ok(s) => s,
                Err(e) => { return Err(e); },
            };
            let creation_timestamp = match i64_entry(entries, "creation_timestamp") {
                Ok(i) => i,
                Err(e) => { return Err(e); },
            };
            Ok(Photo { uri, creation_timestamp })
        },
        _ => Err(parse_fail("photos")),
    }
}

/// Decodes a photo list.
fn photos_from_json(items: &Vec<JsonValue>) -> (r: Result<Vec<Photo>, Error>)
    ensures
        r is Ok <==> spec_photos_of(items@) is Some,
        r matches Ok(ps) ==> Some(ps@.map_values(|p: Photo| p@)) == spec_photos_of(items@),
        r matches Err(e) ==> e is ParseError,
{
    let n = items.len();
    let mut out: Vec<Photo> = Vec::new();
    let mut i: usize = 0;
    while i < n
        invariant
            n == items.len(),
            0 <= i <= n,
            out@.len() == i,
            forall|k: int| 0 <= k < i ==> spec_photo_of(#[trigger] items@[k]) is Some,
            forall|k: int| 0 <= k < i ==> Some(#[trigger] out@[k]@) == spec_photo_of(items@[k]),
        decreases n - i,
    {
        match photo_from_json(&items[i]) {
            Ok(p) => out.push(p),
            Err(e) => {
                assert(spec_photo_of(items@[i as int]) is None);
                return Err(e);
            },
        }
        i = i + 1;
    }
    assert(out@.map_values(|p: Photo| p@) =~= spec_photos_of(items@).unwrap());
    Ok(out)
}

/// Decodes the message `type` tag.
fn type_entry(entries: &Vec<(String, JsonValue)>) -> (r: Result<MessageType, Error>)
    ensures
        r is Ok <==> spec_type_entry(entries@) is Some,
        r matches Ok(t) ==> Some(t) == spec_type_entry(entries@),
        r matches Err(e) ==> e is ParseError,
{
    match lookup(entries, "type") {
        Some(JsonValue::Text(s)) => {
            if *s == "Generic".to_owned() {
                Ok(MessageType::Generic)
            } else if *s == "Share".to_owned() {
                Ok(MessageType::Share)
            } else {
                Err(parse_fail("type"))
            }
        },
        _ => Err(parse_fail("type")),
    }
}

/// Decodes the `thread_type` tag.
fn thread_type_entry(entries: &Vec<(String, JsonValue)>) -> (r: Result<ThreadType, Error>)
    ensures
        r is Ok <==> spec_thread_type_entry(entries@) is Some,
        r matches Ok(t) ==> Some(t) == spec_thread_type_entry(entries@),
        r matches Err(e) ==> e is ParseError,
{
    match lookup(entries, "thread_type") {
        Some(JsonValue::Text(s)) => {
            if *s == "regular".to_owned() {
                Ok(ThreadType::Regular)
            } else {
                Err(parse_fail("thread_type"))
            }
        },
        _ => Err(parse_fail("thread_type")),
    }
}

/// Decodes one message.
pub fn message_from_json(v: &JsonValue) -> (r: Result<Message, Error>)
    ensures
        r is Ok <==> spec_message_of(*v) is Some,
        r matches Ok(m) ==> Some(m@) == spec_message_of(*v),
        r matches Err(e) ==> e is ParseError,
{
    match v {
        JsonValue::Obj(entries) => {
            let sender_name = match str_entry(entries, "sender_name") {
                Ok(s) => s,
                Err(e) => { return Err(e); },
            };
            let timestamp_ms = match i64_entry(entries, "timestamp_ms") {
                Ok(i) => i,
                Err(e) => { return Err(e); },
            };
            let content = match str_entry(entries, "content") {
                Ok(s) => s,
                Err(e) => { return Err(e); },
            };
            let sticker_uri = match opt_obj_str(entries, "sticker", "uri") {
                Ok(s) => s,
                Err(e) => { return Err(e); },
            };
            let share_link = match opt_obj_str(entries, "share", "link") {
                Ok(s) => s,
                Err(e) => { return Err(e); },
            };
            let photos = match lookup(entries, "photos") {
                None => None,
                Some(JsonValue::Null) => None,
                Some(JsonValue::Arr(items)) => match photos_from_json(items) {
                    Ok(ps) => Some(ps),
                    Err(e) => { return Err(e); },
                },
                Some(_) => { return Err(parse_fail("photos")); },
            };
            let message_type = match type_entry(entries) {
                Ok(t) => t,
                Err(e) => { return Err(e); },
            };
            Ok(
                Message {
                    sender_name,
                    timestamp_ms,
                    content,
                    sticker: match sticker_uri {
                        Some(uri) => Some(Sticker { uri }),
                        None => None,
                    },
                    share: match share_link {
                        Some(link) => Some(Share { link }),
                        None => None,
                    },
                    photos,
                    message_type,
                },
            )
        },
        _ => Err(parse_fail("message")),
    }
}

/// Decodes a message list.
fn messages_from_json(items: &Vec<JsonValue>) -> (r: Result<Vec<Message>, Error>)
    ensures
        r is Ok <==> spec_messages_of(items@) is Some,
        r matches Ok(ms) ==> Some(ms@.map_values(|m: Message| m@)) == spec_messages_of(items@),
        r matches Err(e) ==> e is ParseError,
{
    let n = items.len();
    let mut out: Vec<Message> = Vec::new();
    let mut i: usize = 0;
    while i < n
        invariant
            n == items.len(),
            0 <= i <= n,
            out@.len() == i,
            forall|k: int| 0 <= k < i ==> spec_message_of(#[trigger] items@[k]) is Some,
            forall|k: int| 0 <= k < i ==> Some(#[trigger] out@[k]@) == spec_message_of(items@[k]),
        decreases n - i,
    {
        match message_from_json(&items[i]) {
            Ok(m) => out.push(m),
            Err(e) => {
                assert(spec_message_of(items@[i as int]) is None);
                return Err(e);
            },
        }
        i = i + 1;
    }
    assert(out@.map_values(|m: Message| m@) =~= spec_messages_of(items@).unwrap());
    Ok(out)
}

/// Decodes a participant list.
fn participants_from_json(items: &Vec<JsonValue>) -> (r: Result<Vec<Participant>, Error>)
    ensures
        r is Ok <==> spec_participants_of(items@) is Some,
        r matches Ok(ps) ==> Some(ps@.map_values(|p: Participant| p@)) == spec_participants_of(
            items@,
        ),
        r matches Err(e) ==> e is ParseError,
{
    let n = items.len();
    let mut out: Vec<Participant> = Vec::new();
    let mut i: usize = 0;
    while i < n
        invariant
            n == items.len(),
            0 <= i <= n,
            out@.len() == i,
            forall|k: int| 0 <= k < i ==> spec_participant_of(#[trigger] items@[k]) is Some,
            forall|k: int| 0 <= k < i ==> Some(#[trigger] out@[k]@) == spec_participant_of(
                items@[k],
            ),
        decreases n - i,
    {
        let name = match &items[i] {
            JsonValue::Obj(entries) => match str_entry(entries, "name") {
                Ok(s) => s,
                Err(e) => {
                    assert(spec_participant_of(items@[i as int]) is None);
                    return Err(e);
                },
            },
            _ => {
                assert(spec_participant_of(items@[i as int]) is None);
                return Err(parse_fail("participants"));
            },
        };
        out.push(Participant { name });
        i = i + 1;
    }
    assert(out@.map_values(|p: Participant| p@) =~= spec_participants_of(items@).unwrap());
    Ok(out)
}

/// Decodes a conversation header from an object's entries; the same entries
/// may also hold a `messages` array, which is ignored here.
fn header_from_entries(entries: &Vec<(String, JsonValue)>) -> (r: Result<ConversationHeader, Error>)
    ensures
        r is Ok <==> spec_header_of_entries(entries@) is Some,
        r matches Ok(h) ==> Some(h@) == spec_header_of_entries(entries@),
        r matches Err(e) ==> e is ParseError,
{
    let participants = match lookup(entries, "participants") {
        Some(JsonValue::Arr(items)) => match participants_from_json(items) {
            Ok(ps) => ps,
            Err(e) => { return Err(e); },
        },
        _ => { return Err(parse_fail("participants")); },
    };
    let title = match str_entry(entries, "title") {
        Ok(s) => s,
        Err(e) => { return Err(e); },
    };
    let is_still_participant = match bool_entry(entries, "is_still_participant") {
        Ok(b) => b,
        Err(e) => { return Err(e); },
    };
    let thread_type = match thread_type_entry(entries) {
        Ok(t) => t,
        Err(e) => { return Err(e); },
    };
    let thread_path = match str_entry(entries, "thread_path") {
        Ok(s) => s,
        Err(e) => { return Err(e); },
    };
    Ok(ConversationHeader { participants, title, is_still_participant, thread_type, thread_path })
}

/// Decodes a conversation header.
pub fn header_from_json(v: &JsonValue) -> (r: Result<ConversationHeader, Error>)
    ensures
        r is Ok <==> spec_header_of(*v) is Some,
        r matches Ok(h) ==> Some(h@) == spec_header_of(*v),
        r matches Err(e) ==> e is ParseError,
{
    match v {
        JsonValue::Obj(entries) => header_from_entries(entries),
        _ => Err(parse_fail("conversation")),
    }
}

/// Decodes a whole conversation.
pub fn conversation_from_json(v: &JsonValue) -> (r: Result<Conversation, Error>)
    ensures
        r is Ok <==> spec_conversation_of(*v) is Some,
        r matches Ok(c) ==> Some(c@) == spec_conversation_of(*v),
        r matches Err(e) ==> e is ParseError,
{
    match v {
        JsonValue::Obj(entries) => {
            let header = match header_from_entries(entries) {
                Ok(h) => h,
                Err(e) => { return Err(e); },
            };
            let messages = match lookup(entries, "messages") {
                Some(JsonValue::Arr(items)) => match messages_from_json(items) {
                    Ok(ms) => ms,
                    Err(e) => { return Err(e); },
                },
                _ => { return Err(parse_fail("messages")); },
            };
            Ok(Conversation { header, messages })
        },
        _ => Err(parse_fail("conversation")),
    }
}

/// Decodes a stored message, as retrieved from the index.
pub fn stored_message_from_json(v: &JsonValue) -> (r: Result<StoredMessage, Error>)
    ensures
        r is Ok <==> spec_stored_message_of(*v) is Some,
        r matches Ok(m) ==> Some(m@) == spec_stored_message_of(*v),
        r matches Err(e) ==> e is ParseError,
{
    match v {
        JsonValue::Obj(entries) => {
            let sender_name = match one_str_entry(entries, "sender_name") {
                Ok(s) => s,
                Err(e) => { return Err(e); },
            };
            let timestamp_ms = match one_i64_entry(entries, "timestamp_ms") {
                Ok(i) => i,
                Err(e) => { return Err(e); },
            };
            let content = match one_str_entry(entries, "content") {
                Ok(s) => s,
                Err(e) => { return Err(e); },
            };
            Ok(StoredMessage { sender_name, timestamp_ms, content })
        },
        _ => Err(parse_fail("document")),
    }
}

/// Reads a one-element string array under `key`.
fn one_str_entry(entries: &Vec<(String, JsonValue)>, key: &str) -> (r: Result<String, Error>)
    ensures
        r is Ok <==> spec_one_str_entry(entries@, key@) is Some,
        r matches Ok(s) ==> Some(s@) == spec_one_str_entry(entries@, key@),
        r matches Err(e) ==> e is ParseError,
{
    match lookup(entries, key) {
        Some(JsonValue::Arr(items)) => {
            if items.len() == 1 {
                match &items[0] {
                    JsonValue::Text(s) => Ok(s.clone()),
                    _ => Err(parse_fail(key)),
                }
            } else {
                Err(parse_fail(key))
            }
        },
        _ => Err(parse_fail(key)),
    }
}

/// Reads a one-element integer array under `key`.
fn one_i64_entry(entries: &Vec<(String, JsonValue)>, key: &str) -> (r: Result<i64, Error>)
    ensures
        r is Ok <==> spec_one_i64_entry(entries@, key@) is Some,
        r matches Ok(i) ==> Some(i as int) == spec_one_i64_entry(entries@, key@),
        r matches Err(e) ==> e is ParseError,
{
    match lookup(entries, key) {
        Some(JsonValue::Arr(items)) => {
            if items.len() == 1 {
                match &items[0] {
                    JsonValue::Int(i) => Ok(*i),
                    _ => Err(parse_fail(key)),
                }
            } else {
                Err(parse_fail(key))
            }
        },
        _ => Err(parse_fail(key)),
    }
}

impl Conversation {
    /// Decodes a conversation from JSON text: the text must be JSON and its
    /// value must satisfy [`spec_conversation_of`]; any failure is a
    /// `ParseError`, never an abort.
    pub fn from_json_str(json: &str) -> (r: Result<Conversation, Error>)
        ensures
            r is Ok <==> (json_of(json@) matches Some(v) && spec_conversation_of(v) is Some),
            r matches Ok(c) ==> Some(c@) == spec_conversation_of(json_of(json@).unwrap()),
            r matches Err(e) ==> e is ParseError,
    {
        match parse_json_text(json) {
            Ok(v) => conversation_from_json(&v),
            Err(m) => Err(Error::ParseError(m)),
        }
    }
}

impl ConversationHeader {
    /// Decodes a header alone from JSON text, for lightweight metadata
    /// inspection: the `messages` field, present or not, is ignored.
    pub fn from_json_str(json: &str) -> (r: Result<ConversationHeader, Error>)
        ensures
            r is Ok <==> (json_of(json@) matches Some(v) && spec_header_of(v) is Some),
            r matches Ok(h) ==> Some(h@) == spec_header_of(json_of(json@).unwrap()),
            r matches Err(e) ==> e is ParseError,
    {
        match parse_json_text(json) {
            Ok(v) => header_from_json(&v),
            Err(m) => Err(Error::ParseError(m)),
        }
    }
}

impl StoredMessage {
    /// Decodes a stored message from JSON text, as the engine renders a
    /// retrieved document.
    pub fn from_json_str(json: &str) -> (r: Result<StoredMessage, Error>)
        ensures
            r is Ok <==> (json_of(json@) matches Some(v) && spec_stored_message_of(v) is Some),
            r matches Ok(m) ==> Some(m@) == spec_stored_message_of(json_of(json@).unwrap()),
            r matches Err(e) ==> e is ParseError,
    {
        match parse_json_text(json) {
            Ok(v) => stored_message_from_json(&v),
            Err(m) => Err(Error::ParseError(m)),
        }
    }
}

} // verus!
