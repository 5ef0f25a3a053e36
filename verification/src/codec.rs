//! The envelope codec: frames to envelopes and envelopes to text.
//!
//! An envelope travels as the JSON object
//! `{ "op": int, "s": int, "t": string, "d": object | bool | int }`, where
//! `s` and `t` may be left out. The payload `d` is an untagged union: a
//! decoder tries the structured body first, then the boolean, then the
//! integer, and takes the first that fits.

use vstd::prelude::*;
use crate::json::{
    lemma_list_view, lemma_lookup_absent, lemma_lookup_unique, lemma_record_view, list_view,
    parse_text, parsed_json, record_view, render_text, rendered_json, Json, JsonModel,
    Member,
};
use crate::operation::{
    DispatchView, OperationView, PayloadView, QQBotOperation, QQBotOperationDispatch,
    QQBotOperationUnion, User, UserView, DEFAULT_HEARTBEAT_INTERVAL,
};

verus! {

/// Why a frame could not be decoded.
#[derive(Debug, Clone, Copy, PartialEq, Eq, Structural)]
pub enum DecodeError {
    /// The text is no JSON document.
    InvalidJson,
    /// The document is no object, or its `op`, `s` or `t` has the wrong
    /// shape.
    InvalidEnvelope,
    /// The payload `d` is missing or fits none of the three variants.
    UnknownPayloadShape,
    /// The frame is neither a text frame nor a close frame.
    UnsupportedFrameKind,
}

/// One frame as the transport hands it over.
#[derive(Debug, PartialEq, Eq)]
pub enum Frame {
    Text(String),
    Close,
    Binary,
    Ping,
    Pong,
    Raw,
}

/// What a frame decodes to.
#[derive(Debug, PartialEq, Eq)]
pub enum Inbound {
    Operation(QQBotOperation),
    Closed,
}

// ---------------------------------------------------------------------
// Reading: from a tree to an envelope
// ---------------------------------------------------------------------

/// The `u32` that a tree stands for, if it is an integer in range.
pub open spec fn as_u32(value: JsonModel) -> Option<u32> {
    match value {
        JsonModel::Number(Some(n)) => if 0 <= n <= u32::MAX {
            Some(n as u32)
        } else {
            None
        },
        _ => None,
    }
}

/// An optional `u32` field: `default` where the key is absent, `None` where
/// it holds anything but a `u32`.
pub open spec fn u32_field(tree: JsonModel, key: Seq<char>, default: u32) -> Option<u32> {
    match tree.member(key) {
        None => Some(default),
        Some(value) => as_u32(value),
    }
}

/// An optional `i64` field: zero where the key is absent, `None` where it
/// holds anything but an `i64`.
pub open spec fn i64_field(tree: JsonModel, key: Seq<char>) -> Option<i64> {
    match tree.member(key) {
        None => Some(0i64),
        Some(JsonModel::Number(Some(n))) => Some(n),
        Some(_) => None,
    }
}

/// An optional string field: empty where the key is absent, `None` where
/// it holds anything but a string.
pub open spec fn text_field(tree: JsonModel, key: Seq<char>) -> Option<Seq<char>> {
    match tree.member(key) {
        None => Some(Seq::empty()),
        Some(JsonModel::Text(text)) => Some(text),
        Some(_) => None,
    }
}

/// An optional boolean field: `false` where the key is absent, `None`
/// where it holds anything but a boolean.
pub open spec fn bool_field(tree: JsonModel, key: Seq<char>) -> Option<bool> {
    match tree.member(key) {
        None => Some(false),
        Some(JsonModel::Bool(b)) => Some(b),
        Some(_) => None,
    }
}

/// A list of `u32`s, if every item is one.
pub open spec fn u32_list(items: Seq<JsonModel>) -> Option<Seq<u32>> {
    if forall|i: int| 0 <= i < items.len() ==> as_u32(#[trigger] items[i]) is Some {
        Some(Seq::new(items.len(), |i: int| as_u32(items[i]).unwrap()))
    } else {
        None
    }
}

/// The optional field `shard`: empty where the key is absent, `None` where
/// it holds anything but a list of `u32`s.
pub open spec fn shard_field(tree: JsonModel) -> Option<Seq<u32>> {
    match tree.member("shard"@) {
        None => Some(Seq::empty()),
        Some(JsonModel::List(items)) => u32_list(items),
        Some(_) => None,
    }
}

/// The user that an object describes. Each of `id`, `username` and `bot`
/// may be left out.
pub open spec fn user_of_json(tree: JsonModel) -> Option<UserView> {
    let id = text_field(tree, "id"@);
    let username = text_field(tree, "username"@);
    let bot = bool_field(tree, "bot"@);
    if tree is Record && id is Some && username is Some && bot is Some {
        Some(UserView { id: id.unwrap(), username: username.unwrap(), bot: bot.unwrap() })
    } else {
        None
    }
}

/// The optional field `user`: the empty user where the key is absent.
pub open spec fn user_field(tree: JsonModel) -> Option<UserView> {
    match tree.member("user"@) {
        None => Some(UserView::empty()),
        Some(value) => user_of_json(value),
    }
}

/// The structured body that an object describes. Every field may be left
/// out and then takes the value it has in the empty body; a heartbeat
/// interval of zero does not fit.
pub open spec fn dispatch_of_json(tree: JsonModel) -> Option<DispatchView> {
    let token = text_field(tree, "token"@);
    let intents = u32_field(tree, "intents"@, 0);
    let shard = shard_field(tree);
    let heartbeat_interval = u32_field(tree, "heartbeat_interval"@, DEFAULT_HEARTBEAT_INTERVAL);
    let version = i64_field(tree, "version"@);
    let session_id = text_field(tree, "session_id"@);
    let user = user_field(tree);
    if tree is Record && token is Some && intents is Some && shard is Some
        && heartbeat_interval is Some && heartbeat_interval != Some(0u32) && version is Some
        && session_id is Some && user is Some {
        Some(
            DispatchView {
                token: token.unwrap(),
                intents: intents.unwrap(),
                shard: shard.unwrap(),
                heartbeat_interval: heartbeat_interval.unwrap(),
                version: version.unwrap(),
                session_id: session_id.unwrap(),
                user: user.unwrap(),
            },
        )
    } else {
        None
    }
}

/// The payload that a tree describes: the structured body where it fits,
/// else the boolean, else the integer, else nothing.
pub open spec fn payload_of_json(tree: JsonModel) -> Option<PayloadView> {
    match dispatch_of_json(tree) {
        Some(body) => Some(PayloadView::Dispatch(body)),
        None => match tree {
            JsonModel::Bool(b) => Some(PayloadView::Boolean(b)),
            JsonModel::Number(Some(n)) => Some(PayloadView::Integer(n)),
            _ => None,
        },
    }
}

/// The sequence number of an envelope: `Some(None)` where `s` is absent,
/// `None` where it holds anything but a `u32`.
pub open spec fn sequence_field(tree: JsonModel) -> Option<Option<u32>> {
    match tree.member("s"@) {
        None => Some(None),
        Some(value) => match as_u32(value) {
            Some(n) => Some(Some(n)),
            None => None,
        },
    }
}

/// The envelope that a tree describes, or the reason why it describes none.
pub open spec fn operation_of_json(tree: JsonModel) -> Result<OperationView, DecodeError> {
    let op = match tree.member("op"@) {
        None => None,
        Some(value) => as_u32(value),
    };
    let s = sequence_field(tree);
    let t = text_field(tree, "t"@);
    let d = match tree.member("d"@) {
        None => None,
        Some(value) => payload_of_json(value),
    };
    if !(tree is Record) || op is None || s is None || t is None {
        Err(DecodeError::InvalidEnvelope)
    } else if d is None {
        Err(DecodeError::UnknownPayloadShape)
    } else {
        Ok(OperationView { op: op.unwrap(), s: s.unwrap(), t: t.unwrap(), d: d.unwrap() })
    }
}

/// The envelope that a text describes: the text is read as JSON, and the
/// tree as an envelope.
pub open spec fn operation_of_text(text: Seq<char>) -> Result<OperationView, DecodeError> {
    match parsed_json(text) {
        None => Err(DecodeError::InvalidJson),
        Some(tree) => operation_of_json(tree),
    }
}

/// The model of a decoding result.
pub open spec fn operation_result_view(
    result: Result<QQBotOperation, DecodeError>,
) -> Result<OperationView, DecodeError> {
    match result {
        Ok(operation) => Ok(operation@),
        Err(error) => Err(error),
    }
}

fn read_u32(value: &Json) -> (number: Option<u32>)
    ensures
        number == as_u32(value@),
{
    match value {
        Json::Number(Some(n)) => {
            if 0 <= *n && *n <= 0xffff_ffff {
                Some(*n as u32)
            } else {
                None
            }
        },
        _ => None,
    }
}

fn read_u32_field(tree: &Json, key: &str, default: u32) -> (number: Option<u32>)
    ensures
        number == u32_field(tree@, key@, default),
{
    match tree.member(key) {
        None => Some(default),
        Some(value) => read_u32(value),
    }
}

fn read_i64_field(tree: &Json, key: &str) -> (number: Option<i64>)
    ensures
        number == i64_field(tree@, key@),
{
    match tree.member(key) {
        None => Some(0),
        Some(Json::Number(Some(n))) => Some(*n),
        Some(_) => None,
    }
}

fn read_text_field(tree: &Json, key: &str) -> (text: Option<String>)
    ensures
        match text {
            Some(found) => text_field(tree@, key@) == Some(found@),
            None => text_field(tree@, key@) is None,
        },
{
    match tree.member(key) {
        None => Some(String::new()),
        Some(Json::Text(text)) => Some(text.clone()),
        Some(_) => None,
    }
}

fn read_bool_field(tree: &Json, key: &str) -> (flag: Option<bool>)
    ensures
        flag == bool_field(tree@, key@),
{
    match tree.member(key) {
        None => Some(false),
        Some(Json::Bool(b)) => Some(*b),
        Some(_) => None,
    }
}

fn read_u32_list(items: &Vec<Json>) -> (numbers: Option<Vec<u32>>)
    ensures
        match numbers {
            Some(found) => u32_list(list_view(items@)) == Some(found@),
            None => u32_list(list_view(items@)) is None,
        },
{
    let ghost models = list_view(items@);
    let mut numbers: Vec<u32> = Vec::new();
    let mut i: usize = 0;
    while i < items.len()
        invariant
            i <= items.len(),
            models == list_view(items@),
            numbers@.len() == i,
            forall|j: int| 0 <= j < i ==> as_u32(#[trigger] models[j]) == Some(numbers@[j]),
        decreases items.len() - i,
    {
        match read_u32(&items[i]) {
            Some(n) => {
                numbers.push(n);
            },
            None => {
                assert(as_u32(models[i as int]) is None);
                return None;
            },
        }
        i += 1;
    }
    assert(numbers@ =~= u32_list(models).unwrap());
    Some(numbers)
}

fn read_shard_field(tree: &Json) -> (shard: Option<Vec<u32>>)
    ensures
        match shard {
            Some(found) => shard_field(tree@) == Some(found@),
            None => shard_field(tree@) is None,
        },
{
    match tree.member("shard") {
        None => Some(Vec::new()),
        Some(Json::List(items)) => {
            proof {
                lemma_list_view(*items);
            }
            read_u32_list(items)
        },
        Some(_) => None,
    }
}

fn is_record(tree: &Json) -> (yes: bool)
    ensures
        yes == (tree@ is Record),
{
    match tree {
        Json::Record(_) => true,
        _ => false,
    }
}

fn read_user(tree: &Json) -> (user: Option<User>)
    ensures
        match user {
            Some(found) => user_of_json(tree@) == Some(found@),
            None => user_of_json(tree@) is None,
        },
{
    if !is_record(tree) {
        return None;
    }
    let id = match read_text_field(tree, "id") {
        Some(v) => v,
        None => { return None; },
    };
    let username = match read_text_field(tree, "username") {
        Some(v) => v,
        None => { return None; },
    };
    let bot = match read_bool_field(tree, "bot") {
        Some(v) => v,
        None => { return None; },
    };
    Some(User { id, username, bot })
}

fn read_user_field(tree: &Json) -> (user: Option<User>)
    ensures
        match user {
            Some(found) => user_field(tree@) == Some(found@),
            None => user_field(tree@) is None,
        },
{
    match tree.member("user") {
        None => Some(User::default()),
        Some(value) => read_user(value),
    }
}

fn read_dispatch(tree: &Json) -> (body: Option<QQBotOperationDispatch>)
    ensures
        match body {
            Some(found) => dispatch_of_json(tree@) == Some(found@),
            None => dispatch_of_json(tree@) is None,
        },
{
    if !is_record(tree) {
        return None;
    }
    let token = match read_text_field(tree, "token") {
        Some(v) => v,
        None => { return None; },
    };
    let intents = match read_u32_field(tree, "intents", 0) {
        Some(v) => v,
        None => { return None; },
    };
    let shard = match read_shard_field(tree) {
        Some(v) => v,
        None => { return None; },
    };
    let heartbeat_interval = match read_u32_field(
        tree,
        "heartbeat_interval",
        DEFAULT_HEARTBEAT_INTERVAL,
    ) {
        Some(v) => v,
        None => { return None; },
    };
    if heartbeat_interval == 0 {
        return None;
    }
    let version = match read_i64_field(tree, "version") {
        Some(v) => v,
        None => { return None; },
    };
    let session_id = match read_text_field(tree, "session_id") {
        Some(v) => v,
        None => { return None; },
    };
    let user = match read_user_field(tree) {
        Some(v) => v,
        None => { return None; },
    };
    Some(
        QQBotOperationDispatch {
            token,
            intents,
            shard,
            heartbeat_interval,
            version,
            session_id,
            user,
        },
    )
}

fn read_payload(tree: &Json) -> (payload: Option<QQBotOperationUnion>)
    ensures
        match payload {
            Some(found) => payload_of_json(tree@) == Some(found@),
            None => payload_of_json(tree@) is None,
        },
{
    match read_dispatch(tree) {
        Some(body) => Some(QQBotOperationUnion::Dispatch(body)),
        None => match tree {
            Json::Bool(b) => Some(QQBotOperationUnion::Boolean(*b)),
            Json::Number(Some(n)) => Some(QQBotOperationUnion::Integer(*n)),
            _ => None,
        },
    }
}

/// Reads an envelope out of a JSON tree.
pub fn operation_from_json(tree: &Json) -> (result: Result<QQBotOperation, DecodeError>)
    ensures
        operation_result_view(result) == operation_of_json(tree@),
        result matches Ok(operation) ==> operation@.well_formed(),
{
    if !is_record(tree) {
        return Err(DecodeError::InvalidEnvelope);
    }
    let op = match tree.member("op") {
        None => { return Err(DecodeError::InvalidEnvelope); },
        Some(value) => match read_u32(value) {
            Some(v) => v,
            None => { return Err(DecodeError::InvalidEnvelope); },
        },
    };
    let s = match tree.member("s") {
        None => None,
        Some(value) => match read_u32(value) {
            Some(v) => Some(v),
            None => { return Err(DecodeError::InvalidEnvelope); },
        },
    };
    let t = match read_text_field(tree, "t") {
        Some(v) => v,
        None => { return Err(DecodeError::InvalidEnvelope); },
    };
    let d = match tree.member("d") {
        None => { return Err(DecodeError::UnknownPayloadShape); },
        Some(value) => match read_payload(value) {
            Some(v) => v,
            None => { return Err(DecodeError::UnknownPayloadShape); },
        },
    };
    Ok(QQBotOperation { op, s, t, d })
}

/// Decodes the text of a text frame.
pub fn decode_text(text: &str) -> (result: Result<QQBotOperation, DecodeError>)
    ensures
        operation_result_view(result) == operation_of_text(text@),
        result matches Ok(operation) ==> operation@.well_formed(),
{
    match parse_text(text) {
        None => Err(DecodeError::InvalidJson),
        Some(tree) => operation_from_json(&tree),
    }
}

/// Decodes one frame: a text frame gives the envelope it holds, a close
/// frame gives [`Inbound::Closed`], and no other kind of frame is decoded.
pub fn decode(frame: &Frame) -> (result: Result<Inbound, DecodeError>)
    ensures
        match *frame {
            Frame::Text(text) => match operation_of_text(text@) {
                Ok(operation) => result matches Ok(Inbound::Operation(found)) && found@
                    == operation,
                Err(error) => result matches Err(e) && e == error,
            },
            Frame::Close => result matches Ok(Inbound::Closed),
            _ => result matches Err(e) && e == DecodeError::UnsupportedFrameKind,
        },
{
    match frame {
        Frame::Text(text) => match decode_text(text.as_str()) {
            Ok(operation) => Ok(Inbound::Operation(operation)),
            Err(error) => Err(error),
        },
        Frame::Close => Ok(Inbound::Closed),
        _ => Err(DecodeError::UnsupportedFrameKind),
    }
}

// ---------------------------------------------------------------------
// Writing: from an envelope to a tree
// ---------------------------------------------------------------------

/// The object that describes a user.
pub open spec fn json_of_user(user: UserView) -> JsonModel {
    JsonModel::Record(
        seq![
            ("id"@, JsonModel::Text(user.id)),
            ("username"@, JsonModel::Text(user.username)),
            ("bot"@, JsonModel::Bool(user.bot)),
        ],
    )
}

/// The list that holds `numbers`.
pub open spec fn json_of_u32_list(numbers: Seq<u32>) -> JsonModel {
    JsonModel::List(
        Seq::new(numbers.len(), |i: int| JsonModel::Number(Some(numbers[i] as i64))),
    )
}

/// The object that describes a structured body: all seven fields, in the
/// order of the struct.
pub open spec fn json_of_dispatch(body: DispatchView) -> JsonModel {
    JsonModel::Record(
        seq![
            ("token"@, JsonModel::Text(body.token)),
            ("intents"@, JsonModel::Number(Some(body.intents as i64))),
            ("shard"@, json_of_u32_list(body.shard)),
            ("heartbeat_interval"@, JsonModel::Number(Some(body.heartbeat_interval as i64))),
            ("version"@, JsonModel::Number(Some(body.version))),
            ("session_id"@, JsonModel::Text(body.session_id)),
            ("user"@, json_of_user(body.user)),
        ],
    )
}

/// The tree that describes a payload.
pub open spec fn json_of_payload(payload: PayloadView) -> JsonModel {
    match payload {
        PayloadView::Dispatch(body) => json_of_dispatch(body),
        PayloadView::Boolean(b) => JsonModel::Bool(b),
        PayloadView::Integer(n) => JsonModel::Number(Some(n)),
    }
}

/// The entry `s` of an envelope: left out where there is no sequence number.
pub open spec fn sequence_entry(s: Option<u32>) -> Seq<(Seq<char>, JsonModel)> {
    match s {
        Some(n) => seq![("s"@, JsonModel::Number(Some(n as i64)))],
        None => Seq::empty(),
    }
}

/// The entry `t` of an envelope: left out where the event name is empty.
pub open spec fn event_entry(t: Seq<char>) -> Seq<(Seq<char>, JsonModel)> {
    if t.len() > 0 {
        seq![("t"@, JsonModel::Text(t))]
    } else {
        Seq::empty()
    }
}

/// The object that describes an envelope: `op`, then `s` and `t` where
/// there is something to say, then `d`.
pub open spec fn json_of_operation(operation: OperationView) -> JsonModel {
    JsonModel::Record(
        seq![("op"@, JsonModel::Number(Some(operation.op as i64)))] + sequence_entry(operation.s)
            + event_entry(operation.t) + seq![("d"@, json_of_payload(operation.d))],
    )
}

fn entry(key: &str, value: Json) -> (member: Member)
    ensures
        member.key@ == key@,
        member.value == value,
{
    Member { key: String::from_str(key), value }
}

fn number(n: u32) -> (tree: Json)
    ensures
        tree@ == JsonModel::Number(Some(n as i64)),
{
    Json::Number(Some(n as i64))
}

fn user_to_json(user: &User) -> (tree: Json)
    ensures
        tree@ == json_of_user(user@),
{
    let mut members: Vec<Member> = Vec::new();
    members.push(entry("id", Json::Text(user.id.clone())));
    members.push(entry("username", Json::Text(user.username.clone())));
    members.push(entry("bot", Json::Bool(user.bot)));
    proof {
        lemma_record_view(members);
        assert(record_view(members@) =~= json_of_user(user@)->Record_0);
    }
    Json::Record(members)
}

fn u32_list_to_json(numbers: &Vec<u32>) -> (tree: Json)
    ensures
        tree@ == json_of_u32_list(numbers@),
{
    let mut items: Vec<Json> = Vec::new();
    let mut i: usize = 0;
    while i < numbers.len()
        invariant
            i <= numbers.len(),
            items@.len() == i,
            forall|j: int| 0 <= j < i ==> (#[trigger] items@[j])@ == JsonModel::Number(Some(numbers@[j] as i64)),
        decreases numbers.len() - i,
    {
        items.push(number(numbers[i]));
        i += 1;
    }
    proof {
        lemma_list_view(items);
        assert(list_view(items@) =~= json_of_u32_list(numbers@)->List_0);
    }
    Json::List(items)
}

fn dispatch_to_json(body: &QQBotOperationDispatch) -> (tree: Json)
    ensures
        tree@ == json_of_dispatch(body@),
{
    let mut members: Vec<Member> = Vec::new();
    members.push(entry("token", Json::Text(body.token.clone())));
    members.push(entry("intents", number(body.intents)));
    members.push(entry("shard", u32_list_to_json(&body.shard)));
    members.push(entry("heartbeat_interval", number(body.heartbeat_interval)));
    members.push(entry("version", Json::Number(Some(body.version))));
    members.push(entry("session_id", Json::Text(body.session_id.clone())));
    members.push(entry("user", user_to_json(&body.user)));
    proof {
        lemma_record_view(members);
        assert(record_view(members@) =~= json_of_dispatch(body@)->Record_0);
    }
    Json::Record(members)
}

fn payload_to_json(payload: &QQBotOperationUnion) -> (tree: Json)
    ensures
        tree@ == json_of_payload(payload@),
{
    match payload {
        QQBotOperationUnion::Dispatch(body) => dispatch_to_json(body),
        QQBotOperationUnion::Boolean(b) => Json::Bool(*b),
        QQBotOperationUnion::Integer(n) => Json::Number(Some(*n)),
    }
}

/// Writes an envelope as a JSON tree.
pub fn operation_to_json(operation: &QQBotOperation) -> (tree: Json)
    ensures
        tree@ == json_of_operation(operation@),
{
    let mut members: Vec<Member> = Vec::new();
    members.push(entry("op", number(operation.op)));
    match operation.s {
        Some(n) => {
            members.push(entry("s", number(n)));
        },
        None => {},
    }
    if !operation.t.as_str().is_empty() {
        members.push(entry("t", Json::Text(operation.t.clone())));
    }
    members.push(entry("d", payload_to_json(&operation.d)));
    proof {
        lemma_record_view(members);
        assert(record_view(members@) =~= json_of_operation(operation@)->Record_0);
    }
    Json::Record(members)
}

/// Encodes an envelope as the text of a text frame.
pub fn encode(operation: &QQBotOperation) -> (text: String)
    ensures
        text@ == rendered_json(json_of_operation(operation@)),
{
    let tree = operation_to_json(operation);
    render_text(&tree)
}

// ---------------------------------------------------------------------
// Writing and reading back
// ---------------------------------------------------------------------

fn same_numbers(left: &Vec<u32>, right: &Vec<u32>) -> (same: bool)
    ensures
        same == (left@ == right@),
{
    if left.len() != right.len() {
        return false;
    }
    let mut i: usize = 0;
    while i < left.len()
        invariant
            i <= left.len(),
            left.len() == right.len(),
            forall|j: int| 0 <= j < i ==> left@[j] == right@[j],
        decreases left.len() - i,
    {
        if left[i] != right[i] {
            return false;
        }
        i += 1;
    }
    assert(left@ =~= right@);
    true
}

fn same_user(left: &User, right: &User) -> (same: bool)
    ensures
        same == (left@ == right@),
{
    left.id == right.id && left.username == right.username && left.bot == right.bot
}

fn same_dispatch(left: &QQBotOperationDispatch, right: &QQBotOperationDispatch) -> (same: bool)
    ensures
        same == (left@ == right@),
{
    left.token == right.token && left.intents == right.intents && same_numbers(
        &left.shard,
        &right.shard,
    ) && left.heartbeat_interval == right.heartbeat_interval && left.version == right.version
        && left.session_id == right.session_id && same_user(&left.user, &right.user)
}

fn same_payload(left: &QQBotOperationUnion, right: &QQBotOperationUnion) -> (same: bool)
    ensures
        same == (left@ == right@),
{
    match (left, right) {
        (QQBotOperationUnion::Dispatch(l), QQBotOperationUnion::Dispatch(r)) => same_dispatch(l, r),
        (QQBotOperationUnion::Boolean(l), QQBotOperationUnion::Boolean(r)) => *l == *r,
        (QQBotOperationUnion::Integer(l), QQBotOperationUnion::Integer(r)) => *l == *r,
        _ => false,
    }
}

fn same_sequence(left: Option<u32>, right: Option<u32>) -> (same: bool)
    ensures
        same == (left == right),
{
    match (left, right) {
        (Some(l), Some(r)) => l == r,
        (None, None) => true,
        _ => false,
    }
}

/// Whether two envelopes say the same.
pub fn same_operation(left: &QQBotOperation, right: &QQBotOperation) -> (same: bool)
    ensures
        same == (left@ == right@),
{
    left.op == right.op && same_sequence(left.s, right.s) && left.t == right.t && same_payload(
        &left.d,
        &right.d,
    )
}

/// Encodes an envelope and reads the text back. The text is handed out
/// where, and only where, it decodes to the envelope it was made from.
pub fn encode_checked(operation: &QQBotOperation) -> (checked: Option<String>)
    ensures
        match checked {
            Some(text) => text@ == rendered_json(json_of_operation(operation@))
                && operation_of_text(text@) == Ok::<OperationView, DecodeError>(operation@),
            None => operation_of_text(rendered_json(json_of_operation(operation@))) != Ok::<
                OperationView,
                DecodeError,
            >(operation@),
        },
{
    let text = encode(operation);
    match decode_text(text.as_str()) {
        Ok(read) => if same_operation(&read, operation) {
            Some(text)
        } else {
            None
        },
        Err(_) => None,
    }
}


/// A user that is written as a tree is read back unchanged.
pub proof fn lemma_user_round_trip(user: UserView)
    ensures
        user_of_json(json_of_user(user)) == Some(user),
{
    reveal_strlit("id");
    reveal_strlit("username");
    reveal_strlit("bot");
    let members = json_of_user(user)->Record_0;
    assert("id"@.len() == 2 && "username"@.len() == 8 && "bot"@.len() == 3);
    lemma_lookup_unique(members, "id"@, 0);
    lemma_lookup_unique(members, "username"@, 1);
    lemma_lookup_unique(members, "bot"@, 2);
}

/// A list of numbers that is written as a tree is read back unchanged.
pub proof fn lemma_u32_list_round_trip(numbers: Seq<u32>)
    ensures
        u32_list(json_of_u32_list(numbers)->List_0) == Some(numbers),
{
    let items = json_of_u32_list(numbers)->List_0;
    assert forall|i: int| 0 <= i < items.len() implies as_u32(#[trigger] items[i]) == Some(
        numbers[i],
    ) by {}
    assert(u32_list(items).unwrap() =~= numbers);
}

/// A structured body with a heartbeat interval other than zero is read
/// back unchanged.
pub proof fn lemma_dispatch_round_trip(body: DispatchView)
    requires
        body.well_formed(),
    ensures
        dispatch_of_json(json_of_dispatch(body)) == Some(body),
{
    reveal_strlit("token");
    reveal_strlit("intents");
    reveal_strlit("shard");
    reveal_strlit("heartbeat_interval");
    reveal_strlit("version");
    reveal_strlit("session_id");
    reveal_strlit("user");
    let members = json_of_dispatch(body)->Record_0;
    assert("token"@.len() == 5 && "intents"@.len() == 7 && "shard"@.len() == 5);
    assert("heartbeat_interval"@.len() == 18 && "version"@.len() == 7);
    assert("session_id"@.len() == 10 && "user"@.len() == 4);
    assert("token"@[0] == 't' && "shard"@[0] == 's');
    assert("intents"@[0] == 'i' && "version"@[0] == 'v');
    lemma_lookup_unique(members, "token"@, 0);
    lemma_lookup_unique(members, "intents"@, 1);
    lemma_lookup_unique(members, "shard"@, 2);
    lemma_lookup_unique(members, "heartbeat_interval"@, 3);
    lemma_lookup_unique(members, "version"@, 4);
    lemma_lookup_unique(members, "session_id"@, 5);
    lemma_lookup_unique(members, "user"@, 6);
    lemma_u32_list_round_trip(body.shard);
    lemma_user_round_trip(body.user);
}

/// A payload is read back as the variant it was written from.
pub proof fn lemma_payload_round_trip(payload: PayloadView)
    requires
        payload.well_formed(),
    ensures
        payload_of_json(json_of_payload(payload)) == Some(payload),
{
    match payload {
        PayloadView::Dispatch(body) => {
            lemma_dispatch_round_trip(body);
        },
        _ => {},
    }
}

/// Decoding undoes encoding: every envelope whose structured body, if it
/// has one, holds a heartbeat interval other than zero is read back
/// unchanged from the tree it is written as.
pub proof fn lemma_operation_round_trip(operation: OperationView)
    requires
        operation.well_formed(),
    ensures
        operation_of_json(json_of_operation(operation)) == Ok::<OperationView, DecodeError>(
            operation,
        ),
{
    reveal_strlit("op");
    reveal_strlit("s");
    reveal_strlit("t");
    reveal_strlit("d");
    let members = json_of_operation(operation)->Record_0;
    assert("op"@.len() == 2 && "s"@.len() == 1 && "t"@.len() == 1 && "d"@.len() == 1);
    assert("s"@[0] == 's' && "t"@[0] == 't' && "d"@[0] == 'd');
    let last = members.len() - 1;
    lemma_lookup_unique(members, "op"@, 0);
    lemma_lookup_unique(members, "d"@, last);
    if operation.s is Some {
        lemma_lookup_unique(members, "s"@, 1);
    } else {
        lemma_lookup_absent(members, "s"@);
    }
    if operation.t.len() > 0 {
        lemma_lookup_unique(members, "t"@, last - 1);
    } else {
        lemma_lookup_absent(members, "t"@);
        assert(operation.t =~= Seq::empty());
    }
    lemma_payload_round_trip(operation.d);
}

} // verus!
