//! The continuity of a conversation. A session links the turns of one room
//! with one assistant variant into a thread that the backend recognises. It
//! lives in a shared key-value store; this module owns the names of the keys,
//! says which writes create and advance a session, and reads one back from
//! what the store returned.

use crate::text::{
    decimal, decimal_text, number_of, parse_number, same_text,
};
use crate::token::{fresh_token, is_token};
use vstd::prelude::*;

verus! {

/// One continuity thread.
#[derive(Clone, Debug, PartialEq, Eq)]
pub struct Session {
    /// The conversation that the backend files the turns under.
    pub conversation_id: String,
    /// The item that the next question hangs on.
    pub prev_item_id: String,
    /// The item that the next question will be.
    pub current_item_id: String,
    /// How many round trips the session has seen.
    pub turn_count: u64,
}

/// The mathematical value of [`Session`].
pub struct SessionView {
    pub conversation_id: Seq<char>,
    pub prev_item_id: Seq<char>,
    pub current_item_id: Seq<char>,
    pub turn_count: nat,
}

impl View for Session {
    type V = SessionView;

    open spec fn view(&self) -> SessionView {
        SessionView {
            conversation_id: self.conversation_id@,
            prev_item_id: self.prev_item_id@,
            current_item_id: self.current_item_id@,
            turn_count: self.turn_count as nat,
        }
    }
}

/// Why the store gave no session.
#[derive(Clone, Debug, PartialEq, Eq)]
pub enum StoreError {
    /// One of the four fields is not there, or the count is no number.
    Missing,
    /// The store could not be reached; the cause is its own message.
    Connectivity(String),
}

/// The mathematical value of [`StoreError`].
pub enum StoreErrorView {
    Missing,
    Connectivity(Seq<char>),
}

impl View for StoreError {
    type V = StoreErrorView;

    open spec fn view(&self) -> StoreErrorView {
        match self {
            StoreError::Missing => StoreErrorView::Missing,
            StoreError::Connectivity(cause) => StoreErrorView::Connectivity(cause@),
        }
    }
}

/// A write to the store.
#[derive(Clone, Debug, PartialEq, Eq)]
pub enum StoreCommand {
    /// Put `value` under `key`, whatever was there; the key no longer expires.
    Put { key: String, value: String },
    /// Add one to the number under `key`.
    Increment { key: String },
    /// Let `key` expire `seconds` from now.
    Expire { key: String, seconds: i64 },
}

/// The mathematical value of [`StoreCommand`].
pub enum StoreCommandView {
    Put { key: Seq<char>, value: Seq<char> },
    Increment { key: Seq<char> },
    Expire { key: Seq<char>, seconds: i64 },
}

impl View for StoreCommand {
    type V = StoreCommandView;

    open spec fn view(&self) -> StoreCommandView {
        match self {
            StoreCommand::Put { key, value } => StoreCommandView::Put { key: key@, value: value@ },
            StoreCommand::Increment { key } => StoreCommandView::Increment { key: key@ },
            StoreCommand::Expire { key, seconds } => StoreCommandView::Expire {
                key: key@,
                seconds: *seconds,
            },
        }
    }
}

impl DeepView for StoreCommand {
    type V = StoreCommandView;

    open spec fn deep_view(&self) -> StoreCommandView {
        self@
    }
}

/// A question to the store.
#[derive(Clone, Debug, PartialEq, Eq)]
pub enum StoreQuery {
    /// What stands under the key?
    Get(String),
    /// Does anything stand under the key?
    Exists(String),
}

/// The mathematical value of [`StoreQuery`].
pub enum StoreQueryView {
    Get(Seq<char>),
    Exists(Seq<char>),
}

impl View for StoreQuery {
    type V = StoreQueryView;

    open spec fn view(&self) -> StoreQueryView {
        match self {
            StoreQuery::Get(key) => StoreQueryView::Get(key@),
            StoreQuery::Exists(key) => StoreQueryView::Exists(key@),
        }
    }
}

/// The key of one field of the session of a room and a variant:
/// `ai:<room>:<variant>:<field>`.
pub open spec fn session_key(room: u64, variant: Seq<char>, field: Seq<char>) -> Seq<char> {
    "ai:"@ + decimal(room as nat) + ":"@ + variant + ":"@ + field
}

/// The key of the conversation identifier.
pub open spec fn conv_key(room: u64, variant: Seq<char>) -> Seq<char> {
    session_key(room, variant, "conv"@)
}

/// The key of the item that the next question hangs on.
pub open spec fn prev_key(room: u64, variant: Seq<char>) -> Seq<char> {
    session_key(room, variant, "prev"@)
}

/// The key of the item that the next question will be.
pub open spec fn now_key(room: u64, variant: Seq<char>) -> Seq<char> {
    session_key(room, variant, "now"@)
}

/// The key of the turn count.
pub open spec fn count_key(room: u64, variant: Seq<char>) -> Seq<char> {
    session_key(room, variant, "count"@)
}

/// The key of the model that a room has chosen: `ai:<room>:model`.
pub open spec fn model_key(room: u64) -> Seq<char> {
    "ai:"@ + decimal(room as nat) + ":model"@
}

/// The key whose presence means that a room is engaged: `ai:<room>:JOIN`.
pub open spec fn join_key(room: u64) -> Seq<char> {
    "ai:"@ + decimal(room as nat) + ":JOIN"@
}

/// The key of one field of a session.
pub fn session_key_text(room: u64, variant: &str, field: &str) -> (r: String)
    ensures
        r@ == session_key(room, variant@, field@),
{
    let mut key = "ai:".to_owned();
    key.append(decimal_text(room).as_str());
    key.append(":");
    key.append(variant);
    key.append(":");
    key.append(field);
    key
}

/// The key of the model that a room has chosen.
pub fn model_key_text(room: u64) -> (r: String)
    ensures
        r@ == model_key(room),
{
    let mut key = "ai:".to_owned();
    key.append(decimal_text(room).as_str());
    key.append(":model");
    key
}

/// The key whose presence means that a room is engaged.
pub fn join_key_text(room: u64) -> (r: String)
    ensures
        r@ == join_key(room),
{
    let mut key = "ai:".to_owned();
    key.append(decimal_text(room).as_str());
    key.append(":JOIN");
    key
}

/// The four keys of a session, in the order conversation, previous item,
/// current item, count.
pub open spec fn session_keys(room: u64, variant: Seq<char>) -> Seq<Seq<char>> {
    seq![
        conv_key(room, variant),
        prev_key(room, variant),
        now_key(room, variant),
        count_key(room, variant),
    ]
}

/// The four keys of a session, in the order in which [`Session::read`] takes
/// their values.
pub fn session_key_texts(room: u64, variant: &str) -> (r: Vec<String>)
    ensures
        r.deep_view() == session_keys(room, variant@),
{
    let mut keys: Vec<String> = Vec::new();
    keys.push(session_key_text(room, variant, "conv"));
    keys.push(session_key_text(room, variant, "prev"));
    keys.push(session_key_text(room, variant, "now"));
    keys.push(session_key_text(room, variant, "count"));
    assert(keys.deep_view() =~= session_keys(room, variant@));
    keys
}

/// The variant that stands for a model in keys and requests: the model's
/// name with every `-` and every `.` turned into `_`.
pub open spec fn variant_of(model: Seq<char>) -> Seq<char> {
    model.map_values(
        |c: char|
            if c == '-' || c == '.' {
                '_'
            } else {
                c
            },
    )
}

/// The variant that stands for a model.
pub fn bot_variant(model: &str) -> (r: String)
    ensures
        r@ == variant_of(model@),
{
    let chars = crate::text::chars_of(model);
    let mut out = String::new();
    let mut i: usize = 0;
    while i < chars.len()
        invariant
            i <= chars.len(),
            chars@ == model@,
            out@ == variant_of(model@.take(i as int)),
        decreases chars.len() - i,
    {
        let c = chars[i];
        let mapped = if c == '-' || c == '.' {
            '_'
        } else {
            c
        };
        crate::text::push_char(&mut out, mapped);
        assert(variant_of(model@.take(i + 1)) =~= variant_of(model@.take(i as int)).push(mapped));
        i += 1;
    }
    assert(model@.take(chars.len() as int) == model@);
    out
}

/// The model of a room: the one it has chosen, or the default where the
/// store holds none or could not be asked.
pub open spec fn model_of(stored: Option<Seq<char>>, default_model: Seq<char>) -> Seq<char> {
    match stored {
        Some(model) => model,
        None => default_model,
    }
}

/// The model of a room and the variant that stands for it.
pub fn resolve_model(stored: Option<String>, default_model: &str) -> (r: (String, String))
    ensures
        r.0@ == model_of(crate::dto::text_view(stored), default_model@),
        r.1@ == variant_of(r.0@),
{
    let model = match stored {
        Some(model) => model,
        None => default_model.to_owned(),
    };
    let variant = bot_variant(model.as_str());
    (model, variant)
}

/// A session right after a reset: the three tokens given, and no turn yet.
pub open spec fn fresh_session(
    conversation: Seq<char>,
    prev: Seq<char>,
    current: Seq<char>,
) -> SessionView {
    SessionView {
        conversation_id: conversation,
        prev_item_id: prev,
        current_item_id: current,
        turn_count: 0,
    }
}

/// A session after one more round trip: the next question hangs on the reply
/// that was just issued, it gets the new token, and one more turn is counted.
/// The conversation stays.
pub open spec fn advanced(session: SessionView, reply: Seq<char>, next: Seq<char>) -> SessionView {
    SessionView {
        conversation_id: session.conversation_id,
        prev_item_id: reply,
        current_item_id: next,
        turn_count: session.turn_count + 1,
    }
}

/// The session that four values of the store make up, if they do: all four
/// are there, and the count is a number.
pub open spec fn session_of(
    conversation: Option<Seq<char>>,
    prev: Option<Seq<char>>,
    current: Option<Seq<char>>,
    count: Option<Seq<char>>,
) -> Option<SessionView> {
    if conversation is Some && prev is Some && current is Some && count is Some && number_of(
        count->0,
    ) is Some {
        Some(
            SessionView {
                conversation_id: conversation->0,
                prev_item_id: prev->0,
                current_item_id: current->0,
                turn_count: number_of(count->0)->0,
            },
        )
    } else {
        None
    }
}

impl Session {
    /// A session right after a reset.
    pub fn fresh(conversation_id: String, prev_item_id: String, current_item_id: String) -> (r:
        Session)
        ensures
            r@ == fresh_session(conversation_id@, prev_item_id@, current_item_id@),
    {
        Session { conversation_id, prev_item_id, current_item_id, turn_count: 0 }
    }

    /// Makes a session of what the store returned for its four keys. Where a
    /// value is missing, or the count is no number, there is no session.
    pub fn read(
        conversation: Option<String>,
        prev: Option<String>,
        current: Option<String>,
        count: Option<String>,
    ) -> (r: Result<Session, StoreError>)
        ensures
            match r {
                Ok(session) => session_of(
                    crate::dto::text_view(conversation),
                    crate::dto::text_view(prev),
                    crate::dto::text_view(current),
                    crate::dto::text_view(count),
                ) == Some(session@),
                Err(error) => error@ == StoreErrorView::Missing && session_of(
                    crate::dto::text_view(conversation),
                    crate::dto::text_view(prev),
                    crate::dto::text_view(current),
                    crate::dto::text_view(count),
                ) is None,
            },
    {
        match (conversation, prev, current, count) {
            (Some(conversation_id), Some(prev_item_id), Some(current_item_id), Some(count_text)) => {
                match parse_number(count_text.as_str()) {
                    Some(turn_count) => Ok(
                        Session { conversation_id, prev_item_id, current_item_id, turn_count },
                    ),
                    None => Err(StoreError::Missing),
                }
            },
            _ => Err(StoreError::Missing),
        }
    }

    /// The session after one more round trip. The count must have room for
    /// one more turn.
    pub fn advance(self, reply: String, next: String) -> (r: Session)
        requires
            self.turn_count < u64::MAX,
        ensures
            r@ == advanced(self@, reply@, next@),
    {
        Session {
            conversation_id: self.conversation_id,
            prev_item_id: reply,
            current_item_id: next,
            turn_count: self.turn_count + 1,
        }
    }
}

/// The writes that reset a session: the three tokens, and a count of zero.
pub open spec fn reset_commands(
    room: u64,
    variant: Seq<char>,
    conversation: Seq<char>,
    prev: Seq<char>,
    current: Seq<char>,
) -> Seq<StoreCommandView> {
    seq![
        StoreCommandView::Put { key: conv_key(room, variant), value: conversation },
        StoreCommandView::Put { key: prev_key(room, variant), value: prev },
        StoreCommandView::Put { key: now_key(room, variant), value: current },
        StoreCommandView::Put { key: count_key(room, variant), value: decimal(0) },
    ]
}

/// The writes that advance a session after a round trip.
pub open spec fn advance_commands(
    room: u64,
    variant: Seq<char>,
    reply: Seq<char>,
    next: Seq<char>,
) -> Seq<StoreCommandView> {
    seq![
        StoreCommandView::Put { key: prev_key(room, variant), value: reply },
        StoreCommandView::Put { key: now_key(room, variant), value: next },
        StoreCommandView::Increment { key: count_key(room, variant) },
    ]
}

/// The writes that engage a room for `seconds`: where the room is engaged
/// already its expiry is set anew, else the flag is set and then its expiry.
pub open spec fn engage_commands(room: u64, present: bool, seconds: i64) -> Seq<
    StoreCommandView,
> {
    if present {
        seq![StoreCommandView::Expire { key: join_key(room), seconds }]
    } else {
        seq![
            StoreCommandView::Put { key: join_key(room), value: decimal(1) },
            StoreCommandView::Expire { key: join_key(room), seconds },
        ]
    }
}

/// The writes that give a room a model: the model is stored, and the session
/// of its variant is reset with the three tokens.
pub open spec fn model_commands(
    room: u64,
    model: Seq<char>,
    conversation: Seq<char>,
    prev: Seq<char>,
    current: Seq<char>,
) -> Seq<StoreCommandView> {
    seq![StoreCommandView::Put { key: model_key(room), value: model }] + reset_commands(
        room,
        variant_of(model),
        conversation,
        prev,
        current,
    )
}

/// The writes that reset the session of a room and a variant with the tokens
/// given.
pub fn clear_record_with(
    room: u64,
    variant: &str,
    conversation: String,
    prev: String,
    current: String,
) -> (r: Vec<StoreCommand>)
    ensures
        r.deep_view() == reset_commands(room, variant@, conversation@, prev@, current@),
{
    let mut writes: Vec<StoreCommand> = Vec::new();
    writes.push(
        StoreCommand::Put { key: session_key_text(room, variant, "conv"), value: conversation },
    );
    writes.push(StoreCommand::Put { key: session_key_text(room, variant, "prev"), value: prev });
    writes.push(StoreCommand::Put { key: session_key_text(room, variant, "now"), value: current });
    writes.push(
        StoreCommand::Put { key: session_key_text(room, variant, "count"), value: decimal_text(0) },
    );
    assert(writes.deep_view() =~= reset_commands(
        room,
        variant@,
        conversation@,
        prev@,
        current@,
    ));
    writes
}

/// The writes that reset the session of a room and a variant, with three
/// tokens drawn for it.
pub fn clear_record(room: u64, variant: &str) -> (r: Vec<StoreCommand>)
    ensures
        exists|conversation: Seq<char>, prev: Seq<char>, current: Seq<char>|
            is_token(conversation) && is_token(prev) && is_token(current) && r.deep_view()
                == #[trigger] reset_commands(room, variant@, conversation, prev, current),
{
    let conversation = fresh_token();
    let prev = fresh_token();
    let current = fresh_token();
    let ghost witness = (conversation@, prev@, current@);
    let writes = clear_record_with(room, variant, conversation, prev, current);
    assert(writes.deep_view() == reset_commands(room, variant@, witness.0, witness.1, witness.2));
    writes
}

/// The variant whose session a command means: that of the room's model where
/// it says `main`, else the one it names.
pub open spec fn record_variant(
    named: Seq<char>,
    stored: Option<Seq<char>>,
    default_model: Seq<char>,
) -> Seq<char> {
    if named == "main"@ {
        variant_of(model_of(stored, default_model))
    } else {
        named
    }
}

/// The variant whose session a command means.
pub fn record_bot(named: &str, stored: Option<String>, default_model: &str) -> (r: String)
    ensures
        r@ == record_variant(named@, crate::dto::text_view(stored), default_model@),
{
    if same_text(named, "main") {
        let (_, variant) = resolve_model(stored, default_model);
        variant
    } else {
        named.to_owned()
    }
}

/// The writes that advance the session of a room and a variant.
pub fn advance_writes(room: u64, variant: &str, reply: String, next: String) -> (r: Vec<
    StoreCommand,
>)
    ensures
        r.deep_view() == advance_commands(room, variant@, reply@, next@),
{
    let mut writes: Vec<StoreCommand> = Vec::new();
    writes.push(StoreCommand::Put { key: session_key_text(room, variant, "prev"), value: reply });
    writes.push(StoreCommand::Put { key: session_key_text(room, variant, "now"), value: next });
    writes.push(StoreCommand::Increment { key: session_key_text(room, variant, "count") });
    assert(writes.deep_view() =~= advance_commands(room, variant@, reply@, next@));
    writes
}

/// The writes that give a room a model, with the tokens given for the reset.
pub fn set_model_with(
    room: u64,
    model: &str,
    conversation: String,
    prev: String,
    current: String,
) -> (r: Vec<StoreCommand>)
    ensures
        r.deep_view() == model_commands(room, model@, conversation@, prev@, current@),
{
    let variant = bot_variant(model);
    let mut writes: Vec<StoreCommand> = Vec::new();
    writes.push(StoreCommand::Put { key: model_key_text(room), value: model.to_owned() });
    let ghost first = writes.deep_view();
    let mut reset = clear_record_with(room, variant.as_str(), conversation, prev, current);
    let ghost rest = reset.deep_view();
    writes.append(&mut reset);
    assert(writes.deep_view() =~= first + rest);
    assert(first =~= seq![StoreCommandView::Put { key: model_key(room), value: model@ }]);
    writes
}

/// The writes that give a room a model, with three tokens drawn for the
/// reset of its session.
pub fn set_model(room: u64, model: &str) -> (r: Vec<StoreCommand>)
    ensures
        exists|conversation: Seq<char>, prev: Seq<char>, current: Seq<char>|
            is_token(conversation) && is_token(prev) && is_token(current) && r.deep_view()
                == #[trigger] model_commands(room, model@, conversation, prev, current),
{
    let conversation = fresh_token();
    let prev = fresh_token();
    let current = fresh_token();
    let ghost witness = (conversation@, prev@, current@);
    let writes = set_model_with(room, model, conversation, prev, current);
    assert(writes.deep_view() == model_commands(room, model@, witness.0, witness.1, witness.2));
    writes
}

/// The question that tells whether a room is engaged.
pub fn check_join(room: u64) -> (r: StoreQuery)
    ensures
        r@ == StoreQueryView::Exists(join_key(room)),
{
    StoreQuery::Exists(join_key_text(room))
}

/// The writes that engage a room for `seconds`, given whether it is engaged
/// already.
pub fn set_join(room: u64, present: bool, seconds: i64) -> (r: Vec<StoreCommand>)
    ensures
        r.deep_view() == engage_commands(room, present, seconds),
{
    let mut writes: Vec<StoreCommand> = Vec::new();
    if !present {
        writes.push(StoreCommand::Put { key: join_key_text(room), value: decimal_text(1) });
    }
    writes.push(StoreCommand::Expire { key: join_key_text(room), seconds });
    assert(writes.deep_view() =~= engage_commands(room, present, seconds));
    writes
}

} // verus!
