//! A model of the shared key-value store, and what the writes of the session
//! module do to it. Nothing here runs: the model says what the store is
//! taken to do, and the laws say what follows for sessions and engagement.

use crate::session::{
    advance_commands, advanced, conv_key, count_key, engage_commands, fresh_session, join_key,
    now_key, prev_key, reset_commands, session_key, session_of, SessionView, StoreCommandView,
};
use crate::text::{decimal, lemma_decimal_value, number_of};
use vstd::prelude::*;

verus! {

/// What the store holds: a value under some keys, and for some of them the
/// seconds after which they expire.
pub struct Store {
    pub values: Map<Seq<char>, Seq<char>>,
    pub expiry: Map<Seq<char>, i64>,
}

/// What stands under a key, if anything.
pub open spec fn lookup(store: Store, key: Seq<char>) -> Option<Seq<char>> {
    if store.values.contains_key(key) {
        Some(store.values[key])
    } else {
        None
    }
}

/// The store after one write. A put replaces the value and clears the expiry.
/// An increment counts from zero where the key is missing, and leaves a value
/// that is no number as it is. An expiry is set only on a key that is there.
pub open spec fn apply(store: Store, command: StoreCommandView) -> Store {
    match command {
        StoreCommandView::Put { key, value } => Store {
            values: store.values.insert(key, value),
            expiry: store.expiry.remove(key),
        },
        StoreCommandView::Increment { key } => {
            let before = match lookup(store, key) {
                Some(text) => number_of(text),
                None => Some(0nat),
            };
            match before {
                Some(n) => Store {
                    values: store.values.insert(key, decimal(n + 1)),
                    expiry: store.expiry,
                },
                None => store,
            }
        },
        StoreCommandView::Expire { key, seconds } => if store.values.contains_key(key) {
            Store { values: store.values, expiry: store.expiry.insert(key, seconds) }
        } else {
            store
        },
    }
}

/// The store after a run of writes, the first one first.
pub open spec fn apply_all(store: Store, commands: Seq<StoreCommandView>) -> Store
    decreases commands.len(),
{
    if commands.len() == 0 {
        store
    } else {
        apply_all(apply(store, commands[0]), commands.skip(1))
    }
}

/// The session of a room and a variant as the store holds it, if it holds one.
pub open spec fn stored_session(store: Store, room: u64, variant: Seq<char>) -> Option<
    SessionView,
> {
    session_of(
        lookup(store, conv_key(room, variant)),
        lookup(store, prev_key(room, variant)),
        lookup(store, now_key(room, variant)),
        lookup(store, count_key(room, variant)),
    )
}

/// Keys of one session that differ in the field differ.
pub proof fn lemma_field_keys_differ(
    room: u64,
    variant: Seq<char>,
    field: Seq<char>,
    other: Seq<char>,
)
    requires
        field != other,
    ensures
        session_key(room, variant, field) != session_key(room, variant, other),
{
    let head = "ai:"@ + decimal(room as nat) + ":"@ + variant + ":"@;
    let a = session_key(room, variant, field);
    let b = session_key(room, variant, other);
    if a == b {
        assert(a.skip(head.len() as int) =~= field);
        assert(b.skip(head.len() as int) =~= other);
    }
}

/// The four keys of a session are four different keys.
pub proof fn lemma_session_keys_distinct(room: u64, variant: Seq<char>)
    ensures
        conv_key(room, variant) != prev_key(room, variant),
        conv_key(room, variant) != now_key(room, variant),
        conv_key(room, variant) != count_key(room, variant),
        prev_key(room, variant) != now_key(room, variant),
        prev_key(room, variant) != count_key(room, variant),
        now_key(room, variant) != count_key(room, variant),
{
    reveal_strlit("conv");
    reveal_strlit("prev");
    reveal_strlit("now");
    reveal_strlit("count");
    assert("conv"@[0] != "prev"@[0]);
    assert("conv"@.len() != "now"@.len());
    assert("conv"@.len() != "count"@.len());
    assert("prev"@.len() != "now"@.len());
    assert("prev"@.len() != "count"@.len());
    assert("now"@.len() != "count"@.len());
    lemma_field_keys_differ(room, variant, "conv"@, "prev"@);
    lemma_field_keys_differ(room, variant, "conv"@, "now"@);
    lemma_field_keys_differ(room, variant, "conv"@, "count"@);
    lemma_field_keys_differ(room, variant, "prev"@, "now"@);
    lemma_field_keys_differ(room, variant, "prev"@, "count"@);
    lemma_field_keys_differ(room, variant, "now"@, "count"@);
}

/// The numeral of a number that fits in 64 bits is read back as that number.
pub proof fn lemma_number_of_decimal(n: nat)
    requires
        n <= u64::MAX,
    ensures
        number_of(decimal(n)) == Some(n),
{
    lemma_decimal_value(n);
    let s = decimal(n);
    assert(crate::text::is_digit(s[0]));
    assert(s[0] != '+');
}

/// A reset leaves a session with no turn counted and with the three tokens
/// given, whatever the store held before.
pub proof fn lemma_reset_session(
    store: Store,
    room: u64,
    variant: Seq<char>,
    conversation: Seq<char>,
    prev: Seq<char>,
    current: Seq<char>,
)
    ensures
        stored_session(
            apply_all(store, reset_commands(room, variant, conversation, prev, current)),
            room,
            variant,
        ) == Some(fresh_session(conversation, prev, current)),
{
    let writes = reset_commands(room, variant, conversation, prev, current);
    lemma_session_keys_distinct(room, variant);
    lemma_number_of_decimal(0);
    let s1 = apply(store, writes[0]);
    let s2 = apply(s1, writes[1]);
    let s3 = apply(s2, writes[2]);
    let s4 = apply(s3, writes[3]);
    assert(writes.skip(1).skip(1).skip(1).skip(1).len() == 0);
    assert(writes.skip(1)[0] == writes[1]);
    assert(writes.skip(1).skip(1)[0] == writes[2]);
    assert(writes.skip(1).skip(1).skip(1)[0] == writes[3]);
    reveal_with_fuel(apply_all, 5);
    assert(apply_all(store, writes) == s4);
}

/// The tokens of a session.
pub open spec fn tokens_of(session: SessionView) -> Set<Seq<char>> {
    set![session.conversation_id, session.prev_item_id, session.current_item_id]
}

/// After a reset with tokens that the session before did not hold, the
/// session has no turn counted and shares no token with the one before.
pub proof fn lemma_reset_disjoint(
    store: Store,
    room: u64,
    variant: Seq<char>,
    conversation: Seq<char>,
    prev: Seq<char>,
    current: Seq<char>,
)
    requires
        stored_session(store, room, variant) matches Some(before) ==> !tokens_of(before).contains(
            conversation,
        ) && !tokens_of(before).contains(prev) && !tokens_of(before).contains(current),
    ensures
        ({
            let after = stored_session(
                apply_all(store, reset_commands(room, variant, conversation, prev, current)),
                room,
                variant,
            );
            &&& after is Some
            &&& after->0.turn_count == 0
            &&& stored_session(store, room, variant) matches Some(before) ==> tokens_of(
                after->0,
            ).disjoint(tokens_of(before))
        }),
{
    lemma_reset_session(store, room, variant, conversation, prev, current);
}

/// The writes of a round trip advance the session that the store holds: the
/// count goes up by one, the next question hangs on the reply just issued,
/// and the new token names the next question.
pub proof fn lemma_advance_session(
    store: Store,
    room: u64,
    variant: Seq<char>,
    reply: Seq<char>,
    next: Seq<char>,
)
    requires
        stored_session(store, room, variant) is Some,
        stored_session(store, room, variant)->0.turn_count < u64::MAX,
    ensures
        stored_session(
            apply_all(store, advance_commands(room, variant, reply, next)),
            room,
            variant,
        ) == Some(advanced(stored_session(store, room, variant)->0, reply, next)),
{
    let writes = advance_commands(room, variant, reply, next);
    let before = stored_session(store, room, variant)->0;
    lemma_session_keys_distinct(room, variant);
    lemma_number_of_decimal(before.turn_count + 1);
    let s1 = apply(store, writes[0]);
    let s2 = apply(s1, writes[1]);
    let s3 = apply(s2, writes[2]);
    assert(writes.skip(1).skip(1).skip(1).len() == 0);
    assert(writes.skip(1)[0] == writes[1]);
    assert(writes.skip(1).skip(1)[0] == writes[2]);
    reveal_with_fuel(apply_all, 4);
    assert(apply_all(store, writes) == s3);
    assert(lookup(s2, count_key(room, variant)) == lookup(store, count_key(room, variant)));
}

/// Two round trips in a row on one room and one variant: each counts one
/// turn, and the second one's question hangs on the reply that the first one
/// issued.
pub proof fn lemma_sequential_turns(
    store: Store,
    room: u64,
    variant: Seq<char>,
    first_reply: Seq<char>,
    first_next: Seq<char>,
    second_reply: Seq<char>,
    second_next: Seq<char>,
)
    requires
        stored_session(store, room, variant) is Some,
        stored_session(store, room, variant)->0.turn_count + 1 < u64::MAX,
    ensures
        ({
            let before = stored_session(store, room, variant)->0;
            let middle_store = apply_all(
                store,
                advance_commands(room, variant, first_reply, first_next),
            );
            let middle = stored_session(middle_store, room, variant);
            let last = stored_session(
                apply_all(middle_store, advance_commands(room, variant, second_reply, second_next)),
                room,
                variant,
            );
            &&& middle is Some
            &&& last is Some
            &&& middle->0.turn_count == before.turn_count + 1
            &&& last->0.turn_count == middle->0.turn_count + 1
            &&& middle->0.prev_item_id == first_reply
            &&& middle->0.current_item_id == first_next
            &&& last->0.prev_item_id == second_reply
            &&& last->0.conversation_id == before.conversation_id
        }),
{
    lemma_advance_session(store, room, variant, first_reply, first_next);
    let middle_store = apply_all(store, advance_commands(room, variant, first_reply, first_next));
    lemma_advance_session(middle_store, room, variant, second_reply, second_next);
}

/// After the writes that engage a room the room is engaged and its flag
/// expires after the seconds given: an engaged room never stands without an
/// expiry.
pub proof fn lemma_engaged(store: Store, room: u64, seconds: i64)
    ensures
        ({
            let after = apply_all(
                store,
                engage_commands(room, store.values.contains_key(join_key(room)), seconds),
            );
            &&& after.values.contains_key(join_key(room))
            &&& after.expiry.contains_key(join_key(room))
            &&& after.expiry[join_key(room)] == seconds
        }),
{
    let present = store.values.contains_key(join_key(room));
    let writes = engage_commands(room, present, seconds);
    reveal_with_fuel(apply_all, 3);
    if present {
        assert(writes.skip(1).len() == 0);
        assert(apply_all(store, writes) == apply(store, writes[0]));
    } else {
        assert(writes.skip(1)[0] == writes[1]);
        assert(writes.skip(1).skip(1).len() == 0);
        assert(apply_all(store, writes) == apply(apply(store, writes[0]), writes[1]));
    }
}

} // verus!
