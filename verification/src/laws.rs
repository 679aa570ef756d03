//! What holds of every conversation, whatever the store, the backend and the
//! lock do: stated over the steps and proved from them.

use crate::orchestrator::{
    converse_step, holds_lock, release_with, tool_request, ConverseStateView, OutcomeView,
};
use crate::request::{chat_request, turn_items, welcome_item};
use crate::round::{
    round_step, ActionView, ConverseErrorView, EventView, RoundStateView, TurnView,
};
use crate::session::{
    advanced, conv_key, count_key, now_key, prev_key, session_keys, SessionView,
};
use crate::settings::SettingsView;
use crate::store::{apply_all, lemma_advance_session, lookup, stored_session, Store};
use crate::stream::{stream_step, StreamInputView};
use crate::tool::{dispatch_of, invalid_call, sub_bot_uid};
use crate::token::FreshTokensView;
use vstd::prelude::*;

verus! {

/// Nothing is asked of the store or of the backend without the lock: a step
/// that asks something leaves the conversation holding the lock, and the
/// conversation held it before or was granted it by this very event.
pub proof fn lemma_no_work_without_lock(
    room: u64,
    input: Seq<char>,
    settings: SettingsView,
    state: ConverseStateView,
    event: EventView,
    tokens: FreshTokensView,
)
    ensures
        ({
            let step = converse_step(room, input, settings, state, event, tokens);
            step.1 is Fetch || step.1 is Ask || step.1 is Listen || step.1 is Write ==> holds_lock(
                step.0,
            ) && (holds_lock(state) || (state is AwaitingLock && event is LockGranted))
        }),
{
}

/// The lock is asked for once, at the start, and is taken only when it is
/// granted.
pub proof fn lemma_lock_taken_when_granted(
    room: u64,
    input: Seq<char>,
    settings: SettingsView,
    state: ConverseStateView,
    event: EventView,
    tokens: FreshTokensView,
)
    ensures
        ({
            let step = converse_step(room, input, settings, state, event, tokens);
            &&& step.1 is AcquireLock ==> state is Idle && event is Start
            &&& !holds_lock(state) && holds_lock(step.0) ==> state is AwaitingLock && event
                is LockGranted
        }),
{
}

/// A conversation that holds the lock keeps it until the lock is reported
/// released: no other step leads out of the states that hold it.
pub proof fn lemma_lock_kept_until_released(
    room: u64,
    input: Seq<char>,
    settings: SettingsView,
    state: ConverseStateView,
    event: EventView,
    tokens: FreshTokensView,
)
    requires
        holds_lock(state),
        !holds_lock(converse_step(room, input, settings, state, event, tokens).0),
    ensures
        state is Releasing,
        event is Released,
        converse_step(room, input, settings, state, event, tokens).0 is Finished,
{
}

/// An answer is handed out only after the lock was given back, and a
/// conversation that held the lock fails only after it was given back too.
pub proof fn lemma_outcome_after_release(
    room: u64,
    input: Seq<char>,
    settings: SettingsView,
    state: ConverseStateView,
    event: EventView,
    tokens: FreshTokensView,
)
    ensures
        ({
            let step = converse_step(room, input, settings, state, event, tokens);
            &&& step.1 is Reply ==> state is Releasing && event is Released && step.0 is Finished
            &&& step.1 is Fail && holds_lock(state) ==> state is Releasing && event is Released
            &&& step.1 is Fail ==> step.0 is Finished
        }),
{
}

/// A conversation that does not get the lock in time ends at once, with the
/// failure that says so.
pub proof fn lemma_lock_timeout(
    room: u64,
    input: Seq<char>,
    settings: SettingsView,
    tokens: FreshTokensView,
)
    ensures
        converse_step(
            room,
            input,
            settings,
            ConverseStateView::AwaitingLock,
            EventView::LockTimedOut,
            tokens,
        ) == (ConverseStateView::Finished, ActionView::Fail(ConverseErrorView::LockTimeout)),
{
}

/// What the store returns for the four keys of a session.
pub open spec fn session_values(store: Store, room: u64, variant: Seq<char>) -> Seq<
    Option<Seq<char>>,
> {
    seq![
        lookup(store, conv_key(room, variant)),
        lookup(store, prev_key(room, variant)),
        lookup(store, now_key(room, variant)),
        lookup(store, count_key(room, variant)),
    ]
}

/// A round trip that succeeds advances the session by one turn. The request
/// is made of the session that the store holds, it names the reply with a
/// token of this round trip, and once the answer is complete the writes of
/// the round trip leave a session with one more turn counted, whose next
/// question hangs on that very reply.
pub proof fn lemma_round_trip_advances(
    turn: TurnView,
    store: Store,
    tokens: FreshTokensView,
    so_far: Seq<char>,
    last: StreamInputView,
    later: FreshTokensView,
)
    requires
        stored_session(store, turn.room, turn.bot) is Some,
        stored_session(store, turn.room, turn.bot)->0.turn_count < u64::MAX,
        stream_step(so_far, last) is Done,
    ensures
        ({
            let before = stored_session(store, turn.room, turn.bot)->0;
            let asked = round_step(
                turn,
                RoundStateView::Reading,
                EventView::Values(session_values(store, turn.room, turn.bot)),
                tokens,
            );
            let answered = round_step(
                turn,
                RoundStateView::Listening { reply: tokens.reply, next: tokens.item, so_far },
                EventView::Stream(last),
                later,
            );
            &&& asked.0 == (RoundStateView::Listening {
                reply: tokens.reply,
                next: tokens.item,
                so_far: Seq::empty(),
            })
            &&& asked.1 == ActionView::Ask(
                chat_request(
                    before,
                    turn.model,
                    turn.bot,
                    turn.input,
                    turn.init_prompt,
                    tokens.reply,
                    tokens.task,
                    false,
                ),
            )
            &&& answered.0 is Writing
            &&& answered.1 is Write
            &&& stored_session(apply_all(store, answered.1->Write_0), turn.room, turn.bot) == Some(
                advanced(before, tokens.reply, tokens.item),
            )
        }),
{
    lemma_advance_session(store, turn.room, turn.bot, tokens.reply, tokens.item);
}

/// Only the first turn of a session opens with the greeting's placeholder
/// and carries the initial prompt; every later turn is the question alone.
pub proof fn lemma_prompt_on_first_turn_only(
    session: SessionView,
    input: Seq<char>,
    init_prompt: Seq<char>,
    incognito: bool,
)
    ensures
        session.turn_count == 0 ==> turn_items(session, input, init_prompt, incognito).len() == 2
            && turn_items(session, input, init_prompt, incognito)[0] == welcome_item(
            session.conversation_id,
            session.prev_item_id,
        ) && turn_items(session, input, init_prompt, incognito)[1].data.content == init_prompt
            + input,
        session.turn_count > 0 ==> turn_items(session, input, init_prompt, incognito).len() == 1
            && turn_items(session, input, init_prompt, incognito)[0].data.content == input,
{
}

/// An answer that calls for a tool of the table goes to the helper bot of
/// that tool, in a request that is marked incognito and asks the whole
/// marker; the conversation then listens to the helper.
pub proof fn lemma_tool_call_goes_to_helper(
    room: u64,
    input: Seq<char>,
    settings: SettingsView,
    model: Seq<char>,
    bot: Seq<char>,
    question: Seq<char>,
    answer: Seq<char>,
    tokens: FreshTokensView,
)
    requires
        dispatch_of(answer) is Delegate,
    ensures
        ({
            let step = converse_step(
                room,
                input,
                settings,
                ConverseStateView::InRound {
                    model,
                    bot,
                    input: question,
                    round: RoundStateView::Writing { answer },
                },
                EventView::Written,
                tokens,
            );
            let helper = dispatch_of(answer)->Delegate_0;
            let call = dispatch_of(answer)->Delegate_1;
            &&& step.0 == (ConverseStateView::InTool { model, bot, so_far: Seq::empty() })
            &&& step.1 == ActionView::Ask(
                tool_request(model, helper, call, settings.init_prompt, tokens),
            )
            &&& step.1->Ask_0.bot_uid == sub_bot_uid(helper)
            &&& step.1->Ask_0.data.is_incognito
            &&& step.1->Ask_0.data.items.len() == 2
            &&& step.1->Ask_0.data.items[1].data.content == settings.init_prompt + call.raw_text
        }),
{
}

/// An answer that calls for a tool that cannot be served ends the
/// conversation with the fixed answer for invalid calls: no helper is asked
/// and nothing fails.
pub proof fn lemma_invalid_call_ends(
    room: u64,
    input: Seq<char>,
    settings: SettingsView,
    model: Seq<char>,
    bot: Seq<char>,
    question: Seq<char>,
    answer: Seq<char>,
    tokens: FreshTokensView,
)
    requires
        dispatch_of(answer) is Invalid,
    ensures
        converse_step(
            room,
            input,
            settings,
            ConverseStateView::InRound {
                model,
                bot,
                input: question,
                round: RoundStateView::Writing { answer },
            },
            EventView::Written,
            tokens,
        ) == release_with(OutcomeView::Answer(invalid_call())),
{
}

/// What a helper bot says becomes the next question to the room's bot, and
/// the next round trip begins by reading the room's session.
pub proof fn lemma_helper_answer_is_next_question(
    room: u64,
    input: Seq<char>,
    settings: SettingsView,
    model: Seq<char>,
    bot: Seq<char>,
    so_far: Seq<char>,
    last: StreamInputView,
    tokens: FreshTokensView,
)
    requires
        stream_step(so_far, last) is Done,
    ensures
        converse_step(
            room,
            input,
            settings,
            ConverseStateView::InTool { model, bot, so_far },
            EventView::Stream(last),
            tokens,
        ) == (
            ConverseStateView::InRound {
                model,
                bot,
                input: stream_step(so_far, last)->Done_0,
                round: RoundStateView::Reading,
            },
            ActionView::Fetch(session_keys(room, bot)),
        ),
{
}

/// While a helper bot answers nothing is written to the store: what a
/// helper says is never kept.
pub proof fn lemma_helper_leaves_store_alone(
    room: u64,
    input: Seq<char>,
    settings: SettingsView,
    state: ConverseStateView,
    event: EventView,
    tokens: FreshTokensView,
)
    requires
        state is InTool,
    ensures
        !(converse_step(room, input, settings, state, event, tokens).1 is Write),
{
}

/// Whether a conversation is at work in a state: between the grant of the
/// lock and the decision how to end, which is when it reads and writes the
/// store and talks to the backend.
pub open spec fn at_work(state: ConverseStateView) -> bool {
    state is Resolving || state is InRound || state is InTool
}

/// Several conversations side by side, and the one that the lock is with.
pub struct Fleet {
    pub states: Seq<ConverseStateView>,
    pub holder: Option<int>,
}

/// Whether an event may come to a conversation of the fleet. The lock is
/// what makes the difference: it is granted only while nobody has it, and
/// only to a conversation that waits for it; and it is reported released
/// only to a conversation that is giving it back.
pub open spec fn may_come(fleet: Fleet, who: int, event: EventView) -> bool {
    &&& 0 <= who < fleet.states.len()
    &&& event is LockGranted ==> fleet.holder is None && fleet.states[who] is AwaitingLock
    &&& event is Released ==> fleet.states[who] is Releasing
}

/// The fleet after an event has come to one of its conversations.
pub open spec fn fleet_after(
    fleet: Fleet,
    who: int,
    room: u64,
    input: Seq<char>,
    settings: SettingsView,
    event: EventView,
    tokens: FreshTokensView,
) -> Fleet {
    Fleet {
        states: fleet.states.update(
            who,
            converse_step(room, input, settings, fleet.states[who], event, tokens).0,
        ),
        holder: if event is LockGranted {
            Some(who)
        } else if event is Released && fleet.holder == Some(who) {
            None
        } else {
            fleet.holder
        },
    }
}

/// Every conversation that is at work has the lock.
pub open spec fn work_under_lock(fleet: Fleet) -> bool {
    forall|i: int|
        0 <= i < fleet.states.len() && at_work(#[trigger] fleet.states[i]) ==> fleet.holder
            == Some(i)
}

/// In a fleet whose conversations have not begun, nobody is at work.
pub proof fn lemma_fleet_begins(fleet: Fleet)
    requires
        forall|i: int| 0 <= i < fleet.states.len() ==> #[trigger] fleet.states[i] is Idle,
    ensures
        work_under_lock(fleet),
{
}

/// With a lock that is granted to one at a time, every conversation that is
/// at work has the lock, whatever comes to whichever conversation.
pub proof fn lemma_fleet_keeps_lock(
    fleet: Fleet,
    who: int,
    room: u64,
    input: Seq<char>,
    settings: SettingsView,
    event: EventView,
    tokens: FreshTokensView,
)
    requires
        work_under_lock(fleet),
        may_come(fleet, who, event),
    ensures
        work_under_lock(fleet_after(fleet, who, room, input, settings, event, tokens)),
{
    let after = fleet_after(fleet, who, room, input, settings, event, tokens);
    assert forall|i: int| 0 <= i < after.states.len() && at_work(
        #[trigger] after.states[i],
    ) implies after.holder == Some(i) by {
        if i != who {
            assert(after.states[i] == fleet.states[i]);
            assert(at_work(fleet.states[i]));
        } else {
            if !(event is LockGranted) {
                assert(at_work(fleet.states[who]));
            }
        }
    }
}

/// No two conversations are at work at once: while one reads or writes the
/// store or talks to the backend, every other one waits, has not begun, or
/// is over.
pub proof fn lemma_one_at_work(fleet: Fleet, one: int, other: int)
    requires
        work_under_lock(fleet),
        0 <= one < fleet.states.len(),
        0 <= other < fleet.states.len(),
        one != other,
    ensures
        !(at_work(fleet.states[one]) && at_work(fleet.states[other])),
{
}

/// What is asked of the store or of the backend is asked by a conversation
/// that is at work after asking.
pub proof fn lemma_asking_is_work(
    room: u64,
    input: Seq<char>,
    settings: SettingsView,
    state: ConverseStateView,
    event: EventView,
    tokens: FreshTokensView,
)
    ensures
        ({
            let step = converse_step(room, input, settings, state, event, tokens);
            step.1 is Fetch || step.1 is Ask || step.1 is Listen || step.1 is Write ==> at_work(
                step.0,
            )
        }),
{
}

} // verus!
