//! The steps of the Discord commands that talk to the queue store: for each,
//! a machine from the state the command is in and the answer it got to the
//! next state and what to do next. The caller performs each action, hands
//! back its answer, and stops at the reply.

use vstd::prelude::*;
use crate::messages::{
    bake_closed_reply, baked_message, create_baked_message, entry_user_ids, open_activity,
    open_reply, valid_user_id, WaffleOutcome,
};
use crate::queue::{as_place, first_place, lemma_first_place, user_ids, QueueEntry, QueueEntryView};

verus! {

// ---------------------------------------------------------------- vaffel

/// Where a `vaffel` order stands.
#[derive(Clone, Copy, Debug, PartialEq, Eq)]
pub enum WaffleState {
    /// Waiting to hear whether orders are open.
    AwaitOpen,
    /// Waiting for the user's place in the queue.
    AwaitPlace,
    /// Waiting for the queue's length.
    AwaitSize,
    /// Waiting for the entry to be appended to a queue of this length.
    AwaitPush(usize),
    /// The reply has been decided.
    Done,
}

/// The answer to a `vaffel` step's action.
#[derive(Clone, Copy, Debug, PartialEq, Eq)]
pub enum WaffleEvent {
    IsOpen(bool),
    Place(Option<usize>),
    Size(usize),
    Pushed,
}

/// What a `vaffel` order does next.
#[derive(Clone, Copy, Debug, PartialEq, Eq)]
pub enum WaffleAction {
    /// Ask whether the guild's queue is open.
    CheckOpen,
    /// Ask for the user's place in the queue.
    FindPlace,
    /// Ask for the queue's length.
    CountQueue,
    /// Append the user's entry to the queue.
    PushEntry,
    /// Reply, and stop.
    Reply(WaffleOutcome),
}

/// The steps of a `vaffel` order: a closed queue is answered at once; a
/// user with a place is told it; only a user without one is counted and
/// appended.
pub open spec fn waffle_transition(state: WaffleState, event: WaffleEvent) -> Option<(WaffleState, WaffleAction)> {
    match (state, event) {
        (WaffleState::AwaitOpen, WaffleEvent::IsOpen(false)) =>
            Some((WaffleState::Done, WaffleAction::Reply(WaffleOutcome::Closed))),
        (WaffleState::AwaitOpen, WaffleEvent::IsOpen(true)) => Some((WaffleState::AwaitPlace, WaffleAction::FindPlace)),
        (WaffleState::AwaitPlace, WaffleEvent::Place(Some(index))) =>
            Some((WaffleState::Done, WaffleAction::Reply(WaffleOutcome::AlreadyQueued(index)))),
        (WaffleState::AwaitPlace, WaffleEvent::Place(None)) => Some((WaffleState::AwaitSize, WaffleAction::CountQueue)),
        (WaffleState::AwaitSize, WaffleEvent::Size(size)) => Some((WaffleState::AwaitPush(size), WaffleAction::PushEntry)),
        (WaffleState::AwaitPush(size), WaffleEvent::Pushed) =>
            Some((WaffleState::Done, WaffleAction::Reply(WaffleOutcome::Queued(size)))),
        _ => None,
    }
}

/// Where a `vaffel` order starts: asking whether orders are open.
pub fn waffle_start() -> (start: (WaffleState, WaffleAction))
    ensures
        start == (WaffleState::AwaitOpen, WaffleAction::CheckOpen),
{
    (WaffleState::AwaitOpen, WaffleAction::CheckOpen)
}

/// The next step of a `vaffel` order, or `None` when the answer is not one
/// to the state's pending action.
pub fn waffle_step(state: WaffleState, event: WaffleEvent) -> (next: Option<(WaffleState, WaffleAction)>)
    ensures
        next == waffle_transition(state, event),
{
    match (state, event) {
        (WaffleState::AwaitOpen, WaffleEvent::IsOpen(open)) => if open {
            Some((WaffleState::AwaitPlace, WaffleAction::FindPlace))
        } else {
            Some((WaffleState::Done, WaffleAction::Reply(WaffleOutcome::Closed)))
        },
        (WaffleState::AwaitPlace, WaffleEvent::Place(place)) => match place {
            Some(index) => Some((WaffleState::Done, WaffleAction::Reply(WaffleOutcome::AlreadyQueued(index)))),
            None => Some((WaffleState::AwaitSize, WaffleAction::CountQueue)),
        },
        (WaffleState::AwaitSize, WaffleEvent::Size(size)) => Some((WaffleState::AwaitPush(size), WaffleAction::PushEntry)),
        (WaffleState::AwaitPush(size), WaffleEvent::Pushed) =>
            Some((WaffleState::Done, WaffleAction::Reply(WaffleOutcome::Queued(size)))),
        _ => None,
    }
}

/// The answer that a queue store gives to a `vaffel` action, and the queue
/// after it: whether orders are open, the user's first place
/// (`position_of_user`), the queue's length, or the queue with the entry
/// appended.
pub open spec fn store_answer(
    action: WaffleAction,
    open: bool,
    queue: Seq<QueueEntryView>,
    entry: QueueEntryView,
) -> (WaffleEvent, Seq<QueueEntryView>) {
    match action {
        WaffleAction::CheckOpen => (WaffleEvent::IsOpen(open), queue),
        WaffleAction::FindPlace => (WaffleEvent::Place(as_place(first_place(queue, entry.user_id))), queue),
        WaffleAction::CountQueue => (WaffleEvent::Size(queue.len() as usize), queue),
        WaffleAction::PushEntry => (WaffleEvent::Pushed, queue.push(entry)),
        WaffleAction::Reply(_) => (WaffleEvent::Pushed, queue),
    }
}

/// A `vaffel` order run against a store, for at most `fuel` actions: the
/// queue afterwards and the reply, if one was reached.
pub open spec fn run_waffle(
    state: WaffleState,
    action: WaffleAction,
    open: bool,
    queue: Seq<QueueEntryView>,
    entry: QueueEntryView,
    fuel: nat,
) -> (Seq<QueueEntryView>, Option<WaffleOutcome>)
    decreases fuel,
{
    match action {
        WaffleAction::Reply(outcome) => (queue, Some(outcome)),
        _ => if fuel == 0 {
            (queue, None)
        } else {
            let (event, after) = store_answer(action, open, queue, entry);
            match waffle_transition(state, event) {
                Some((next_state, next_action)) => run_waffle(next_state, next_action, open, after, entry, (fuel - 1) as nat),
                None => (after, None),
            }
        },
    }
}

/// A `vaffel` order from its start, run against a store.
pub open spec fn waffle_order(open: bool, queue: Seq<QueueEntryView>, entry: QueueEntryView) -> (Seq<QueueEntryView>, Option<WaffleOutcome>) {
    run_waffle(WaffleState::AwaitOpen, WaffleAction::CheckOpen, open, queue, entry, 5)
}

/// Ordering twice: the first order of a user not yet in an open queue
/// appends the entry at the end, behind the queue's old length of entries;
/// the second order appends nothing and finds the user at that same
/// zero-based place, so both replies show the same place. While orders are
/// closed, an order changes nothing.
pub proof fn law_second_order_adds_nothing(queue: Seq<QueueEntryView>, entry: QueueEntryView)
    requires
        forall|j: int| 0 <= j < queue.len() ==> queue[j].user_id != entry.user_id,
        queue.len() < usize::MAX,
    ensures
        waffle_order(true, queue, entry) == (queue.push(entry), Some(WaffleOutcome::Queued(queue.len() as usize))),
        waffle_order(true, queue.push(entry), entry)
            == (queue.push(entry), Some(WaffleOutcome::AlreadyQueued(queue.len() as usize))),
        waffle_order(false, queue, entry) == (queue, Some(WaffleOutcome::Closed)),
{
    lemma_first_place(queue, entry.user_id);
    let longer = queue.push(entry);
    assert(longer.drop_last() =~= queue);
    assert(first_place(longer, entry.user_id) == Some(queue.len() as int));
    reveal_with_fuel(run_waffle, 6);
}

// ---------------------------------------------------------------- stekt

/// Where a `stekt` command stands.
pub enum BakeState {
    /// Waiting to hear whether orders are open; this many waffles were baked.
    AwaitOpen(usize),
    /// Waiting for the entries taken from the front of the queue.
    AwaitPopped,
    /// Waiting for the orders to be recorded; this message is to be sent.
    AwaitRecorded(String),
    /// The reply has been decided.
    Done,
}

/// The answer to a `stekt` step's action.
pub enum BakeEvent {
    IsOpen(bool),
    Popped(Vec<QueueEntry>),
    /// The recording finished; whether it succeeded does not change the reply.
    Recorded,
}

/// What a `stekt` command does next.
pub enum BakeAction {
    /// Ask whether the guild's queue is open.
    CheckOpen,
    /// Take this many entries from the front of the queue.
    Pop(usize),
    /// Record one order for each of these users.
    Record(Vec<String>),
    /// Reply, and stop.
    Reply(String),
}

/// Whether an answer is one to the state's pending action.
pub open spec fn bake_expects(state: BakeState, event: BakeEvent) -> bool {
    match (state, event) {
        (BakeState::AwaitOpen(_), BakeEvent::IsOpen(_)) => true,
        (BakeState::AwaitPopped, BakeEvent::Popped(_)) => true,
        (BakeState::AwaitRecorded(_), BakeEvent::Recorded) => true,
        _ => false,
    }
}

/// Where a `stekt` command for `amount` waffles starts: asking whether
/// orders are open.
pub fn bake_start(amount: usize) -> (start: (BakeState, BakeAction))
    ensures
        start.0 == BakeState::AwaitOpen(amount),
        start.1 is CheckOpen,
{
    (BakeState::AwaitOpen(amount), BakeAction::CheckOpen)
}

/// The next step of a `stekt` command: a closed queue is answered at once;
/// an open one gives up the baked entries, whose users' orders are recorded
/// before the announcement is sent. `None` when the answer is not one to the
/// state's pending action.
pub fn bake_step(state: BakeState, event: BakeEvent) -> (next: Option<(BakeState, BakeAction)>)
    requires
        event matches BakeEvent::Popped(entries) ==> forall|i: int|
            0 <= i < entries.len() ==> valid_user_id(#[trigger] entries@[i].user_id@),
    ensures
        next is None <==> !bake_expects(state, event),
        state matches BakeState::AwaitOpen(amount) ==> (event matches BakeEvent::IsOpen(open) ==> {
            &&& open ==> (next matches Some((BakeState::AwaitPopped, BakeAction::Pop(n))) && n == amount)
            &&& !open ==> (next matches Some((BakeState::Done, BakeAction::Reply(reply)))
                && reply@ == "\u{1f512}\u{fe0f} Bestilling er stengt"@)
        }),
        state is AwaitPopped ==> (event matches BakeEvent::Popped(entries) ==> {
            next matches Some((BakeState::AwaitRecorded(message), BakeAction::Record(ids))) && {
                &&& message@ == baked_message(entry_user_ids(entries@))
                &&& ids.len() == entries.len()
                &&& forall|i: int| 0 <= i < entries.len() ==> #[trigger] ids@[i]@ == entries@[i].user_id@
            }
        }),
        state matches BakeState::AwaitRecorded(message) ==> (event is Recorded ==> {
            next matches Some((BakeState::Done, BakeAction::Reply(reply))) && reply@ == message@
        }),
{
    match (state, event) {
        (BakeState::AwaitOpen(amount), BakeEvent::IsOpen(open)) => if open {
            Some((BakeState::AwaitPopped, BakeAction::Pop(amount)))
        } else {
            Some((BakeState::Done, BakeAction::Reply(bake_closed_reply())))
        },
        (BakeState::AwaitPopped, BakeEvent::Popped(entries)) => {
            let message = create_baked_message(&entries);
            let ids = user_ids(&entries);
            Some((BakeState::AwaitRecorded(message), BakeAction::Record(ids)))
        },
        (BakeState::AwaitRecorded(message), BakeEvent::Recorded) => Some((BakeState::Done, BakeAction::Reply(message))),
        _ => None,
    }
}

// ---------------------------------------------------------------- start

/// Where a `start` command stands.
#[derive(Clone, Copy, Debug, PartialEq, Eq)]
pub enum OpenState {
    /// Waiting to hear whether orders are open already.
    AwaitOpen,
    /// Waiting for the queue to be opened.
    AwaitOpened,
    /// The reply has been decided.
    Done,
}

/// The answer to a `start` step's action.
#[derive(Clone, Copy, Debug, PartialEq, Eq)]
pub enum OpenEvent {
    IsOpen(bool),
    Opened,
}

/// What a `start` command does next.
pub enum OpenAction {
    /// Ask whether the guild's queue is open.
    CheckOpen,
    /// Open the guild's queue.
    OpenQueue,
    /// Reply, and stop.
    Reply(String),
    /// Reply, show the activity, and stop.
    Announce { reply: String, activity: String },
}

/// Where a `start` command starts: asking whether orders are open already.
pub fn open_start() -> (start: (OpenState, OpenAction))
    ensures
        start.0 == OpenState::AwaitOpen,
        start.1 is CheckOpen,
{
    (OpenState::AwaitOpen, OpenAction::CheckOpen)
}

/// The next step of a `start` command: an open queue is only reported; a
/// closed one is opened, announced to everyone, and the bot shows that it
/// is baking. `None` when the answer is not one to the state's pending
/// action.
pub fn open_step(state: OpenState, event: OpenEvent) -> (next: Option<(OpenState, OpenAction)>)
    ensures
        state == OpenState::AwaitOpen && event == OpenEvent::IsOpen(true) ==> (next matches Some(
            (OpenState::Done, OpenAction::Reply(reply)),
        ) && reply@ == "\u{1f513}\u{fe0f} Bestilling er allerede \u{e5}pnet"@),
        state == OpenState::AwaitOpen && event == OpenEvent::IsOpen(false) ==> next matches Some(
            (OpenState::AwaitOpened, OpenAction::OpenQueue),
        ),
        state == OpenState::AwaitOpened && event == OpenEvent::Opened ==> (next matches Some(
            (OpenState::Done, OpenAction::Announce { reply, activity }),
        ) && reply@ == "@here \u{1f513}\u{fe0f} Bestilling er n\u{e5} \u{e5}pnet"@
            && activity@ == "\u{1f9c7} Lager vafler"@),
        next is None <==> !((state == OpenState::AwaitOpen && event is IsOpen) || (state
            == OpenState::AwaitOpened && event == OpenEvent::Opened)),
{
    match (state, event) {
        (OpenState::AwaitOpen, OpenEvent::IsOpen(open)) => if open {
            Some((OpenState::Done, OpenAction::Reply(open_reply(true))))
        } else {
            Some((OpenState::AwaitOpened, OpenAction::OpenQueue))
        },
        (OpenState::AwaitOpened, OpenEvent::Opened) => Some(
            (OpenState::Done, OpenAction::Announce { reply: open_reply(false), activity: open_activity() }),
        ),
        _ => None,
    }
}

} // verus!
