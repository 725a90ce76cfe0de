//! The waffle queue of a guild: its entries, its storage key, the lookups
//! that the repository answers, and the in-process state that the repository
//! keeps beside the stored queues (which guilds are open, and one update
//! channel per guild).

use vstd::prelude::*;

verus! {

/// A person waiting in a guild's queue.
#[derive(Debug, PartialEq, Eq)]
pub struct QueueEntry {
    pub user_id: String,
    pub display_name: String,
}

/// A queue entry as the contracts see it.
pub struct QueueEntryView {
    pub user_id: Seq<char>,
    pub display_name: Seq<char>,
}

impl View for QueueEntry {
    type V = QueueEntryView;

    open spec fn view(&self) -> QueueEntryView {
        QueueEntryView { user_id: self.user_id@, display_name: self.display_name@ }
    }
}

impl QueueEntry {
    pub fn new(user_id: String, display_name: String) -> (entry: QueueEntry)
        ensures
            entry.user_id@ == user_id@,
            entry.display_name@ == display_name@,
    {
        QueueEntry { user_id, display_name }
    }
}

/// What a queue's subscribers are told.
#[derive(Clone, Copy, Debug, PartialEq, Eq)]
pub enum QueueEvent {
    /// The queue's contents changed.
    Updated,
}

/// The views of a list of entries.
pub open spec fn entries_view(entries: Seq<QueueEntry>) -> Seq<QueueEntryView> {
    entries.map_values(|e: QueueEntry| e@)
}

/// The storage key under which a guild's queue is kept.
pub open spec fn queue_key_spec(guild_id: Seq<char>) -> Seq<char> {
    "queue:"@ + guild_id
}

/// The storage key under which a guild's queue is kept: `queue:` and the guild id.
pub fn queue_key(guild_id: &str) -> (key: String)
    ensures
        key@ == queue_key_spec(guild_id@),
{
    let mut key = String::from_str("queue:");
    key.append(guild_id);
    key
}

/// The zero-based place of the first entry of `user_id` in a queue, if any.
pub open spec fn first_place(entries: Seq<QueueEntryView>, user_id: Seq<char>) -> Option<int>
    decreases entries.len(),
{
    if entries.len() == 0 {
        None
    } else {
        match first_place(entries.drop_last(), user_id) {
            Some(i) => Some(i),
            None => if entries.last().user_id == user_id {
                Some(entries.len() - 1)
            } else {
                None
            },
        }
    }
}

/// `first_place` is the earliest entry of the user, and `None` when the
/// user has none.
pub proof fn lemma_first_place(entries: Seq<QueueEntryView>, user_id: Seq<char>)
    ensures
        first_place(entries, user_id) matches Some(i) ==> {
            &&& 0 <= i < entries.len()
            &&& entries[i].user_id == user_id
            &&& forall|j: int| 0 <= j < i ==> entries[j].user_id != user_id
        },
        first_place(entries, user_id) is None ==> forall|j: int|
            0 <= j < entries.len() ==> entries[j].user_id != user_id,
    decreases entries.len(),
{
    if entries.len() > 0 {
        let rest = entries.drop_last();
        lemma_first_place(rest, user_id);
        assert forall|j: int| 0 <= j < rest.len() implies rest[j] == entries[j] by {}
    }
}

/// A place in a queue as `position_of_user` returns it.
pub open spec fn as_place(place: Option<int>) -> Option<usize> {
    match place {
        Some(i) => Some(i as usize),
        None => None,
    }
}

/// Where `user_id` stands in a queue: the zero-based place of its first
/// entry, or `None` when it has none.
pub fn position_of_user(entries: &Vec<QueueEntry>, user_id: &str) -> (position: Option<usize>)
    ensures
        match position {
            Some(i) => {
                &&& i < entries.len()
                &&& entries@[i as int].user_id@ == user_id@
                &&& forall|j: int| 0 <= j < i ==> entries@[j].user_id@ != user_id@
            },
            None => forall|j: int| 0 <= j < entries.len() ==> entries@[j].user_id@ != user_id@,
        },
        position == as_place(first_place(entries_view(entries@), user_id@)),
{
    proof {
        lemma_first_place(entries_view(entries@), user_id@);
    }
    let wanted = String::from_str(user_id);
    let mut i: usize = 0;
    while i < entries.len()
        invariant
            i <= entries.len(),
            wanted@ == user_id@,
            forall|j: int| 0 <= j < i ==> entries@[j].user_id@ != user_id@,
            first_place(entries_view(entries@), user_id@) matches Some(k) ==> {
                &&& 0 <= k < entries.len()
                &&& entries_view(entries@)[k].user_id == user_id@
                &&& forall|j: int| 0 <= j < k ==> entries_view(entries@)[j].user_id != user_id@
            },
            first_place(entries_view(entries@), user_id@) is None ==> forall|j: int|
                0 <= j < entries.len() ==> entries_view(entries@)[j].user_id != user_id@,
        decreases entries.len() - i,
    {
        if entries[i].user_id == wanted {
            proof {
                let views = entries_view(entries@);
                let p = first_place(views, user_id@);
                assert(views[i as int].user_id == user_id@);
                if let Some(k) = p {
                    assert(views[k].user_id == entries@[k].user_id@);
                    assert(k == i);
                }
            }
            return Some(i);
        }
        i = i + 1;
    }
    None
}

/// The request that removing `n` entries from the front of a guild's queue
/// sends to the store: the queue's key and how many to take, or `None` when
/// `n` is zero and nothing is asked of the store.
pub fn pop_request(guild_id: &str, n: usize) -> (request: Option<(String, usize)>)
    ensures
        request is None <==> n == 0,
        request matches Some((key, count)) ==> key@ == queue_key_spec(guild_id@) && count == n,
{
    if n == 0 {
        None
    } else {
        Some((queue_key(guild_id), n))
    }
}

/// A change made to a guild's queue in the store.
#[derive(Clone, Copy, Debug, PartialEq, Eq)]
pub enum QueueChange {
    /// An entry was appended.
    Pushed,
    /// This many entries were taken from the front.
    Popped(usize),
    /// The queue was deleted.
    Cleared,
}

/// Whether a change is announced to the guild's watchers: appending and
/// clearing always are, taking from the front only when something was taken.
pub open spec fn announces(change: QueueChange) -> bool {
    match change {
        QueueChange::Pushed => true,
        QueueChange::Popped(count) => count > 0,
        QueueChange::Cleared => true,
    }
}

/// Whether a change is announced to the guild's watchers.
pub fn change_notifies(change: QueueChange) -> (notify: bool)
    ensures
        notify == announces(change),
{
    match change {
        QueueChange::Pushed => true,
        QueueChange::Popped(count) => count > 0,
        QueueChange::Cleared => true,
    }
}

/// The ids that a list of entries was made for, in the same order.
pub fn user_ids(entries: &Vec<QueueEntry>) -> (ids: Vec<String>)
    ensures
        ids.len() == entries.len(),
        forall|i: int| 0 <= i < entries.len() ==> #[trigger] ids@[i]@ == entries@[i].user_id@,
{
    let mut ids: Vec<String> = Vec::new();
    let mut i: usize = 0;
    while i < entries.len()
        invariant
            i <= entries.len(),
            ids.len() == i,
            forall|j: int| 0 <= j < i ==> #[trigger] ids@[j]@ == entries@[j].user_id@,
        decreases entries.len() - i,
    {
        ids.push(entries[i].user_id.clone());
        i = i + 1;
    }
    ids
}

} // verus!
