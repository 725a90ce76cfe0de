//! The in-process state that the queue repository keeps per guild: which
//! guilds take orders, and the channel on which each guild's queue updates
//! are announced.

use vstd::prelude::*;
use crate::queue::{announces, change_notifies, QueueChange};

verus! {

/// The guilds whose queues are open for orders.
pub struct OpenGuilds {
    guilds: Vec<String>,
}

/// No two of the strings have the same text.
pub open spec fn distinct_texts(list: Seq<String>) -> bool {
    forall|i: int, j: int|
        0 <= i < list.len() && 0 <= j < list.len() && i != j ==> #[trigger] list[i]@ != #[trigger] list[j]@
}

/// Some string of the list has the text `text`.
pub open spec fn lists_text(list: Seq<String>, text: Seq<char>) -> bool {
    exists|i: int| 0 <= i < list.len() && #[trigger] list[i]@ == text
}

/// The place of `text` in a list of strings, if it is there.
fn find_text(list: &Vec<String>, text: &str) -> (found: Option<usize>)
    ensures
        match found {
            Some(i) => i < list@.len() && list@[i as int]@ == text@,
            None => !lists_text(list@, text@),
        },
{
    let wanted = String::from_str(text);
    let mut i: usize = 0;
    while i < list.len()
        invariant
            i <= list@.len(),
            wanted@ == text@,
            forall|j: int| 0 <= j < i ==> list@[j]@ != text@,
        decreases list.len() - i,
    {
        if list[i] == wanted {
            return Some(i);
        }
        i = i + 1;
    }
    None
}

/// A call that opens or closes a guild's queue.
pub enum GuildSwitch {
    Open(Seq<char>),
    Close(Seq<char>),
}

/// The open guilds after one call: `open` adds the guild, `close` takes it out.
pub open spec fn after_switch(open_guilds: Set<Seq<char>>, switch: GuildSwitch) -> Set<Seq<char>> {
    match switch {
        GuildSwitch::Open(g) => open_guilds.insert(g),
        GuildSwitch::Close(g) => open_guilds.remove(g),
    }
}

/// The open guilds after a sequence of calls, in order.
pub open spec fn after_switches(open_guilds: Set<Seq<char>>, switches: Seq<GuildSwitch>) -> Set<Seq<char>>
    decreases switches.len(),
{
    if switches.len() == 0 {
        open_guilds
    } else {
        after_switch(after_switches(open_guilds, switches.drop_last()), switches.last())
    }
}

impl View for OpenGuilds {
    type V = Set<Seq<char>>;

    /// The ids of the open guilds.
    closed spec fn view(&self) -> Set<Seq<char>> {
        Set::new(|g: Seq<char>| lists_text(self.guilds@, g))
    }
}

impl OpenGuilds {
    /// No guild is listed twice.
    #[verifier::type_invariant]
    closed spec fn listed_once(self) -> bool {
        distinct_texts(self.guilds@)
    }

    /// No guild is open.
    pub fn new() -> (guilds: OpenGuilds)
        ensures
            guilds@ == Set::<Seq<char>>::empty(),
    {
        let guilds = OpenGuilds { guilds: Vec::new() };
        assert(guilds@ =~= Set::<Seq<char>>::empty());
        guilds
    }

    /// Whether the guild's queue is open.
    pub fn is_open(&self, guild_id: &str) -> (open: bool)
        ensures
            open == self@.contains(guild_id@),
    {
        find_text(&self.guilds, guild_id).is_some()
    }

    /// Opens the guild's queue; opening an open queue changes nothing.
    pub fn open(&mut self, guild_id: &str)
        ensures
            final(self)@ == old(self)@.insert(guild_id@),
            final(self)@ == after_switch(old(self)@, GuildSwitch::Open(guild_id@)),
    {
        proof {
            use_type_invariant(&*self);
        }
        if find_text(&self.guilds, guild_id).is_some() {
            assert(self@ =~= old(self)@.insert(guild_id@));
            return;
        }
        let ghost listed = self.guilds@;
        let mut list: Vec<String> = Vec::new();
        std::mem::swap(&mut list, &mut self.guilds);
        list.push(String::from_str(guild_id));
        let last = list.len() - 1;
        assert(list@[last as int]@ == guild_id@);
        assert forall|i: int, j: int|
            0 <= i < list@.len() && 0 <= j < list@.len() && i != j
                implies #[trigger] list@[i]@ != #[trigger] list@[j]@ by {
            if i < last {
                assert(list@[i] == listed[i]);
            }
            if j < last {
                assert(list@[j] == listed[j]);
            }
        }
        assert forall|g: Seq<char>| #[trigger] lists_text(list@, g) <==> old(self)@.insert(guild_id@).contains(g) by {
            if lists_text(list@, g) {
                let i = choose|i: int| 0 <= i < list@.len() && #[trigger] list@[i]@ == g;
                if i < last {
                    assert(listed[i]@ == g);
                }
            }
            if old(self)@.contains(g) {
                let i = choose|i: int| 0 <= i < listed.len() && #[trigger] listed[i]@ == g;
                assert(list@[i]@ == g);
            }
        }
        self.guilds = list;
        assert(self@ =~= old(self)@.insert(guild_id@));
    }

    /// Closes the guild's queue; closing a closed queue changes nothing.
    pub fn close(&mut self, guild_id: &str)
        ensures
            final(self)@ == old(self)@.remove(guild_id@),
            final(self)@ == after_switch(old(self)@, GuildSwitch::Close(guild_id@)),
    {
        proof {
            use_type_invariant(&*self);
        }
        let k = match find_text(&self.guilds, guild_id) {
            Some(k) => k,
            None => {
                assert(self@ =~= old(self)@.remove(guild_id@));
                return;
            },
        };
        let ghost listed = self.guilds@;
        let mut list: Vec<String> = Vec::new();
        std::mem::swap(&mut list, &mut self.guilds);
        list.remove(k);
        assert forall|i: int, j: int|
            0 <= i < list@.len() && 0 <= j < list@.len() && i != j
                implies #[trigger] list@[i]@ != #[trigger] list@[j]@ by {
            let oi = if i < k { i } else { i + 1 };
            let oj = if j < k { j } else { j + 1 };
            assert(list@[i] == listed[oi]);
            assert(list@[j] == listed[oj]);
        }
        assert forall|g: Seq<char>| #[trigger] lists_text(list@, g) <==> old(self)@.remove(guild_id@).contains(g) by {
            if lists_text(list@, g) {
                let i = choose|i: int| 0 <= i < list@.len() && #[trigger] list@[i]@ == g;
                let o = if i < k { i } else { i + 1 };
                assert(listed[o]@ == g);
            }
            if old(self)@.remove(guild_id@).contains(g) {
                let i = choose|i: int| 0 <= i < listed.len() && #[trigger] listed[i]@ == g;
                assert(i != k);
                if i < k {
                    assert(list@[i]@ == g);
                } else {
                    assert(list@[i - 1]@ == g);
                }
            }
        }
        self.guilds = list;
        assert(self@ =~= old(self)@.remove(guild_id@));
    }
}

/// One announcement channel per guild, made the first time the guild's
/// queue is watched and kept from then on.
pub struct GuildChannels<S> {
    guilds: Vec<String>,
    channels: Vec<S>,
}

/// The channels after a guild's queue is watched: a guild without a
/// channel gets `made`; the others, and a guild that has one, are unchanged.
pub open spec fn after_watch<S>(channels: Map<Seq<char>, S>, guild_id: Seq<char>, made: S) -> Map<Seq<char>, S> {
    if channels.contains_key(guild_id) {
        channels
    } else {
        channels.insert(guild_id, made)
    }
}

/// The channel on which a change to a guild's queue is announced: the
/// guild's own channel, when the change is announced and the guild has one;
/// otherwise none. A change is announced on one channel at most.
pub open spec fn announcement<S>(channels: Map<Seq<char>, S>, guild_id: Seq<char>, change: QueueChange) -> Option<S> {
    if announces(change) && channels.contains_key(guild_id) {
        Some(channels[guild_id])
    } else {
        None
    }
}

impl<S> View for GuildChannels<S> {
    type V = Map<Seq<char>, S>;

    /// The channel of each guild that has one.
    closed spec fn view(&self) -> Map<Seq<char>, S> {
        Map::new(
            |g: Seq<char>| lists_text(self.guilds@, g),
            |g: Seq<char>| self.channels@[self.slot(g)],
        )
    }
}

impl<S> GuildChannels<S> {
    /// Each guild is listed once, beside its channel.
    #[verifier::type_invariant]
    closed spec fn paired(self) -> bool {
        &&& self.guilds@.len() == self.channels@.len()
        &&& distinct_texts(self.guilds@)
    }

    closed spec fn slot(&self, guild_id: Seq<char>) -> int {
        choose|i: int| 0 <= i < self.guilds@.len() && #[trigger] self.guilds@[i]@ == guild_id
    }

    /// No guild has a channel yet.
    pub fn new() -> (channels: GuildChannels<S>)
        ensures
            channels@ == Map::<Seq<char>, S>::empty(),
    {
        let channels = GuildChannels { guilds: Vec::new(), channels: Vec::new() };
        assert(channels@ =~= Map::<Seq<char>, S>::empty());
        channels
    }

    /// The guild's channel, if it has one.
    pub fn get(&self, guild_id: &str) -> (channel: Option<&S>)
        ensures
            match channel {
                Some(c) => self@.contains_key(guild_id@) && *c == self@[guild_id@],
                None => !self@.contains_key(guild_id@),
            },
    {
        proof {
            use_type_invariant(self);
        }
        match find_text(&self.guilds, guild_id) {
            Some(i) => {
                let ghost s = self.slot(guild_id@);
                assert(self.guilds@[s]@ == guild_id@);
                Some(&self.channels[i])
            },
            None => None,
        }
    }

    /// The guild's channel; a guild without one gets the channel that `make`
    /// builds, and keeps it. A guild that has a channel keeps it, and `make`
    /// is not called.
    pub fn get_or_insert_with<F: FnOnce() -> S>(&mut self, guild_id: &str, make: F) -> (channel: &S)
        requires
            call_requires(make, ()),
        ensures
            final(self)@.contains_key(guild_id@),
            *channel == final(self)@[guild_id@],
            final(self)@ == after_watch(old(self)@, guild_id@, *channel),
            old(self)@.contains_key(guild_id@) ==> final(self)@ == old(self)@,
            !old(self)@.contains_key(guild_id@) ==> call_ensures(make, (), *channel)
                && final(self)@ == old(self)@.insert(guild_id@, *channel),
    {
        proof {
            use_type_invariant(&*self);
        }
        if let Some(i) = find_text(&self.guilds, guild_id) {
            let ghost s = self.slot(guild_id@);
            assert(self.guilds@[s]@ == guild_id@);
            return &self.channels[i];
        }
        let ghost before = self@;
        let ghost listed = self.guilds@;
        let ghost made_before = self.channels@;
        let made = make();
        let mut taken = GuildChannels { guilds: Vec::new(), channels: Vec::new() };
        std::mem::swap(&mut taken, self);
        let GuildChannels { guilds: mut list, channels: mut channels } = taken;
        list.push(String::from_str(guild_id));
        channels.push(made);
        let last = list.len() - 1;
        assert(list@[last as int]@ == guild_id@);
        assert forall|i: int, j: int|
            0 <= i < list@.len() && 0 <= j < list@.len() && i != j
                implies #[trigger] list@[i]@ != #[trigger] list@[j]@ by {
            if i < last {
                assert(list@[i] == listed[i]);
            }
            if j < last {
                assert(list@[j] == listed[j]);
            }
        }
        *self = GuildChannels { guilds: list, channels };
        let ghost added = self.channels@[last as int];
        assert forall|g: Seq<char>| #[trigger] lists_text(self.guilds@, g) <==> before.insert(guild_id@, added).contains_key(g) by {
            if lists_text(self.guilds@, g) {
                let i = choose|i: int| 0 <= i < self.guilds@.len() && #[trigger] self.guilds@[i]@ == g;
                if i < last {
                    assert(listed[i]@ == g);
                }
            }
            if before.contains_key(g) {
                let i = choose|i: int| 0 <= i < listed.len() && #[trigger] listed[i]@ == g;
                assert(self.guilds@[i]@ == g);
            }
        }
        assert forall|g: Seq<char>| #[trigger] lists_text(self.guilds@, g) && g != guild_id@
            implies self.channels@[self.slot(g)] == before[g] by {
            let i = self.slot(g);
            let o = choose|o: int| 0 <= o < listed.len() && #[trigger] listed[o]@ == g;
            assert(self.guilds@[o]@ == g);
            assert(i == o);
            assert(before[g] == made_before[o]);
        }
        assert(self.slot(guild_id@) == last) by {
            let i = self.slot(guild_id@);
            assert(self.guilds@[i]@ == guild_id@);
        }
        assert(self@ =~= before.insert(guild_id@, added));
        &self.channels[last]
    }
}

impl<S> GuildChannels<S> {
    /// The channel on which to announce a change to the guild's queue, if
    /// any: the guild's own, when the change is announced and the guild has
    /// one.
    pub fn announcement_channel(&self, guild_id: &str, change: QueueChange) -> (channel: Option<&S>)
        ensures
            match channel {
                Some(c) => announcement(self@, guild_id@, change) == Some(*c),
                None => announcement(self@, guild_id@, change) is None,
            },
    {
        if change_notifies(change) {
            self.get(guild_id)
        } else {
            None
        }
    }
}

} // verus!
