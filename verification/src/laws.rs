//! Properties that hold across the library's operations.

use vstd::prelude::*;
use crate::guilds::{after_switch, after_switches, after_watch, announcement, GuildSwitch};
use crate::queue::{announces, QueueChange};
use crate::json::{entries_json_items, entry_json, escaped_char, queue_json};
use crate::messages::{
    entry_mention, holds_oracle_role, top_five, is_oracle_role, user_mention, valid_user_id, waffle_word,
    GuildRole,
};
use crate::orders::{days_in_month, is_leap_year, valid_date};
use crate::queue::QueueEntryView;
use crate::text::{decimal, lemma_parse_decimal};

verus! {

/// The last `open` or `close` call for `guild` in a sequence: `Some(true)`
/// for an `open`, `Some(false)` for a `close`, `None` when there is none.
pub open spec fn last_switch(switches: Seq<GuildSwitch>, guild: Seq<char>) -> Option<bool>
    decreases switches.len(),
{
    if switches.len() == 0 {
        None
    } else {
        match switches.last() {
            GuildSwitch::Open(g) => if g == guild {
                Some(true)
            } else {
                last_switch(switches.drop_last(), guild)
            },
            GuildSwitch::Close(g) => if g == guild {
                Some(false)
            } else {
                last_switch(switches.drop_last(), guild)
            },
        }
    }
}

/// After any sequence of `open` and `close` calls, a guild's queue is open
/// exactly when the last call for that guild was an `open`; without a call
/// for it, it is as it was (closed, from `OpenGuilds::new`). Calls for other
/// guilds never change it.
pub proof fn law_open_close_sequence(start: Set<Seq<char>>, switches: Seq<GuildSwitch>, guild: Seq<char>)
    ensures
        after_switches(start, switches).contains(guild) == match last_switch(switches, guild) {
            Some(opened) => opened,
            None => start.contains(guild),
        },
        after_switches(Set::empty(), switches).contains(guild) == (last_switch(switches, guild) == Some(true)),
    decreases switches.len(),
{
    if switches.len() > 0 {
        law_open_close_sequence(start, switches.drop_last(), guild);
        law_open_close_sequence(Set::empty(), switches.drop_last(), guild);
    }
}

/// Watchers of one guild's queue share one channel: watching a second time
/// gives back the channel of the first time and changes nothing, and
/// watching one guild leaves every other guild's channel as it was.
pub proof fn law_watchers_share_channel<S>(
    channels: Map<Seq<char>, S>,
    guild: Seq<char>,
    first_made: S,
    second_made: S,
    other: Seq<char>,
)
    ensures
        after_watch(channels, guild, first_made).contains_key(guild),
        after_watch(after_watch(channels, guild, first_made), guild, second_made)
            == after_watch(channels, guild, first_made),
        after_watch(after_watch(channels, guild, first_made), guild, second_made)[guild]
            == after_watch(channels, guild, first_made)[guild],
        channels.contains_key(guild) ==> after_watch(channels, guild, first_made)[guild] == channels[guild],
        other != guild ==> after_watch(channels, guild, first_made).contains_key(other)
            == channels.contains_key(other),
        other != guild && channels.contains_key(other)
            ==> after_watch(channels, guild, first_made)[other] == channels[other],
{
}

/// Each change to a guild's queue is announced once at most, and only on
/// that guild's channel: a push, a clear, and a pop that took something are
/// announced to the guild's watchers, if it has any; a pop that took nothing
/// is announced to no one; the channel of another guild is never chosen,
/// where it is another channel.
pub proof fn law_one_announcement_per_change<S>(
    channels: Map<Seq<char>, S>,
    guild: Seq<char>,
    change: QueueChange,
    other: Seq<char>,
)
    ensures
        announcement(channels, guild, change) matches Some(c) ==> channels.contains_key(guild) && c
            == channels[guild],
        announces(change) && channels.contains_key(guild) ==> announcement(channels, guild, change)
            == Some(channels[guild]),
        change == QueueChange::Popped(0) ==> announcement(channels, guild, change) is None,
        change == QueueChange::Pushed || change == QueueChange::Cleared ==> announces(change),
        other != guild && channels.contains_key(other) && channels[other] != channels[guild]
            ==> announcement(channels, guild, change) != Some(channels[other]),
{
}

/// A user id written as its decimal number is mentioned as `<@` that same
/// text `>`: reading the id and writing it back gives the id unchanged.
pub proof fn law_canonical_mention(id: u64)
    requires
        id != 0,
    ensures
        valid_user_id(decimal(id as nat)),
        entry_mention(decimal(id as nat)) == "<@"@ + decimal(id as nat) + ">"@,
{
    lemma_parse_decimal(id);
    assert(entry_mention(decimal(id as nat)) == user_mention(id));
}

/// No user has two entries in the queue.
pub open spec fn users_listed_once(queue: Seq<QueueEntryView>) -> bool {
    forall|i: int, j: int|
        0 <= i < queue.len() && 0 <= j < queue.len() && i != j
            ==> #[trigger] queue[i].user_id != #[trigger] queue[j].user_id
}

/// A `vaffel` order appends the user's entry only when `position_of_user`
/// found none: so appending keeps every user listed at most once, and
/// removing entries from the front keeps it too.
pub proof fn law_orders_list_each_user_once(queue: Seq<QueueEntryView>, entry: QueueEntryView, n: int)
    requires
        users_listed_once(queue),
        forall|j: int| 0 <= j < queue.len() ==> queue[j].user_id != entry.user_id,
        0 <= n <= queue.len(),
    ensures
        users_listed_once(queue.push(entry)),
        users_listed_once(queue.skip(n)),
{
    let longer = queue.push(entry);
    assert forall|i: int, j: int|
        0 <= i < longer.len() && 0 <= j < longer.len() && i != j
            implies #[trigger] longer[i].user_id != #[trigger] longer[j].user_id by {
        if i < queue.len() && j < queue.len() {
            assert(longer[i] == queue[i] && longer[j] == queue[j]);
        } else if i < queue.len() {
            assert(longer[i] == queue[i]);
        } else if j < queue.len() {
            assert(longer[j] == queue[j]);
        }
    }
    let rest = queue.skip(n);
    assert forall|i: int, j: int|
        0 <= i < rest.len() && 0 <= j < rest.len() && i != j
            implies #[trigger] rest[i].user_id != #[trigger] rest[j].user_id by {
        assert(rest[i] == queue[i + n] && rest[j] == queue[j + n]);
    }
}

/// Baker access depends on the member's roles only as a set: when the
/// guild's first role named `orakel` (in any case) is the `i`-th, the member
/// may bake exactly when that role's id is among the member's roles,
/// wherever it stands; holding more roles never takes access away; and a
/// guild with no such role lets no one bake.
pub proof fn law_oracle_access_by_membership(
    member_roles: Seq<u64>,
    roles: Seq<GuildRole>,
    i: int,
    extra: u64,
)
    requires
        0 <= i < roles.len(),
        is_oracle_role(roles[i].name@),
        forall|j: int| 0 <= j < i ==> !is_oracle_role(roles[j].name@),
    ensures
        holds_oracle_role(member_roles, roles) <==> exists|k: int|
            0 <= k < member_roles.len() && member_roles[k] == roles[i].id,
        holds_oracle_role(member_roles, roles) ==> holds_oracle_role(seq![extra] + member_roles, roles),
        holds_oracle_role(member_roles, roles) ==> holds_oracle_role(member_roles.push(extra), roles),
{
    let id = roles[i].id;
    if holds_oracle_role(member_roles, roles) {
        let w = choose|w: int|
            0 <= w < roles.len() && is_oracle_role(#[trigger] roles[w].name@)
                && (forall|j: int| 0 <= j < w ==> !is_oracle_role(#[trigger] roles[j].name@))
                && member_roles.contains(roles[w].id);
        if w < i {
            assert(!is_oracle_role(roles[w].name@));
        } else if w > i {
            assert(!is_oracle_role(roles[i].name@));
        }
        let k = choose|k: int| 0 <= k < member_roles.len() && member_roles[k] == id;
        let front = seq![extra] + member_roles;
        assert(front[k + 1] == id);
        assert(front.contains(id));
        assert(is_oracle_role(roles[i].name@));
        assert(holds_oracle_role(front, roles));
        let back = member_roles.push(extra);
        assert(back[k] == id);
        assert(back.contains(id));
        assert(holds_oracle_role(back, roles));
    }
    if exists|k: int| 0 <= k < member_roles.len() && member_roles[k] == id {
        let k = choose|k: int| 0 <= k < member_roles.len() && member_roles[k] == id;
        assert(member_roles.contains(id));
        assert(is_oracle_role(roles[i].name@));
        assert(holds_oracle_role(member_roles, roles));
    }
}

/// A guild without a role named `orakel` lets no one bake.
pub proof fn law_no_oracle_role_no_access(member_roles: Seq<u64>, roles: Seq<GuildRole>)
    requires
        forall|j: int| 0 <= j < roles.len() ==> !is_oracle_role(roles[j].name@),
    ensures
        !holds_oracle_role(member_roles, roles),
{
}

/// Every change that alters a queue is announced: any push, any clear, and
/// a pop of any positive number of entries; only a pop that took nothing is
/// not.
pub proof fn law_changes_that_alter_the_queue_are_announced(count: usize)
    ensures
        announces(QueueChange::Pushed),
        announces(QueueChange::Cleared),
        announces(QueueChange::Popped(count)) <==> count >= 1,
{
}

/// The singular `vaffel` is used for exactly one waffle, and `vafler` for
/// every other count, zero and negative counts included.
pub proof fn law_singular_only_for_one(count: int)
    ensures
        (waffle_word(count) == "vaffel"@) <==> count == 1,
        count != 1 ==> waffle_word(count) == "vafler"@,
{
    reveal_strlit("vaffel");
    reveal_strlit("vafler");
    assert("vafler"@[3] != "vaffel"@[3]);
}

/// A queue's JSON array is its entries' objects joined by commas: one more
/// entry adds a comma and its object after the others; a single entry is
/// just its object; the array is brackets around them.
pub proof fn law_queue_json_joins_with_commas(entries: Seq<QueueEntryView>, entry: QueueEntryView)
    ensures
        entries.len() > 0 ==> entries_json_items(entries.push(entry))
            == entries_json_items(entries) + ","@ + entry_json(entry),
        entries.len() == 0 ==> entries_json_items(entries.push(entry)) == entry_json(entry),
        queue_json(entries) == "["@ + entries_json_items(entries) + "]"@,
        queue_json(Seq::empty()) == "[]"@,
{
    assert(entries.push(entry).drop_last() =~= entries);
    reveal_strlit("[");
    reveal_strlit("]");
    reveal_strlit("[]");
    assert(("["@ + entries_json_items(Seq::<QueueEntryView>::empty()) + "]"@) =~= "[]"@);
}

/// The lengths of the months of the Gregorian calendar, in order: thirty
/// days hath September, April, June and November; February has 28 days, 29
/// in a leap year; the rest have 31. A year has 365 days, 366 when leap.
pub proof fn law_month_lengths(year: int)
    ensures
        forall|month: int| 1 <= month <= 12 ==> #[trigger] days_in_month(year, month)
            == seq![31int, if is_leap_year(year) { 29int } else { 28int }, 31, 30, 31, 30, 31, 31, 30, 31, 30, 31][month - 1],
        days_in_month(year, 1) + days_in_month(year, 2) + days_in_month(year, 3) + days_in_month(year, 4)
            + days_in_month(year, 5) + days_in_month(year, 6) + days_in_month(year, 7)
            + days_in_month(year, 8) + days_in_month(year, 9) + days_in_month(year, 10)
            + days_in_month(year, 11) + days_in_month(year, 12) == if is_leap_year(year) { 366int } else { 365int },
{
}

/// The Gregorian leap years: every fourth year, except centuries, except
/// every fourth century; the pattern repeats every 400 years. A date is
/// valid exactly when its day exists in its month, in chrono's year range.
pub proof fn law_leap_years(year: int, month: int, day: int)
    ensures
        year % 4 != 0 ==> !is_leap_year(year),
        year % 4 == 0 && year % 100 != 0 ==> is_leap_year(year),
        year % 100 == 0 && year % 400 != 0 ==> !is_leap_year(year),
        year % 400 == 0 ==> is_leap_year(year),
        is_leap_year(year + 400) == is_leap_year(year),
        valid_date(year, month, day) ==> 1 <= day <= 31 && 1 <= month <= 12,
        valid_date(year, month, day) && (month == 4 || month == 6 || month == 9 || month == 11) ==> day <= 30,
        valid_date(year, 2, day) ==> day <= 29,
        valid_date(year, 2, 29) ==> is_leap_year(year),
{
    assert((year + 400) % 4 == year % 4);
    assert((year + 400) % 100 == year % 100);
    assert((year + 400) % 400 == year % 400);
}

/// The leaderboard shows the first five users given, in their order, or
/// all of them when there are fewer.
pub proof fn law_top_five_is_a_prefix(users: Seq<(String, i64)>)
    ensures
        top_five(users).len() == if users.len() < 5 { users.len() } else { 5 },
        forall|k: int| 0 <= k < top_five(users).len() ==> #[trigger] top_five(users)[k] == users[k],
{
}

/// serde_json changes only what JSON requires: a character from the space
/// onwards, other than `"` and `\`, is written as it is; every other
/// character is written as a backslash sequence of two or six characters.
pub proof fn law_escaping_keeps_plain_characters(c: char)
    ensures
        (c as nat) >= 32 && c != '"' && c != '\\' ==> escaped_char(c) == seq![c],
        (c as nat) < 32 || c == '"' || c == '\\' ==> escaped_char(c)[0] == '\\'
            && (escaped_char(c).len() == 2 || escaped_char(c).len() == 6),
{
}

} // verus!
