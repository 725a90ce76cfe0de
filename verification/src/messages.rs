//! The replies of the bot's Discord commands.

use vstd::prelude::*;
use serenity::all::{MessageBuilder, UserId};
use crate::json::{json_string, push_json_string};
use crate::orders::{day_month_year, format_date, Highscore};
use crate::queue::QueueEntry;
use crate::text::{
    decimal, parse_u64, parse_u64_str, push_decimal, push_decimal_successor, push_signed_decimal, signed_decimal,
    u64_to_decimal,
};

verus! {

/// How a Discord message mentions a user: `<@` and the user's id in decimal
/// and `>`.
pub open spec fn user_mention(user_id: u64) -> Seq<char> {
    "<@"@ + decimal(user_id as nat) + ">"@
}

/// serenity's `MessageBuilder::push` on a builder that holds `message`:
/// appends `text` unchanged, as content with no formatting.
#[verifier::external_body]
fn message_push(message: String, text: &str) -> (res: String)
    ensures
        res@ == message@ + text@,
{
    let mut builder = MessageBuilder(message);
    builder.push(text);
    builder.build()
}

/// serenity's `MessageBuilder::mention` of `UserId::new(user_id)` on a
/// builder that holds `message`: appends the user's mention. `UserId::new`
/// panics on zero, which `requires` leaves out.
#[verifier::external_body]
fn message_mention_user(message: String, user_id: u64) -> (res: String)
    requires
        user_id != 0,
    ensures
        res@ == message@ + user_mention(user_id),
{
    let mut builder = MessageBuilder(message);
    builder.mention(&UserId::new(user_id));
    builder.build()
}

/// A user id that a mention can be made of: a decimal number, other than
/// zero, that fits in a `u64`.
pub open spec fn valid_user_id(user_id: Seq<char>) -> bool {
    parse_u64(user_id) matches Some(id) && id != 0
}

/// Whether `user_id` is one that a mention can be made of.
pub fn is_valid_user_id(user_id: &str) -> (valid: bool)
    ensures
        valid == valid_user_id(user_id@),
{
    match parse_u64_str(user_id) {
        Some(id) => id != 0,
        None => false,
    }
}

/// The mention of the user whose id is written in `user_id`.
pub open spec fn entry_mention(user_id: Seq<char>) -> Seq<char> {
    user_mention(parse_u64(user_id).unwrap())
}

/// Items separated by `, `.
pub open spec fn comma_list(items: Seq<Seq<char>>) -> Seq<char>
    decreases items.len(),
{
    if items.len() == 0 {
        Seq::empty()
    } else if items.len() == 1 {
        items[0]
    } else {
        comma_list(items.drop_last()) + ", "@ + items.last()
    }
}

/// Items in Norwegian enumeration: `a, b og c`.
pub open spec fn enumeration(items: Seq<Seq<char>>) -> Seq<char> {
    if items.len() <= 1 {
        comma_list(items)
    } else {
        comma_list(items.drop_last()) + " og "@ + items.last()
    }
}

/// The mentions of the users whose ids are given, in the same order.
pub open spec fn mentions(user_ids: Seq<Seq<char>>) -> Seq<Seq<char>> {
    user_ids.map_values(|id: Seq<char>| entry_mention(id))
}

/// The announcement of the waffles baked for the given users.
pub open spec fn baked_message(user_ids: Seq<Seq<char>>) -> Seq<char> {
    if user_ids.len() == 0 {
        "😟 Ingen å steke vafler til."@
    } else if user_ids.len() == 1 {
        "🧇 Stekte "@ + decimal(1) + " en vaffel til: "@ + entry_mention(user_ids[0])
    } else {
        "🧇 Stekte "@ + decimal(user_ids.len()) + " vafler til: "@ + enumeration(mentions(user_ids))
    }
}

/// The user ids of entries, in order.
pub open spec fn entry_user_ids(entries: Seq<QueueEntry>) -> Seq<Seq<char>> {
    entries.map_values(|e: QueueEntry| e.user_id@)
}

/// The message that announces the waffles just baked: how many, and for whom.
pub fn create_baked_message(baked: &Vec<QueueEntry>) -> (message: String)
    requires
        forall|i: int| 0 <= i < baked.len() ==> valid_user_id(#[trigger] baked@[i].user_id@),
    ensures
        message@ == baked_message(entry_user_ids(baked@)),
{
    let ghost ids = entry_user_ids(baked@);
    let ghost ms = mentions(ids);
    if baked.len() == 0 {
        return String::from_str("😟 Ingen å steke vafler til.");
    }
    let count = baked.len();
    let mut msg = message_push(String::new(), "🧇 Stekte ");
    let count_text = u64_to_decimal(count as u64);
    msg = message_push(msg, count_text.as_str());
    if count == 1 {
        msg = message_push(msg, " en vaffel til: ");
        let user_id = parse_u64_str(baked[0].user_id.as_str()).unwrap();
        msg = message_mention_user(msg, user_id);
        assert(msg@ =~= baked_message(ids));
        return msg;
    }
    msg = message_push(msg, " vafler til: ");
    let ghost head = msg@;
    let mut i: usize = 0;
    while i < count
        invariant
            count == baked.len(),
            count >= 2,
            i <= count,
            ids == entry_user_ids(baked@),
            ms == mentions(ids),
            forall|j: int| 0 <= j < baked.len() ==> valid_user_id(#[trigger] baked@[j].user_id@),
            i < count ==> msg@ == head + comma_list(ms.take(i as int))
                + (if 0 < i && i < count - 1 { ", "@ } else { Seq::<char>::empty() }),
            i == count ==> msg@ == head + enumeration(ms),
        decreases count - i,
    {
        let user_id = parse_u64_str(baked[i].user_id.as_str()).unwrap();
        assert(ms[i as int] == user_mention(user_id));
        if i == count - 1 {
            msg = message_push(msg, " og ");
            msg = message_mention_user(msg, user_id);
            assert(ms.drop_last() =~= ms.take(i as int));
            assert(msg@ =~= head + enumeration(ms));
        } else {
            msg = message_mention_user(msg, user_id);
            if i < count - 2 {
                msg = message_push(msg, ", ");
            }
            let ghost taken = ms.take(i + 1);
            assert(taken.drop_last() =~= ms.take(i as int));
            if i == 0 {
                assert(ms.take(0) =~= Seq::<Seq<char>>::empty());
            }
            assert(msg@ =~= head + comma_list(taken)
                + (if 0 < i + 1 && i + 1 < count - 1 { ", "@ } else { Seq::<char>::empty() }));
        }
        i = i + 1;
    }
    assert(msg@ =~= baked_message(ids));
    msg
}

/// The reply to `stekt` while orders are closed.
pub fn bake_closed_reply() -> (reply: String)
    ensures
        reply@ == "\u{1f512}\u{fe0f} Bestilling er stengt"@,
{
    String::from_str("\u{1f512}\u{fe0f} Bestilling er stengt")
}

/// The reply to `start`: whether the queue was open already, or has just
/// been opened, in which case everyone on the server is told.
pub fn open_reply(already_open: bool) -> (reply: String)
    ensures
        already_open ==> reply@ == "\u{1f513}\u{fe0f} Bestilling er allerede \u{e5}pnet"@,
        !already_open ==> reply@ == "@here \u{1f513}\u{fe0f} Bestilling er n\u{e5} \u{e5}pnet"@,
{
    if already_open {
        String::from_str("\u{1f513}\u{fe0f} Bestilling er allerede \u{e5}pnet")
    } else {
        String::from_str("@here \u{1f513}\u{fe0f} Bestilling er n\u{e5} \u{e5}pnet")
    }
}

/// The activity that the bot shows while orders are open.
pub fn open_activity() -> (activity: String)
    ensures
        activity@ == "\u{1f9c7} Lager vafler"@,
{
    String::from_str("\u{1f9c7} Lager vafler")
}

/// What came of a `vaffel` order.
#[derive(Clone, Copy, Debug, PartialEq, Eq)]
pub enum WaffleOutcome {
    /// Orders are closed.
    Closed,
    /// The user was in the queue already, at this zero-based place.
    AlreadyQueued(usize),
    /// The user joined a queue of this many entries.
    Queued(usize),
}

/// The reply to a `vaffel` order. The place shown counts from one: a user
/// with the zero-based place `index` is number `index + 1`, and a user who
/// joins a queue of `size` entries is number `size + 1`.
pub fn waffle_reply(outcome: WaffleOutcome) -> (reply: String)
    ensures
        outcome is Closed ==> reply@ == "\u{1f3ee} Bestilling er stengt"@,
        outcome matches WaffleOutcome::AlreadyQueued(index) ==> reply@
            == "\u{23f2}\u{fe0f} Du er **allerede** i k\u{f8}en. Du er nummer **"@ + decimal(index as nat + 1)
            + "** i k\u{f8}en."@,
        outcome matches WaffleOutcome::Queued(size) ==> reply@
            == "\u{23f2}\u{fe0f} Du er n\u{e5} i k\u{f8}en. Du er nummer **"@ + decimal(size as nat + 1)
            + "** i k\u{f8}en."@,
{
    match outcome {
        WaffleOutcome::Closed => String::from_str("\u{1f3ee} Bestilling er stengt"),
        WaffleOutcome::AlreadyQueued(index) => {
            let mut reply = String::from_str(
                "\u{23f2}\u{fe0f} Du er **allerede** i k\u{f8}en. Du er nummer **",
            );
            push_decimal_successor(&mut reply, index as u64);
            reply.append("** i k\u{f8}en.");
            reply
        },
        WaffleOutcome::Queued(size) => {
            let mut reply = String::from_str(
                "\u{23f2}\u{fe0f} Du er n\u{e5} i k\u{f8}en. Du er nummer **",
            );
            push_decimal_successor(&mut reply, size as u64);
            reply.append("** i k\u{f8}en.");
            reply
        },
    }
}

/// The reply to a command that only works on a server, used elsewhere.
pub fn guild_only_reply() -> (reply: String)
    ensures
        reply@ == "Denne kommandoen kan bare brukes p\u{e5} en server."@,
{
    String::from_str("Denne kommandoen kan bare brukes p\u{e5} en server.")
}

/// `vaffel` for one, `vafler` for any other number.
pub open spec fn waffle_word(count: int) -> Seq<char> {
    if count == 1 {
        "vaffel"@
    } else {
        "vafler"@
    }
}

fn push_waffle_word(out: &mut String, count: i64)
    ensures
        final(out)@ == old(out)@ + waffle_word(count as int),
{
    if count == 1 {
        out.append("vaffel");
    } else {
        out.append("vafler");
    }
}

/// The record announcement, or the call to set one.
pub open spec fn highscore_text(total_orders: int, date: (int, int, int)) -> Seq<char> {
    "\u{1f3c6} Rekorden er "@ + signed_decimal(total_orders) + " "@ + waffle_word(total_orders) + " ("@
        + day_month_year(date.0, date.1, date.2) + ")!"@
}

/// The reply to `highscore`: the day with the most waffles, with their
/// number, or the call to bake for a record when there is none.
pub fn highscore_message(record: Option<&Highscore>) -> (message: String)
    ensures
        record is None ==> message@ == "\u{1f9c7} Stek vafler for rekord!."@,
        record matches Some(h) ==> message@ == highscore_text(h.total_orders as int, h.date@),
{
    match record {
        None => String::from_str("\u{1f9c7} Stek vafler for rekord!."),
        Some(h) => {
            let mut message = String::from_str("\u{1f3c6} Rekorden er ");
            push_signed_decimal(&mut message, h.total_orders);
            message.append(" ");
            push_waffle_word(&mut message, h.total_orders);
            message.append(" (");
            let date = format_date(&h.date);
            message.append(date.as_str());
            message.append(")!");
            assert(message@ =~= highscore_text(h.total_orders as int, h.date@));
            message
        },
    }
}

/// One line of the leaderboard: rank, mention, number of waffles.
pub open spec fn leaderboard_line(rank: nat, user_id: Seq<char>, count: int) -> Seq<char> {
    "\n"@ + decimal(rank) + ". <@"@ + user_id + "> \u{2014} "@ + signed_decimal(count) + " "@
        + waffle_word(count) + "\n"@
}

/// The leaderboard's lines, ranked from one in the order given.
pub open spec fn leaderboard_lines(users: Seq<(String, i64)>) -> Seq<char>
    decreases users.len(),
{
    if users.len() == 0 {
        Seq::empty()
    } else {
        leaderboard_lines(users.drop_last())
            + leaderboard_line(users.len(), users.last().0@, users.last().1 as int)
    }
}

/// The first five users, or all of them where there are fewer.
pub open spec fn top_five(users: Seq<(String, i64)>) -> Seq<(String, i64)> {
    if users.len() <= 5 {
        users
    } else {
        users.take(5)
    }
}

/// The whole leaderboard message: the heading and the top five.
pub open spec fn leaderboard_text(users: Seq<(String, i64)>) -> Seq<char> {
    if users.len() == 0 {
        "\u{1f9c7} Ingen vafler er registrert i \u{e5}r."@
    } else {
        "\u{1f3c6} Topp 5 bestillere i \u{e5}r\n"@ + leaderboard_lines(top_five(users))
    }
}

/// The reply to `leaderboard`: the five top orderers of the year, in the
/// order given, each with a rank from one, a mention and the number of
/// waffles; users after the fifth are not shown.
pub fn leaderboard_message(users: &Vec<(String, i64)>) -> (message: String)
    ensures
        message@ == leaderboard_text(users@),
{
    if users.len() == 0 {
        return String::from_str("\u{1f9c7} Ingen vafler er registrert i \u{e5}r.");
    }
    let shown: usize = if users.len() < 5 { users.len() } else { 5 };
    let ghost top = top_five(users@);
    assert(top =~= users@.take(shown as int));
    let mut message = String::from_str("\u{1f3c6} Topp 5 bestillere i \u{e5}r\n");
    let ghost head = message@;
    let mut i: usize = 0;
    while i < shown
        invariant
            i <= shown,
            shown <= users.len(),
            top == users@.take(shown as int),
            message@ == head + leaderboard_lines(users@.take(i as int)),
        decreases shown - i,
    {
        let ghost before = message@;
        message.append("\n");
        push_decimal(&mut message, (i + 1) as u64);
        message.append(". <@");
        message.append(users[i].0.as_str());
        message.append("> \u{2014} ");
        push_signed_decimal(&mut message, users[i].1);
        message.append(" ");
        push_waffle_word(&mut message, users[i].1);
        message.append("\n");
        proof {
            let taken = users@.take(i + 1);
            assert(taken.drop_last() =~= users@.take(i as int));
            assert(taken.last() == users@[i as int]);
            assert(message@ =~= before + leaderboard_line((i + 1) as nat, users@[i as int].0@, users@[i as int].1 as int));
        }
        i = i + 1;
    }
    message
}

/// The lowercase form of a text, as `str::to_lowercase` gives it.
pub uninterp spec fn lowercase(text: Seq<char>) -> Seq<char>;

/// `str::to_lowercase`: each character replaced by its Unicode lowercase
/// mapping. The result depends on the text alone; which mapping that is, is
/// left to the name `lowercase`.
#[verifier::external_body]
fn to_lowercase(text: &str) -> (lower: String)
    ensures
        lower@ == lowercase(text@),
{
    text.to_lowercase()
}

/// A role of a guild.
pub struct GuildRole {
    pub id: u64,
    pub name: String,
}

/// The role that may bake: named `orakel`, in any case.
pub open spec fn is_oracle_role(name: Seq<char>) -> bool {
    lowercase(name) == "orakel"@
}

/// The member holds the first of the guild's roles that is named `orakel`.
pub open spec fn holds_oracle_role(member_roles: Seq<u64>, roles: Seq<GuildRole>) -> bool {
    exists|i: int|
        0 <= i < roles.len() && is_oracle_role(#[trigger] roles[i].name@)
            && (forall|j: int| 0 <= j < i ==> !is_oracle_role(#[trigger] roles[j].name@))
            && member_roles.contains(roles[i].id)
}

fn contains_id(ids: &Vec<u64>, id: u64) -> (found: bool)
    ensures
        found == ids@.contains(id),
{
    let mut k: usize = 0;
    while k < ids.len()
        invariant
            k <= ids.len(),
            forall|j: int| 0 <= j < k ==> ids@[j] != id,
        decreases ids.len() - k,
    {
        if ids[k] == id {
            assert(ids@[k as int] == id);
            return true;
        }
        k = k + 1;
    }
    false
}

/// Whether the author of a command may bake: the command came from a guild
/// whose member and roles could be looked up (`None` where they could not),
/// and the member holds the first of the guild's roles, in the order given,
/// whose lowercase name is `orakel`.
pub fn check_is_oracle(member_roles: Option<&Vec<u64>>, roles: Option<&Vec<GuildRole>>) -> (allowed: bool)
    ensures
        allowed <==> (member_roles matches Some(m) && roles matches Some(r) && holds_oracle_role(m@, r@)),
{
    match (member_roles, roles) {
        (Some(m), Some(r)) => holds_oracle(m, r),
        _ => false,
    }
}

/// Whether the member holds the first role named `orakel`.
fn holds_oracle(member_roles: &Vec<u64>, roles: &Vec<GuildRole>) -> (allowed: bool)
    ensures
        allowed == holds_oracle_role(member_roles@, roles@),
{
    let oracle = String::from_str("orakel");
    let mut i: usize = 0;
    while i < roles.len()
        invariant
            i <= roles.len(),
            oracle@ == "orakel"@,
            forall|j: int| 0 <= j < i ==> !is_oracle_role(#[trigger] roles@[j].name@),
        decreases roles.len() - i,
    {
        let name = to_lowercase(roles[i].name.as_str());
        if name == oracle {
            let id = roles[i].id;
            if contains_id(member_roles, id) {
                assert(is_oracle_role(roles@[i as int].name@));
                assert(holds_oracle_role(member_roles@, roles@));
                return true;
            }
            proof {
                assert(!member_roles@.contains(id));
                if holds_oracle_role(member_roles@, roles@) {
                    let w = choose|w: int|
                        0 <= w < roles@.len() && is_oracle_role(#[trigger] roles@[w].name@)
                            && (forall|j: int| 0 <= j < w ==> !is_oracle_role(#[trigger] roles@[j].name@))
                            && member_roles@.contains(roles@[w].id);
                    if w < i {
                    } else if w > i {
                        assert(!is_oracle_role(roles@[i as int].name@));
                    }
                }
            }
            return false;
        }
        i = i + 1;
    }
    false
}

/// The reply to someone who may not use a command.
pub fn deny_reply() -> (reply: String)
    ensures
        reply@ == "\u{274c} Du har ikke tilgang til denne kommandoen."@,
{
    String::from_str("\u{274c} Du har ikke tilgang til denne kommandoen.")
}

/// The reply to `github`: the link to the bot's repository.
pub fn github_reply() -> (reply: String)
    ensures
        reply@ == "https://github.com/echo-webkom/vaffelbot"@,
{
    String::from_str("https://github.com/echo-webkom/vaffelbot")
}

/// What came of a `tilbakemelding`.
pub enum FeedbackOutcome {
    /// The bot has no token for the issue tracker.
    NotConfigured,
    /// The issue was filed.
    Sent,
    /// The issue tracker refused it, or did not answer.
    Failed,
}

/// The reply to a `tilbakemelding`.
pub fn feedback_reply(outcome: FeedbackOutcome) -> (reply: String)
    ensures
        outcome is NotConfigured ==> reply@ == "\u{274c} Tilbakemelding er ikke konfigurert."@,
        outcome is Sent ==> reply@ == "\u{2705} Takk for tilbakemeldingen! Den er sendt inn."@,
        outcome is Failed ==> reply@ == "\u{274c} Noe gikk galt. Pr\u{f8}v igjen senere."@,
{
    match outcome {
        FeedbackOutcome::NotConfigured => String::from_str("\u{274c} Tilbakemelding er ikke konfigurert."),
        FeedbackOutcome::Sent => String::from_str("\u{2705} Takk for tilbakemeldingen! Den er sendt inn."),
        FeedbackOutcome::Failed => String::from_str("\u{274c} Noe gikk galt. Pr\u{f8}v igjen senere."),
    }
}

/// The request that files a piece of feedback as an issue.
pub struct FeedbackRequest {
    pub url: String,
    /// Header names and values, in the order they are set.
    pub headers: Vec<(String, String)>,
    /// The JSON body.
    pub body: String,
}

/// The text of the issue filed for a piece of feedback.
pub open spec fn feedback_body(author_name: Seq<char>, message: Seq<char>) -> Seq<char> {
    "**Tilbakemelding fra Discord-bruker:** "@ + author_name + "\n\n---\n\n"@ + message
}

/// The JSON body of the issue: its keys in serde_json's sorted order.
pub open spec fn feedback_json(author_name: Seq<char>, message: Seq<char>) -> Seq<char> {
    "{\"body\":"@ + json_string(feedback_body(author_name, message))
        + ",\"labels\":[\"feedback\"],\"title\":"@ + json_string("Tilbakemelding fra Discord"@) + "}"@
}

/// The request that files feedback from `author_name` as an issue of the
/// bot's repository, labelled `feedback`, with `token` as the bearer.
pub fn feedback_request(token: &str, author_name: &str, message: &str) -> (request: FeedbackRequest)
    ensures
        request.url@ == "https://api.github.com/repos/echo-webkom/vaffelbot/issues"@,
        request.headers.len() == 4,
        request.headers@[0].0@ == "Accept"@,
        request.headers@[0].1@ == "application/vnd.github+json"@,
        request.headers@[1].0@ == "Authorization"@,
        request.headers@[1].1@ == "Bearer "@ + token@,
        request.headers@[2].0@ == "X-GitHub-Api-Version"@,
        request.headers@[2].1@ == "2026-03-10"@,
        request.headers@[3].0@ == "User-Agent"@,
        request.headers@[3].1@ == "vaffelbot"@,
        request.body@ == feedback_json(author_name@, message@),
{
    let mut text = String::from_str("**Tilbakemelding fra Discord-bruker:** ");
    text.append(author_name);
    text.append("\n\n---\n\n");
    text.append(message);
    assert(text@ =~= feedback_body(author_name@, message@));

    let mut body = String::from_str("{\"body\":");
    push_json_string(&mut body, text.as_str());
    body.append(",\"labels\":[\"feedback\"],\"title\":");
    push_json_string(&mut body, "Tilbakemelding fra Discord");
    body.append("}");
    assert(body@ =~= feedback_json(author_name@, message@));

    let mut bearer = String::from_str("Bearer ");
    bearer.append(token);

    let mut headers: Vec<(String, String)> = Vec::new();
    headers.push((String::from_str("Accept"), String::from_str("application/vnd.github+json")));
    headers.push((String::from_str("Authorization"), bearer));
    headers.push((String::from_str("X-GitHub-Api-Version"), String::from_str("2026-03-10")));
    headers.push((String::from_str("User-Agent"), String::from_str("vaffelbot")));

    FeedbackRequest {
        url: String::from_str("https://api.github.com/repos/echo-webkom/vaffelbot/issues"),
        headers,
        body,
    }
}

} // verus!
