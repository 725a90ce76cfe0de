use vaffelbot::{
    change_notifies, encode_entry, encode_queue, pop_request, position_of_user, queue_key,
    GuildChannels, OpenGuilds, QueueChange, QueueEntry,
};

fn entry(user_id: &str, display_name: &str) -> QueueEntry {
    QueueEntry::new(user_id.to_string(), display_name.to_string())
}

#[test]
fn queue_key_names_the_guild() {
    assert_eq!(queue_key("test-guild"), "queue:test-guild");
    assert_eq!(queue_key(""), "queue:");
}

#[test]
fn index_of_finds_first_place() {
    let queue = vec![entry("foo", "Foo User"), entry("bar", "Bar User")];
    assert_eq!(position_of_user(&queue, "foo"), Some(0));
    assert_eq!(position_of_user(&queue, "bar"), Some(1));
    assert_eq!(position_of_user(&queue, "baz"), None);
}

#[test]
fn index_of_takes_the_earliest_entry() {
    let queue = vec![entry("a", "A"), entry("b", "B"), entry("a", "A again")];
    assert_eq!(position_of_user(&queue, "a"), Some(0));
    assert_eq!(position_of_user(&vec![], "a"), None);
}

#[test]
fn popping_nothing_asks_nothing() {
    assert_eq!(pop_request("g", 0), None);
    assert_eq!(pop_request("g", 3), Some(("queue:g".to_string(), 3)));
    assert!(!change_notifies(QueueChange::Popped(0)));
    assert!(change_notifies(QueueChange::Popped(2)));
    assert!(change_notifies(QueueChange::Pushed));
    assert!(change_notifies(QueueChange::Cleared));
}

#[test]
fn entries_are_stored_as_json_objects() {
    assert_eq!(
        encode_entry(&entry("foo", "Foo User")),
        r#"{"user_id":"foo","display_name":"Foo User"}"#
    );
    assert_eq!(
        encode_entry(&entry("q\"b", "line\nbreak\\")),
        r#"{"user_id":"q\"b","display_name":"line\nbreak\\"}"#
    );
}

#[test]
fn queues_are_sent_as_json_arrays() {
    assert_eq!(encode_queue(&vec![]), "[]");
    assert_eq!(
        encode_queue(&vec![entry("foo", "Foo User"), entry("bar", "Bar User")]),
        r#"[{"user_id":"foo","display_name":"Foo User"},{"user_id":"bar","display_name":"Bar User"}]"#
    );
}

#[test]
fn open_and_close_guilds() {
    let mut guilds = OpenGuilds::new();
    assert!(!guilds.is_open("g"));
    guilds.open("g");
    guilds.open("g");
    guilds.open("h");
    assert!(guilds.is_open("g"));
    assert!(guilds.is_open("h"));
    guilds.close("g");
    assert!(!guilds.is_open("g"));
    assert!(guilds.is_open("h"));
    guilds.close("g");
    assert!(!guilds.is_open("g"));
}

#[test]
fn watchers_of_a_guild_share_its_channel() {
    let mut channels: GuildChannels<u32> = GuildChannels::new();
    assert_eq!(channels.get("g"), None);
    assert_eq!(*channels.get_or_insert_with("g", || 1), 1);
    assert_eq!(*channels.get_or_insert_with("g", || 2), 1);
    assert_eq!(*channels.get_or_insert_with("h", || 3), 3);
    assert_eq!(channels.get("g"), Some(&1));
    assert_eq!(channels.get("h"), Some(&3));
}

#[test]
fn a_kept_channel_is_not_made_again() {
    let mut channels: GuildChannels<u32> = GuildChannels::new();
    channels.get_or_insert_with("g", || 1);
    let mut made = false;
    channels.get_or_insert_with("g", || {
        made = true;
        2
    });
    assert!(!made);
}

#[test]
fn control_characters_are_escaped_as_serde_json_does() {
    let display = "tab\tcr\rff\u{c}bs\u{8}bell\u{7}esc\u{1b}del\u{7f}/é";
    let expected = format!(r#"{{"user_id":"u","display_name":{}}}"#, serde_json::to_string(display).unwrap());
    assert_eq!(encode_entry(&entry("u", display)), expected);
    assert_eq!(
        encode_entry(&entry("u", "\u{7}\u{1b}")),
        r#"{"user_id":"u","display_name":"\u0007\u001b"}"#
    );
}

#[test]
fn changes_are_announced_on_the_guilds_own_channel() {
    let mut channels: GuildChannels<u32> = GuildChannels::new();
    channels.get_or_insert_with("g", || 1);
    channels.get_or_insert_with("h", || 2);
    assert_eq!(channels.announcement_channel("g", QueueChange::Pushed), Some(&1));
    assert_eq!(channels.announcement_channel("h", QueueChange::Cleared), Some(&2));
    assert_eq!(channels.announcement_channel("g", QueueChange::Popped(3)), Some(&1));
    assert_eq!(channels.announcement_channel("g", QueueChange::Popped(0)), None);
    assert_eq!(channels.announcement_channel("x", QueueChange::Pushed), None);
}
