use vaffelbot::{create_baked_message, is_valid_user_id, user_ids, QueueEntry};

fn create_queue_entry(user_id: &str) -> QueueEntry {
    QueueEntry {
        user_id: user_id.to_string(),
        display_name: String::new(),
    }
}

#[test]
fn test_create_baked_message_single() {
    let entry = create_queue_entry("123456789");
    let msg = create_baked_message(&vec![entry]);
    assert_eq!(msg, "🧇 Stekte 1 en vaffel til: <@123456789>");
}

#[test]
fn test_create_baked_for_two() {
    let entries = vec![
        create_queue_entry("123456789"),
        create_queue_entry("987654321"),
    ];
    let msg = create_baked_message(&entries);
    assert_eq!(msg, "🧇 Stekte 2 vafler til: <@123456789> og <@987654321>");
}

#[test]
fn test_create_baked_for_three() {
    let entries = vec![
        create_queue_entry("123456789"),
        create_queue_entry("987654321"),
        create_queue_entry("555555555"),
    ];
    let msg = create_baked_message(&entries);
    assert_eq!(
        msg,
        "🧇 Stekte 3 vafler til: <@123456789>, <@987654321> og <@555555555>"
    );
}

#[test]
fn test_create_baked_message_empty() {
    let msg = create_baked_message(&vec![]);
    assert_eq!(msg, "😟 Ingen å steke vafler til.");
}

#[test]
fn baked_message_for_four_separates_with_commas() {
    let entries = vec![
        create_queue_entry("1"),
        create_queue_entry("2"),
        create_queue_entry("3"),
        create_queue_entry("4"),
    ];
    assert_eq!(
        create_baked_message(&entries),
        "🧇 Stekte 4 vafler til: <@1>, <@2>, <@3> og <@4>"
    );
}

#[test]
fn baked_message_mentions_the_number_that_the_id_denotes() {
    let entries = vec![create_queue_entry("+0042")];
    assert_eq!(create_baked_message(&entries), "🧇 Stekte 1 en vaffel til: <@42>");
}

#[test]
fn baked_message_counts_past_nine() {
    let entries: Vec<QueueEntry> = (1..=12).map(|i| create_queue_entry(&i.to_string())).collect();
    let msg = create_baked_message(&entries);
    assert!(msg.starts_with("🧇 Stekte 12 vafler til: <@1>, <@2>,"));
    assert!(msg.ends_with("<@11> og <@12>"));
}

#[test]
fn user_ids_that_can_be_mentioned() {
    assert!(is_valid_user_id("123456789"));
    assert!(is_valid_user_id("+7"));
    assert!(is_valid_user_id("18446744073709551615"));
    assert!(!is_valid_user_id("0"));
    assert!(!is_valid_user_id("18446744073709551616"));
    assert!(!is_valid_user_id("-7"));
    assert!(!is_valid_user_id(""));
    assert!(!is_valid_user_id("+"));
    assert!(!is_valid_user_id(" 7"));
    assert!(!is_valid_user_id("7a"));
}

#[test]
fn baked_user_ids_keep_queue_order() {
    let entries = vec![create_queue_entry("3"), create_queue_entry("1"), create_queue_entry("2")];
    assert_eq!(user_ids(&entries), vec!["3".to_string(), "1".to_string(), "2".to_string()]);
}
