use vaffelbot::{
    bake_closed_reply, check_is_oracle, deny_reply, feedback_reply, feedback_request, format_date,
    github_reply, guild_only_reply, health_check, highscore_message, leaderboard_message,
    open_activity, open_reply, queue_status, sse_snapshot, sse_update, waffle_reply,
    CalendarDate, Config, ConfigError, FeedbackOutcome, GuildRole, Highscore, QueueEntry,
    WaffleOutcome,
};

#[test]
fn closed_and_open_replies() {
    assert_eq!(bake_closed_reply(), "🔒️ Bestilling er stengt");
    assert_eq!(open_reply(true), "🔓️ Bestilling er allerede åpnet");
    assert_eq!(open_reply(false), "@here 🔓️ Bestilling er nå åpnet");
    assert_eq!(open_activity(), "🧇 Lager vafler");
    assert_eq!(guild_only_reply(), "Denne kommandoen kan bare brukes på en server.");
    assert_eq!(deny_reply(), "❌ Du har ikke tilgang til denne kommandoen.");
    assert_eq!(github_reply(), "https://github.com/echo-webkom/vaffelbot");
}

#[test]
fn waffle_replies_count_places_from_one() {
    assert_eq!(waffle_reply(WaffleOutcome::Closed), "🏮 Bestilling er stengt");
    assert_eq!(
        waffle_reply(WaffleOutcome::AlreadyQueued(0)),
        "⏲️ Du er **allerede** i køen. Du er nummer **1** i køen."
    );
    assert_eq!(
        waffle_reply(WaffleOutcome::Queued(12)),
        "⏲️ Du er nå i køen. Du er nummer **13** i køen."
    );
    assert_eq!(
        waffle_reply(WaffleOutcome::Queued(0)),
        "⏲️ Du er nå i køen. Du er nummer **1** i køen."
    );
    assert_eq!(
        waffle_reply(WaffleOutcome::AlreadyQueued(9)),
        "⏲️ Du er **allerede** i køen. Du er nummer **10** i køen."
    );
    assert_eq!(
        waffle_reply(WaffleOutcome::AlreadyQueued(usize::MAX)),
        format!("⏲️ Du er **allerede** i køen. Du er nummer **{}** i køen.", usize::MAX as u128 + 1)
    );
}

#[test]
fn leaderboard_ranks_from_one() {
    assert_eq!(leaderboard_message(&vec![]), "🧇 Ingen vafler er registrert i år.");
    let users = vec![("111".to_string(), 5), ("222".to_string(), 1)];
    assert_eq!(
        leaderboard_message(&users),
        "🏆 Topp 5 bestillere i år\n\n1. <@111> — 5 vafler\n\n2. <@222> — 1 vaffel\n"
    );
}

#[test]
fn leaderboard_shows_only_the_top_five() {
    let users: Vec<(String, i64)> = (1..=7).map(|i| (format!("{i}"), 10 - i)).collect();
    assert_eq!(
        leaderboard_message(&users),
        "🏆 Topp 5 bestillere i år\n\n1. <@1> — 9 vafler\n\n2. <@2> — 8 vafler\n\n3. <@3> — 7 vafler\n\n4. <@4> — 6 vafler\n\n5. <@5> — 5 vafler\n"
    );
}

#[test]
fn highscore_names_the_day() {
    assert_eq!(highscore_message(None), "🧇 Stek vafler for rekord!.");
    let record = Highscore { date: CalendarDate::new(2024, 3, 7).unwrap(), total_orders: 42 };
    assert_eq!(highscore_message(Some(&record)), "🏆 Rekorden er 42 vafler (07.03.2024)!");
    let single = Highscore { date: CalendarDate::new(2025, 12, 31).unwrap(), total_orders: 1 };
    assert_eq!(highscore_message(Some(&single)), "🏆 Rekorden er 1 vaffel (31.12.2025)!");
}

#[test]
fn dates_as_chrono_writes_them() {
    let cases = [(5, 1, 2), (2024, 2, 29), (12345, 6, 7), (-4, 2, 29), (999, 10, 10)];
    for (y, m, d) in cases {
        let date = CalendarDate::new(y, m, d).unwrap();
        let expected = chrono::NaiveDate::from_ymd_opt(y, m, d).unwrap().format("%d.%m.%Y").to_string();
        assert_eq!(format_date(&date), expected);
    }
    assert_eq!(format_date(&CalendarDate::new(5, 1, 2).unwrap()), "02.01.0005");
    assert_eq!(format_date(&CalendarDate::new(12345, 6, 7).unwrap()), "07.06.+12345");
}

#[test]
fn calendar_dates_agree_with_chrono() {
    for (y, m, d) in [
        (2023, 2, 29), (2024, 2, 29), (1900, 2, 29), (2000, 2, 29), (2023, 4, 31), (2023, 13, 1),
        (2023, 0, 1), (2023, 1, 0), (262142, 12, 31), (262143, 1, 1), (-262143, 1, 1),
        (-262144, 12, 31), (-100, 2, 29), (-400, 2, 29),
    ] {
        assert_eq!(
            CalendarDate::new(y, m, d).is_some(),
            chrono::NaiveDate::from_ymd_opt(y, m, d).is_some(),
            "{y}-{m}-{d}"
        );
    }
}

#[test]
fn oracle_role_is_found_in_any_case() {
    let roles = vec![
        GuildRole { id: 1, name: "Baker".to_string() },
        GuildRole { id: 2, name: "ORAKEL".to_string() },
    ];
    assert!(check_is_oracle(Some(&vec![2]), Some(&roles)));
    assert!(!check_is_oracle(Some(&vec![1]), Some(&roles)));
    assert!(!check_is_oracle(None, Some(&roles)));
    assert!(!check_is_oracle(Some(&vec![2]), None));
    assert!(!check_is_oracle(Some(&vec![2]), Some(&vec![])));
}

#[test]
fn only_the_first_oracle_role_counts() {
    let roles = vec![
        GuildRole { id: 5, name: "orakel".to_string() },
        GuildRole { id: 6, name: "Orakel".to_string() },
    ];
    assert!(check_is_oracle(Some(&vec![5]), Some(&roles)));
    assert!(!check_is_oracle(Some(&vec![6]), Some(&roles)));
}

#[test]
fn feedback_replies_and_request() {
    assert_eq!(feedback_reply(FeedbackOutcome::NotConfigured), "❌ Tilbakemelding er ikke konfigurert.");
    assert_eq!(feedback_reply(FeedbackOutcome::Sent), "✅ Takk for tilbakemeldingen! Den er sendt inn.");
    assert_eq!(feedback_reply(FeedbackOutcome::Failed), "❌ Noe gikk galt. Prøv igjen senere.");

    let request = feedback_request("tok", "ola", "Mer \"sirup\"");
    assert_eq!(request.url, "https://api.github.com/repos/echo-webkom/vaffelbot/issues");
    let headers: Vec<(&str, &str)> = request.headers.iter().map(|(k, v)| (k.as_str(), v.as_str())).collect();
    assert_eq!(
        headers,
        vec![
            ("Accept", "application/vnd.github+json"),
            ("Authorization", "Bearer tok"),
            ("X-GitHub-Api-Version", "2026-03-10"),
            ("User-Agent", "vaffelbot"),
        ]
    );
    assert_eq!(
        request.body,
        r#"{"body":"**Tilbakemelding fra Discord-bruker:** ola\n\n---\n\nMer \"sirup\"","labels":["feedback"],"title":"Tilbakemelding fra Discord"}"#
    );
    let parsed: serde_json::Value = serde_json::from_str(&request.body).unwrap();
    let title = "Tilbakemelding fra Discord".to_string();
    let body = "**Tilbakemelding fra Discord-bruker:** ola\n\n---\n\nMer \"sirup\"".to_string();
    let mut expected = serde_json::Map::new();
    expected.insert("title".to_string(), serde_json::Value::String(title));
    expected.insert("body".to_string(), serde_json::Value::String(body));
    expected.insert(
        "labels".to_string(),
        serde_json::Value::Array(vec![serde_json::Value::String("feedback".to_string())]),
    );
    assert_eq!(parsed, serde_json::Value::Object(expected.clone()));
    assert_eq!(serde_json::to_string(&serde_json::Value::Object(expected)).unwrap(), request.body);
}

#[test]
fn web_answers() {
    assert_eq!(health_check(), "OK");
    assert_eq!(queue_status(true), "open");
    assert_eq!(queue_status(false), "closed");
    let queue = vec![QueueEntry::new("foo".to_string(), "Foo User".to_string())];
    let first = sse_snapshot(&queue);
    assert_eq!(first.event, None);
    assert_eq!(first.data, r#"[{"user_id":"foo","display_name":"Foo User"}]"#);
    let update = sse_update(Some(&vec![]));
    assert_eq!(update.event, None);
    assert_eq!(update.data, "[]");
    let failed = sse_update(None);
    assert_eq!(failed.event.as_deref(), Some("error"));
    assert_eq!(failed.data, "Failed to load queue update");
}

#[test]
fn settings_need_the_three_required_values() {
    let s = |v: &str| Some(v.to_string());
    let config = Config::from_values(s("redis://r"), s("tok"), s("postgres://d"), None).unwrap();
    assert_eq!(config.redis_url, "redis://r");
    assert_eq!(config.discord_token, "tok");
    assert_eq!(config.database_url, "postgres://d");
    assert_eq!(config.github_token, None);
    let with_github = Config::from_values(s("r"), s("t"), s("d"), s("gh")).unwrap();
    assert_eq!(with_github.github_token.as_deref(), Some("gh"));

    let missing = |r, t, d| Config::from_values(r, t, d, None).err();
    assert_eq!(missing(None, s("t"), s("d")), Some(ConfigError::MissingRedisUrl));
    assert_eq!(missing(None, None, None), Some(ConfigError::MissingRedisUrl));
    assert_eq!(missing(s("r"), None, None), Some(ConfigError::MissingDiscordToken));
    assert_eq!(missing(s("r"), s("t"), None), Some(ConfigError::MissingDatabaseUrl));
    assert_eq!(ConfigError::MissingRedisUrl.message(), "Expected REDIS_URL in environment");
    assert_eq!(ConfigError::MissingDiscordToken.message(), "Expected a token in the environment");
    assert_eq!(ConfigError::MissingDatabaseUrl.message(), "Expected DATABASE_URL in environment");
}
