//! Vaffelbot: the verified core of a Discord bot that keeps a waffle queue
//! per guild, announces who got waffles and keeps the order statistics.

pub mod commands;
pub mod config;
pub mod guilds;
pub mod http;
pub mod json;
pub mod laws;
pub mod messages;
pub mod orders;
pub mod queue;
pub mod text;

pub use commands::{
    bake_start, bake_step, open_start, open_step, waffle_start, waffle_step, BakeAction, BakeEvent,
    BakeState, OpenAction, OpenEvent, OpenState, WaffleAction, WaffleEvent, WaffleState,
};
pub use config::{Config, ConfigError};
pub use guilds::{GuildChannels, OpenGuilds};
pub use http::{health_check, queue_status, sse_snapshot, sse_update, SseEvent};
pub use json::{encode_entry, encode_queue};
pub use messages::{
    bake_closed_reply, check_is_oracle, create_baked_message, deny_reply, feedback_reply,
    feedback_request, github_reply, guild_only_reply, highscore_message, is_valid_user_id,
    leaderboard_message, open_activity, open_reply, waffle_reply, FeedbackOutcome,
    FeedbackRequest, GuildRole, WaffleOutcome,
};
pub use orders::{format_date, CalendarDate, DailyStats, Highscore};
pub use queue::{
    change_notifies, pop_request, position_of_user, queue_key, user_ids, QueueChange, QueueEntry,
    QueueEvent,
};
