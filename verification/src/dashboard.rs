//! What the companion HTTP service and its dashboard exchange: the
//! bot's view of a guild, and a small status record.

use vstd::prelude::*;

verus! {

/// The bot's view of one guild, as the dashboard shows it.
#[derive(Clone, Debug)]
pub struct Guild {
    /// The unique identity of the guild.
    pub id: u64,
    /// Whether the platform considers the guild large.
    pub large: bool,
    /// How many members the guild has.
    pub member_count: u64,
    /// The guild's name.
    pub name: String,
    /// The identity of the user who owns the guild.
    pub owner_id: u64,
    /// The voice region the guild is configured for.
    pub region: String,
    /// An identifying hash of the guild's splash icon.
    pub splash: Option<String>,
    /// An identifying hash of the guild discovery's splash icon.
    pub discovery_splash: Option<String>,
    /// The channel system messages are sent to.
    pub system_channel_id: Option<u64>,
    /// The channel showing rules and guidelines.
    pub rules_channel_id: Option<u64>,
    /// The channel admins receive platform notices in.
    pub public_updates_channel_id: Option<u64>,
    /// The guild's description, if it has one.
    pub description: Option<String>,
    /// How many users currently boost the guild.
    pub premium_subscription_count: u64,
    /// The guild's banner, if it has one.
    pub banner: Option<String>,
    /// The guild's vanity invite code, if it has one.
    pub vanity_url_code: Option<String>,
    /// The guild's preferred locale.
    pub preferred_locale: String,
    /// Approximate member count, when reported.
    pub approximate_member_count: Option<u64>,
    /// Approximate count of members not offline, when reported.
    pub approximate_presence_count: Option<u64>,
    /// Whether the guild is designated as not safe for work.
    pub nsfw: bool,
    /// The most users a video channel allows.
    pub max_video_channel_users: Option<u64>,
    /// The most presences the guild allows.
    pub max_presences: Option<u64>,
    /// The most members the guild allows.
    pub max_members: Option<u64>,
    /// Whether the guild widget is enabled.
    pub widget_enabled: Option<bool>,
    /// The channel the widget invites into, if any.
    pub widget_channel_id: Option<u64>,
    /// The active threads visible to the bot.
    pub threads: Vec<u64>,
}

/// A list of guilds, as the dashboard receives it.
#[derive(Clone, Debug)]
pub struct Guilds {
    pub guilds: Vec<Guild>,
}

/// The bot's status line: its name and how many commands it has served.
#[derive(Clone, Debug)]
pub struct Status {
    pub name: String,
    pub commands: u64,
}

} // verus!
