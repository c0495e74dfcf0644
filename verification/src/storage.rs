//! The records the persistence layer stores for each guild: manga feeds,
//! self-assignable roles, per-guild settings, and the trivia game's
//! category and difficulty scales.  Each stored record has a companion
//! `New...` value carrying the fields an insertion supplies.

use vstd::prelude::*;

verus! {

/// A stored manga-release feed: which manga is announced in which
/// channel of which guild.
#[derive(Clone, Debug)]
pub struct Feed {
    pub id: i32,
    pub server: i64,
    pub channel: i64,
    pub manga: String,
}

/// The fields a new feed is inserted with.
#[derive(Clone, Debug)]
pub struct NewFeed {
    pub server_id: i64,
    pub channel_id: i64,
    pub manga_id: String,
}

/// A stored self-assignable role record of one guild.
#[derive(Clone, Debug)]
pub struct Role {
    pub id: i32,
    pub server: i64,
    pub data: String,
}

/// The fields a new role record is inserted with.
#[derive(Clone, Debug)]
pub struct NewRole {
    pub server_id: i64,
    pub data: String,
}

/// Stored per-guild settings: for now, the command prefix.
#[derive(Clone, Debug)]
pub struct ServerSettings {
    pub id: i32,
    pub server_id: i64,
    pub prefix: String,
}

/// The fields new per-guild settings are inserted with.
#[derive(Clone, Debug)]
pub struct NewServerSettings {
    pub server_id: i64,
    pub prefix: String,
}

/// What a trivia puzzle is about.
#[derive(Clone, PartialEq, Eq, Structural, Debug)]
pub enum Categories {
    Anime,
    Manga,
    Game,
    TV,
    Movie,
}

/// How hard a trivia puzzle is.
#[derive(Clone, PartialEq, Eq, Structural, Debug)]
pub enum Difficulties {
    Easy,
    Medium,
    Hard,
}

} // verus!
