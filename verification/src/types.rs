//! The response shapes: plain data records mirroring the JSON the API
//! returns. These are pure value types with no behavior; they are normally
//! constructed by deserializing a response body, and any invariants among
//! their fields are whatever the server guarantees. Timestamps are carried
//! as opaque strings: no timezone or date parsing is performed here.

use vstd::prelude::*;

verus! {

/// The status of a race or of an entrant.
#[derive(Debug, Clone)]
pub struct Status {
    pub value: String,
    pub verbose_value: String,
    pub help_text: String,
}

/// The goal of a race.
#[derive(Debug, Clone)]
pub struct Goal {
    pub name: String,
    pub custom: bool,
}

/// A user profile.
#[derive(Debug, Clone)]
pub struct User {
    pub id: String,
    /// name with scrim (e.g. FoxLisk#8582)
    pub full_name: String,
    /// name without scrim (e.g. FoxLisk)
    pub name: String,
    /// scrim without name (e.g. 8582)
    pub discriminator: String,
    pub url: String,
    pub avatar: Option<String>,
    pub pronouns: Option<String>,
    /// note this is actually a space-separated list
    pub flair: String,
    pub twitch_name: Option<String>,
    pub twitch_channel: Option<String>,
    pub can_moderate: bool,
}

/// An entrant of a past race.
#[derive(Debug, Clone)]
pub struct PastRaceEntrant {
    pub status: Status,
    pub finish_time: Option<String>,
    pub finished_at: Option<String>,
    pub place: Option<u32>,
    pub place_ordinal: Option<String>,
    /// score when the user _entered_ the race
    pub score: Option<u32>,
    /// null until recorded
    pub score_change: Option<i32>,
    pub comment: Option<String>,
    pub has_comment: bool,
    pub stream_override: bool,
    pub user: User,
}

/// The category summary nested inside a race record.
#[derive(Debug, Clone)]
pub struct PartialCategory {
    pub name: String,
    pub short_name: String,
    pub slug: String,
    pub url: String,
    pub data_url: String,
    pub image: String,
}

/// A race summary.
#[derive(Debug, Clone)]
pub struct Race {
    pub name: String,
    pub status: Status,
    pub url: String,
    pub data_url: String,
    pub goal: Goal,
    pub info: String,
    pub entrants_count: u16,
    pub entrants_count_finished: u16,
    pub entrants_count_inactive: u16,
    pub opened_at: String,
    pub started_at: Option<String>,
    pub time_limit: String,
}

/// A race together with the category it belongs to. On the wire, the race
/// fields and the `category` field sit flattened in one JSON object.
#[derive(Debug, Clone)]
pub struct RaceWithPartialCategory {
    pub race: Race,
    pub category: PartialCategory,
}

/// A list of races. This is suitable for use as `Races<Race>` or
/// `Races<RaceWithPartialCategory>`, depending on endpoint.
#[derive(Debug, Clone)]
pub struct Races<T> {
    pub races: Vec<T>,
}

/// A paginated list of races. On the wire, the `{count, num_pages}`
/// pagination envelope and the `{races: [...]}` list sit flattened in one
/// JSON object.
#[derive(Debug, Clone)]
pub struct RacesPaginated<T> {
    pub count: u32,
    pub num_pages: u32,
    pub races: Races<T>,
}

/// A race together with its entrants. On the wire, the race fields and the
/// `entrants` field sit flattened in one JSON object.
#[derive(Debug, Clone)]
pub struct RaceWithEntrants {
    pub race: Race,
    pub entrants: Vec<PastRaceEntrant>,
}

} // verus!
