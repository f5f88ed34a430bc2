//! The request descriptors, one per API operation. Each is an independent
//! value type that implements the [`crate::endpoint::Endpoint`] capability.

mod all_races;
mod leaderboards;
mod past_category_races;
mod user_data;
mod user_search;

pub use all_races::AllRaces;
pub use leaderboards::Leaderboards;
pub use past_category_races::lemma_optional_fields_omitted_at_default;
pub use past_category_races::PastCategoryRaces;
pub use user_data::UserData;
pub use user_search::UserSearch;
