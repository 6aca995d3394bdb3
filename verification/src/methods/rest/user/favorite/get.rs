//! Listing a user's favorites.
use vstd::prelude::*;

verus! {

/// Favorites a page.
pub const LIMIT: usize = 15;

/// A favorite as the listing shows it.
pub struct Favorite {
    pub source: String,
    pub id: String,
    pub tags: Vec<String>,
    pub current_watch_season_index: Option<i32>,
    pub current_watch_episode_index: Option<i32>,
    pub timestamp: usize,
}

/// The tags of a row: the stored list when it reads as a list of strings,
/// else none.
pub open spec fn tags_or_empty(tags: Option<Vec<String>>) -> Seq<String> {
    match tags {
        Some(list) => list@,
        None => Seq::empty(),
    }
}

/// A row's tags are listed exactly as stored: a stored list gives the same
/// tags in the same order, and a value that is not a list gives none.
pub proof fn lemma_tags_listed_as_stored(tags: Option<Vec<String>>)
    ensures
        tags matches Some(list) ==> tags_or_empty(tags).len() == list@.len() && forall|i: int|
            0 <= i < list@.len() ==> #[trigger] tags_or_empty(tags)[i] == list@[i],
        tags is None ==> tags_or_empty(tags).len() == 0,
{
}

impl Favorite {
    /// A favorite from a selected row: `tags` is the stored JSON read as a list
    /// of strings (`None` when it does not read as one, which gives no tags);
    /// the stored `i64` timestamp is read as `usize`.
    pub fn from_row(
        source: String,
        id: String,
        tags: Option<Vec<String>>,
        current_watch_season_index: Option<i32>,
        current_watch_episode_index: Option<i32>,
        timestamp: i64,
    ) -> (r: Favorite)
        ensures
            r.source == source,
            r.id == id,
            r.tags@ == tags_or_empty(tags),
            tags matches Some(list) ==> r.tags@ == list@,
            tags is None ==> r.tags@.len() == 0,
            r.current_watch_season_index == current_watch_season_index,
            r.current_watch_episode_index == current_watch_episode_index,
            r.timestamp == timestamp as usize,
    {
        let tags = match tags {
            Some(list) => list,
            None => Vec::new(),
        };
        Favorite {
            source,
            id,
            tags,
            current_watch_season_index,
            current_watch_episode_index,
            timestamp: timestamp as usize,
        }
    }
}

} // verus!
