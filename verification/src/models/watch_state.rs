//! The cache of playback positions that clients report, waiting to be written
//! to the database.
//!
//! Per user the cache keeps a tree source -> title id -> season -> episode ->
//! position, and the time the user's entry was written. A report replaces the
//! user's whole entry. A flush takes every cached position out as an upload job,
//! then drops the entries written before the flush began.
use dashmap::DashMap;
use vstd::prelude::*;

use crate::utils::clock::now_millis;
use crate::utils::ids::{is_record_id, new_record_id};

verus! {

/// A playback position: the position within the episode (an `f64` of seconds,
/// kept as its bit pattern) and when the client recorded it.
#[derive(Clone, Copy, Debug, PartialEq, Eq)]
pub struct WatchState {
    pub current_time: u64,
    pub timestamp: usize,
}

/// One user's cached positions and when the entry was written.
pub struct CacheInfo {
    pub info: DashMap<String, DashMap<String, DashMap<usize, DashMap<usize, WatchState>>>>,
    pub timestamp: usize,
}

/// Positions by episode index.
pub type EpisodeView = Map<usize, WatchState>;
/// Positions by season index, then episode index.
pub type SeasonView = Map<usize, EpisodeView>;
/// Positions by title id, then season and episode.
pub type TitleView = Map<Seq<char>, SeasonView>;
/// Positions by source, then title id, season and episode.
pub type SourceView = Map<Seq<char>, TitleView>;

/// What an episode map holds.
pub uninterp spec fn episode_entries(map: DashMap<usize, WatchState>) -> Map<usize, WatchState>;

/// What a season map holds, with each episode map read as what it holds.
pub uninterp spec fn season_entries(map: DashMap<usize, DashMap<usize, WatchState>>) -> Map<usize, Map<usize, WatchState>>;

/// What a title map holds, with each season map read as what it holds.
pub uninterp spec fn title_entries(map: DashMap<String, DashMap<usize, DashMap<usize, WatchState>>>) -> Map<
    Seq<char>,
    Map<usize, Map<usize, WatchState>>,
>;

/// What a source map holds, with each title map read as what it holds.
pub uninterp spec fn source_entries(
    map: DashMap<String, DashMap<String, DashMap<usize, DashMap<usize, WatchState>>>>,
) -> Map<Seq<char>, Map<Seq<char>, Map<usize, Map<usize, WatchState>>>>;

/// What the per-user cache map holds.
pub uninterp spec fn cache_entries(map: DashMap<String, CacheInfo>) -> Map<Seq<char>, CacheInfo>;

/// `DashMap::new` for episode maps: an empty map.
#[verifier::external_body]
fn episodes_new() -> (r: DashMap<usize, WatchState>)
    ensures
        episode_entries(r) =~= Map::empty(),
{
    DashMap::new()
}

/// `DashMap::new` for season maps: an empty map.
#[verifier::external_body]
fn seasons_new() -> (r: DashMap<usize, DashMap<usize, WatchState>>)
    ensures
        season_entries(r) =~= Map::empty(),
{
    DashMap::new()
}

/// `DashMap::new` for title maps: an empty map.
#[verifier::external_body]
fn titles_new() -> (r: DashMap<String, DashMap<usize, DashMap<usize, WatchState>>>)
    ensures
        title_entries(r) =~= Map::empty(),
{
    DashMap::new()
}

/// `DashMap::new` for source maps: an empty map.
#[verifier::external_body]
fn sources_new() -> (r: DashMap<String, DashMap<String, DashMap<usize, DashMap<usize, WatchState>>>>)
    ensures
        source_entries(r) =~= Map::empty(),
{
    DashMap::new()
}

/// `DashMap::new` for the per-user map: an empty map.
#[verifier::external_body]
fn caches_new() -> (r: DashMap<String, CacheInfo>)
    ensures
        cache_entries(r) =~= Map::empty(),
{
    DashMap::new()
}

/// `DashMap::insert` into an episode map.
#[verifier::external_body]
fn episodes_insert(map: &mut DashMap<usize, WatchState>, key: usize, value: WatchState)
    ensures
        episode_entries(*final(map)) == episode_entries(*old(map)).insert(key, value),
{
    map.insert(key, value);
}

/// `DashMap::insert` into a season map; the stored map is read as what it holds.
#[verifier::external_body]
fn seasons_insert(map: &mut DashMap<usize, DashMap<usize, WatchState>>, key: usize, value: DashMap<usize, WatchState>)
    ensures
        season_entries(*final(map)) == season_entries(*old(map)).insert(key, episode_entries(value)),
{
    map.insert(key, value);
}

/// `DashMap::insert` into a title map; the stored map is read as what it holds.
#[verifier::external_body]
fn titles_insert(
    map: &mut DashMap<String, DashMap<usize, DashMap<usize, WatchState>>>,
    key: String,
    value: DashMap<usize, DashMap<usize, WatchState>>,
)
    ensures
        title_entries(*final(map)) == title_entries(*old(map)).insert(key@, season_entries(value)),
{
    map.insert(key, value);
}

/// `DashMap::insert` into a source map; the stored map is read as what it holds.
#[verifier::external_body]
fn sources_insert(
    map: &mut DashMap<String, DashMap<String, DashMap<usize, DashMap<usize, WatchState>>>>,
    key: String,
    value: DashMap<String, DashMap<usize, DashMap<usize, WatchState>>>,
)
    ensures
        source_entries(*final(map)) == source_entries(*old(map)).insert(key@, title_entries(value)),
{
    map.insert(key, value);
}

/// `DashMap::insert` into the per-user map.
#[verifier::external_body]
fn caches_insert(map: &mut DashMap<String, CacheInfo>, key: String, value: CacheInfo)
    ensures
        cache_entries(*final(map)) == cache_entries(*old(map)).insert(key@, value),
{
    map.insert(key, value);
}

/// `DashMap::retain` with a test of the library: exactly the entries written
/// after `now` stay.
#[verifier::external_body]
fn caches_retain_newer(map: &mut DashMap<String, CacheInfo>, now: usize)
    ensures
        cache_entries(*final(map)) == cache_entries(*old(map)).filter_keys(
            |user: Seq<char>| cache_entries(*old(map))[user].timestamp > now,
        ),
{
    map.retain(|_, info| cache_info_is_newer(info, now));
}

/// Whether a user's entry was written after `now`.
pub fn cache_info_is_newer(info: &CacheInfo, now: usize) -> (r: bool)
    ensures
        r == (info.timestamp > now),
{
    info.timestamp > now
}

/// A user's entry read as what it holds.
pub open spec fn info_view(info: CacheInfo) -> (SourceView, usize) {
    (source_entries(info.info), info.timestamp)
}

/// The tree that a report puts in a user's entry: the one position, alone.
pub open spec fn single_position(
    source: Seq<char>,
    id: Seq<char>,
    season_index: usize,
    episode_index: usize,
    state: WatchState,
) -> SourceView {
    map![source => map![id => map![season_index => map![episode_index => state]]]]
}

/// One cached position, ready to be written to the database.
#[derive(Debug)]
pub struct UploadJob {
    pub user_id: String,
    pub source: String,
    pub id: String,
    pub season_index: usize,
    pub episode_index: usize,
    pub state: WatchState,
}

/// A job read as plain values: user, source, title id, season, episode, position.
pub type JobView = (Seq<char>, Seq<char>, Seq<char>, usize, usize, WatchState);

/// A job read as plain values.
pub open spec fn job_view(job: UploadJob) -> JobView {
    (job.user_id@, job.source@, job.id@, job.season_index, job.episode_index, job.state)
}

/// The jobs of a list, read as plain values.
pub open spec fn job_views(jobs: Seq<UploadJob>) -> Set<JobView> {
    Set::new(|v: JobView| exists|i: int| 0 <= i < jobs.len() && #[trigger] job_view(jobs[i]) == v)
}

/// The episode map holds `state` under `episode`.
pub open spec fn episode_leaf(m: EpisodeView, episode: usize, state: WatchState) -> bool {
    m.dom().contains(episode) && m[episode] == state
}

/// The season map holds `state` under `season`, `episode`.
pub open spec fn season_leaf(m: SeasonView, season: usize, episode: usize, state: WatchState) -> bool {
    m.dom().contains(season) && episode_leaf(m[season], episode, state)
}

/// The title map holds `state` under `id`, `season`, `episode`.
pub open spec fn title_leaf(m: TitleView, id: Seq<char>, season: usize, episode: usize, state: WatchState) -> bool {
    m.dom().contains(id) && season_leaf(m[id], season, episode, state)
}

/// The source map holds `state` under `source`, `id`, `season`, `episode`.
pub open spec fn source_leaf(
    m: SourceView,
    source: Seq<char>,
    id: Seq<char>,
    season: usize,
    episode: usize,
    state: WatchState,
) -> bool {
    m.dom().contains(source) && title_leaf(m[source], id, season, episode, state)
}

/// The cache holds the position that the job describes.
pub open spec fn is_cached(caches: Map<Seq<char>, (SourceView, usize)>, v: JobView) -> bool {
    caches.dom().contains(v.0) && source_leaf(caches[v.0].0, v.1, v.2, v.3, v.4, v.5)
}

/// Every position the cache holds, as jobs.
pub open spec fn cached_positions(caches: Map<Seq<char>, (SourceView, usize)>) -> Set<JobView> {
    Set::new(|v: JobView| is_cached(caches, v))
}

spec fn episode_jobs(user: Seq<char>, source: Seq<char>, id: Seq<char>, season: usize, m: EpisodeView) -> Set<JobView> {
    Set::new(
        |v: JobView|
            v.0 == user && v.1 == source && v.2 == id && v.3 == season && episode_leaf(m, v.4, v.5),
    )
}

spec fn season_jobs(user: Seq<char>, source: Seq<char>, id: Seq<char>, m: SeasonView, keys: Set<usize>) -> Set<JobView> {
    Set::new(
        |v: JobView|
            v.0 == user && v.1 == source && v.2 == id && keys.contains(v.3) && season_leaf(m, v.3, v.4, v.5),
    )
}

spec fn title_jobs(user: Seq<char>, source: Seq<char>, m: TitleView, keys: Set<Seq<char>>) -> Set<JobView> {
    Set::new(
        |v: JobView| v.0 == user && v.1 == source && keys.contains(v.2) && title_leaf(m, v.2, v.3, v.4, v.5),
    )
}

spec fn source_jobs(user: Seq<char>, m: SourceView, keys: Set<Seq<char>>) -> Set<JobView> {
    Set::new(|v: JobView| v.0 == user && keys.contains(v.1) && source_leaf(m, v.1, v.2, v.3, v.4, v.5))
}

spec fn cache_jobs(caches: Map<Seq<char>, (SourceView, usize)>, keys: Set<Seq<char>>) -> Set<JobView> {
    Set::new(|v: JobView| keys.contains(v.0) && is_cached(caches, v))
}

proof fn lemma_job_views_append(a: Seq<UploadJob>, b: Seq<UploadJob>)
    ensures
        job_views(a + b) == job_views(a).union(job_views(b)),
{
    assert forall|v: JobView| job_views(a + b).contains(v) implies job_views(a).union(job_views(b)).contains(v) by {
        let i = choose|i: int| 0 <= i < (a + b).len() && #[trigger] job_view((a + b)[i]) == v;
        if i < a.len() {
            assert(job_view(a[i]) == v);
        } else {
            assert(job_view(b[i - a.len()]) == v);
        }
    }
    assert forall|v: JobView| job_views(a).union(job_views(b)).contains(v) implies job_views(a + b).contains(v) by {
        if job_views(a).contains(v) {
            let i = choose|i: int| 0 <= i < a.len() && #[trigger] job_view(a[i]) == v;
            assert(job_view((a + b)[i]) == v);
        } else {
            let i = choose|i: int| 0 <= i < b.len() && #[trigger] job_view(b[i]) == v;
            assert(job_view((a + b)[a.len() + i]) == v);
        }
    }
    assert(job_views(a + b) =~= job_views(a).union(job_views(b)));
}

/// No two jobs of the list describe the same position.
pub open spec fn distinct_jobs(jobs: Seq<UploadJob>) -> bool {
    forall|i: int, j: int| 0 <= i < j < jobs.len() ==> job_view(#[trigger] jobs[i]) != job_view(#[trigger] jobs[j])
}

/// Appending jobs for positions not listed yet: the positions add up, and no
/// position is listed twice.
proof fn lemma_append_jobs(a: Seq<UploadJob>, b: Seq<UploadJob>)
    requires
        distinct_jobs(a),
        distinct_jobs(b),
        job_views(a).disjoint(job_views(b)),
    ensures
        job_views(a + b) == job_views(a).union(job_views(b)),
        distinct_jobs(a + b),
{
    lemma_job_views_append(a, b);
    assert forall|i: int, j: int| 0 <= i < j < (a + b).len() implies job_view(#[trigger] (a + b)[i]) != job_view(
        #[trigger] (a + b)[j],
    ) by {
        if i < a.len() && j >= a.len() {
            assert(job_views(a).contains(job_view(a[i])));
            assert(job_views(b).contains(job_view(b[j - a.len()])));
        } else if j < a.len() {
            assert((a + b)[i] == a[i] && (a + b)[j] == a[j]);
        } else {
            assert((a + b)[i] == b[i - a.len()] && (a + b)[j] == b[j - a.len()]);
        }
    }
}

proof fn lemma_job_views_empty()
    ensures
        job_views(Seq::<UploadJob>::empty()) == Set::<JobView>::empty(),
{
    assert(job_views(Seq::<UploadJob>::empty()) =~= Set::<JobView>::empty());
}

/// The pairs of an episode map: `DashMap::iter`, each entry copied out.
#[verifier::external_body]
fn episode_list(map: &DashMap<usize, WatchState>) -> (r: Vec<(usize, WatchState)>)
    ensures
        forall|i: int|
            0 <= i < r@.len() ==> episode_leaf(episode_entries(*map), (#[trigger] r@[i]).0, r@[i].1),
        forall|k: usize|
            episode_entries(*map).dom().contains(k) ==> exists|i: int| 0 <= i < r@.len() && (#[trigger] r@[i]).0 == k,
        forall|i: int, j: int| 0 <= i < j < r@.len() ==> (#[trigger] r@[i]).0 != (#[trigger] r@[j]).0,
{
    map.iter().map(|entry| (*entry.key(), *entry.value())).collect()
}

/// The jobs for every position of one episode map.
fn collect_episodes(
    user: &String,
    source: &String,
    id: &String,
    season: usize,
    map: &DashMap<usize, WatchState>,
) -> (r: Vec<UploadJob>)
    ensures
        job_views(r@) == episode_jobs(user@, source@, id@, season, episode_entries(*map)),
        distinct_jobs(r@),
{
    let list = episode_list(map);
    let mut out: Vec<UploadJob> = Vec::new();
    let mut i: usize = 0;
    while i < list.len()
        invariant
            i <= list@.len(),
            out@.len() == i,
            forall|k: int|
                0 <= k < i ==> #[trigger] job_view(out@[k]) == (user@, source@, id@, season, list@[k].0, list@[k].1),
        decreases list@.len() - i,
    {
        let (episode, state) = list[i];
        out.push(
            UploadJob {
                user_id: user.clone(),
                source: source.clone(),
                id: id.clone(),
                season_index: season,
                episode_index: episode,
                state,
            },
        );
        i = i + 1;
    }
    proof {
        let m = episode_entries(*map);
        let target = episode_jobs(user@, source@, id@, season, m);
        assert forall|v: JobView| job_views(out@).contains(v) implies target.contains(v) by {
            let k = choose|k: int| 0 <= k < out@.len() && #[trigger] job_view(out@[k]) == v;
            assert(job_view(out@[k]) == (user@, source@, id@, season, list@[k].0, list@[k].1));
            assert(episode_leaf(m, list@[k].0, list@[k].1));
        }
        assert forall|v: JobView| target.contains(v) implies job_views(out@).contains(v) by {
            assert(m.dom().contains(v.4));
            let k = choose|k: int| 0 <= k < list@.len() && (#[trigger] list@[k]).0 == v.4;
            assert(episode_leaf(m, list@[k].0, list@[k].1));
            assert(job_view(out@[k]) == v);
        }
        assert(job_views(out@) =~= target);
        assert forall|a: int, b: int| 0 <= a < b < out@.len() implies job_view(#[trigger] out@[a]) != job_view(
            #[trigger] out@[b],
        ) by {
            assert(job_view(out@[a]) == (user@, source@, id@, season, list@[a].0, list@[a].1));
            assert(job_view(out@[b]) == (user@, source@, id@, season, list@[b].0, list@[b].1));
            assert(list@[a].0 != list@[b].0);
        }
    }
    out
}

/// The keys among the first `n` of `keys`.
spec fn keys_upto<K>(keys: Seq<K>, n: int) -> Set<K> {
    Set::new(|k: K| exists|j: int| 0 <= j < n && keys[j] == k)
}

/// The keys of a list of pairs keyed by index.
spec fn index_keys<V>(list: Seq<(usize, V)>) -> Seq<usize> {
    list.map_values(|pair: (usize, V)| pair.0)
}

/// The keys of a list of pairs keyed by text, read as text.
spec fn text_keys<V>(list: Seq<(String, V)>) -> Seq<Seq<char>> {
    list.map_values(|pair: (String, V)| pair.0@)
}

/// No key occurs twice.
spec fn keys_distinct<K>(keys: Seq<K>) -> bool {
    forall|a: int, b: int| 0 <= a < b < keys.len() ==> keys[a] != keys[b]
}

/// Taking one more key of a list without repeats adds that key, which is new.
proof fn lemma_keys_upto_step<K>(keys: Seq<K>, i: int)
    requires
        0 <= i < keys.len(),
        keys_distinct(keys),
    ensures
        keys_upto(keys, i + 1) == keys_upto(keys, i).insert(keys[i]),
        !keys_upto(keys, i).contains(keys[i]),
{
    assert forall|k: K| keys_upto(keys, i + 1).contains(k) implies keys_upto(keys, i).insert(keys[i]).contains(k) by {
        let j = choose|j: int| 0 <= j < i + 1 && keys[j] == k;
        if j < i {
            assert(keys_upto(keys, i).contains(k));
        }
    }
    assert forall|k: K| keys_upto(keys, i).insert(keys[i]).contains(k) implies keys_upto(keys, i + 1).contains(k) by {
        if k != keys[i] {
            let j = choose|j: int| 0 <= j < i && keys[j] == k;
            assert(keys[j] == k);
        }
    }
    assert(keys_upto(keys, i + 1) =~= keys_upto(keys, i).insert(keys[i]));
    if keys_upto(keys, i).contains(keys[i]) {
        let j = choose|j: int| 0 <= j < i && keys[j] == keys[i];
        assert(keys[j] != keys[i]);
    }
}

/// Keys that all lie in `dom` and reach every member of it make up `dom`.
proof fn lemma_keys_cover<K>(keys: Seq<K>, dom: Set<K>)
    requires
        forall|j: int| 0 <= j < keys.len() ==> dom.contains(#[trigger] keys[j]),
        forall|k: K| dom.contains(k) ==> exists|j: int| 0 <= j < keys.len() && #[trigger] keys[j] == k,
    ensures
        keys_upto(keys, keys.len() as int) == dom,
{
    assert(keys_upto(keys, keys.len() as int) =~= dom);
}

/// The pairs of a season map: `DashMap::iter`, each entry cloned out (a clone of
/// a `DashMap` holds what the original holds).
#[verifier::external_body]
fn season_list(map: &DashMap<usize, DashMap<usize, WatchState>>) -> (r: Vec<(usize, DashMap<usize, WatchState>)>)
    ensures
        forall|i: int|
            0 <= i < r@.len() ==> season_entries(*map).dom().contains((#[trigger] r@[i]).0) && season_entries(
                *map,
            )[r@[i].0] == episode_entries(r@[i].1),
        forall|k: usize|
            season_entries(*map).dom().contains(k) ==> exists|i: int| 0 <= i < r@.len() && (#[trigger] r@[i]).0 == k,
        forall|i: int, j: int| 0 <= i < j < r@.len() ==> (#[trigger] r@[i]).0 != (#[trigger] r@[j]).0,
{
    map.iter().map(|entry| (*entry.key(), entry.value().clone())).collect()
}

/// The jobs for every position of one season map.
fn collect_seasons(
    user: &String,
    source: &String,
    id: &String,
    map: &DashMap<usize, DashMap<usize, WatchState>>,
) -> (r: Vec<UploadJob>)
    ensures
        job_views(r@) == season_jobs(user@, source@, id@, season_entries(*map), season_entries(*map).dom()),
        distinct_jobs(r@),
{
    let list = season_list(map);
    let ghost m = season_entries(*map);
    let ghost keys = index_keys(list@);
    let mut out: Vec<UploadJob> = Vec::new();
    proof {
        lemma_job_views_empty();
        assert(season_jobs(user@, source@, id@, m, keys_upto(keys, 0)) =~= Set::empty());
        assert(keys_distinct(keys));
    }
    let mut i: usize = 0;
    while i < list.len()
        invariant
            i <= list@.len(),
            keys == index_keys(list@),
            keys_distinct(keys),
            forall|k: int|
                0 <= k < list@.len() ==> m.dom().contains((#[trigger] list@[k]).0) && m[list@[k].0]
                    == episode_entries(list@[k].1),
            job_views(out@) == season_jobs(user@, source@, id@, m, keys_upto(keys, i as int)),
            distinct_jobs(out@),
        decreases list@.len() - i,
    {
        let mut part = collect_episodes(user, source, id, list[i].0, &list[i].1);
        proof {
            let s = keys[i as int];
            lemma_keys_upto_step(keys, i as int);
            lemma_append_jobs(out@, part@);
            assert(season_jobs(user@, source@, id@, m, keys_upto(keys, i + 1)) =~= season_jobs(
                user@,
                source@,
                id@,
                m,
                keys_upto(keys, i as int),
            ).union(episode_jobs(user@, source@, id@, s, m[s])));
        }
        out.append(&mut part);
        i = i + 1;
    }
    proof {
        assert forall|k: usize| m.dom().contains(k) implies exists|j: int| 0 <= j < keys.len() && #[trigger] keys[j] == k by {
            let j = choose|j: int| 0 <= j < list@.len() && (#[trigger] list@[j]).0 == k;
            assert(keys[j] == k);
        }
        lemma_keys_cover(keys, m.dom());
    }
    out
}

/// The pairs of a title map: `DashMap::iter`, each entry cloned out.
#[verifier::external_body]
fn title_list(map: &DashMap<String, DashMap<usize, DashMap<usize, WatchState>>>) -> (r: Vec<
    (String, DashMap<usize, DashMap<usize, WatchState>>),
>)
    ensures
        forall|i: int|
            0 <= i < r@.len() ==> title_entries(*map).dom().contains((#[trigger] r@[i]).0@) && title_entries(
                *map,
            )[r@[i].0@] == season_entries(r@[i].1),
        forall|k: Seq<char>|
            title_entries(*map).dom().contains(k) ==> exists|i: int| 0 <= i < r@.len() && (#[trigger] r@[i]).0@ == k,
        forall|i: int, j: int| 0 <= i < j < r@.len() ==> (#[trigger] r@[i]).0@ != (#[trigger] r@[j]).0@,
{
    map.iter().map(|entry| (entry.key().clone(), entry.value().clone())).collect()
}

/// The jobs for every position of one title map.
fn collect_titles(
    user: &String,
    source: &String,
    map: &DashMap<String, DashMap<usize, DashMap<usize, WatchState>>>,
) -> (r: Vec<UploadJob>)
    ensures
        job_views(r@) == title_jobs(user@, source@, title_entries(*map), title_entries(*map).dom()),
        distinct_jobs(r@),
{
    let list = title_list(map);
    let ghost m = title_entries(*map);
    let ghost keys = text_keys(list@);
    let mut out: Vec<UploadJob> = Vec::new();
    proof {
        lemma_job_views_empty();
        assert(title_jobs(user@, source@, m, keys_upto(keys, 0)) =~= Set::empty());
        assert(keys_distinct(keys));
    }
    let mut i: usize = 0;
    while i < list.len()
        invariant
            i <= list@.len(),
            keys == text_keys(list@),
            keys_distinct(keys),
            forall|k: int|
                0 <= k < list@.len() ==> m.dom().contains((#[trigger] list@[k]).0@) && m[list@[k].0@]
                    == season_entries(list@[k].1),
            job_views(out@) == title_jobs(user@, source@, m, keys_upto(keys, i as int)),
            distinct_jobs(out@),
        decreases list@.len() - i,
    {
        let mut part = collect_seasons(user, source, &list[i].0, &list[i].1);
        proof {
            let t = keys[i as int];
            lemma_keys_upto_step(keys, i as int);
            lemma_append_jobs(out@, part@);
            assert(title_jobs(user@, source@, m, keys_upto(keys, i + 1)) =~= title_jobs(
                user@,
                source@,
                m,
                keys_upto(keys, i as int),
            ).union(season_jobs(user@, source@, t, m[t], m[t].dom())));
        }
        out.append(&mut part);
        i = i + 1;
    }
    proof {
        assert forall|k: Seq<char>| m.dom().contains(k) implies exists|j: int| 0 <= j < keys.len() && #[trigger] keys[j]
            == k by {
            let j = choose|j: int| 0 <= j < list@.len() && (#[trigger] list@[j]).0@ == k;
            assert(keys[j] == k);
        }
        lemma_keys_cover(keys, m.dom());
    }
    out
}

/// The pairs of a source map: `DashMap::iter`, each entry cloned out.
#[verifier::external_body]
fn source_list(map: &DashMap<String, DashMap<String, DashMap<usize, DashMap<usize, WatchState>>>>) -> (r: Vec<
    (String, DashMap<String, DashMap<usize, DashMap<usize, WatchState>>>),
>)
    ensures
        forall|i: int|
            0 <= i < r@.len() ==> source_entries(*map).dom().contains((#[trigger] r@[i]).0@) && source_entries(
                *map,
            )[r@[i].0@] == title_entries(r@[i].1),
        forall|k: Seq<char>|
            source_entries(*map).dom().contains(k) ==> exists|i: int| 0 <= i < r@.len() && (#[trigger] r@[i]).0@ == k,
        forall|i: int, j: int| 0 <= i < j < r@.len() ==> (#[trigger] r@[i]).0@ != (#[trigger] r@[j]).0@,
{
    map.iter().map(|entry| (entry.key().clone(), entry.value().clone())).collect()
}

/// The jobs for every position of one user's source map.
fn collect_sources(
    user: &String,
    map: &DashMap<String, DashMap<String, DashMap<usize, DashMap<usize, WatchState>>>>,
) -> (r: Vec<UploadJob>)
    ensures
        job_views(r@) == source_jobs(user@, source_entries(*map), source_entries(*map).dom()),
        distinct_jobs(r@),
{
    let list = source_list(map);
    let ghost m = source_entries(*map);
    let ghost keys = text_keys(list@);
    let mut out: Vec<UploadJob> = Vec::new();
    proof {
        lemma_job_views_empty();
        assert(source_jobs(user@, m, keys_upto(keys, 0)) =~= Set::empty());
        assert(keys_distinct(keys));
    }
    let mut i: usize = 0;
    while i < list.len()
        invariant
            i <= list@.len(),
            keys == text_keys(list@),
            keys_distinct(keys),
            forall|k: int|
                0 <= k < list@.len() ==> m.dom().contains((#[trigger] list@[k]).0@) && m[list@[k].0@]
                    == title_entries(list@[k].1),
            job_views(out@) == source_jobs(user@, m, keys_upto(keys, i as int)),
            distinct_jobs(out@),
        decreases list@.len() - i,
    {
        let mut part = collect_titles(user, &list[i].0, &list[i].1);
        proof {
            let src = keys[i as int];
            lemma_keys_upto_step(keys, i as int);
            lemma_append_jobs(out@, part@);
            assert(source_jobs(user@, m, keys_upto(keys, i + 1)) =~= source_jobs(
                user@,
                m,
                keys_upto(keys, i as int),
            ).union(title_jobs(user@, src, m[src], m[src].dom())));
        }
        out.append(&mut part);
        i = i + 1;
    }
    proof {
        assert forall|k: Seq<char>| m.dom().contains(k) implies exists|j: int| 0 <= j < keys.len() && #[trigger] keys[j]
            == k by {
            let j = choose|j: int| 0 <= j < list@.len() && (#[trigger] list@[j]).0@ == k;
            assert(keys[j] == k);
        }
        lemma_keys_cover(keys, m.dom());
    }
    out
}

/// The users of the cache with their source maps: `DashMap::iter`, each user
/// entry's map cloned out.
#[verifier::external_body]
fn cache_list(map: &DashMap<String, CacheInfo>) -> (r: Vec<
    (String, DashMap<String, DashMap<String, DashMap<usize, DashMap<usize, WatchState>>>>),
>)
    ensures
        forall|i: int|
            0 <= i < r@.len() ==> cache_entries(*map).dom().contains((#[trigger] r@[i]).0@) && source_entries(
                cache_entries(*map)[r@[i].0@].info,
            ) == source_entries(r@[i].1),
        forall|k: Seq<char>|
            cache_entries(*map).dom().contains(k) ==> exists|i: int| 0 <= i < r@.len() && (#[trigger] r@[i]).0@ == k,
        forall|i: int, j: int| 0 <= i < j < r@.len() ==> (#[trigger] r@[i]).0@ != (#[trigger] r@[j]).0@,
{
    map.iter().map(|entry| (entry.key().clone(), entry.value().info.clone())).collect()
}

/// A row of the `watch_state` table as an upload writes it.
#[derive(Debug)]
pub struct WatchStateRow {
    pub watch_state_id: String,
    pub user_id: String,
    pub source: String,
    pub id: String,
    pub season_index: i32,
    pub episode_index: i32,
    pub current_time: u64,
    pub timestamp: i64,
}

/// An upload is skipped when the database already holds a position for the same
/// episode recorded later (the stored `i64` read as `usize`) than this one.
pub open spec fn upload_skipped(stored_timestamp: Option<i64>, timestamp: usize) -> bool {
    match stored_timestamp {
        Some(stored) => (stored as usize) > timestamp,
        None => false,
    }
}

/// The plan matches the upload of `current_time` recorded at `timestamp`: none
/// when the stored position is newer, else a row with that position and time.
pub open spec fn upload_plan(
    stored_timestamp: Option<i64>,
    current_time: u64,
    timestamp: usize,
    r: Option<WatchStateRow>,
) -> bool {
    match r {
        None => upload_skipped(stored_timestamp, timestamp),
        Some(row) => !upload_skipped(stored_timestamp, timestamp) && row.current_time == current_time
            && row.timestamp == timestamp as i64,
    }
}

/// The stored timestamp of an episode's row (position, timestamp), if any.
pub open spec fn stored_timestamp_of(stored: Option<(u64, i64)>) -> Option<i64> {
    match stored {
        Some(row) => Some(row.1),
        None => None,
    }
}

/// The episode's row (position, timestamp) after the planned write: an insert
/// that, on a row already there, updates its position and timestamp; nothing
/// when no row is planned.
pub open spec fn stored_after_upload(stored: Option<(u64, i64)>, r: Option<WatchStateRow>) -> Option<(u64, i64)> {
    match r {
        Some(row) => Some((row.current_time, row.timestamp)),
        None => stored,
    }
}

/// An upload keeps the newest position: afterwards the episode has a row whose
/// timestamp is the later of the stored one and the uploaded one, and whose
/// position is the uploaded one unless the stored row was strictly newer.
/// (Timestamps that do not fit both `i64` and `usize` are left out: the casts
/// between them would wrap.)
pub proof fn lemma_upload_keeps_newest(
    stored: Option<(u64, i64)>,
    current_time: u64,
    timestamp: usize,
    r: Option<WatchStateRow>,
)
    requires
        upload_plan(stored_timestamp_of(stored), current_time, timestamp, r),
        timestamp <= i64::MAX,
        stored matches Some(row) ==> 0 <= row.1 <= usize::MAX,
    ensures
        ({
            let after = stored_after_upload(stored, r);
            &&& after is Some
            &&& match stored {
                None => after == Some((current_time, timestamp as i64)),
                Some(prior) => if prior.1 > timestamp {
                    after == Some(prior)
                } else {
                    after == Some((current_time, timestamp as i64))
                },
            }
        }),
{
}

/// What an upload of a position writes, given the timestamp the database holds
/// for that episode (if any): nothing when the stored position is newer, else
/// the row to insert or update, under a fresh record id, with the indices cast
/// to `i32` and the timestamp to `i64`.
pub fn plan_upload(
    stored_timestamp: Option<i64>,
    user_id: &str,
    source: &str,
    id: &str,
    season_index: usize,
    episode_index: usize,
    current_time: u64,
    timestamp: usize,
) -> (r: Option<WatchStateRow>)
    ensures
        r is None <==> upload_skipped(stored_timestamp, timestamp),
        upload_plan(stored_timestamp, current_time, timestamp, r),
        r matches Some(row) ==> {
            &&& is_record_id(row.watch_state_id@)
            &&& row.user_id@ == user_id@
            &&& row.source@ == source@
            &&& row.id@ == id@
            &&& row.season_index == season_index as i32
            &&& row.episode_index == episode_index as i32
            &&& row.current_time == current_time
            &&& row.timestamp == timestamp as i64
        },
{
    if let Some(stored) = stored_timestamp {
        if stored as usize > timestamp {
            return None;
        }
    }
    Some(
        WatchStateRow {
            watch_state_id: new_record_id(),
            user_id: user_id.to_owned(),
            source: source.to_owned(),
            id: id.to_owned(),
            season_index: season_index as i32,
            episode_index: episode_index as i32,
            current_time,
            timestamp: timestamp as i64,
        },
    )
}

/// A report replaces everything cached for its user by the one reported position,
/// and leaves every other user's positions as they were.
pub proof fn lemma_report_replaces_user_positions(
    caches: Map<Seq<char>, (SourceView, usize)>,
    user: Seq<char>,
    source: Seq<char>,
    id: Seq<char>,
    season_index: usize,
    episode_index: usize,
    state: WatchState,
    now: usize,
)
    ensures
        ({
            let after = caches.insert(user, (single_position(source, id, season_index, episode_index, state), now));
            &&& forall|v: JobView| v.0 == user ==> (#[trigger] is_cached(after, v) <==> v == (
                user,
                source,
                id,
                season_index,
                episode_index,
                state,
            ))
            &&& forall|v: JobView| v.0 != user ==> (#[trigger] is_cached(after, v) <==> is_cached(caches, v))
        }),
{
}

/// A flush at `now` keeps exactly the users whose entries were written after
/// `now`, with their positions unchanged.
pub proof fn lemma_expire_keeps_newer(caches: Map<Seq<char>, (SourceView, usize)>, now: usize)
    ensures
        ({
            let after = caches.filter_keys(|user: Seq<char>| caches[user].1 > now);
            &&& forall|user: Seq<char>| #[trigger] after.dom().contains(user) <==> caches.dom().contains(user)
                && caches[user].1 > now
            &&& forall|v: JobView| #[trigger] is_cached(after, v) <==> is_cached(caches, v) && caches[v.0].1 > now
        }),
{
}

/// The cache of all users.
#[allow(non_camel_case_types)]
pub struct CACHE_WATCH_STATE {
    caches: DashMap<String, CacheInfo>,
}

impl View for CACHE_WATCH_STATE {
    type V = Map<Seq<char>, (SourceView, usize)>;

    closed spec fn view(&self) -> Map<Seq<char>, (SourceView, usize)> {
        cache_entries(self.caches).map_values(|info: CacheInfo| info_view(info))
    }
}

impl CACHE_WATCH_STATE {
    /// An empty cache.
    pub fn new() -> (r: CACHE_WATCH_STATE)
        ensures
            r@ =~= Map::empty(),
    {
        let r = CACHE_WATCH_STATE { caches: caches_new() };
        assert(r@ =~= Map::empty());
        r
    }

    /// Records a reported position at time `now`: the user's entry becomes that
    /// one position, stamped `now`.
    pub fn add_at(
        &mut self,
        user_id: &str,
        source: &str,
        id: &str,
        season_index: usize,
        episode_index: usize,
        current_time: u64,
        timestamp: usize,
        now: usize,
    )
        ensures
            final(self)@ == old(self)@.insert(
                user_id@,
                (
                    single_position(
                        source@,
                        id@,
                        season_index,
                        episode_index,
                        WatchState { current_time, timestamp },
                    ),
                    now,
                ),
            ),
    {
        let mut episodes = episodes_new();
        episodes_insert(&mut episodes, episode_index, WatchState { current_time, timestamp });
        let mut seasons = seasons_new();
        seasons_insert(&mut seasons, season_index, episodes);
        let mut titles = titles_new();
        titles_insert(&mut titles, id.to_owned(), seasons);
        let mut sources = sources_new();
        sources_insert(&mut sources, source.to_owned(), titles);
        let info = CacheInfo { info: sources, timestamp: now };
        let ghost before = cache_entries(self.caches);
        caches_insert(&mut self.caches, user_id.to_owned(), info);
        proof {
            assert(source_entries(info.info) =~= single_position(
                source@,
                id@,
                season_index,
                episode_index,
                WatchState { current_time, timestamp },
            ));
            assert(cache_entries(self.caches).map_values(|info: CacheInfo| info_view(info)) =~= before.map_values(
                |info: CacheInfo| info_view(info),
            ).insert(user_id@, info_view(info)));
        }
    }

    /// Records a reported position now (see `add_at`).
    pub fn add(
        &mut self,
        user_id: &str,
        source: &str,
        id: &str,
        season_index: usize,
        episode_index: usize,
        current_time: u64,
        timestamp: usize,
    )
        ensures
            exists|now: usize|
                final(self)@ == old(self)@.insert(
                    user_id@,
                    (
                        single_position(
                            source@,
                            id@,
                            season_index,
                            episode_index,
                            WatchState { current_time, timestamp },
                        ),
                        now,
                    ),
                ),
    {
        let now = now_millis();
        self.add_at(user_id, source, id, season_index, episode_index, current_time, timestamp, now);
    }

    /// Every cached position, as an upload job: one job per position, in the
    /// maps' iteration order.
    pub fn pending_uploads(&self) -> (r: Vec<UploadJob>)
        ensures
            job_views(r@) == cached_positions(self@),
            distinct_jobs(r@),
    {
        let list = cache_list(&self.caches);
        let ghost caches = self@;
        let ghost keys = text_keys(list@);
        let mut out: Vec<UploadJob> = Vec::new();
        proof {
            lemma_job_views_empty();
            assert(cache_jobs(caches, keys_upto(keys, 0)) =~= Set::empty());
            assert(keys_distinct(keys));
        }
        let mut i: usize = 0;
        while i < list.len()
            invariant
                i <= list@.len(),
                keys == text_keys(list@),
                keys_distinct(keys),
                forall|k: int|
                    0 <= k < list@.len() ==> caches.dom().contains((#[trigger] list@[k]).0@) && caches[list@[k].0@].0
                        == source_entries(list@[k].1),
                job_views(out@) == cache_jobs(caches, keys_upto(keys, i as int)),
                distinct_jobs(out@),
            decreases list@.len() - i,
        {
            let mut part = collect_sources(&list[i].0, &list[i].1);
            proof {
                let u = keys[i as int];
                lemma_keys_upto_step(keys, i as int);
                lemma_append_jobs(out@, part@);
                assert(cache_jobs(caches, keys_upto(keys, i + 1)) =~= cache_jobs(
                    caches,
                    keys_upto(keys, i as int),
                ).union(source_jobs(u, caches[u].0, caches[u].0.dom())));
            }
            out.append(&mut part);
            i = i + 1;
        }
        proof {
            assert forall|k: Seq<char>| caches.dom().contains(k) implies exists|j: int|
                0 <= j < keys.len() && #[trigger] keys[j] == k by {
                let j = choose|j: int| 0 <= j < list@.len() && (#[trigger] list@[j]).0@ == k;
                assert(keys[j] == k);
            }
            lemma_keys_cover(keys, caches.dom());
            assert(cache_jobs(caches, caches.dom()) =~= cached_positions(caches));
        }
        out
    }

    /// Drops every entry written at or before `now`.
    pub fn expire_at(&mut self, now: usize)
        ensures
            final(self)@ == old(self)@.filter_keys(|user: Seq<char>| old(self)@[user].1 > now),
    {
        let ghost before = cache_entries(self.caches);
        caches_retain_newer(&mut self.caches, now);
        proof {
            assert(self@ =~= old(self)@.filter_keys(|user: Seq<char>| old(self)@[user].1 > now));
        }
    }
}

} // verus!
