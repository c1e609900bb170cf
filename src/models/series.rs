use crate::formats::{is_object_id_text, new_object_id, same_text};
use vstd::prelude::*;

verus! {

/// An episode, embedded in its season.
#[derive(Debug, Clone)]
pub struct Episode {
    pub title: String,
    pub release_date: String,
    pub duration: String,
    pub description: String,
}

/// A season, embedded in its series; it owns its episodes.
#[derive(Debug, Clone)]
pub struct Season {
    pub overview: String,
    pub episode_list: Vec<Episode>,
    pub poster: String,
}

/// A stored series document.
#[derive(Debug, Clone)]
pub struct Series {
    pub _id: String,
    pub imdb_id: String,
    pub title: String,
    pub overview: String,
    pub number_of_seasons: u32,
    pub creator: String,
    pub release_date: String,
    pub trailer_link: String,
    pub genres: Vec<String>,
    pub season_list: Vec<Season>,
    pub poster: String,
    pub backdrop: String,
    pub review_ids: Vec<String>,
}

/// The published shape of a series document, ids written as text.
#[derive(Debug, Clone)]
pub struct SeriesDoc {
    pub _id: String,
    pub imdb_id: String,
    pub title: String,
    pub overview: String,
    pub number_of_seasons: u32,
    pub creator: String,
    pub release_date: String,
    pub trailer_link: String,
    pub genres: Vec<String>,
    pub season_list: Vec<Season>,
    pub poster: String,
    pub backdrop: String,
    pub review_ids: Vec<String>,
}

/// The fields a client submits to create or replace a series.
#[derive(Debug, Clone)]
pub struct SeriesRequest {
    pub imdb_id: String,
    pub title: String,
    pub overview: String,
    pub number_of_seasons: u32,
    pub creator: String,
    pub release_date: String,
    pub trailer_link: String,
    pub genres: Vec<String>,
    pub season_list: Vec<Season>,
    pub poster: String,
    pub backdrop: String,
}

/// The public summary of a series, as listed by a paged query.
#[derive(Debug, Clone)]
pub struct SeriesResponse {
    pub imdb_id: String,
    pub title: String,
    pub number_of_seasons: u32,
    pub release_date: String,
    pub poster: String,
}

/// `s` holds exactly the fields of `req`, under the identity `id`, with no reviews.
pub open spec fn series_from_request(s: Series, req: SeriesRequest, id: String) -> bool {
    &&& s._id == id
    &&& s.imdb_id == req.imdb_id
    &&& s.title == req.title
    &&& s.overview == req.overview
    &&& s.number_of_seasons == req.number_of_seasons
    &&& s.creator == req.creator
    &&& s.release_date == req.release_date
    &&& s.trailer_link == req.trailer_link
    &&& s.genres == req.genres
    &&& s.season_list == req.season_list
    &&& s.poster == req.poster
    &&& s.backdrop == req.backdrop
    &&& s.review_ids@.len() == 0
}

/// The summary of `s`.
pub open spec fn series_response_of(s: Series) -> SeriesResponse {
    SeriesResponse {
        imdb_id: s.imdb_id,
        title: s.title,
        number_of_seasons: s.number_of_seasons,
        release_date: s.release_date,
        poster: s.poster,
    }
}

impl Series {
    /// A new series document for `item`, under a fresh identity and with no reviews.
    pub fn from_request(item: SeriesRequest) -> (r: Series)
        ensures
            series_from_request(r, item, r._id),
            is_object_id_text(r._id@),
    {
        Series {
            _id: new_object_id(),
            imdb_id: item.imdb_id,
            title: item.title,
            overview: item.overview,
            number_of_seasons: item.number_of_seasons,
            creator: item.creator,
            release_date: item.release_date,
            trailer_link: item.trailer_link,
            genres: item.genres,
            season_list: item.season_list,
            poster: item.poster,
            backdrop: item.backdrop,
            review_ids: Vec::new(),
        }
    }
}

impl SeriesResponse {
    /// The public summary of `item`.
    pub fn from_series(item: &Series) -> (r: SeriesResponse)
        ensures
            r == series_response_of(*item),
    {
        SeriesResponse {
            imdb_id: item.imdb_id.clone(),
            title: item.title.clone(),
            number_of_seasons: item.number_of_seasons,
            release_date: item.release_date.clone(),
            poster: item.poster.clone(),
        }
    }
}

/// The texts of an episode, in field order.
pub open spec fn episode_view(e: Episode) -> (Seq<char>, Seq<char>, Seq<char>, Seq<char>) {
    (e.title@, e.release_date@, e.duration@, e.description@)
}

/// The texts of a season, its episodes included.
pub open spec fn season_view(s: Season) -> (
    Seq<char>,
    Seq<(Seq<char>, Seq<char>, Seq<char>, Seq<char>)>,
    Seq<char>,
) {
    (s.overview@, s.episode_list@.map_values(|e: Episode| episode_view(e)), s.poster@)
}

/// The texts of a list of seasons.
pub open spec fn seasons_view(v: Seq<Season>) -> Seq<
    (Seq<char>, Seq<(Seq<char>, Seq<char>, Seq<char>, Seq<char>)>, Seq<char>),
> {
    v.map_values(|s: Season| season_view(s))
}

/// Whether two lists of episodes hold the same texts.
pub fn same_episodes(a: &Vec<Episode>, b: &Vec<Episode>) -> (r: bool)
    ensures
        r == (a@.map_values(|e: Episode| episode_view(e)) == b@.map_values(
            |e: Episode| episode_view(e),
        )),
{
    let ghost va = a@.map_values(|e: Episode| episode_view(e));
    let ghost vb = b@.map_values(|e: Episode| episode_view(e));
    if a.len() != b.len() {
        assert(va.len() != vb.len());
        return false;
    }
    let mut i: usize = 0;
    while i < a.len()
        invariant
            a@.len() == b@.len(),
            i <= a@.len(),
            va == a@.map_values(|e: Episode| episode_view(e)),
            vb == b@.map_values(|e: Episode| episode_view(e)),
            forall|k: int| 0 <= k < i ==> va[k] == vb[k],
        decreases a@.len() - i,
    {
        let x = &a[i];
        let y = &b[i];
        let same = same_text(x.title.as_str(), y.title.as_str()) && same_text(
            x.release_date.as_str(),
            y.release_date.as_str(),
        ) && same_text(x.duration.as_str(), y.duration.as_str()) && same_text(
            x.description.as_str(),
            y.description.as_str(),
        );
        if !same {
            assert(va[i as int] != vb[i as int]);
            return false;
        }
        i += 1;
    }
    assert(va =~= vb);
    true
}

/// Whether two lists of seasons hold the same texts.
pub fn same_seasons(a: &Vec<Season>, b: &Vec<Season>) -> (r: bool)
    ensures
        r == (seasons_view(a@) == seasons_view(b@)),
{
    let ghost va = seasons_view(a@);
    let ghost vb = seasons_view(b@);
    if a.len() != b.len() {
        assert(va.len() != vb.len());
        return false;
    }
    let mut i: usize = 0;
    while i < a.len()
        invariant
            a@.len() == b@.len(),
            i <= a@.len(),
            va == seasons_view(a@),
            vb == seasons_view(b@),
            forall|k: int| 0 <= k < i ==> va[k] == vb[k],
        decreases a@.len() - i,
    {
        let x = &a[i];
        let y = &b[i];
        let same = same_text(x.overview.as_str(), y.overview.as_str()) && same_episodes(
            &x.episode_list,
            &y.episode_list,
        ) && same_text(x.poster.as_str(), y.poster.as_str());
        if !same {
            assert(va[i as int] != vb[i as int]);
            return false;
        }
        i += 1;
    }
    assert(va =~= vb);
    true
}

} // verus!
