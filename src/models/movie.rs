use crate::formats::{is_object_id_text, new_object_id};
use vstd::prelude::*;

verus! {

/// A stored movie document.
#[derive(Debug, Clone)]
pub struct Movie {
    pub _id: String,
    pub imdb_id: String,
    pub title: String,
    pub overview: String,
    pub duration: String,
    pub director: String,
    pub release_date: String,
    pub trailer_link: String,
    pub genres: Vec<String>,
    pub poster: String,
    pub backdrop: String,
    pub review_ids: Vec<String>,
}

/// The published shape of a movie document, ids written as text.
#[derive(Debug, Clone)]
pub struct MovieDoc {
    pub _id: String,
    pub imdb_id: String,
    pub title: String,
    pub overview: String,
    pub duration: String,
    pub director: String,
    pub release_date: String,
    pub trailer_link: String,
    pub genres: Vec<String>,
    pub poster: String,
    pub backdrop: String,
    pub review_ids: Vec<String>,
}

/// The fields a client submits to create or replace a movie.
#[derive(Debug, Clone)]
pub struct MovieRequest {
    pub imdb_id: String,
    pub title: String,
    pub overview: String,
    pub duration: String,
    pub director: String,
    pub release_date: String,
    pub trailer_link: String,
    pub genres: Vec<String>,
    pub poster: String,
    pub backdrop: String,
}

/// The public summary of a movie, as listed by a paged query.
#[derive(Debug, Clone)]
pub struct MovieResponse {
    pub imdb_id: String,
    pub title: String,
    pub duration: String,
    pub release_date: String,
    pub poster: String,
}

/// `m` holds exactly the fields of `req`, under the identity `id`, with no reviews.
pub open spec fn movie_from_request(m: Movie, req: MovieRequest, id: String) -> bool {
    &&& m._id == id
    &&& m.imdb_id == req.imdb_id
    &&& m.title == req.title
    &&& m.overview == req.overview
    &&& m.duration == req.duration
    &&& m.director == req.director
    &&& m.release_date == req.release_date
    &&& m.trailer_link == req.trailer_link
    &&& m.genres == req.genres
    &&& m.poster == req.poster
    &&& m.backdrop == req.backdrop
    &&& m.review_ids@.len() == 0
}

/// The summary of `m`.
pub open spec fn movie_response_of(m: Movie) -> MovieResponse {
    MovieResponse {
        imdb_id: m.imdb_id,
        title: m.title,
        duration: m.duration,
        release_date: m.release_date,
        poster: m.poster,
    }
}

impl Movie {
    /// A new movie document for `item`, under a fresh identity and with no reviews.
    pub fn from_request(item: MovieRequest) -> (r: Movie)
        ensures
            movie_from_request(r, item, r._id),
            is_object_id_text(r._id@),
    {
        Movie {
            _id: new_object_id(),
            imdb_id: item.imdb_id,
            title: item.title,
            overview: item.overview,
            duration: item.duration,
            director: item.director,
            release_date: item.release_date,
            trailer_link: item.trailer_link,
            genres: item.genres,
            poster: item.poster,
            backdrop: item.backdrop,
            review_ids: Vec::new(),
        }
    }
}

impl MovieResponse {
    /// The public summary of `item`.
    pub fn from_movie(item: &Movie) -> (r: MovieResponse)
        ensures
            r == movie_response_of(*item),
    {
        MovieResponse {
            imdb_id: item.imdb_id.clone(),
            title: item.title.clone(),
            duration: item.duration.clone(),
            release_date: item.release_date.clone(),
            poster: item.poster.clone(),
        }
    }
}

} // verus!
