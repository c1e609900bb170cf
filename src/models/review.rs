use crate::formats::{is_object_id_text, new_object_id, now_millis};
use vstd::prelude::*;

verus! {

/// A stored review document; times are milliseconds since the epoch.
///
/// A review does not name its owner: the movie or series whose `review_ids`
/// holds its identity owns it.
#[derive(Debug, Clone)]
pub struct Review {
    pub _id: String,
    pub title: String,
    pub rating: u32,
    pub body: String,
    pub created_at: i64,
    pub updated_at: i64,
}

/// A review as handed out; times are milliseconds since the epoch.
#[derive(Debug, Clone)]
pub struct ReviewResponse {
    pub _id: String,
    pub title: String,
    pub rating: u32,
    pub body: String,
    pub created_at: i64,
    pub updated_at: i64,
}

/// The published shape of a review, times written as RFC 3339 text.
#[derive(Debug, Clone)]
pub struct ReviewResponseDoc {
    pub _id: String,
    pub title: String,
    pub rating: u32,
    pub body: String,
    pub created_at: String,
    pub updated_at: String,
}

/// The fields a client submits to create a review of the movie or series
/// known by `imdb_id`.
#[derive(Debug, Clone)]
pub struct ReviewRequest {
    pub title: String,
    pub rating: u32,
    pub body: String,
    pub imdb_id: String,
}

/// The fields a client submits to replace the text and rating of a review.
#[derive(Debug, Clone)]
pub struct ReviewUpdate {
    pub title: String,
    pub rating: u32,
    pub body: String,
}

/// `r` holds the text and rating of `req` under the identity `id`, created
/// and last updated at `at`.
pub open spec fn review_from_request(r: Review, req: ReviewRequest, id: String, at: i64) -> bool {
    &&& r._id == id
    &&& r.title == req.title
    &&& r.rating == req.rating
    &&& r.body == req.body
    &&& r.created_at == at
    &&& r.updated_at == at
}

/// `r` as handed out.
pub open spec fn review_response_of(r: Review) -> ReviewResponse {
    ReviewResponse {
        _id: r._id,
        title: r.title,
        rating: r.rating,
        body: r.body,
        created_at: r.created_at,
        updated_at: r.updated_at,
    }
}

impl Review {
    /// A new review for `item`, under a fresh identity, stamped with the current time.
    pub fn from_request(item: ReviewRequest) -> (r: Review)
        ensures
            review_from_request(r, item, r._id, r.created_at),
            is_object_id_text(r._id@),
    {
        let now = now_millis();
        Review::from_request_at(item, new_object_id(), now)
    }

    /// The review for `item` under the identity `id`, stamped with the time `at`.
    pub fn from_request_at(item: ReviewRequest, id: String, at: i64) -> (r: Review)
        ensures
            review_from_request(r, item, id, at),
    {
        Review {
            _id: id,
            title: item.title,
            rating: item.rating,
            body: item.body,
            created_at: at,
            updated_at: at,
        }
    }
}

impl ReviewResponse {
    /// `item` as handed out.
    pub fn from_review(item: &Review) -> (r: ReviewResponse)
        ensures
            r == review_response_of(*item),
    {
        ReviewResponse {
            _id: item._id.clone(),
            title: item.title.clone(),
            rating: item.rating,
            body: item.body.clone(),
            created_at: item.created_at,
            updated_at: item.updated_at,
        }
    }
}

} // verus!
