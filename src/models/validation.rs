use crate::error::AppError;
use crate::formats::{matches_pattern, regex_verdict, require, RE_IMDB_ID};
use crate::models::movie::MovieRequest;
use crate::models::review::{ReviewRequest, ReviewUpdate};
use crate::models::series::{Episode, Season, SeriesRequest};
use vstd::prelude::*;

verus! {

/// A movie's running time: hours and minutes.
pub const RE_MOVIE_DURATION: &'static str = r"^(\d{1,2})h\s(\d{1,2})m$";

/// An episode's running time: hours, minutes, or both.
pub const RE_EPISODE_DURATION: &'static str = r"^(?:(\d{1,2})h(?: (\d{1,2})m)?|(\d{1,2})m)$";

/// A person's name: a name and a surname, and an optional third part.
pub const RE_PERSON: &'static str = r"^([a-zA-Z]+\.?)\s([a-zA-Z]+\.?)(?:\s([a-zA-Z]+))?$";

/// A date written `YYYY-M-D` or `YYYY-MM-DD`.
pub const RE_RELEASE_DATE: &'static str = r"^(\d{4})-([1-9]|0[1-9]|1[0-2])-([1-9]|0[1-9]|[12]\d|3[01])$";

/// A YouTube link.
pub const RE_TRAILER_LINK: &'static str = r"^((?:https?:)?//)?((?:www|m)\.)?((?:youtube(-nocookie)?\.com|youtu.be))(/(?:[\w\-]+\\?v=|embed/|live/|v/)?)([\w\-]+)(\S+)?$";

/// A remote image: an http(s) URL naming a png, jpeg or webp file.
pub const RE_REMOTE_IMAGE: &'static str = r"(https?://\S+(?:png|jpe?g|webp)\S*)";

/// `text` matches `pattern`.
pub open spec fn fits(pattern: &str, text: Seq<char>) -> bool {
    regex_verdict(pattern@, text) == Some(true)
}

pub open spec fn movie_request_valid(m: MovieRequest) -> bool {
    &&& fits(RE_IMDB_ID, m.imdb_id@)
    &&& m.title@.len() > 0
    &&& m.overview@.len() > 0
    &&& fits(RE_MOVIE_DURATION, m.duration@)
    &&& fits(RE_PERSON, m.director@)
    &&& fits(RE_RELEASE_DATE, m.release_date@)
    &&& fits(RE_TRAILER_LINK, m.trailer_link@)
    &&& m.genres@.len() > 0
    &&& fits(RE_REMOTE_IMAGE, m.poster@)
    &&& fits(RE_REMOTE_IMAGE, m.backdrop@)
}

pub open spec fn episode_valid(e: Episode) -> bool {
    &&& e.title@.len() > 0
    &&& fits(RE_RELEASE_DATE, e.release_date@)
    &&& fits(RE_EPISODE_DURATION, e.duration@)
    &&& e.description@.len() > 0
}

/// A season is valid with at least one episode, each valid.
pub open spec fn season_valid(s: Season) -> bool {
    &&& s.overview@.len() > 0
    &&& s.episode_list@.len() > 0
    &&& forall|k: int| 0 <= k < s.episode_list@.len() ==> episode_valid(#[trigger] s.episode_list@[k])
    &&& fits(RE_REMOTE_IMAGE, s.poster@)
}

/// A series request is valid with at least one genre and one season, each
/// season valid.
pub open spec fn series_request_valid(s: SeriesRequest) -> bool {
    &&& fits(RE_IMDB_ID, s.imdb_id@)
    &&& s.title@.len() > 0
    &&& s.overview@.len() > 0
    &&& fits(RE_PERSON, s.creator@)
    &&& fits(RE_RELEASE_DATE, s.release_date@)
    &&& fits(RE_TRAILER_LINK, s.trailer_link@)
    &&& s.genres@.len() > 0
    &&& s.season_list@.len() > 0
    &&& forall|k: int| 0 <= k < s.season_list@.len() ==> season_valid(#[trigger] s.season_list@[k])
    &&& fits(RE_REMOTE_IMAGE, s.poster@)
    &&& fits(RE_REMOTE_IMAGE, s.backdrop@)
}

pub open spec fn review_request_valid(r: ReviewRequest) -> bool {
    &&& r.title@.len() > 0
    &&& r.rating <= 5
    &&& r.body@.len() > 0
    &&& fits(RE_IMDB_ID, r.imdb_id@)
}

pub open spec fn review_update_valid(r: ReviewUpdate) -> bool {
    &&& r.title@.len() > 0
    &&& r.rating <= 5
    &&& r.body@.len() > 0
}

fn non_empty(s: &String) -> (r: bool)
    ensures
        r == (s@.len() > 0),
{
    s.as_str().unicode_len() > 0
}

impl MovieRequest {
    /// Checks every field's format; the error names the first field that fails.
    pub fn validate(&self) -> (r: Result<(), AppError>)
        ensures
            r is Ok == movie_request_valid(*self),
            r matches Err(e) ==> e matches AppError::ValidationAppError(_),
    {
        require(matches_pattern(RE_IMDB_ID, self.imdb_id.as_str()), "imdbId: The imdbId must match the following format: 'tt0000'")?;
        require(non_empty(&self.title), "title: The movie title cannot be empty")?;
        require(non_empty(&self.overview), "overview: The film synopsis cannot be empty")?;
        require(matches_pattern(RE_MOVIE_DURATION, self.duration.as_str()), "duration: The duration must match the following format: '00h 00m'")?;
        require(matches_pattern(RE_PERSON, self.director.as_str()), "director: The director's name must match the following format: 'Name Surname'")?;
        require(matches_pattern(RE_RELEASE_DATE, self.release_date.as_str()), "releaseDate: The release date of the movie must match the following format: 'YYYY-MM-DD'")?;
        require(matches_pattern(RE_TRAILER_LINK, self.trailer_link.as_str()), "trailerLink: The movie trailer link has to be a valid YouTube URL")?;
        require(self.genres.len() > 0, "genres: The movie has to have at least one genre")?;
        require(matches_pattern(RE_REMOTE_IMAGE, self.poster.as_str()), "poster: The movie poster must be a valid URL with one of these extensions: (.jpg, .jpeg, .png or .webp)")?;
        require(matches_pattern(RE_REMOTE_IMAGE, self.backdrop.as_str()), "backdrop: The movie backdrop image must be a valid URL with one of these extensions: (.jpg, .jpeg, .png or .webp)")?;
        Ok(())
    }
}

impl Episode {
    /// Checks every field's format; the error names the first field that fails.
    pub fn validate(&self) -> (r: Result<(), AppError>)
        ensures
            r is Ok == episode_valid(*self),
            r matches Err(e) ==> e matches AppError::ValidationAppError(_),
    {
        require(non_empty(&self.title), "title: The episode title cannot be empty")?;
        require(matches_pattern(RE_RELEASE_DATE, self.release_date.as_str()), "releaseDate: The release date of the episode must match the following format: 'YYYY-MM-DD'")?;
        require(matches_pattern(RE_EPISODE_DURATION, self.duration.as_str()), "duration: The duration must match the following formats: '00h 00m', '00h' or '00m'")?;
        require(non_empty(&self.description), "description: The episode description cannot be empty")?;
        Ok(())
    }
}

impl Season {
    /// Checks the season and each of its episodes; a season without
    /// episodes is refused.
    pub fn validate(&self) -> (r: Result<(), AppError>)
        ensures
            r is Ok == season_valid(*self),
            r matches Err(e) ==> e matches AppError::ValidationAppError(_),
    {
        require(non_empty(&self.overview), "overview: The season overview cannot be empty")?;
        require(self.episode_list.len() > 0, "episodeList: The season has to have at least one episode")?;
        let mut i: usize = 0;
        while i < self.episode_list.len()
            invariant
                i <= self.episode_list@.len(),
                forall|k: int| 0 <= k < i ==> episode_valid(#[trigger] self.episode_list@[k]),
            decreases self.episode_list@.len() - i,
        {
            self.episode_list[i].validate()?;
            i += 1;
        }
        require(matches_pattern(RE_REMOTE_IMAGE, self.poster.as_str()), "poster: The series poster must be a valid URL with one of these extensions: (.jpg, .jpeg, .png or .webp)")?;
        Ok(())
    }
}

impl SeriesRequest {
    /// Checks every field's format, each season and each episode; the error
    /// names the first field that fails.
    pub fn validate(&self) -> (r: Result<(), AppError>)
        ensures
            r is Ok == series_request_valid(*self),
            r matches Err(e) ==> e matches AppError::ValidationAppError(_),
    {
        require(matches_pattern(RE_IMDB_ID, self.imdb_id.as_str()), "imdbId: The imdbId must match the following format: 'tt0000'")?;
        require(non_empty(&self.title), "title: The series title cannot be empty")?;
        require(non_empty(&self.overview), "overview: The series overview cannot be empty")?;
        require(matches_pattern(RE_PERSON, self.creator.as_str()), "creator: The creator's name must match the following format: 'Name Surname'")?;
        require(matches_pattern(RE_RELEASE_DATE, self.release_date.as_str()), "releaseDate: The release date of the series must match the following format: 'YYYY-MM-DD'")?;
        require(matches_pattern(RE_TRAILER_LINK, self.trailer_link.as_str()), "trailerLink: The series trailer link has to be a valid YouTube URL")?;
        require(self.genres.len() > 0, "genres: The series has to have at least one genre")?;
        require(self.season_list.len() > 0, "seasonList: The series has to have at least one season")?;
        let mut i: usize = 0;
        while i < self.season_list.len()
            invariant
                i <= self.season_list@.len(),
                forall|k: int| 0 <= k < i ==> season_valid(#[trigger] self.season_list@[k]),
            decreases self.season_list@.len() - i,
        {
            self.season_list[i].validate()?;
            i += 1;
        }
        require(matches_pattern(RE_REMOTE_IMAGE, self.poster.as_str()), "poster: The series poster must be a valid URL with one of these extensions: (.jpg, .jpeg, .png or .webp)")?;
        require(matches_pattern(RE_REMOTE_IMAGE, self.backdrop.as_str()), "backdrop: The series backdrop image must be a valid URL with one of these extensions: (.jpg, .jpeg, .png or .webp)")?;
        Ok(())
    }
}

impl ReviewRequest {
    /// Checks every field; the error names the first field that fails.
    pub fn validate(&self) -> (r: Result<(), AppError>)
        ensures
            r is Ok == review_request_valid(*self),
            r matches Err(e) ==> e matches AppError::ValidationAppError(_),
    {
        require(non_empty(&self.title), "title: The review title cannot be empty")?;
        require(self.rating <= 5, "rating: The rating must be between 0 and 5")?;
        require(non_empty(&self.body), "body: The review body cannot be empty")?;
        require(matches_pattern(RE_IMDB_ID, self.imdb_id.as_str()), "imdbId: The imdbId must match the following format: 'tt0000'")?;
        Ok(())
    }
}

impl ReviewUpdate {
    /// Checks every field; the error names the first field that fails.
    pub fn validate(&self) -> (r: Result<(), AppError>)
        ensures
            r is Ok == review_update_valid(*self),
            r matches Err(e) ==> e matches AppError::ValidationAppError(_),
    {
        require(non_empty(&self.title), "title: The review title cannot be empty")?;
        require(self.rating <= 5, "rating: The rating must be between 0 and 5")?;
        require(non_empty(&self.body), "body: The review body cannot be empty")?;
        Ok(())
    }
}

} // verus!
