use crate::error::AppError;
use crate::formats::{
    canonical_object_id, is_imdb_id, is_object_id_text, parse_id, same_text, title_matches,
    title_passes, valid_imdb_id,
};
use crate::models::movie::{movie_response_of, Movie, MovieRequest, MovieResponse};
use crate::services::db::{
    lemma_lists_push_empty, lemma_lists_remove, movie_review_lists, series_review_lists,
    id_in_movies, imdb_in_movies, is_single_text, same_texts, single_text, Database,
};
use crate::services::messages::{
    created_message, created_text, deleted_message, deleted_text, patch_noop_text,
    patched_message, patched_text, update_noop_text, updated_message, updated_text,
};
use crate::services::paging::{
    count_pages, lemma_window_push, normalize_page, normalize_size, page_bounds, page_index,
    page_number,
    page_size, total_pages, window,
};
use vstd::prelude::*;

verus! {

/// One page of movie summaries, with the size of the whole selection.
pub struct MoviePage {
    pub movies: Vec<MovieResponse>,
    pub current_page: u32,
    pub total_items: u64,
    pub total_pages: u64,
}

/// The fields of a movie that a patch may set.
#[derive(Debug, Clone, Copy, PartialEq, Eq, Structural)]
pub enum MovieField {
    ImdbId,
    Title,
    Overview,
    Duration,
    Director,
    ReleaseDate,
    TrailerLink,
    Genres,
    Poster,
    Backdrop,
}

/// The allow-list of movie patches: the field that each accepted name sets.
pub open spec fn movie_field_named(name: Seq<char>) -> Option<MovieField> {
    if name == "imdbId"@ {
        Some(MovieField::ImdbId)
    } else if name == "title"@ {
        Some(MovieField::Title)
    } else if name == "overview"@ {
        Some(MovieField::Overview)
    } else if name == "duration"@ {
        Some(MovieField::Duration)
    } else if name == "director"@ {
        Some(MovieField::Director)
    } else if name == "releaseDate"@ {
        Some(MovieField::ReleaseDate)
    } else if name == "trailerLink"@ {
        Some(MovieField::TrailerLink)
    } else if name == "genres"@ {
        Some(MovieField::Genres)
    } else if name == "poster"@ {
        Some(MovieField::Poster)
    } else if name == "backdrop"@ {
        Some(MovieField::Backdrop)
    } else {
        None
    }
}

/// The movie field that a patch of `name` sets, if `name` is on the allow-list.
pub fn movie_field(name: &str) -> (r: Option<MovieField>)
    ensures
        r == movie_field_named(name@),
{
    if same_text(name, "imdbId") {
        Some(MovieField::ImdbId)
    } else if same_text(name, "title") {
        Some(MovieField::Title)
    } else if same_text(name, "overview") {
        Some(MovieField::Overview)
    } else if same_text(name, "duration") {
        Some(MovieField::Duration)
    } else if same_text(name, "director") {
        Some(MovieField::Director)
    } else if same_text(name, "releaseDate") {
        Some(MovieField::ReleaseDate)
    } else if same_text(name, "trailerLink") {
        Some(MovieField::TrailerLink)
    } else if same_text(name, "genres") {
        Some(MovieField::Genres)
    } else if same_text(name, "poster") {
        Some(MovieField::Poster)
    } else if same_text(name, "backdrop") {
        Some(MovieField::Backdrop)
    } else {
        None
    }
}

/// `m` passes the optional title filter.
pub open spec fn movie_selected(filter: Option<String>, m: Movie) -> bool {
    match filter {
        Some(f) => title_matches(f@, m.title@),
        None => true,
    }
}

/// The movies of `ms` that pass the filter, in their stored order.
pub open spec fn selected_movies(ms: Seq<Movie>, filter: Option<String>) -> Seq<Movie>
    decreases ms.len(),
{
    if ms.len() == 0 {
        Seq::empty()
    } else {
        let rest = selected_movies(ms.drop_last(), filter);
        if movie_selected(filter, ms.last()) {
            rest.push(ms.last())
        } else {
            rest
        }
    }
}

/// `new` is `old` as stored by a create: the same fields, and no reviews.
pub open spec fn movie_stored_as(new: Movie, old: Movie) -> bool {
    &&& new._id == old._id
    &&& new.imdb_id == old.imdb_id
    &&& new.title == old.title
    &&& new.overview == old.overview
    &&& new.duration == old.duration
    &&& new.director == old.director
    &&& new.release_date == old.release_date
    &&& new.trailer_link == old.trailer_link
    &&& new.genres == old.genres
    &&& new.poster == old.poster
    &&& new.backdrop == old.backdrop
    &&& new.review_ids@.len() == 0
}

/// `new` is `old` with every field that a client submits taken from `req`;
/// the identity and the reviews stay.
pub open spec fn movie_replaced(old: Movie, new: Movie, req: MovieRequest) -> bool {
    &&& new._id == old._id
    &&& new.imdb_id == req.imdb_id
    &&& new.title == req.title
    &&& new.overview == req.overview
    &&& new.duration == req.duration
    &&& new.director == req.director
    &&& new.release_date == req.release_date
    &&& new.trailer_link == req.trailer_link
    &&& new.genres == req.genres
    &&& new.poster == req.poster
    &&& new.backdrop == req.backdrop
    &&& new.review_ids == old.review_ids
}

/// A replacement of `m` by `req` changes some stored value.
pub open spec fn movie_update_changes(m: Movie, req: MovieRequest) -> bool {
    !(m.imdb_id@ == req.imdb_id@ && m.title@ == req.title@ && m.overview@ == req.overview@
        && m.duration@ == req.duration@ && m.director@ == req.director@
        && m.release_date@ == req.release_date@
        && m.trailer_link@ == req.trailer_link@ && m.genres.deep_view() == req.genres.deep_view()
        && m.poster@ == req.poster@ && m.backdrop@ == req.backdrop@)
}

/// The value of field `f` of `m` is `val` (the genres: exactly `[val]`).
pub open spec fn movie_field_is(m: Movie, f: MovieField, val: Seq<char>) -> bool {
    match f {
        MovieField::ImdbId => m.imdb_id@ == val,
        MovieField::Title => m.title@ == val,
        MovieField::Overview => m.overview@ == val,
        MovieField::Duration => m.duration@ == val,
        MovieField::Director => m.director@ == val,
        MovieField::ReleaseDate => m.release_date@ == val,
        MovieField::TrailerLink => m.trailer_link@ == val,
        MovieField::Genres => m.genres.deep_view() == seq![val],
        MovieField::Poster => m.poster@ == val,
        MovieField::Backdrop => m.backdrop@ == val,
    }
}

/// `new` is `old` with field `f` set to `val` and every other field kept.
pub open spec fn movie_patched(old: Movie, new: Movie, f: MovieField, val: Seq<char>) -> bool {
    &&& movie_field_is(new, f, val)
    &&& new._id == old._id
    &&& new.review_ids == old.review_ids
    &&& (f != MovieField::ImdbId ==> new.imdb_id == old.imdb_id)
    &&& (f != MovieField::Title ==> new.title == old.title)
    &&& (f != MovieField::Overview ==> new.overview == old.overview)
    &&& (f != MovieField::Duration ==> new.duration == old.duration)
    &&& (f != MovieField::Director ==> new.director == old.director)
    &&& (f != MovieField::ReleaseDate ==> new.release_date == old.release_date)
    &&& (f != MovieField::TrailerLink ==> new.trailer_link == old.trailer_link)
    &&& (f != MovieField::Genres ==> new.genres == old.genres)
    &&& (f != MovieField::Poster ==> new.poster == old.poster)
    &&& (f != MovieField::Backdrop ==> new.backdrop == old.backdrop)
}

/// The position of the movie whose identity is `key`.
pub open spec fn movie_pos(ms: Seq<Movie>, key: Seq<char>) -> int {
    choose|i: int| 0 <= i < ms.len() && (#[trigger] ms[i])._id@ == key
}

/// What a lookup of a movie by external identifier returns.
pub open spec fn find_movie_by_imdb_id_post(db: Database, imdb_id: &str, r: Result<&Movie, AppError>) -> bool {
    &&& !is_imdb_id(imdb_id@) ==> r == Err::<&Movie, AppError>(AppError::WrongImdbId)
    &&& is_imdb_id(imdb_id@) && !imdb_in_movies(db.movies@, imdb_id@) ==> r == Err::<
        &Movie,
        AppError,
    >(AppError::NotFound)
    &&& is_imdb_id(imdb_id@) && imdb_in_movies(db.movies@, imdb_id@) ==> (r matches Ok(m)
        && db.movies@.contains(*m) && m.imdb_id@ == imdb_id@)
}

/// What a create of a movie returns and leaves.
pub open spec fn create_movie_post(before: Database, after: Database, movie: Movie, r: Result<String, AppError>) -> bool {
    &&& after.wf()
    &&& after.series == before.series
    &&& after.reviews == before.reviews
    &&& before.imdb_taken(movie.imdb_id@) ==> r == Err::<String, AppError>(
        AppError::AlreadyExists,
    ) && after.movies == before.movies
    &&& !before.imdb_taken(movie.imdb_id@) && id_in_movies(before.movies@, movie._id@)
        ==> r == Err::<String, AppError>(AppError::InternalServerError)
        && after.movies == before.movies
    &&& !before.imdb_taken(movie.imdb_id@) && !id_in_movies(before.movies@, movie._id@)
        ==> (r matches Ok(msg) && msg@ == created_text("Movie"@, movie._id@)
        && after.movies@ == before.movies@.push(after.movies@.last())
        && movie_stored_as(after.movies@.last(), movie))
}

/// What a replacement of a movie returns and leaves.
pub open spec fn update_movie_post(before: Database, after: Database, id: &str, movie: MovieRequest, r: Result<String, AppError>) -> bool {
    &&& after.wf()
    &&& after.series == before.series
    &&& after.reviews == before.reviews
    &&& ({
        let key = canonical_object_id(id@);
        let o = before.movies@;
        let p = movie_pos(o, key);
        let n = after.movies@;
        &&& !is_object_id_text(id@) ==> r == Err::<String, AppError>(
            AppError::CannotParseObjId,
        ) && n == o
        &&& is_object_id_text(id@) && !id_in_movies(o, key) ==> r == Err::<String, AppError>(
            AppError::NotExists,
        ) && n == o
        &&& is_object_id_text(id@) && id_in_movies(o, key) && o[p].imdb_id@ != movie.imdb_id@
            && !is_imdb_id(movie.imdb_id@) ==> r == Err::<String, AppError>(AppError::WrongImdbId)
            && n == o
        &&& is_object_id_text(id@) && id_in_movies(o, key) && o[p].imdb_id@ != movie.imdb_id@
            && is_imdb_id(movie.imdb_id@) && before.imdb_taken(movie.imdb_id@)
            ==> r == Err::<String, AppError>(AppError::ImdbIdInUse) && n == o
        &&& is_object_id_text(id@) && id_in_movies(o, key) && (o[p].imdb_id@ == movie.imdb_id@ || (
            is_imdb_id(movie.imdb_id@) && !before.imdb_taken(movie.imdb_id@)))
            ==> (r matches Ok(msg) && n == o.update(p, n[p]) && movie_replaced(
            o[p],
            n[p],
            movie,
        ) && msg@ == if movie_update_changes(o[p], movie) {
            updated_text("Movie"@, id@)
        } else {
            update_noop_text()
        })
    })
}

/// What a patch of a movie returns and leaves.
pub open spec fn patch_movie_post(before: Database, after: Database, id: &str, field: &str, val: &str, r: Result<String, AppError>) -> bool {
    &&& after.wf()
    &&& after.series == before.series
    &&& after.reviews == before.reviews
    &&& ({
        let key = canonical_object_id(id@);
        let o = before.movies@;
        let p = movie_pos(o, key);
        let n = after.movies@;
        let f = movie_field_named(field@);
        &&& !is_object_id_text(id@) ==> r == Err::<String, AppError>(
            AppError::CannotParseObjId,
        ) && n == o
        &&& is_object_id_text(id@) && f is None ==> r == Err::<String, AppError>(
            AppError::FieldNotAllowed,
        ) && n == o
        &&& is_object_id_text(id@) && f is Some && !id_in_movies(o, key) ==> r == Err::<
            String,
            AppError,
        >(AppError::NotExists) && n == o
        &&& is_object_id_text(id@) && f == Some(MovieField::ImdbId) && id_in_movies(o, key)
            && o[p].imdb_id@ != val@ && !is_imdb_id(val@) ==> r == Err::<String, AppError>(
            AppError::WrongImdbId,
        ) && n == o
        &&& is_object_id_text(id@) && f == Some(MovieField::ImdbId) && id_in_movies(o, key)
            && o[p].imdb_id@ != val@ && is_imdb_id(val@) && before.imdb_taken(val@)
            ==> r == Err::<String, AppError>(AppError::ImdbIdInUse) && n == o
        &&& is_object_id_text(id@) && f is Some && id_in_movies(o, key) && (f == Some(
            MovieField::ImdbId,
        ) ==> o[p].imdb_id@ == val@ || (is_imdb_id(val@) && !before.imdb_taken(val@)))
            ==> (r matches Ok(msg) && n == o.update(p, n[p]) && movie_patched(
            o[p],
            n[p],
            f->Some_0,
            val@,
        ) && msg@ == if movie_field_is(o[p], f->Some_0, val@) {
            patch_noop_text()
        } else {
            patched_text("Movie"@, field@, id@)
        })
    })
}

impl Database {
    /// Whether a movie has the external identifier `imdb_id`.
    pub fn movie_exists_by_imdb_id(&self, imdb_id: &str) -> (r: bool)
        ensures
            r == imdb_in_movies(self.movies@, imdb_id@),
    {
        self.movie_index_by_imdb(imdb_id).is_some()
    }

    /// One page of the movies whose title contains `title`, ignoring case
    /// (all movies where `title` is absent). Pages are numbered from 1; 0 or
    /// absent means the first. The size defaults to 10 where absent or 0. An
    /// empty page is `Empty`.
    pub fn find_all_movies(&self, title: Option<String>, page: Option<u32>, size: Option<u32>) -> (r:
        Result<MoviePage, AppError>)
        ensures
            ({
                let sel = selected_movies(self.movies@, title);
                let win = window(sel, page_index(page), page_size(size));
                &&& win.len() == 0 ==> r == Err::<MoviePage, AppError>(AppError::Empty)
                &&& win.len() > 0 ==> (r matches Ok(p) && p.movies@ == win.map_values(
                    |m: Movie| movie_response_of(m),
                ) && p.current_page as nat == page_number(page) && p.total_items as nat
                    == sel.len() && p.total_pages as nat == total_pages(
                    sel.len(),
                    page_size(size),
                ))
            }),
    {
        let page_num = normalize_page(page);
        let page_len = normalize_size(size);
        let (start, end) = page_bounds(page_num, page_len);
        let ghost pn = page_index(page);
        let ghost ps = page_len as nat;
        let mut matched: u64 = 0;
        let mut out: Vec<MovieResponse> = Vec::new();
        let mut i: usize = 0;
        while i < self.movies.len()
            invariant
                i <= self.movies@.len(),
                matched <= i,
                matched as nat == selected_movies(self.movies@.take(i as int), title).len(),
                out@ == window(selected_movies(self.movies@.take(i as int), title), pn, ps).map_values(
                    |m: Movie| movie_response_of(m),
                ),
                start as nat == pn * ps,
                end as nat == pn * ps + ps,
            decreases self.movies@.len() - i,
        {
            let ghost before = selected_movies(self.movies@.take(i as int), title);
            let m = &self.movies[i];
            let keep = match &title {
                Some(f) => title_passes(f.as_str(), m.title.as_str()),
                None => true,
            };
            assert(self.movies@.take(i + 1).drop_last() =~= self.movies@.take(i as int));
            assert(self.movies@.take(i + 1).last() == self.movies@[i as int]);
            if keep {
                proof {
                    lemma_window_push(before, *m, pn, ps);
                }
                if start <= matched && matched < end {
                    out.push(MovieResponse::from_movie(m));
                    assert(out@ =~= window(before.push(*m), pn, ps).map_values(
                        |m: Movie| movie_response_of(m),
                    ));
                } else {
                    assert(out@ =~= window(before.push(*m), pn, ps).map_values(
                        |m: Movie| movie_response_of(m),
                    ));
                }
                matched = matched + 1;
            }
            i += 1;
        }
        assert(self.movies@.take(self.movies@.len() as int) =~= self.movies@);
        if out.len() == 0 {
            return Err(AppError::Empty);
        }
        let pages = count_pages(matched, page_len);
        Ok(MoviePage { movies: out, current_page: page_num, total_items: matched, total_pages: pages })
    }

    /// The movie with identity `id`: `CannotParseObjId` where `id` is not an
    /// object id, `NotFound` where no movie has it.
    pub fn find_movie_by_id(&self, id: &str) -> (r: Result<&Movie, AppError>)
        ensures
            !is_object_id_text(id@) ==> r == Err::<&Movie, AppError>(AppError::CannotParseObjId),
            is_object_id_text(id@) && !id_in_movies(self.movies@, canonical_object_id(id@)) ==> r
                == Err::<&Movie, AppError>(AppError::NotFound),
            is_object_id_text(id@) && id_in_movies(self.movies@, canonical_object_id(id@)) ==> (r
                matches Ok(m) && self.movies@.contains(*m) && m._id@ == canonical_object_id(id@)),
    {
        let key = match parse_id(id) {
            Ok(k) => k,
            Err(e) => return Err(e),
        };
        match self.movie_index_by_id(key.as_str()) {
            Some(i) => Ok(&self.movies[i]),
            None => Err(AppError::NotFound),
        }
    }

    /// The movie with external identifier `imdb_id`: `WrongImdbId` where it is
    /// not well formed (nothing is looked up then), `NotFound` where no movie
    /// has it.
    pub fn find_movie_by_imdb_id(&self, imdb_id: &str) -> (r: Result<&Movie, AppError>)
        ensures
            find_movie_by_imdb_id_post(*self, imdb_id, r),
    {
        if !valid_imdb_id(imdb_id) {
            return Err(AppError::WrongImdbId);
        }
        match self.movie_index_by_imdb(imdb_id) {
            Some(i) => Ok(&self.movies[i]),
            None => Err(AppError::NotFound),
        }
    }

    /// Stores `movie`, with no reviews. `AlreadyExists` where a movie or a
    /// series holds its external identifier; `InternalServerError` where a
    /// movie already has its identity. Returns the confirmation message.
    pub fn create_movie(&mut self, movie: Movie) -> (r: Result<String, AppError>)
        requires
            old(self).wf(),
        ensures
            create_movie_post(*old(self), *final(self), movie, r),
    {
        if self.movie_exists_by_imdb_id(movie.imdb_id.as_str()) {
            return Err(AppError::AlreadyExists);
        }
        if self.series_exists_by_imdb_id(movie.imdb_id.as_str()) {
            return Err(AppError::AlreadyExists);
        }
        if self.movie_index_by_id(movie._id.as_str()).is_some() {
            return Err(AppError::InternalServerError);
        }
        let msg = created_message("Movie", movie._id.as_str());
        let ghost given = movie;
        let mut movie = movie;
        movie.review_ids = Vec::new();
        let ghost old_movies = self.movies@;
        self.movies.push(movie);
        assert(self.movies@.last() == movie);
        assert(self.movies@.last().review_ids.deep_view() =~= Seq::<Seq<char>>::empty());
        assert(movie_review_lists(self.movies@) =~= movie_review_lists(old_movies).push(Seq::empty()));
        proof {
            lemma_lists_push_empty(movie_review_lists(old_movies), series_review_lists(self.series@), self.reviews@);
        }
        assert(self.movies@ =~= old_movies.push(self.movies@.last()));
        assert(movie_stored_as(self.movies@.last(), given));
        Ok(msg)
    }

    /// Deletes the movie with identity `id`: `CannotParseObjId` where `id` is
    /// not an object id, `NotExists` where no movie has it. Its reviews stay.
    pub fn delete_movie(&mut self, id: &str) -> (r: Result<String, AppError>)
        requires
            old(self).wf(),
        ensures
            final(self).wf(),
            final(self).series == old(self).series,
            final(self).reviews == old(self).reviews,
            !is_object_id_text(id@) ==> r == Err::<String, AppError>(AppError::CannotParseObjId)
                && final(self).movies == old(self).movies,
            is_object_id_text(id@) && !id_in_movies(old(self).movies@, canonical_object_id(id@))
                ==> r == Err::<String, AppError>(AppError::NotExists)
                && final(self).movies == old(self).movies,
            is_object_id_text(id@) && id_in_movies(old(self).movies@, canonical_object_id(id@))
                ==> (r matches Ok(msg) && msg@ == deleted_text("Movie"@, id@) && final(self).movies@
                == old(self).movies@.remove(movie_pos(old(self).movies@, canonical_object_id(id@)))),
    {
        let key = match parse_id(id) {
            Ok(k) => k,
            Err(e) => return Err(e),
        };
        match self.movie_index_by_id(key.as_str()) {
            Some(i) => {
                let ghost ms = self.movies@;
                proof {
                    let p = movie_pos(ms, key@);
                    assert(ms[i as int]._id@ == key@);
                    assert(ms[p]._id@ == key@);
                }
                self.movies.remove(i);
                proof {
                    let ms2 = self.movies@;
                    assert forall|a: int, b: int|
                        0 <= a < ms2.len() && 0 <= b < ms2.len() && a != b implies (
                        #[trigger] ms2[a])._id@ != (#[trigger] ms2[b])._id@ && ms2[a].imdb_id@
                        != ms2[b].imdb_id@ by {
                        let a0 = if a < i { a } else { a + 1 };
                        let b0 = if b < i { b } else { b + 1 };
                        assert(ms2[a] == ms[a0] && ms2[b] == ms[b0]);
                    }
                    assert forall|a: int, j: int|
                        0 <= a < ms2.len() && 0 <= j < self.series@.len() implies (
                        #[trigger] ms2[a]).imdb_id@ != (#[trigger] self.series@[j]).imdb_id@ by {
                        let a0 = if a < i { a } else { a + 1 };
                        assert(ms2[a] == ms[a0]);
                    }
                    assert(movie_review_lists(ms2) =~= movie_review_lists(ms).remove(i as int));
                    lemma_lists_remove(movie_review_lists(ms), series_review_lists(self.series@), self.reviews@, i as int);
                }
                Ok(deleted_message("Movie", id))
            },
            None => Err(AppError::NotExists),
        }
    }
    /// Replaces the fields of the movie with identity `id` by those of
    /// `movie` (the reviews stay). Fails, in this order,
    /// with `CannotParseObjId`, `NotExists` where no movie has that identity,
    /// `WrongImdbId` where a changed external identifier is malformed, and
    /// `ImdbIdInUse` where another document holds it. The message tells a
    /// change from a replacement that changed nothing.
    pub fn update_movie(&mut self, id: &str, movie: MovieRequest) -> (r: Result<String, AppError>)
        requires
            old(self).wf(),
        ensures
            update_movie_post(*old(self), *final(self), id, movie, r),
    {
        let key = match parse_id(id) {
            Ok(k) => k,
            Err(e) => return Err(e),
        };
        let i = match self.movie_index_by_id(key.as_str()) {
            Some(i) => i,
            None => return Err(AppError::NotExists),
        };
        let ghost ms = self.movies@;
        proof {
            assert(ms[movie_pos(ms, key@)]._id@ == key@);
        }
        let own = same_text(self.movies[i].imdb_id.as_str(), movie.imdb_id.as_str());
        if !own && !valid_imdb_id(movie.imdb_id.as_str()) {
            return Err(AppError::WrongImdbId);
        }
        let in_movies = self.movie_exists_by_imdb_id(movie.imdb_id.as_str());
        let in_series = self.series_exists_by_imdb_id(movie.imdb_id.as_str());
        if (in_movies || in_series) && !own {
            return Err(AppError::ImdbIdInUse);
        }
        let m = &self.movies[i];
        let same = own && same_text(m.title.as_str(), movie.title.as_str()) && same_text(
            m.overview.as_str(),
            movie.overview.as_str(),
        ) && same_text(m.duration.as_str(), movie.duration.as_str()) && same_text(
            m.director.as_str(),
            movie.director.as_str(),
        ) && same_text(
            m.release_date.as_str(),
            movie.release_date.as_str(),
        ) && same_text(m.trailer_link.as_str(), movie.trailer_link.as_str()) && same_texts(
            &m.genres,
            &movie.genres,
        ) && same_text(m.poster.as_str(), movie.poster.as_str()) && same_text(
            m.backdrop.as_str(),
            movie.backdrop.as_str(),
        );
        let msg = updated_message("Movie", id, !same);
        let ghost req = movie;
        self.movies[i].imdb_id = movie.imdb_id;
        self.movies[i].title = movie.title;
        self.movies[i].overview = movie.overview;
        self.movies[i].duration = movie.duration;
        self.movies[i].director = movie.director;
        self.movies[i].release_date = movie.release_date;
        self.movies[i].trailer_link = movie.trailer_link;
        self.movies[i].genres = movie.genres;
        self.movies[i].poster = movie.poster;
        self.movies[i].backdrop = movie.backdrop;
        proof {
            let ms2 = self.movies@;
            assert(ms2 =~= ms.update(i as int, ms2[i as int]));
            assert(movie_replaced(ms[i as int], ms2[i as int], req));
            assert forall|a: int, b: int|
                0 <= a < ms2.len() && 0 <= b < ms2.len() && a != b implies (#[trigger] ms2[a])._id@
                != (#[trigger] ms2[b])._id@ && ms2[a].imdb_id@ != ms2[b].imdb_id@ by {
                assert(a != i ==> ms2[a] == ms[a]);
                assert(b != i ==> ms2[b] == ms[b]);
            }
            assert forall|a: int, j: int|
                0 <= a < ms2.len() && 0 <= j < self.series@.len() implies (
                #[trigger] ms2[a]).imdb_id@ != (#[trigger] self.series@[j]).imdb_id@ by {
                assert(a != i ==> ms2[a] == ms[a]);
            }
            assert(movie_review_lists(ms2) =~= movie_review_lists(ms));
        }
        Ok(msg)
    }

    /// Sets one field of the movie with identity `id` to `val` (the genres
    /// to the single genre `val`). Fails, in this order, with
    /// `CannotParseObjId`, `FieldNotAllowed` where `field` is not on the
    /// allow-list, `NotExists` where no movie has that identity, and, for a
    /// changed `imdbId`, `WrongImdbId` and `ImdbIdInUse`. The message tells a
    /// change from a patch that changed nothing.
    pub fn patch_movie(&mut self, id: &str, field: &str, val: &str) -> (r: Result<String, AppError>)
        requires
            old(self).wf(),
        ensures
            patch_movie_post(*old(self), *final(self), id, field, val, r),
    {
        let key = match parse_id(id) {
            Ok(k) => k,
            Err(e) => return Err(e),
        };
        let f = match movie_field(field) {
            Some(f) => f,
            None => return Err(AppError::FieldNotAllowed),
        };
        let i = match self.movie_index_by_id(key.as_str()) {
            Some(i) => i,
            None => return Err(AppError::NotExists),
        };
        let ghost ms = self.movies@;
        proof {
            assert(ms[movie_pos(ms, key@)]._id@ == key@);
        }
        if f == MovieField::ImdbId {
            let own = same_text(self.movies[i].imdb_id.as_str(), val);
            if !own && !valid_imdb_id(val) {
                return Err(AppError::WrongImdbId);
            }
            let in_movies = self.movie_exists_by_imdb_id(val);
            let in_series = self.series_exists_by_imdb_id(val);
            if (in_movies || in_series) && !own {
                return Err(AppError::ImdbIdInUse);
            }
        }
        let m = &self.movies[i];
        let same = match f {
            MovieField::ImdbId => same_text(m.imdb_id.as_str(), val),
            MovieField::Title => same_text(m.title.as_str(), val),
            MovieField::Overview => same_text(m.overview.as_str(), val),
            MovieField::Duration => same_text(m.duration.as_str(), val),
            MovieField::Director => same_text(m.director.as_str(), val),
            MovieField::ReleaseDate => same_text(m.release_date.as_str(), val),
            MovieField::TrailerLink => same_text(m.trailer_link.as_str(), val),
            MovieField::Genres => is_single_text(&m.genres, val),
            MovieField::Poster => same_text(m.poster.as_str(), val),
            MovieField::Backdrop => same_text(m.backdrop.as_str(), val),
        };
        let msg = patched_message("Movie", field, id, !same);
        match f {
            MovieField::ImdbId => self.movies[i].imdb_id = val.to_owned(),
            MovieField::Title => self.movies[i].title = val.to_owned(),
            MovieField::Overview => self.movies[i].overview = val.to_owned(),
            MovieField::Duration => self.movies[i].duration = val.to_owned(),
            MovieField::Director => self.movies[i].director = val.to_owned(),
            MovieField::ReleaseDate => self.movies[i].release_date = val.to_owned(),
            MovieField::TrailerLink => self.movies[i].trailer_link = val.to_owned(),
            MovieField::Genres => self.movies[i].genres = single_text(val),
            MovieField::Poster => self.movies[i].poster = val.to_owned(),
            MovieField::Backdrop => self.movies[i].backdrop = val.to_owned(),
        }
        proof {
            let ms2 = self.movies@;
            assert(ms2 =~= ms.update(i as int, ms2[i as int]));
            assert forall|a: int, b: int|
                0 <= a < ms2.len() && 0 <= b < ms2.len() && a != b implies (#[trigger] ms2[a])._id@
                != (#[trigger] ms2[b])._id@ && ms2[a].imdb_id@ != ms2[b].imdb_id@ by {
                assert(a != i ==> ms2[a] == ms[a]);
                assert(b != i ==> ms2[b] == ms[b]);
            }
            assert forall|a: int, j: int|
                0 <= a < ms2.len() && 0 <= j < self.series@.len() implies (
                #[trigger] ms2[a]).imdb_id@ != (#[trigger] self.series@[j]).imdb_id@ by {
                assert(a != i ==> ms2[a] == ms[a]);
            }
            assert(movie_review_lists(ms2) =~= movie_review_lists(ms));
        }
        Ok(msg)
    }
}

} // verus!
