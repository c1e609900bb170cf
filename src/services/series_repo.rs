use crate::error::AppError;
use crate::formats::{
    canonical_object_id, decimal_value, is_decimal, is_imdb_id, is_object_id_text, parse_count,
    parse_id, same_text, title_matches, title_passes, valid_imdb_id,
};
use crate::models::series::{
    same_seasons, Season, series_response_of, seasons_view, Series, SeriesRequest, SeriesResponse,
};
use crate::services::db::{
    lemma_lists_push_empty, lemma_lists_remove, movie_review_lists, series_review_lists,
    id_in_series, imdb_in_series, is_single_text, same_texts, single_text, Database,
};
use crate::services::messages::{
    created_message, created_text, deleted_message, deleted_text, patch_noop_text,
    patched_message, patched_text, update_noop_text, updated_message, updated_text,
};
use crate::services::paging::{
    count_pages, lemma_window_push, normalize_page, normalize_size, page_bounds, page_index,
    page_number,
    page_size, total_pages, window,
};
use vstd::prelude::*;
use vstd::string::StringExecFns;

verus! {

/// One page of series summaries, with the size of the whole selection.
pub struct SeriesPage {
    pub series: Vec<SeriesResponse>,
    pub current_page: u32,
    pub total_items: u64,
    pub total_pages: u64,
}

/// The fields of a series that a patch may set.
#[derive(Debug, Clone, Copy, PartialEq, Eq, Structural)]
pub enum SeriesField {
    ImdbId,
    Title,
    Overview,
    NumberOfSeasons,
    Creator,
    ReleaseDate,
    TrailerLink,
    Genres,
    SeasonList,
    Poster,
    Backdrop,
}

/// The allow-list of series patches: the field that each accepted name sets.
pub open spec fn series_field_named(name: Seq<char>) -> Option<SeriesField> {
    if name == "imdbId"@ {
        Some(SeriesField::ImdbId)
    } else if name == "title"@ {
        Some(SeriesField::Title)
    } else if name == "overview"@ {
        Some(SeriesField::Overview)
    } else if name == "numberOfSeasons"@ {
        Some(SeriesField::NumberOfSeasons)
    } else if name == "creator"@ {
        Some(SeriesField::Creator)
    } else if name == "releaseDate"@ {
        Some(SeriesField::ReleaseDate)
    } else if name == "trailerLink"@ {
        Some(SeriesField::TrailerLink)
    } else if name == "genres"@ {
        Some(SeriesField::Genres)
    } else if name == "seasonList"@ {
        Some(SeriesField::SeasonList)
    } else if name == "poster"@ {
        Some(SeriesField::Poster)
    } else if name == "backdrop"@ {
        Some(SeriesField::Backdrop)
    } else {
        None
    }
}

/// The series field that a patch of `name` sets, if `name` is on the allow-list.
pub fn series_field(name: &str) -> (r: Option<SeriesField>)
    ensures
        r == series_field_named(name@),
{
    if same_text(name, "imdbId") {
        Some(SeriesField::ImdbId)
    } else if same_text(name, "title") {
        Some(SeriesField::Title)
    } else if same_text(name, "overview") {
        Some(SeriesField::Overview)
    } else if same_text(name, "numberOfSeasons") {
        Some(SeriesField::NumberOfSeasons)
    } else if same_text(name, "creator") {
        Some(SeriesField::Creator)
    } else if same_text(name, "releaseDate") {
        Some(SeriesField::ReleaseDate)
    } else if same_text(name, "trailerLink") {
        Some(SeriesField::TrailerLink)
    } else if same_text(name, "genres") {
        Some(SeriesField::Genres)
    } else if same_text(name, "seasonList") {
        Some(SeriesField::SeasonList)
    } else if same_text(name, "poster") {
        Some(SeriesField::Poster)
    } else if same_text(name, "backdrop") {
        Some(SeriesField::Backdrop)
    } else {
        None
    }
}

/// `m` passes the optional title filter.
pub open spec fn series_selected(filter: Option<String>, m: Series) -> bool {
    match filter {
        Some(f) => title_matches(f@, m.title@),
        None => true,
    }
}

/// The series of `ss` that pass the filter, in their stored order.
pub open spec fn selected_series(ss: Seq<Series>, filter: Option<String>) -> Seq<Series>
    decreases ss.len(),
{
    if ss.len() == 0 {
        Seq::empty()
    } else {
        let rest = selected_series(ss.drop_last(), filter);
        if series_selected(filter, ss.last()) {
            rest.push(ss.last())
        } else {
            rest
        }
    }
}

/// `new` is `old` as stored by a create: the same fields, and no reviews.
pub open spec fn series_stored_as(new: Series, old: Series) -> bool {
    &&& new._id == old._id
    &&& new.imdb_id == old.imdb_id
    &&& new.title == old.title
    &&& new.overview == old.overview
    &&& new.number_of_seasons == old.number_of_seasons
    &&& new.creator == old.creator
    &&& new.release_date == old.release_date
    &&& new.trailer_link == old.trailer_link
    &&& new.genres == old.genres
    &&& new.season_list == old.season_list
    &&& new.poster == old.poster
    &&& new.backdrop == old.backdrop
    &&& new.review_ids@.len() == 0
}

/// `new` is `old` with every field that a client submits taken from `req`;
/// the identity and the reviews stay.
pub open spec fn series_replaced(old: Series, new: Series, req: SeriesRequest) -> bool {
    &&& new._id == old._id
    &&& new.imdb_id == req.imdb_id
    &&& new.title == req.title
    &&& new.overview == req.overview
    &&& new.number_of_seasons == req.number_of_seasons
    &&& new.creator == req.creator
    &&& new.release_date == req.release_date
    &&& new.trailer_link == req.trailer_link
    &&& new.genres == req.genres
    &&& new.season_list == req.season_list
    &&& new.poster == req.poster
    &&& new.backdrop == req.backdrop
    &&& new.review_ids == old.review_ids
}

/// A replacement of `m` by `req` changes some stored value.
pub open spec fn series_update_changes(m: Series, req: SeriesRequest) -> bool {
    !(m.imdb_id@ == req.imdb_id@ && m.title@ == req.title@ && m.overview@ == req.overview@
        && m.number_of_seasons == req.number_of_seasons && m.creator@ == req.creator@
        && m.release_date@ == req.release_date@ && m.trailer_link@ == req.trailer_link@
        && m.genres.deep_view() == req.genres.deep_view() && seasons_view(m.season_list@)
        == seasons_view(req.season_list@) && m.poster@ == req.poster@ && m.backdrop@
        == req.backdrop@)
}

/// The value of a series patch: text for every field but the season list,
/// which takes a list of seasons.
pub enum SeriesPatchValue {
    Text(String),
    Seasons(Vec<Season>),
}

/// The text of a patch value (empty for a season list).
pub open spec fn patch_text(v: SeriesPatchValue) -> Seq<char> {
    match v {
        SeriesPatchValue::Text(t) => t@,
        SeriesPatchValue::Seasons(_) => Seq::empty(),
    }
}

/// A patch of field `f` can take the value `v`: a season list takes seasons,
/// every other field text; a season count must be a decimal number that fits
/// a `u32`.
pub open spec fn series_value_fits(f: SeriesField, v: SeriesPatchValue) -> bool {
    match f {
        SeriesField::SeasonList => v is Seasons,
        SeriesField::NumberOfSeasons => v is Text && is_decimal(patch_text(v)) && decimal_value(
            patch_text(v),
        ) <= u32::MAX as nat,
        _ => v is Text,
    }
}

/// The value of text field `f` of `m` is `val` (the genres: exactly `[val]`;
/// the season count: the number that `val` spells).
pub open spec fn series_text_field_is(m: Series, f: SeriesField, val: Seq<char>) -> bool {
    match f {
        SeriesField::ImdbId => m.imdb_id@ == val,
        SeriesField::Title => m.title@ == val,
        SeriesField::Overview => m.overview@ == val,
        SeriesField::NumberOfSeasons => is_decimal(val) && m.number_of_seasons as nat
            == decimal_value(val),
        SeriesField::Creator => m.creator@ == val,
        SeriesField::ReleaseDate => m.release_date@ == val,
        SeriesField::TrailerLink => m.trailer_link@ == val,
        SeriesField::Genres => m.genres.deep_view() == seq![val],
        SeriesField::SeasonList => false,
        SeriesField::Poster => m.poster@ == val,
        SeriesField::Backdrop => m.backdrop@ == val,
    }
}

/// The value of field `f` of `m` is `v`: for the season list, the same
/// seasons and episodes, text for text.
pub open spec fn series_field_is(m: Series, f: SeriesField, v: SeriesPatchValue) -> bool {
    match v {
        SeriesPatchValue::Seasons(l) => f == SeriesField::SeasonList && seasons_view(
            m.season_list@,
        ) == seasons_view(l@),
        SeriesPatchValue::Text(t) => series_text_field_is(m, f, t@),
    }
}

/// `new` is `old` with field `f` set to `v` and every other field kept.
pub open spec fn series_patched(old: Series, new: Series, f: SeriesField, v: SeriesPatchValue) -> bool {
    &&& series_field_is(new, f, v)
    &&& (v matches SeriesPatchValue::Seasons(l) ==> new.season_list == l)
    &&& new._id == old._id
    &&& new.review_ids == old.review_ids
    &&& (f != SeriesField::ImdbId ==> new.imdb_id == old.imdb_id)
    &&& (f != SeriesField::Title ==> new.title == old.title)
    &&& (f != SeriesField::Overview ==> new.overview == old.overview)
    &&& (f != SeriesField::NumberOfSeasons ==> new.number_of_seasons == old.number_of_seasons)
    &&& (f != SeriesField::Creator ==> new.creator == old.creator)
    &&& (f != SeriesField::ReleaseDate ==> new.release_date == old.release_date)
    &&& (f != SeriesField::TrailerLink ==> new.trailer_link == old.trailer_link)
    &&& (f != SeriesField::Genres ==> new.genres == old.genres)
    &&& (f != SeriesField::SeasonList ==> new.season_list == old.season_list)
    &&& (f != SeriesField::Poster ==> new.poster == old.poster)
    &&& (f != SeriesField::Backdrop ==> new.backdrop == old.backdrop)
}

/// The position of the series whose identity is `key`.
pub open spec fn series_pos(ss: Seq<Series>, key: Seq<char>) -> int {
    choose|i: int| 0 <= i < ss.len() && (#[trigger] ss[i])._id@ == key
}

/// What a lookup of a series by external identifier returns.
pub open spec fn find_series_by_imdb_id_post(db: Database, imdb_id: &str, r: Result<&Series, AppError>) -> bool {
    &&& !is_imdb_id(imdb_id@) ==> r == Err::<&Series, AppError>(AppError::WrongImdbId)
    &&& is_imdb_id(imdb_id@) && !imdb_in_series(db.series@, imdb_id@) ==> r == Err::<
        &Series,
        AppError,
    >(AppError::NotFound)
    &&& is_imdb_id(imdb_id@) && imdb_in_series(db.series@, imdb_id@) ==> (r matches Ok(m)
        && db.series@.contains(*m) && m.imdb_id@ == imdb_id@)
}

/// What a create of a series returns and leaves.
pub open spec fn create_series_post(before: Database, after: Database, series: Series, r: Result<String, AppError>) -> bool {
    &&& after.wf()
    &&& after.movies == before.movies
    &&& after.reviews == before.reviews
    &&& before.imdb_taken(series.imdb_id@) ==> r == Err::<String, AppError>(
        AppError::AlreadyExists,
    ) && after.series == before.series
    &&& !before.imdb_taken(series.imdb_id@) && id_in_series(before.series@, series._id@)
        ==> r == Err::<String, AppError>(AppError::InternalServerError)
        && after.series == before.series
    &&& !before.imdb_taken(series.imdb_id@) && !id_in_series(before.series@, series._id@)
        ==> (r matches Ok(msg) && msg@ == created_text("Series"@, series._id@)
        && after.series@ == before.series@.push(after.series@.last())
        && series_stored_as(after.series@.last(), series))
}

/// What a replacement of a series returns and leaves.
pub open spec fn update_series_post(before: Database, after: Database, id: &str, series: SeriesRequest, r: Result<String, AppError>) -> bool {
    &&& after.wf()
    &&& after.movies == before.movies
    &&& after.reviews == before.reviews
    &&& ({
        let key = canonical_object_id(id@);
        let o = before.series@;
        let p = series_pos(o, key);
        let n = after.series@;
        &&& !is_object_id_text(id@) ==> r == Err::<String, AppError>(
            AppError::CannotParseObjId,
        ) && n == o
        &&& is_object_id_text(id@) && !id_in_series(o, key) ==> r == Err::<String, AppError>(
            AppError::NotExists,
        ) && n == o
        &&& is_object_id_text(id@) && id_in_series(o, key) && o[p].imdb_id@ != series.imdb_id@
            && !is_imdb_id(series.imdb_id@) ==> r == Err::<String, AppError>(AppError::WrongImdbId)
            && n == o
        &&& is_object_id_text(id@) && id_in_series(o, key) && o[p].imdb_id@ != series.imdb_id@
            && is_imdb_id(series.imdb_id@) && before.imdb_taken(series.imdb_id@)
            ==> r == Err::<String, AppError>(AppError::ImdbIdInUse) && n == o
        &&& is_object_id_text(id@) && id_in_series(o, key) && (o[p].imdb_id@ == series.imdb_id@ || (
            is_imdb_id(series.imdb_id@) && !before.imdb_taken(series.imdb_id@)))
            ==> (r matches Ok(msg) && n == o.update(p, n[p]) && series_replaced(
            o[p],
            n[p],
            series,
        ) && msg@ == if series_update_changes(o[p], series) {
            updated_text("Series"@, id@)
        } else {
            update_noop_text()
        })
    })
}

/// What a patch of a series returns and leaves.
pub open spec fn patch_series_post(before: Database, after: Database, id: &str, field: &str, val: SeriesPatchValue, r: Result<String, AppError>) -> bool {
    &&& after.wf()
    &&& after.movies == before.movies
    &&& after.reviews == before.reviews
    &&& ({
        let key = canonical_object_id(id@);
        let o = before.series@;
        let p = series_pos(o, key);
        let n = after.series@;
        let f = series_field_named(field@);
        let t = patch_text(val);
        &&& !is_object_id_text(id@) ==> r == Err::<String, AppError>(
            AppError::CannotParseObjId,
        ) && n == o
        &&& is_object_id_text(id@) && f is None ==> r == Err::<String, AppError>(
            AppError::FieldNotAllowed,
        ) && n == o
        &&& is_object_id_text(id@) && f is Some && !id_in_series(o, key) ==> r == Err::<
            String,
            AppError,
        >(AppError::NotExists) && n == o
        &&& is_object_id_text(id@) && f is Some && id_in_series(o, key) && !series_value_fits(
            f->Some_0,
            val,
        ) ==> (r matches Err(AppError::ValidationAppError(_)) && n == o)
        &&& is_object_id_text(id@) && f == Some(SeriesField::ImdbId) && id_in_series(o, key)
            && series_value_fits(f->Some_0, val) && o[p].imdb_id@ != t && !is_imdb_id(t) ==> r
            == Err::<String, AppError>(AppError::WrongImdbId) && n == o
        &&& is_object_id_text(id@) && f == Some(SeriesField::ImdbId) && id_in_series(o, key)
            && series_value_fits(f->Some_0, val) && o[p].imdb_id@ != t && is_imdb_id(t)
            && before.imdb_taken(t) ==> r == Err::<String, AppError>(AppError::ImdbIdInUse)
            && n == o
        &&& is_object_id_text(id@) && f is Some && id_in_series(o, key) && series_value_fits(
            f->Some_0,
            val,
        ) && (f == Some(SeriesField::ImdbId) ==> o[p].imdb_id@ == t || (is_imdb_id(t)
            && !before.imdb_taken(t))) ==> (r matches Ok(msg) && n == o.update(p, n[p])
            && series_patched(o[p], n[p], f->Some_0, val) && msg@ == if series_field_is(
            o[p],
            f->Some_0,
            val,
        ) {
            patch_noop_text()
        } else {
            patched_text("Series"@, field@, id@)
        })
    })
}

impl Database {
    /// Whether a series has the external identifier `imdb_id`.
    pub fn series_exists_by_imdb_id(&self, imdb_id: &str) -> (r: bool)
        ensures
            r == imdb_in_series(self.series@, imdb_id@),
    {
        self.series_index_by_imdb(imdb_id).is_some()
    }

    /// One page of the series whose title contains `title`, ignoring case
    /// (all series where `title` is absent). Pages are numbered from 1; 0 or
    /// absent means the first. The size defaults to 10 where absent or 0. An
    /// empty page is `Empty`.
    pub fn find_all_series(&self, title: Option<String>, page: Option<u32>, size: Option<u32>) -> (r:
        Result<SeriesPage, AppError>)
        ensures
            ({
                let sel = selected_series(self.series@, title);
                let win = window(sel, page_index(page), page_size(size));
                &&& win.len() == 0 ==> r == Err::<SeriesPage, AppError>(AppError::Empty)
                &&& win.len() > 0 ==> (r matches Ok(p) && p.series@ == win.map_values(
                    |m: Series| series_response_of(m),
                ) && p.current_page as nat == page_number(page) && p.total_items as nat
                    == sel.len() && p.total_pages as nat == total_pages(
                    sel.len(),
                    page_size(size),
                ))
            }),
    {
        let page_num = normalize_page(page);
        let page_len = normalize_size(size);
        let (start, end) = page_bounds(page_num, page_len);
        let ghost pn = page_index(page);
        let ghost ps = page_len as nat;
        let mut matched: u64 = 0;
        let mut out: Vec<SeriesResponse> = Vec::new();
        let mut i: usize = 0;
        while i < self.series.len()
            invariant
                i <= self.series@.len(),
                matched <= i,
                matched as nat == selected_series(self.series@.take(i as int), title).len(),
                out@ == window(selected_series(self.series@.take(i as int), title), pn, ps).map_values(
                    |m: Series| series_response_of(m),
                ),
                start as nat == pn * ps,
                end as nat == pn * ps + ps,
            decreases self.series@.len() - i,
        {
            let ghost before = selected_series(self.series@.take(i as int), title);
            let m = &self.series[i];
            let keep = match &title {
                Some(f) => title_passes(f.as_str(), m.title.as_str()),
                None => true,
            };
            assert(self.series@.take(i + 1).drop_last() =~= self.series@.take(i as int));
            assert(self.series@.take(i + 1).last() == self.series@[i as int]);
            if keep {
                proof {
                    lemma_window_push(before, *m, pn, ps);
                }
                if start <= matched && matched < end {
                    out.push(SeriesResponse::from_series(m));
                    assert(out@ =~= window(before.push(*m), pn, ps).map_values(
                        |m: Series| series_response_of(m),
                    ));
                } else {
                    assert(out@ =~= window(before.push(*m), pn, ps).map_values(
                        |m: Series| series_response_of(m),
                    ));
                }
                matched = matched + 1;
            }
            i += 1;
        }
        assert(self.series@.take(self.series@.len() as int) =~= self.series@);
        if out.len() == 0 {
            return Err(AppError::Empty);
        }
        let pages = count_pages(matched, page_len);
        Ok(SeriesPage { series: out, current_page: page_num, total_items: matched, total_pages: pages })
    }

    /// The series with identity `id`: `CannotParseObjId` where `id` is not an
    /// object id, `NotFound` where no series has it.
    pub fn find_series_by_id(&self, id: &str) -> (r: Result<&Series, AppError>)
        ensures
            !is_object_id_text(id@) ==> r == Err::<&Series, AppError>(AppError::CannotParseObjId),
            is_object_id_text(id@) && !id_in_series(self.series@, canonical_object_id(id@)) ==> r
                == Err::<&Series, AppError>(AppError::NotFound),
            is_object_id_text(id@) && id_in_series(self.series@, canonical_object_id(id@)) ==> (r
                matches Ok(m) && self.series@.contains(*m) && m._id@ == canonical_object_id(id@)),
    {
        let key = match parse_id(id) {
            Ok(k) => k,
            Err(e) => return Err(e),
        };
        match self.series_index_by_id(key.as_str()) {
            Some(i) => Ok(&self.series[i]),
            None => Err(AppError::NotFound),
        }
    }

    /// The series with external identifier `imdb_id`: `WrongImdbId` where it is
    /// not well formed (nothing is looked up then), `NotFound` where no series
    /// has it.
    pub fn find_series_by_imdb_id(&self, imdb_id: &str) -> (r: Result<&Series, AppError>)
        ensures
            find_series_by_imdb_id_post(*self, imdb_id, r),
    {
        if !valid_imdb_id(imdb_id) {
            return Err(AppError::WrongImdbId);
        }
        match self.series_index_by_imdb(imdb_id) {
            Some(i) => Ok(&self.series[i]),
            None => Err(AppError::NotFound),
        }
    }

    /// Stores `series`, with no reviews. `AlreadyExists` where a movie or a
    /// series holds its external identifier; `InternalServerError` where a
    /// series already has its identity. Returns the confirmation message.
    pub fn create_series(&mut self, series: Series) -> (r: Result<String, AppError>)
        requires
            old(self).wf(),
        ensures
            create_series_post(*old(self), *final(self), series, r),
    {
        if self.series_exists_by_imdb_id(series.imdb_id.as_str()) {
            return Err(AppError::AlreadyExists);
        }
        if self.movie_exists_by_imdb_id(series.imdb_id.as_str()) {
            return Err(AppError::AlreadyExists);
        }
        if self.series_index_by_id(series._id.as_str()).is_some() {
            return Err(AppError::InternalServerError);
        }
        let msg = created_message("Series", series._id.as_str());
        let ghost given = series;
        let mut series = series;
        series.review_ids = Vec::new();
        let ghost old_series = self.series@;
        self.series.push(series);
        assert(self.series@.last() == series);
        assert(self.series@.last().review_ids.deep_view() =~= Seq::<Seq<char>>::empty());
        assert(series_review_lists(self.series@) =~= series_review_lists(old_series).push(Seq::empty()));
        proof {
            lemma_lists_push_empty(series_review_lists(old_series), movie_review_lists(self.movies@), self.reviews@);
        }
        assert(self.series@ =~= old_series.push(self.series@.last()));
        assert(series_stored_as(self.series@.last(), given));
        Ok(msg)
    }

    /// Deletes the series with identity `id`: `CannotParseObjId` where `id` is
    /// not an object id, `NotExists` where no series has it. Its reviews stay.
    pub fn delete_series(&mut self, id: &str) -> (r: Result<String, AppError>)
        requires
            old(self).wf(),
        ensures
            final(self).wf(),
            final(self).movies == old(self).movies,
            final(self).reviews == old(self).reviews,
            !is_object_id_text(id@) ==> r == Err::<String, AppError>(AppError::CannotParseObjId)
                && final(self).series == old(self).series,
            is_object_id_text(id@) && !id_in_series(old(self).series@, canonical_object_id(id@))
                ==> r == Err::<String, AppError>(AppError::NotExists)
                && final(self).series == old(self).series,
            is_object_id_text(id@) && id_in_series(old(self).series@, canonical_object_id(id@))
                ==> (r matches Ok(msg) && msg@ == deleted_text("Series"@, id@) && final(self).series@
                == old(self).series@.remove(series_pos(old(self).series@, canonical_object_id(id@)))),
    {
        let key = match parse_id(id) {
            Ok(k) => k,
            Err(e) => return Err(e),
        };
        match self.series_index_by_id(key.as_str()) {
            Some(i) => {
                let ghost ss = self.series@;
                proof {
                    let p = series_pos(ss, key@);
                    assert(ss[i as int]._id@ == key@);
                    assert(ss[p]._id@ == key@);
                }
                self.series.remove(i);
                proof {
                    let ss2 = self.series@;
                    assert forall|a: int, b: int|
                        0 <= a < ss2.len() && 0 <= b < ss2.len() && a != b implies (
                        #[trigger] ss2[a])._id@ != (#[trigger] ss2[b])._id@ && ss2[a].imdb_id@
                        != ss2[b].imdb_id@ by {
                        let a0 = if a < i { a } else { a + 1 };
                        let b0 = if b < i { b } else { b + 1 };
                        assert(ss2[a] == ss[a0] && ss2[b] == ss[b0]);
                    }
                    assert forall|a: int, j: int|
                        0 <= a < ss2.len() && 0 <= j < self.movies@.len() implies (
                        #[trigger] self.movies@[j]).imdb_id@ != (#[trigger] ss2[a]).imdb_id@ by {
                        let a0 = if a < i { a } else { a + 1 };
                        assert(ss2[a] == ss[a0]);
                    }
                    assert(series_review_lists(ss2) =~= series_review_lists(ss).remove(i as int));
                    lemma_lists_remove(series_review_lists(ss), movie_review_lists(self.movies@), self.reviews@, i as int);
                }
                Ok(deleted_message("Series", id))
            },
            None => Err(AppError::NotExists),
        }
    }
    /// Replaces the fields of the series with identity `id` by those of
    /// `series` (the reviews stay). Fails, in this order, with
    /// `CannotParseObjId`, `NotExists` where no series has that identity,
    /// `WrongImdbId` where a changed external identifier is malformed, and
    /// `ImdbIdInUse` where another document holds it. The message tells a
    /// change from a replacement that changed nothing.
    pub fn update_series(&mut self, id: &str, series: SeriesRequest) -> (r: Result<String, AppError>)
        requires
            old(self).wf(),
        ensures
            update_series_post(*old(self), *final(self), id, series, r),
    {
        let key = match parse_id(id) {
            Ok(k) => k,
            Err(e) => return Err(e),
        };
        let i = match self.series_index_by_id(key.as_str()) {
            Some(i) => i,
            None => return Err(AppError::NotExists),
        };
        let ghost ss = self.series@;
        proof {
            assert(ss[series_pos(ss, key@)]._id@ == key@);
        }
        let own = same_text(self.series[i].imdb_id.as_str(), series.imdb_id.as_str());
        if !own && !valid_imdb_id(series.imdb_id.as_str()) {
            return Err(AppError::WrongImdbId);
        }
        let in_series = self.series_exists_by_imdb_id(series.imdb_id.as_str());
        let in_movies = self.movie_exists_by_imdb_id(series.imdb_id.as_str());
        if (in_series || in_movies) && !own {
            return Err(AppError::ImdbIdInUse);
        }
        let m = &self.series[i];
        let same = own && same_text(m.title.as_str(), series.title.as_str()) && same_text(
            m.overview.as_str(),
            series.overview.as_str(),
        ) && m.number_of_seasons == series.number_of_seasons && same_text(
            m.creator.as_str(),
            series.creator.as_str(),
        ) && same_text(m.release_date.as_str(), series.release_date.as_str()) && same_text(
            m.trailer_link.as_str(),
            series.trailer_link.as_str(),
        ) && same_texts(&m.genres, &series.genres) && same_seasons(
            &m.season_list,
            &series.season_list,
        ) && same_text(m.poster.as_str(), series.poster.as_str()) && same_text(
            m.backdrop.as_str(),
            series.backdrop.as_str(),
        );
        let msg = updated_message("Series", id, !same);
        let ghost req = series;
        self.series[i].imdb_id = series.imdb_id;
        self.series[i].title = series.title;
        self.series[i].overview = series.overview;
        self.series[i].number_of_seasons = series.number_of_seasons;
        self.series[i].creator = series.creator;
        self.series[i].release_date = series.release_date;
        self.series[i].trailer_link = series.trailer_link;
        self.series[i].genres = series.genres;
        self.series[i].season_list = series.season_list;
        self.series[i].poster = series.poster;
        self.series[i].backdrop = series.backdrop;
        proof {
            let ss2 = self.series@;
            assert(ss2 =~= ss.update(i as int, ss2[i as int]));
            assert(series_replaced(ss[i as int], ss2[i as int], req));
            assert forall|a: int, b: int|
                0 <= a < ss2.len() && 0 <= b < ss2.len() && a != b implies (#[trigger] ss2[a])._id@
                != (#[trigger] ss2[b])._id@ && ss2[a].imdb_id@ != ss2[b].imdb_id@ by {
                assert(a != i ==> ss2[a] == ss[a]);
                assert(b != i ==> ss2[b] == ss[b]);
            }
            assert forall|a: int, j: int|
                0 <= a < ss2.len() && 0 <= j < self.movies@.len() implies (
                #[trigger] self.movies@[j]).imdb_id@ != (#[trigger] ss2[a]).imdb_id@ by {
                assert(a != i ==> ss2[a] == ss[a]);
            }
            assert(series_review_lists(ss2) =~= series_review_lists(ss));
        }
        Ok(msg)
    }

    /// Sets one field of the series with identity `id` to `val`: the season
    /// list to the given seasons, the genres to the single genre of the text,
    /// the season count to the number the text spells, any other field to
    /// the text. Fails, in this order, with `CannotParseObjId`,
    /// `FieldNotAllowed` where `field` is not on the allow-list, `NotExists`
    /// where no series has that identity, `ValidationAppError` where the
    /// value does not suit the field, and, for a changed `imdbId`, with
    /// `WrongImdbId` and `ImdbIdInUse`. The message tells a change
    /// from a patch that changed nothing.
    pub fn patch_series(&mut self, id: &str, field: &str, val: SeriesPatchValue) -> (r: Result<String, AppError>)
        requires
            old(self).wf(),
        ensures
            patch_series_post(*old(self), *final(self), id, field, val, r),
    {
        let key = match parse_id(id) {
            Ok(k) => k,
            Err(e) => return Err(e),
        };
        let f = match series_field(field) {
            Some(f) => f,
            None => return Err(AppError::FieldNotAllowed),
        };
        let i = match self.series_index_by_id(key.as_str()) {
            Some(i) => i,
            None => return Err(AppError::NotExists),
        };
        let ghost ss = self.series@;
        proof {
            assert(ss[series_pos(ss, key@)]._id@ == key@);
        }
        let mut count: u32 = 0;
        let fits = match &val {
            SeriesPatchValue::Text(t) => match f {
                SeriesField::SeasonList => false,
                SeriesField::NumberOfSeasons => match parse_count(t.as_str()) {
                    Some(n) => {
                        count = n;
                        true
                    },
                    None => false,
                },
                _ => true,
            },
            SeriesPatchValue::Seasons(_) => f == SeriesField::SeasonList,
        };
        if !fits {
            return Err(
                AppError::ValidationAppError(
                    String::from_str("The value does not suit the patched field"),
                ),
            );
        }
        let msg = match val {
            SeriesPatchValue::Seasons(list) => {
                let same = same_seasons(&self.series[i].season_list, &list);
                self.series[i].season_list = list;
                patched_message("Series", field, id, !same)
            },
            SeriesPatchValue::Text(text) => {
                let val = text.as_str();
                if f == SeriesField::ImdbId {
                    let own = same_text(self.series[i].imdb_id.as_str(), val);
                    if !own && !valid_imdb_id(val) {
                        return Err(AppError::WrongImdbId);
                    }
                    let in_series = self.series_exists_by_imdb_id(val);
                    let in_movies = self.movie_exists_by_imdb_id(val);
                    if (in_series || in_movies) && !own {
                        return Err(AppError::ImdbIdInUse);
                    }
                }
                let m = &self.series[i];
                let same = match f {
                    SeriesField::ImdbId => same_text(m.imdb_id.as_str(), val),
                    SeriesField::Title => same_text(m.title.as_str(), val),
                    SeriesField::Overview => same_text(m.overview.as_str(), val),
                    SeriesField::NumberOfSeasons => m.number_of_seasons == count,
                    SeriesField::Creator => same_text(m.creator.as_str(), val),
                    SeriesField::ReleaseDate => same_text(m.release_date.as_str(), val),
                    SeriesField::TrailerLink => same_text(m.trailer_link.as_str(), val),
                    SeriesField::Genres => is_single_text(&m.genres, val),
                    SeriesField::SeasonList => false,
                    SeriesField::Poster => same_text(m.poster.as_str(), val),
                    SeriesField::Backdrop => same_text(m.backdrop.as_str(), val),
                };
                match f {
                    SeriesField::ImdbId => self.series[i].imdb_id = val.to_owned(),
                    SeriesField::Title => self.series[i].title = val.to_owned(),
                    SeriesField::Overview => self.series[i].overview = val.to_owned(),
                    SeriesField::NumberOfSeasons => self.series[i].number_of_seasons = count,
                    SeriesField::Creator => self.series[i].creator = val.to_owned(),
                    SeriesField::ReleaseDate => self.series[i].release_date = val.to_owned(),
                    SeriesField::TrailerLink => self.series[i].trailer_link = val.to_owned(),
                    SeriesField::Genres => self.series[i].genres = single_text(val),
                    SeriesField::SeasonList => {},
                    SeriesField::Poster => self.series[i].poster = val.to_owned(),
                    SeriesField::Backdrop => self.series[i].backdrop = val.to_owned(),
                }
                patched_message("Series", field, id, !same)
            },
        };
        proof {
            let ss2 = self.series@;
            assert(ss2 =~= ss.update(i as int, ss2[i as int]));
            assert forall|a: int, b: int|
                0 <= a < ss2.len() && 0 <= b < ss2.len() && a != b implies (#[trigger] ss2[a])._id@
                != (#[trigger] ss2[b])._id@ && ss2[a].imdb_id@ != ss2[b].imdb_id@ by {
                assert(a != i ==> ss2[a] == ss[a]);
                assert(b != i ==> ss2[b] == ss[b]);
            }
            assert forall|a: int, j: int|
                0 <= a < ss2.len() && 0 <= j < self.movies@.len() implies (
                #[trigger] self.movies@[j]).imdb_id@ != (#[trigger] ss2[a]).imdb_id@ by {
                assert(a != i ==> ss2[a] == ss[a]);
            }
            assert(series_review_lists(ss2) =~= series_review_lists(ss));
        }
        Ok(msg)
    }
}

} // verus!
