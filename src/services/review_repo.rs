use crate::error::AppError;
use crate::formats::{
    canonical_object_id, decimal_value, is_decimal, is_imdb_id, is_object_id_text, now_millis,
    parse_count, parse_id, same_text, valid_imdb_id,
};
use crate::models::movie::Movie;
use crate::models::review::{review_response_of, Review, ReviewResponse, ReviewUpdate};
use crate::models::series::Series;
use crate::services::db::{
    drop_all, id_in_reviews, imdb_in_movies, imdb_in_series, lemma_lists_add, lemma_lists_drop,
    lemma_refs_push_review, lemma_refs_remove_review, lemma_reviews_same_ids, listed_in,
    listing_pos, movie_review_lists, series_review_lists, text_in, without_text, Database,
};
use crate::services::messages::{
    created_message, created_text, deleted_message, deleted_text, patch_noop_text,
    patched_message, patched_text, update_noop_text, updated_message, updated_text,
};
use crate::services::paging::{
    count_pages, normalize_page, normalize_size, page_bounds, page_index, page_number, page_size, total_pages,
    window,
};
use vstd::prelude::*;
use vstd::string::StringExecFns;

verus! {

/// One page of reviews, with the number of all reviews.
pub struct ReviewPage {
    pub reviews: Vec<ReviewResponse>,
    pub current_page: u32,
    pub total_items: u64,
    pub total_pages: u64,
}

/// The fields of a review that a patch may set.
#[derive(Debug, Clone, Copy, PartialEq, Eq, Structural)]
pub enum ReviewField {
    Title,
    Rating,
    Body,
}

/// The allow-list of review patches: the field that each accepted name sets.
pub open spec fn review_field_named(name: Seq<char>) -> Option<ReviewField> {
    if name == "title"@ {
        Some(ReviewField::Title)
    } else if name == "rating"@ {
        Some(ReviewField::Rating)
    } else if name == "body"@ {
        Some(ReviewField::Body)
    } else {
        None
    }
}

/// The review field that a patch of `name` sets, if `name` is on the allow-list.
pub fn review_field(name: &str) -> (r: Option<ReviewField>)
    ensures
        r == review_field_named(name@),
{
    if same_text(name, "title") {
        Some(ReviewField::Title)
    } else if same_text(name, "rating") {
        Some(ReviewField::Rating)
    } else if same_text(name, "body") {
        Some(ReviewField::Body)
    } else {
        None
    }
}

/// The highest rating a review can have.
pub const MAX_RATING: u32 = 5;

/// A patch of field `f` can take the text `val`: a rating must be a decimal
/// number from 0 to 5.
pub open spec fn review_value_fits(f: ReviewField, val: Seq<char>) -> bool {
    match f {
        ReviewField::Rating => is_decimal(val) && decimal_value(val) <= 5,
        _ => true,
    }
}

/// The value of field `f` of `r` is `val` (the rating: the number `val` spells).
pub open spec fn review_field_is(r: Review, f: ReviewField, val: Seq<char>) -> bool {
    match f {
        ReviewField::Title => r.title@ == val,
        ReviewField::Rating => is_decimal(val) && r.rating as nat == decimal_value(val),
        ReviewField::Body => r.body@ == val,
    }
}

/// `new` is `old` with field `f` set to `val`, stamped at `at`.
pub open spec fn review_patched(old: Review, new: Review, f: ReviewField, val: Seq<char>, at: i64) -> bool {
    &&& review_field_is(new, f, val)
    &&& new._id == old._id
    &&& new.created_at == old.created_at
    &&& new.updated_at == at
    &&& (f != ReviewField::Title ==> new.title == old.title)
    &&& (f != ReviewField::Rating ==> new.rating == old.rating)
    &&& (f != ReviewField::Body ==> new.body == old.body)
}

/// `new` is `old` with the text and rating of `req`, stamped at `at`.
pub open spec fn review_replaced(old: Review, new: Review, req: ReviewUpdate, at: i64) -> bool {
    &&& new._id == old._id
    &&& new.title == req.title
    &&& new.rating == req.rating
    &&& new.body == req.body
    &&& new.created_at == old.created_at
    &&& new.updated_at == at
}

/// The text or the rating differs between `old` and `new`; the update
/// stamp is not compared, as every write renews it.
pub open spec fn review_changed(old: Review, new: Review) -> bool {
    !(old.title@ == new.title@ && old.rating == new.rating && old.body@ == new.body@)
}

/// The reviews of `rs` whose identity is in `ids`, in their stored order.
pub open spec fn selected_reviews(rs: Seq<Review>, ids: Seq<Seq<char>>) -> Seq<Review>
    decreases rs.len(),
{
    if rs.len() == 0 {
        Seq::empty()
    } else {
        let rest = selected_reviews(rs.drop_last(), ids);
        if ids.contains(rs.last()._id@) {
            rest.push(rs.last())
        } else {
            rest
        }
    }
}

/// The position of the movie with external identifier `imdb`.
pub open spec fn movie_imdb_pos(ms: Seq<Movie>, imdb: Seq<char>) -> int {
    choose|i: int| 0 <= i < ms.len() && (#[trigger] ms[i]).imdb_id@ == imdb
}

/// The position of the series with external identifier `imdb`.
pub open spec fn series_imdb_pos(ss: Seq<Series>, imdb: Seq<char>) -> int {
    choose|i: int| 0 <= i < ss.len() && (#[trigger] ss[i]).imdb_id@ == imdb
}

/// The position of the review whose identity is `key`.
pub open spec fn review_pos(rs: Seq<Review>, key: Seq<char>) -> int {
    choose|i: int| 0 <= i < rs.len() && (#[trigger] rs[i])._id@ == key
}

/// The review ids listed by the owner of `imdb`: the movie that has it,
/// else the series that has it.
pub open spec fn owner_review_ids(db: Database, imdb: Seq<char>) -> Seq<Seq<char>> {
    if imdb_in_movies(db.movies@, imdb) {
        db.movies@[movie_imdb_pos(db.movies@, imdb)].review_ids.deep_view()
    } else {
        db.series@[series_imdb_pos(db.series@, imdb)].review_ids.deep_view()
    }
}

/// `a` and `b` agree on every field but the reviews.
pub open spec fn movie_same_but_reviews(a: Movie, b: Movie) -> bool {
    a == Movie { review_ids: a.review_ids, ..b }
}

/// `a` and `b` agree on every field but the reviews.
pub open spec fn series_same_but_reviews(a: Series, b: Series) -> bool {
    a == Series { review_ids: a.review_ids, ..b }
}

/// What a replacement of a review at a given time returns and leaves.
pub open spec fn update_review_at_post(before: Database, after: Database, id: &str, review: ReviewUpdate, at: i64, r: Result<String, AppError>) -> bool {
    &&& after.wf()
    &&& after.movies == before.movies
    &&& after.series == before.series
    &&& ({
        let o = before.reviews@;
        let n = after.reviews@;
        let key = canonical_object_id(id@);
        let p = review_pos(o, key);
        &&& !is_object_id_text(id@) ==> r == Err::<String, AppError>(
            AppError::CannotParseObjId,
        ) && n == o
        &&& is_object_id_text(id@) && !id_in_reviews(o, key) ==> r == Err::<String, AppError>(
            AppError::NotExists,
        ) && n == o
        &&& is_object_id_text(id@) && id_in_reviews(o, key) ==> (r matches Ok(msg)
            && n == o.update(p, n[p]) && review_replaced(o[p], n[p], review, at)
            && msg@ == if review_changed(o[p], n[p]) {
            updated_text("Review"@, id@)
        } else {
            update_noop_text()
        })
    })
}

/// What a patch of a review at a given time returns and leaves.
pub open spec fn patch_review_at_post(before: Database, after: Database, id: &str, field: &str, val: &str, at: i64, r: Result<String, AppError>) -> bool {
    &&& after.wf()
    &&& after.movies == before.movies
    &&& after.series == before.series
    &&& ({
        let o = before.reviews@;
        let n = after.reviews@;
        let key = canonical_object_id(id@);
        let p = review_pos(o, key);
        let f = review_field_named(field@);
        &&& !is_object_id_text(id@) ==> r == Err::<String, AppError>(
            AppError::CannotParseObjId,
        ) && n == o
        &&& is_object_id_text(id@) && f is None ==> r == Err::<String, AppError>(
            AppError::FieldNotAllowed,
        ) && n == o
        &&& is_object_id_text(id@) && f is Some && !id_in_reviews(o, key) ==> r == Err::<
            String,
            AppError,
        >(AppError::NotExists) && n == o
        &&& is_object_id_text(id@) && f is Some && id_in_reviews(o, key)
            && !review_value_fits(f->Some_0, val@) ==> (r matches Err(
            AppError::ValidationAppError(_),
        ) && n == o)
        &&& is_object_id_text(id@) && f is Some && id_in_reviews(o, key) && review_value_fits(
            f->Some_0,
            val@,
        ) ==> (r matches Ok(msg) && n == o.update(p, n[p]) && review_patched(
            o[p],
            n[p],
            f->Some_0,
            val@,
            at,
        ) && msg@ == if review_changed(o[p], n[p]) {
            patched_text("Review"@, field@, id@)
        } else {
            patch_noop_text()
        })
    })
}

/// What a replacement of a review, stamped with the current time, returns and leaves.
pub open spec fn update_review_post(before: Database, after: Database, id: &str, review: ReviewUpdate, r: Result<String, AppError>) -> bool {
    &&& after.wf()
    &&& after.movies == before.movies
    &&& after.series == before.series
    &&& ({
        let o = before.reviews@;
        let n = after.reviews@;
        let key = canonical_object_id(id@);
        let p = review_pos(o, key);
        &&& !is_object_id_text(id@) ==> r == Err::<String, AppError>(
            AppError::CannotParseObjId,
        ) && n == o
        &&& is_object_id_text(id@) && !id_in_reviews(o, key) ==> r == Err::<String, AppError>(
            AppError::NotExists,
        ) && n == o
        &&& is_object_id_text(id@) && id_in_reviews(o, key) ==> (r matches Ok(msg)
            && n == o.update(p, n[p]) && review_replaced(o[p], n[p], review, n[p].updated_at)
            && msg@ == if review_changed(o[p], n[p]) {
            updated_text("Review"@, id@)
        } else {
            update_noop_text()
        })
    })
}

/// What a patch of a review, stamped with the current time, returns and leaves.
pub open spec fn patch_review_post(before: Database, after: Database, id: &str, field: &str, val: &str, r: Result<String, AppError>) -> bool {
    &&& after.wf()
    &&& after.movies == before.movies
    &&& after.series == before.series
    &&& ({
        let o = before.reviews@;
        let n = after.reviews@;
        let key = canonical_object_id(id@);
        let p = review_pos(o, key);
        let f = review_field_named(field@);
        &&& !is_object_id_text(id@) ==> r == Err::<String, AppError>(
            AppError::CannotParseObjId,
        ) && n == o
        &&& is_object_id_text(id@) && f is None ==> r == Err::<String, AppError>(
            AppError::FieldNotAllowed,
        ) && n == o
        &&& is_object_id_text(id@) && f is Some && !id_in_reviews(o, key) ==> r == Err::<
            String,
            AppError,
        >(AppError::NotExists) && n == o
        &&& is_object_id_text(id@) && f is Some && id_in_reviews(o, key)
            && !review_value_fits(f->Some_0, val@) ==> (r matches Err(
            AppError::ValidationAppError(_),
        ) && n == o)
        &&& is_object_id_text(id@) && f is Some && id_in_reviews(o, key) && review_value_fits(
            f->Some_0,
            val@,
        ) ==> (r matches Ok(msg) && n == o.update(p, n[p]) && review_patched(
            o[p],
            n[p],
            f->Some_0,
            val@,
            n[p].updated_at,
        ) && msg@ == if review_changed(o[p], n[p]) {
            patched_text("Review"@, field@, id@)
        } else {
            patch_noop_text()
        })
    })
}

impl Database {
    /// One page of all reviews, in stored order. Pages are numbered from 1;
    /// 0 or absent means the first. The size defaults to 10 where absent or
    /// 0. An empty page is `Empty`.
    pub fn find_all_reviews(&self, page: Option<u32>, size: Option<u32>) -> (r: Result<ReviewPage, AppError>)
        ensures
            ({
                let win = window(self.reviews@, page_index(page), page_size(size));
                &&& win.len() == 0 ==> r == Err::<ReviewPage, AppError>(AppError::Empty)
                &&& win.len() > 0 ==> (r matches Ok(p) && p.reviews@ == win.map_values(
                    |x: Review| review_response_of(x),
                ) && p.current_page as nat == page_number(page) && p.total_items as nat
                    == self.reviews@.len() && p.total_pages as nat == total_pages(
                    self.reviews@.len(),
                    page_size(size),
                ))
            }),
    {
        let page_num = normalize_page(page);
        let page_len = normalize_size(size);
        let (start, end) = page_bounds(page_num, page_len);
        let n = self.reviews.len();
        let lo: usize = if start < n as u64 { start as usize } else { n };
        let hi: usize = if end < n as u64 { end as usize } else { n };
        let ghost rs = self.reviews@;
        let mut out: Vec<ReviewResponse> = Vec::new();
        let mut j: usize = lo;
        while j < hi
            invariant
                lo <= j <= hi,
                hi <= n,
                n == rs.len(),
                rs == self.reviews@,
                out@ == rs.subrange(lo as int, j as int).map_values(|x: Review| review_response_of(x)),
            decreases hi - j,
        {
            out.push(ReviewResponse::from_review(&self.reviews[j]));
            assert(out@ =~= rs.subrange(lo as int, j + 1).map_values(|x: Review| review_response_of(x)));
            j += 1;
        }
        assert(window(rs, page_index(page), page_len as nat) =~= rs.subrange(lo as int, hi as int));
        if out.len() == 0 {
            return Err(AppError::Empty);
        }
        let pages = count_pages(n as u64, page_len);
        Ok(ReviewPage { reviews: out, current_page: page_num, total_items: n as u64, total_pages: pages })
    }

    /// The reviews of the movie, else the series, with external identifier
    /// `imdb_id`, in stored order: `WrongImdbId` where it is malformed,
    /// `NotExists` where no document has it, `Empty` where it has no reviews.
    pub fn find_all_reviews_by_imdb_id(&self, imdb_id: &str) -> (r: Result<Vec<ReviewResponse>, AppError>)
        requires
            self.wf(),
        ensures
            !is_imdb_id(imdb_id@) ==> r == Err::<Vec<ReviewResponse>, AppError>(AppError::WrongImdbId),
            is_imdb_id(imdb_id@) && !self.imdb_taken(imdb_id@) ==> r == Err::<
                Vec<ReviewResponse>,
                AppError,
            >(AppError::NotExists),
            is_imdb_id(imdb_id@) && self.imdb_taken(imdb_id@) ==> ({
                let sel = selected_reviews(self.reviews@, owner_review_ids(*self, imdb_id@));
                &&& sel.len() == 0 ==> r == Err::<Vec<ReviewResponse>, AppError>(AppError::Empty)
                &&& sel.len() > 0 ==> (r matches Ok(v) && v@ == sel.map_values(
                    |x: Review| review_response_of(x),
                ))
            }),
    {
        if !valid_imdb_id(imdb_id) {
            return Err(AppError::WrongImdbId);
        }
        proof {
            if imdb_in_movies(self.movies@, imdb_id@) {
                let q = movie_imdb_pos(self.movies@, imdb_id@);
                assert(self.movies@[q].imdb_id@ == imdb_id@);
            }
            if imdb_in_series(self.series@, imdb_id@) {
                let q = series_imdb_pos(self.series@, imdb_id@);
                assert(self.series@[q].imdb_id@ == imdb_id@);
            }
        }
        let ids: &Vec<String> = match self.movie_index_by_imdb(imdb_id) {
            Some(p) => &self.movies[p].review_ids,
            None => match self.series_index_by_imdb(imdb_id) {
                Some(p) => &self.series[p].review_ids,
                None => return Err(AppError::NotExists),
            },
        };
        let ghost wanted = ids.deep_view();
        assert(wanted == owner_review_ids(*self, imdb_id@));
        let mut out: Vec<ReviewResponse> = Vec::new();
        let mut i: usize = 0;
        while i < self.reviews.len()
            invariant
                i <= self.reviews@.len(),
                wanted == ids.deep_view(),
                out@ == selected_reviews(self.reviews@.take(i as int), wanted).map_values(
                    |x: Review| review_response_of(x),
                ),
            decreases self.reviews@.len() - i,
        {
            let ghost before = selected_reviews(self.reviews@.take(i as int), wanted);
            assert(self.reviews@.take(i + 1).drop_last() =~= self.reviews@.take(i as int));
            assert(self.reviews@.take(i + 1).last() == self.reviews@[i as int]);
            if text_in(ids, self.reviews[i]._id.as_str()) {
                out.push(ReviewResponse::from_review(&self.reviews[i]));
                assert(out@ =~= before.push(self.reviews@[i as int]).map_values(
                    |x: Review| review_response_of(x),
                ));
            }
            i += 1;
        }
        assert(self.reviews@.take(self.reviews@.len() as int) =~= self.reviews@);
        if out.len() == 0 {
            return Err(AppError::Empty);
        }
        Ok(out)
    }
    /// The review with identity `id`: `CannotParseObjId` where `id` is not an
    /// object id, `NotFound` where no review has it.
    pub fn find_review_by_id(&self, id: &str) -> (r: Result<ReviewResponse, AppError>)
        ensures
            !is_object_id_text(id@) ==> r == Err::<ReviewResponse, AppError>(AppError::CannotParseObjId),
            is_object_id_text(id@) && !id_in_reviews(self.reviews@, canonical_object_id(id@)) ==> r
                == Err::<ReviewResponse, AppError>(AppError::NotFound),
            is_object_id_text(id@) && id_in_reviews(self.reviews@, canonical_object_id(id@)) ==> (r
                matches Ok(v) && exists|i: int|
                0 <= i < self.reviews@.len() && self.reviews@[i]._id@ == canonical_object_id(id@)
                    && v == review_response_of(#[trigger] self.reviews@[i])),
    {
        let key = match parse_id(id) {
            Ok(k) => k,
            Err(e) => return Err(e),
        };
        match self.review_index_by_id(key.as_str()) {
            Some(i) => Ok(ReviewResponse::from_review(&self.reviews[i])),
            None => Err(AppError::NotFound),
        }
    }

    /// Whether a movie lists the review `review_id`, and that movie's identity.
    pub fn movie_exists_by_review_id(&self, review_id: &str) -> (r: (bool, Option<String>))
        ensures
            r.0 == listed_in(movie_review_lists(self.movies@), review_id@),
            r.0 ==> (r.1 matches Some(o) && exists|i: int|
                0 <= i < self.movies@.len() && movie_review_lists(self.movies@)[i].contains(review_id@)
                    && o == (#[trigger] self.movies@[i])._id),
            !r.0 ==> r.1 is None,
    {
        match self.movie_index_listing(review_id) {
            Some(i) => (true, Some(self.movies[i]._id.clone())),
            None => (false, None),
        }
    }

    /// Whether a series lists the review `review_id`, and that series' identity.
    pub fn series_exists_by_review_id(&self, review_id: &str) -> (r: (bool, Option<String>))
        ensures
            r.0 == listed_in(series_review_lists(self.series@), review_id@),
            r.0 ==> (r.1 matches Some(o) && exists|i: int|
                0 <= i < self.series@.len() && series_review_lists(self.series@)[i].contains(review_id@)
                    && o == (#[trigger] self.series@[i])._id),
            !r.0 ==> r.1 is None,
    {
        match self.series_index_listing(review_id) {
            Some(i) => (true, Some(self.series[i]._id.clone())),
            None => (false, None),
        }
    }

    /// Stores `review` and lists it under its owner: the movie with external
    /// identifier `imdb_id`, else the series with it. `NotExists` where
    /// neither has it; `InternalServerError` where a review already has the
    /// identity of `review`. Returns the confirmation message.
    pub fn create_review(&mut self, review: Review, imdb_id: &str) -> (r: Result<String, AppError>)
        requires
            old(self).wf(),
        ensures
            final(self).wf(),
            ({
                let o = *old(self);
                let n = *final(self);
                let pm = movie_imdb_pos(o.movies@, imdb_id@);
                let ps = series_imdb_pos(o.series@, imdb_id@);
                &&& !o.imdb_taken(imdb_id@) ==> r == Err::<String, AppError>(AppError::NotExists)
                    && n == o
                &&& o.imdb_taken(imdb_id@) && id_in_reviews(o.reviews@, review._id@) ==> r == Err::<
                    String,
                    AppError,
                >(AppError::InternalServerError) && n == o
                &&& o.imdb_taken(imdb_id@) && !id_in_reviews(o.reviews@, review._id@) ==> (r matches Ok(
                    msg,
                ) && msg@ == created_text("Review"@, review._id@) && n.reviews@ == o.reviews@.push(
                    review,
                ))
                &&& o.imdb_taken(imdb_id@) && !id_in_reviews(o.reviews@, review._id@) && imdb_in_movies(
                    o.movies@,
                    imdb_id@,
                ) ==> n.series == o.series && n.movies@ == o.movies@.update(pm, n.movies@[pm])
                    && movie_same_but_reviews(n.movies@[pm], o.movies@[pm])
                    && n.movies@[pm].review_ids.deep_view() == o.movies@[pm].review_ids.deep_view().push(
                    review._id@,
                )
                &&& o.imdb_taken(imdb_id@) && !id_in_reviews(o.reviews@, review._id@)
                    && !imdb_in_movies(o.movies@, imdb_id@) ==> n.movies == o.movies
                    && n.series@ == o.series@.update(ps, n.series@[ps]) && series_same_but_reviews(
                    n.series@[ps],
                    o.series@[ps],
                ) && n.series@[ps].review_ids.deep_view() == o.series@[ps].review_ids.deep_view().push(
                    review._id@,
                )
            }),
    {
        let ghost o = *self;
        proof {
            if imdb_in_movies(o.movies@, imdb_id@) {
                let q = movie_imdb_pos(o.movies@, imdb_id@);
                assert(o.movies@[q].imdb_id@ == imdb_id@);
            }
            if imdb_in_series(o.series@, imdb_id@) {
                let q = series_imdb_pos(o.series@, imdb_id@);
                assert(o.series@[q].imdb_id@ == imdb_id@);
            }
        }
        let mo = self.movie_index_by_imdb(imdb_id);
        let so = self.series_index_by_imdb(imdb_id);
        if mo.is_none() && so.is_none() {
            return Err(AppError::NotExists);
        }
        if self.review_index_by_id(review._id.as_str()).is_some() {
            return Err(AppError::InternalServerError);
        }
        let rid = review._id.clone();
        let msg = created_message("Review", rid.as_str());
        let ghost x = review;
        proof {
            lemma_refs_push_review(movie_review_lists(o.movies@), o.reviews@, x);
            lemma_refs_push_review(series_review_lists(o.series@), o.reviews@, x);
        }
        self.reviews.push(review);
        match mo {
            Some(p) => {
                proof {
                    lemma_lists_add(
                        movie_review_lists(o.movies@),
                        series_review_lists(o.series@),
                        o.reviews@,
                        p as int,
                        x,
                    );
                }
                self.movies[p].review_ids.push(rid);
                assert(self.movies@[p as int].review_ids.deep_view() =~= o.movies@[p as int].review_ids.deep_view().push(x._id@));
                assert(movie_review_lists(self.movies@) =~= movie_review_lists(o.movies@).update(
                    p as int,
                    movie_review_lists(o.movies@)[p as int].push(x._id@),
                ));
                assert(self.movies@ =~= o.movies@.update(p as int, self.movies@[p as int]));
            },
            None => {
                let p = so.unwrap();
                proof {
                    lemma_lists_add(
                        series_review_lists(o.series@),
                        movie_review_lists(o.movies@),
                        o.reviews@,
                        p as int,
                        x,
                    );
                }
                self.series[p].review_ids.push(rid);
                assert(self.series@[p as int].review_ids.deep_view() =~= o.series@[p as int].review_ids.deep_view().push(x._id@));
                assert(series_review_lists(self.series@) =~= series_review_lists(o.series@).update(
                    p as int,
                    series_review_lists(o.series@)[p as int].push(x._id@),
                ));
                assert(self.series@ =~= o.series@.update(p as int, self.series@[p as int]));
            },
        }
        Ok(msg)
    }
    /// Deletes the review with identity `id`, then takes it off the list of
    /// its owner (a movie first, else a series). `CannotParseObjId` where
    /// `id` is not an object id; `NotExists` where no review has it, and also
    /// where the review was deleted but no document listed it.
    pub fn delete_review(&mut self, id: &str) -> (r: Result<String, AppError>)
        requires
            old(self).wf(),
        ensures
            final(self).wf(),
            ({
                let o = *old(self);
                let n = *final(self);
                let key = canonical_object_id(id@);
                let lm = movie_review_lists(o.movies@);
                let ls = series_review_lists(o.series@);
                let pm = listing_pos(lm, key);
                let ps = listing_pos(ls, key);
                &&& !is_object_id_text(id@) ==> r == Err::<String, AppError>(
                    AppError::CannotParseObjId,
                ) && n == o
                &&& is_object_id_text(id@) && !id_in_reviews(o.reviews@, key) ==> r == Err::<
                    String,
                    AppError,
                >(AppError::NotExists) && n == o
                &&& is_object_id_text(id@) && id_in_reviews(o.reviews@, key) ==> n.reviews@
                    == o.reviews@.remove(review_pos(o.reviews@, key))
                &&& is_object_id_text(id@) && id_in_reviews(o.reviews@, key) && listed_in(lm, key) ==> (
                r matches Ok(msg) && msg@ == deleted_text("Review"@, id@)) && n.series == o.series
                    && n.movies@ == o.movies@.update(pm, n.movies@[pm]) && movie_same_but_reviews(
                    n.movies@[pm],
                    o.movies@[pm],
                ) && n.movies@[pm].review_ids.deep_view() == drop_all(lm[pm], key)
                &&& is_object_id_text(id@) && id_in_reviews(o.reviews@, key) && !listed_in(lm, key)
                    && listed_in(ls, key) ==> (r matches Ok(msg) && msg@ == deleted_text(
                    "Review"@,
                    id@,
                )) && n.movies == o.movies && n.series@ == o.series@.update(ps, n.series@[ps])
                    && series_same_but_reviews(n.series@[ps], o.series@[ps])
                    && n.series@[ps].review_ids.deep_view() == drop_all(ls[ps], key)
                &&& is_object_id_text(id@) && id_in_reviews(o.reviews@, key) && !listed_in(lm, key)
                    && !listed_in(ls, key) ==> r == Err::<String, AppError>(AppError::NotExists)
                    && n.movies == o.movies && n.series == o.series
            }),
    {
        let ghost o = *self;
        let key = match parse_id(id) {
            Ok(k) => k,
            Err(e) => return Err(e),
        };
        let ghost lm = movie_review_lists(o.movies@);
        let ghost ls = series_review_lists(o.series@);
        let q = match self.review_index_by_id(key.as_str()) {
            Some(q) => q,
            None => {
                proof {
                    if listed_in(lm, key@) {
                        let i = listing_pos(lm, key@);
                        assert(lm[i].contains(key@));
                    }
                    if listed_in(ls, key@) {
                        let i = listing_pos(ls, key@);
                        assert(ls[i].contains(key@));
                    }
                }
                return Err(AppError::NotExists);
            },
        };
        proof {
            assert(o.reviews@[review_pos(o.reviews@, key@)]._id@ == key@);
        }
        self.reviews.remove(q);
        let mo = self.movie_index_listing(key.as_str());
        let so = self.series_index_listing(key.as_str());
        match mo {
            Some(p) => {
                proof {
                    assert(lm[listing_pos(lm, key@)].contains(key@));
                    lemma_lists_drop(lm, ls, o.reviews@, p as int, key@);
                }
                let kept = without_text(&self.movies[p].review_ids, key.as_str());
                self.movies[p].review_ids = kept;
                let ghost l2 = lm.update(p as int, drop_all(lm[p as int], key@));
                assert(movie_review_lists(self.movies@) =~= l2);
                assert(self.movies@ =~= o.movies@.update(p as int, self.movies@[p as int]));
                proof {
                    assert forall|j: int| 0 <= j < ls.len() implies !(#[trigger] ls[j]).contains(key@) by {}
                    assert forall|j: int| 0 <= j < l2.len() implies !(#[trigger] l2[j]).contains(key@) by {
                        if j != p {
                            assert(l2[j] == lm[j]);
                        }
                    }
                    lemma_refs_remove_review(l2, o.reviews@, q as int);
                    lemma_refs_remove_review(ls, o.reviews@, q as int);
                }
            },
            None => match so {
                Some(p) => {
                    proof {
                        assert(ls[listing_pos(ls, key@)].contains(key@));
                        lemma_lists_drop(ls, lm, o.reviews@, p as int, key@);
                    }
                    let kept = without_text(&self.series[p].review_ids, key.as_str());
                    self.series[p].review_ids = kept;
                    let ghost l2 = ls.update(p as int, drop_all(ls[p as int], key@));
                    assert(series_review_lists(self.series@) =~= l2);
                    assert(self.series@ =~= o.series@.update(p as int, self.series@[p as int]));
                    proof {
                        assert forall|j: int| 0 <= j < lm.len() implies !(#[trigger] lm[j]).contains(key@) by {}
                        assert forall|j: int| 0 <= j < l2.len() implies !(#[trigger] l2[j]).contains(key@) by {
                            if j != p {
                                assert(l2[j] == ls[j]);
                            }
                        }
                        lemma_refs_remove_review(l2, o.reviews@, q as int);
                        lemma_refs_remove_review(lm, o.reviews@, q as int);
                    }
                },
                None => {
                    proof {
                        lemma_refs_remove_review(lm, o.reviews@, q as int);
                        lemma_refs_remove_review(ls, o.reviews@, q as int);
                    }
                    return Err(AppError::NotExists);
                },
            },
        }
        Ok(deleted_message("Review", id))
    }
    /// Replaces the text and rating of the review with identity `id` by
    /// those of `review` and stamps it updated now. `CannotParseObjId` where
    /// `id` is not an object id, `NotExists` where no review has it. The
    /// message tells a change from a replacement that changed nothing.
    pub fn update_review(&mut self, id: &str, review: ReviewUpdate) -> (r: Result<String, AppError>)
        requires
            old(self).wf(),
        ensures
            update_review_post(*old(self), *final(self), id, review, r),
    {
        let now = now_millis();
        self.update_review_at(id, review, now)
    }

    /// `update_review`, with `at` as the time of the update.
    pub fn update_review_at(&mut self, id: &str, review: ReviewUpdate, at: i64) -> (r: Result<String, AppError>)
        requires
            old(self).wf(),
        ensures
            update_review_at_post(*old(self), *final(self), id, review, at, r),
    {
        let key = match parse_id(id) {
            Ok(k) => k,
            Err(e) => return Err(e),
        };
        let i = match self.review_index_by_id(key.as_str()) {
            Some(i) => i,
            None => return Err(AppError::NotExists),
        };
        let ghost rs = self.reviews@;
        proof {
            assert(rs[review_pos(rs, key@)]._id@ == key@);
        }
        let x = &self.reviews[i];
        let same = same_text(x.title.as_str(), review.title.as_str()) && x.rating == review.rating
            && same_text(x.body.as_str(), review.body.as_str());
        let msg = updated_message("Review", id, !same);
        self.reviews[i].title = review.title;
        self.reviews[i].rating = review.rating;
        self.reviews[i].body = review.body;
        self.reviews[i].updated_at = at;
        proof {
            let r2 = self.reviews@;
            assert(r2 =~= rs.update(i as int, r2[i as int]));
            lemma_reviews_same_ids(movie_review_lists(self.movies@), rs, r2);
            lemma_reviews_same_ids(series_review_lists(self.series@), rs, r2);
        }
        Ok(msg)
    }

    /// Sets one field of the review with identity `id` to `val` (the rating
    /// to the number `val` spells) and stamps it updated now. Fails, in this
    /// order, with `CannotParseObjId`, `FieldNotAllowed` where `field` is not
    /// on the allow-list, `NotExists` where no review has that identity, and
    /// `ValidationAppError` where a rating is not a number from 0 to 5.
    pub fn patch_review(&mut self, id: &str, field: &str, val: &str) -> (r: Result<String, AppError>)
        requires
            old(self).wf(),
        ensures
            patch_review_post(*old(self), *final(self), id, field, val, r),
    {
        let now = now_millis();
        self.patch_review_at(id, field, val, now)
    }

    /// `patch_review`, with `at` as the time of the update.
    pub fn patch_review_at(&mut self, id: &str, field: &str, val: &str, at: i64) -> (r: Result<String, AppError>)
        requires
            old(self).wf(),
        ensures
            patch_review_at_post(*old(self), *final(self), id, field, val, at, r),
    {
        let key = match parse_id(id) {
            Ok(k) => k,
            Err(e) => return Err(e),
        };
        let f = match review_field(field) {
            Some(f) => f,
            None => return Err(AppError::FieldNotAllowed),
        };
        let i = match self.review_index_by_id(key.as_str()) {
            Some(i) => i,
            None => return Err(AppError::NotExists),
        };
        let ghost rs = self.reviews@;
        proof {
            assert(rs[review_pos(rs, key@)]._id@ == key@);
        }
        let mut rating: u32 = 0;
        if f == ReviewField::Rating {
            let fits = match parse_count(val) {
                Some(n) => {
                    rating = n;
                    n <= MAX_RATING
                },
                None => false,
            };
            if !fits {
                return Err(
                    AppError::ValidationAppError(
                        String::from_str("rating: The rating must be between 0 and 5"),
                    ),
                );
            }
        }
        let x = &self.reviews[i];
        let same = match f {
            ReviewField::Title => same_text(x.title.as_str(), val),
            ReviewField::Rating => x.rating == rating,
            ReviewField::Body => same_text(x.body.as_str(), val),
        };
        let msg = patched_message("Review", field, id, !same);
        match f {
            ReviewField::Title => self.reviews[i].title = val.to_owned(),
            ReviewField::Rating => self.reviews[i].rating = rating,
            ReviewField::Body => self.reviews[i].body = val.to_owned(),
        }
        self.reviews[i].updated_at = at;
        proof {
            let r2 = self.reviews@;
            assert(r2 =~= rs.update(i as int, r2[i as int]));
            lemma_reviews_same_ids(movie_review_lists(self.movies@), rs, r2);
            lemma_reviews_same_ids(series_review_lists(self.series@), rs, r2);
        }
        Ok(msg)
    }
    /// Stores `review` without listing it under any document, as a review
    /// whose owner is gone is kept. `InternalServerError` where a review
    /// already has its identity.
    pub fn restore_review(&mut self, review: Review) -> (r: Result<(), AppError>)
        requires
            old(self).wf(),
        ensures
            final(self).wf(),
            final(self).movies == old(self).movies,
            final(self).series == old(self).series,
            id_in_reviews(old(self).reviews@, review._id@) ==> r == Err::<(), AppError>(
                AppError::InternalServerError,
            ) && final(self).reviews == old(self).reviews,
            !id_in_reviews(old(self).reviews@, review._id@) ==> r is Ok && final(self).reviews@
                == old(self).reviews@.push(review),
    {
        if self.review_index_by_id(review._id.as_str()).is_some() {
            return Err(AppError::InternalServerError);
        }
        proof {
            lemma_refs_push_review(movie_review_lists(self.movies@), self.reviews@, review);
            lemma_refs_push_review(series_review_lists(self.series@), self.reviews@, review);
        }
        self.reviews.push(review);
        Ok(())
    }
}

} // verus!
