//! Laws that relate the operations of the catalog to one another.

use crate::error::AppError;
use crate::formats::{canonical_object_id, is_imdb_id, is_object_id_text};
use crate::models::movie::{Movie, MovieRequest};
use crate::models::series::{Series, SeriesRequest};
use crate::models::review::ReviewUpdate;
use crate::services::db::{id_in_movies, id_in_reviews, id_in_series, imdb_in_movies, imdb_in_series, Database};
use crate::services::messages::{
    patch_noop_text, patched_text, update_noop_text, updated_text,
};
use crate::services::movie_repo::{
    create_movie_post, find_movie_by_imdb_id_post, movie_field_is, movie_field_named, movie_pos,
    movie_stored_as, movie_update_changes, patch_movie_post, update_movie_post,
};
use crate::services::review_repo::{
    patch_review_at_post, patch_review_post, update_review_post, review_field_is, review_field_named, review_pos, review_value_fits,
    update_review_at_post,
};
use crate::services::series_repo::{
    create_series_post, find_series_by_imdb_id_post, patch_series_post, series_field_is,
    series_field_named, series_pos, series_stored_as, series_update_changes, update_series_post,
    SeriesPatchValue,
};
use vstd::prelude::*;

verus! {

/// The no-op answers differ from the answers that report a change.
proof fn lemma_noop_texts_differ(kind: Seq<char>, field: Seq<char>, id: Seq<char>)
    requires
        kind.len() > 0,
        kind[0] != 'F',
    ensures
        update_noop_text() != updated_text(kind, id),
        patch_noop_text() != patched_text(kind, field, id),
{
    reveal_strlit("Fields have the same value, no update was performed");
    reveal_strlit("Field has the same value, no patch was performed");
    assert(update_noop_text()[0] == 'F');
    assert(patch_noop_text()[0] == 'F');
    assert(updated_text(kind, id)[0] == kind[0]);
    assert(patched_text(kind, field, id)[0] == kind[0]);
}

/// A movie that a create stores is what a later lookup by its external
/// identifier finds, field for field.
pub proof fn movie_create_then_find(
    before: Database,
    after: Database,
    movie: Movie,
    created: Result<String, AppError>,
    imdb_id: &str,
    found: Result<&Movie, AppError>,
)
    requires
        before.wf(),
        create_movie_post(before, after, movie, created),
        created is Ok,
        imdb_id@ == movie.imdb_id@,
        is_imdb_id(imdb_id@),
        find_movie_by_imdb_id_post(after, imdb_id, found),
    ensures
        found matches Ok(m) && movie_stored_as(*m, movie),
        movie.review_ids@.len() == 0 ==> (found matches Ok(m) && m.review_ids@ == movie.review_ids@),
{
    let ms = after.movies@;
    let last = ms.len() - 1;
    assert(ms[last] == ms.last());
    assert(imdb_in_movies(ms, imdb_id@));
    let m = found->Ok_0;
    let k = choose|k: int| 0 <= k < ms.len() && ms[k] == *m;
    assert(ms[k].imdb_id@ == ms[last].imdb_id@);
}

/// A series that a create stores is what a later lookup by its external
/// identifier finds, field for field.
pub proof fn series_create_then_find(
    before: Database,
    after: Database,
    series: Series,
    created: Result<String, AppError>,
    imdb_id: &str,
    found: Result<&Series, AppError>,
)
    requires
        before.wf(),
        create_series_post(before, after, series, created),
        created is Ok,
        imdb_id@ == series.imdb_id@,
        is_imdb_id(imdb_id@),
        find_series_by_imdb_id_post(after, imdb_id, found),
    ensures
        found matches Ok(s) && series_stored_as(*s, series),
        series.review_ids@.len() == 0 ==> (found matches Ok(s) && s.review_ids@ == series.review_ids@),
{
    let ss = after.series@;
    let last = ss.len() - 1;
    assert(ss[last] == ss.last());
    assert(imdb_in_series(ss, imdb_id@));
    let s = found->Ok_0;
    let k = choose|k: int| 0 <= k < ss.len() && ss[k] == *s;
    assert(ss[k].imdb_id@ == ss[last].imdb_id@);
}

/// Creating a movie under an external identifier that a series holds fails
/// with `AlreadyExists` and stores nothing.
pub proof fn movie_create_on_series_imdb(
    before: Database,
    after: Database,
    movie: Movie,
    r: Result<String, AppError>,
)
    requires
        before.wf(),
        imdb_in_series(before.series@, movie.imdb_id@),
        create_movie_post(before, after, movie, r),
    ensures
        r == Err::<String, AppError>(AppError::AlreadyExists),
        after == before,
{
}

/// Creating a series under an external identifier that a movie holds fails
/// with `AlreadyExists` and stores nothing.
pub proof fn series_create_on_movie_imdb(
    before: Database,
    after: Database,
    series: Series,
    r: Result<String, AppError>,
)
    requires
        before.wf(),
        imdb_in_movies(before.movies@, series.imdb_id@),
        create_series_post(before, after, series, r),
    ensures
        r == Err::<String, AppError>(AppError::AlreadyExists),
        after == before,
{
}

/// A movie patch of a field outside the allow-list fails with
/// `FieldNotAllowed` and changes nothing.
pub proof fn movie_patch_outside_allow_list(
    before: Database,
    after: Database,
    id: &str,
    field: &str,
    val: &str,
    r: Result<String, AppError>,
)
    requires
        before.wf(),
        is_object_id_text(id@),
        movie_field_named(field@) is None,
        patch_movie_post(before, after, id, field, val, r),
    ensures
        r == Err::<String, AppError>(AppError::FieldNotAllowed),
        after.movies@ == before.movies@,
        after.series == before.series,
        after.reviews == before.reviews,
{
}

/// A series patch of a field outside the allow-list fails with
/// `FieldNotAllowed` and changes nothing.
pub proof fn series_patch_outside_allow_list(
    before: Database,
    after: Database,
    id: &str,
    field: &str,
    val: SeriesPatchValue,
    r: Result<String, AppError>,
)
    requires
        before.wf(),
        is_object_id_text(id@),
        series_field_named(field@) is None,
        patch_series_post(before, after, id, field, val, r),
    ensures
        r == Err::<String, AppError>(AppError::FieldNotAllowed),
        after.series@ == before.series@,
        after.movies == before.movies,
        after.reviews == before.reviews,
{
}

/// A review patch of a field outside the allow-list fails with
/// `FieldNotAllowed` and changes nothing.
pub proof fn review_patch_outside_allow_list(
    before: Database,
    after: Database,
    id: &str,
    field: &str,
    val: &str,
    at: i64,
    r: Result<String, AppError>,
)
    requires
        before.wf(),
        is_object_id_text(id@),
        review_field_named(field@) is None,
        patch_review_at_post(before, after, id, field, val, at, r),
    ensures
        r == Err::<String, AppError>(AppError::FieldNotAllowed),
        after.reviews@ == before.reviews@,
        after.movies == before.movies,
        after.series == before.series,
{
}

/// Replacing a movie by its own current values succeeds with the no-op
/// answer, not the answer that reports a change.
pub proof fn movie_update_unchanged(
    before: Database,
    after: Database,
    id: &str,
    req: MovieRequest,
    r: Result<String, AppError>,
)
    requires
        before.wf(),
        is_object_id_text(id@),
        id_in_movies(before.movies@, canonical_object_id(id@)),
        !movie_update_changes(before.movies@[movie_pos(before.movies@, canonical_object_id(id@))], req),
        update_movie_post(before, after, id, req, r),
    ensures
        r matches Ok(msg) && msg@ == update_noop_text() && msg@ != updated_text("Movie"@, id@),
{
    reveal_strlit("Movie");
    lemma_noop_texts_differ("Movie"@, Seq::empty(), id@);
}

/// Patching a movie field with its current value succeeds with the no-op
/// answer, not the answer that reports a change.
pub proof fn movie_patch_unchanged(
    before: Database,
    after: Database,
    id: &str,
    field: &str,
    val: &str,
    r: Result<String, AppError>,
)
    requires
        before.wf(),
        is_object_id_text(id@),
        id_in_movies(before.movies@, canonical_object_id(id@)),
        movie_field_named(field@) is Some,
        movie_field_is(
            before.movies@[movie_pos(before.movies@, canonical_object_id(id@))],
            movie_field_named(field@)->Some_0,
            val@,
        ),
        patch_movie_post(before, after, id, field, val, r),
    ensures
        r matches Ok(msg) && msg@ == patch_noop_text() && msg@ != patched_text(
            "Movie"@,
            field@,
            id@,
        ),
{
    reveal_strlit("Movie");
    lemma_noop_texts_differ("Movie"@, field@, id@);
}

/// Replacing a series by its own current values succeeds with the no-op
/// answer, not the answer that reports a change.
pub proof fn series_update_unchanged(
    before: Database,
    after: Database,
    id: &str,
    req: SeriesRequest,
    r: Result<String, AppError>,
)
    requires
        before.wf(),
        is_object_id_text(id@),
        id_in_series(before.series@, canonical_object_id(id@)),
        !series_update_changes(before.series@[series_pos(before.series@, canonical_object_id(id@))], req),
        update_series_post(before, after, id, req, r),
    ensures
        r matches Ok(msg) && msg@ == update_noop_text() && msg@ != updated_text("Series"@, id@),
{
    reveal_strlit("Series");
    lemma_noop_texts_differ("Series"@, Seq::empty(), id@);
}

/// Patching a series field with its current value succeeds with the no-op
/// answer, not the answer that reports a change.
pub proof fn series_patch_unchanged(
    before: Database,
    after: Database,
    id: &str,
    field: &str,
    val: SeriesPatchValue,
    r: Result<String, AppError>,
)
    requires
        before.wf(),
        is_object_id_text(id@),
        id_in_series(before.series@, canonical_object_id(id@)),
        series_field_named(field@) is Some,
        series_field_is(
            before.series@[series_pos(before.series@, canonical_object_id(id@))],
            series_field_named(field@)->Some_0,
            val,
        ),
        patch_series_post(before, after, id, field, val, r),
    ensures
        r matches Ok(msg) && msg@ == patch_noop_text() && msg@ != patched_text(
            "Series"@,
            field@,
            id@,
        ),
{
    reveal_strlit("Series");
    lemma_noop_texts_differ("Series"@, field@, id@);
}

/// Replacing a review by its own current text and rating succeeds with the
/// no-op answer, whatever the time of the write.
pub proof fn review_update_unchanged(
    before: Database,
    after: Database,
    id: &str,
    req: ReviewUpdate,
    at: i64,
    r: Result<String, AppError>,
)
    requires
        before.wf(),
        is_object_id_text(id@),
        id_in_reviews(before.reviews@, canonical_object_id(id@)),
        ({
            let cur = before.reviews@[review_pos(before.reviews@, canonical_object_id(id@))];
            cur.title@ == req.title@ && cur.rating == req.rating && cur.body@ == req.body@
        }),
        update_review_at_post(before, after, id, req, at, r),
    ensures
        r matches Ok(msg) && msg@ == update_noop_text() && msg@ != updated_text("Review"@, id@),
{
    reveal_strlit("Review");
    lemma_noop_texts_differ("Review"@, Seq::empty(), id@);
}

/// Patching a review field with its current value succeeds with the no-op
/// answer, whatever the time of the write.
pub proof fn review_patch_unchanged(
    before: Database,
    after: Database,
    id: &str,
    field: &str,
    val: &str,
    at: i64,
    r: Result<String, AppError>,
)
    requires
        before.wf(),
        is_object_id_text(id@),
        id_in_reviews(before.reviews@, canonical_object_id(id@)),
        review_field_named(field@) is Some,
        review_value_fits(review_field_named(field@)->Some_0, val@),
        ({
            let cur = before.reviews@[review_pos(before.reviews@, canonical_object_id(id@))];
            review_field_is(cur, review_field_named(field@)->Some_0, val@)
        }),
        patch_review_at_post(before, after, id, field, val, at, r),
    ensures
        r matches Ok(msg) && msg@ == patch_noop_text() && msg@ != patched_text(
            "Review"@,
            field@,
            id@,
        ),
{
    reveal_strlit("Review");
    lemma_noop_texts_differ("Review"@, field@, id@);
}

/// Replacing a review by its own current text and rating, stamped with the
/// current time, succeeds with the no-op answer.
pub proof fn review_update_now_unchanged(
    before: Database,
    after: Database,
    id: &str,
    req: ReviewUpdate,
    r: Result<String, AppError>,
)
    requires
        before.wf(),
        is_object_id_text(id@),
        id_in_reviews(before.reviews@, canonical_object_id(id@)),
        ({
            let cur = before.reviews@[review_pos(before.reviews@, canonical_object_id(id@))];
            cur.title@ == req.title@ && cur.rating == req.rating && cur.body@ == req.body@
        }),
        update_review_post(before, after, id, req, r),
    ensures
        r matches Ok(msg) && msg@ == update_noop_text() && msg@ != updated_text("Review"@, id@),
{
    reveal_strlit("Review");
    lemma_noop_texts_differ("Review"@, Seq::empty(), id@);
}

/// Patching a review field with its current value, stamped with the current
/// time, succeeds with the no-op answer.
pub proof fn review_patch_now_unchanged(
    before: Database,
    after: Database,
    id: &str,
    field: &str,
    val: &str,
    r: Result<String, AppError>,
)
    requires
        before.wf(),
        is_object_id_text(id@),
        id_in_reviews(before.reviews@, canonical_object_id(id@)),
        review_field_named(field@) is Some,
        review_value_fits(review_field_named(field@)->Some_0, val@),
        review_field_is(
            before.reviews@[review_pos(before.reviews@, canonical_object_id(id@))],
            review_field_named(field@)->Some_0,
            val@,
        ),
        patch_review_post(before, after, id, field, val, r),
    ensures
        r matches Ok(msg) && msg@ == patch_noop_text() && msg@ != patched_text(
            "Review"@,
            field@,
            id@,
        ),
{
    reveal_strlit("Review");
    lemma_noop_texts_differ("Review"@, field@, id@);
}

} // verus!
