use cinema_catalog::error::AppError;
use cinema_catalog::models::movie::Movie;
use cinema_catalog::models::review::{Review, ReviewRequest, ReviewUpdate};
use cinema_catalog::services::db::Database;

const MOVIE_ID: &str = "6650f1a2b3c4d5e6f7a8b9c0";
const REVIEW_A: &str = "7750f1a2b3c4d5e6f7a8b9c0";
const REVIEW_B: &str = "7750f1a2b3c4d5e6f7a8b9c1";
const ID_MISSING: &str = "6650f1a2b3c4d5e6f7a8b9ff";

fn movie(imdb_id: &str) -> Movie {
    Movie {
        _id: MOVIE_ID.to_string(),
        imdb_id: imdb_id.to_string(),
        title: "El lobo de Wall Street".to_string(),
        overview: "Testing movies...".to_string(),
        duration: "2h 54m".to_string(),
        director: "Martin Scorsese".to_string(),
        release_date: "2002-12-4".to_string(),
        trailer_link: "https://youtube.com/dasDsdXsDS".to_string(),
        genres: vec!["Crimen".to_string()],
        poster: "https://moviedb.com/lobo/lobo_poster.jpg".to_string(),
        backdrop: "https://moviedb.com/lobo/lobo_backdrop.jpg".to_string(),
        review_ids: vec![],
    }
}

fn review(id: &str) -> Review {
    Review {
        _id: id.to_string(),
        title: "La mejor película de la historia".to_string(),
        rating: 5,
        body: "Esta película es una obra de arte, es perfecta".to_string(),
        created_at: 1_715_082_965_792,
        updated_at: 1_715_082_965_792,
    }
}

fn db_with_review() -> Database {
    let mut db = Database::new();
    db.create_movie(movie("tt12345")).unwrap();
    db.create_review(review(REVIEW_A), "tt12345").unwrap();
    db
}

#[test]
fn test_create_review_ok() {
    let mut db = Database::new();
    db.create_movie(movie("tt12345")).unwrap();
    let r = Review::from_request(ReviewRequest {
        title: "La mejor película de la historia".to_string(),
        rating: 5,
        body: "Esta película es una obra de arte, es perfecta".to_string(),
        imdb_id: "tt12345".to_string(),
    });
    let id = r._id.clone();
    let msg = db.create_review(r, "tt12345").unwrap();
    assert_eq!(msg, format!("Review was successfully created. (id: '{}')", id));
    assert_eq!(db.movies[0].review_ids, vec![id.clone()]);
    let found = db.find_all_reviews_by_imdb_id("tt12345").unwrap();
    assert_eq!(found.len(), 1);
    assert_eq!(found[0]._id, id);
}

#[test]
fn delete_review_detaches_it_from_its_movie() {
    let mut db = db_with_review();
    let msg = db.delete_review(REVIEW_A).unwrap();
    assert_eq!(msg, format!("Review with id: '{}' was successfully deleted", REVIEW_A));
    assert!(db.movies[0].review_ids.is_empty());
    assert!(db.reviews.is_empty());
    assert!(db.find_all_reviews_by_imdb_id("tt12345").is_err_and(|e| e == AppError::Empty));
}

#[test]
fn test_create_review_not_exists() {
    let mut db = Database::new();
    let result = db.create_review(review(REVIEW_A), "tt12345");
    assert!(result.is_err_and(|e| e == AppError::NotExists));
    assert!(db.reviews.is_empty());
}

#[test]
fn create_review_for_series() {
    let mut db = Database::new();
    let s = cinema_catalog::models::series::Series {
        _id: MOVIE_ID.to_string(),
        imdb_id: "tt77".to_string(),
        title: "Andor".to_string(),
        overview: "Star Wars".to_string(),
        number_of_seasons: 2,
        creator: "Tony Gilroy".to_string(),
        release_date: "2022-09-21".to_string(),
        trailer_link: "https://youtu.be/cKOegEuCcfw".to_string(),
        genres: vec!["Drama".to_string()],
        season_list: vec![],
        poster: "https://moviedb.com/andor.jpg".to_string(),
        backdrop: "https://moviedb.com/andor_b.jpg".to_string(),
        review_ids: vec![],
    };
    db.create_series(s).unwrap();
    db.create_review(review(REVIEW_A), "tt77").unwrap();
    assert_eq!(db.series[0].review_ids, vec![REVIEW_A.to_string()]);
    let (found, owner) = db.series_exists_by_review_id(REVIEW_A);
    assert!(found);
    assert_eq!(owner, Some(MOVIE_ID.to_string()));
    let (in_movies, none) = db.movie_exists_by_review_id(REVIEW_A);
    assert!(!in_movies);
    assert_eq!(none, None);
}

#[test]
fn create_review_with_taken_identity_is_internal_error() {
    let mut db = db_with_review();
    let result = db.create_review(review(REVIEW_A), "tt12345");
    assert!(result.is_err_and(|e| e == AppError::InternalServerError));
    assert_eq!(db.movies[0].review_ids.len(), 1);
}

#[test]
fn test_find_all_reviews_ok() {
    let db = db_with_review();
    let page = db.find_all_reviews(Some(1), Some(10)).unwrap();
    assert_eq!(page.current_page, 1);
    assert_eq!(page.total_items, 1);
    assert_eq!(page.total_pages, 1);
    assert_eq!(page.reviews.len(), 1);
    assert_eq!(page.reviews[0].title, "La mejor película de la historia");
    assert_eq!(page.reviews[0].body, "Esta película es una obra de arte, es perfecta");
}

#[test]
fn test_find_all_reviews_empty_list() {
    let db = Database::new();
    assert!(db.find_all_reviews(Some(1), Some(10)).is_err_and(|e| e == AppError::Empty));
}

#[test]
fn test_find_all_reviews_by_imdb_id_ok() {
    let mut db = db_with_review();
    db.create_review(review(REVIEW_B), "tt12345").unwrap();
    let found = db.find_all_reviews_by_imdb_id("tt12345").unwrap();
    assert_eq!(found.len(), 2);
    assert_eq!(found[0].title, "La mejor película de la historia");
    assert_eq!(found[1]._id, REVIEW_B);
}

#[test]
fn test_find_all_reviews_by_imdb_id_wrong_imdb_id() {
    let db = db_with_review();
    assert!(db.find_all_reviews_by_imdb_id("1234").is_err_and(|e| e == AppError::WrongImdbId));
}

#[test]
fn test_find_all_reviews_by_imdb_id_not_exists() {
    let db = db_with_review();
    assert!(db.find_all_reviews_by_imdb_id("tt1234").is_err_and(|e| e == AppError::NotExists));
}

#[test]
fn test_find_all_reviews_by_imdb_id_empty() {
    let mut db = Database::new();
    db.create_movie(movie("tt1234")).unwrap();
    assert!(db.find_all_reviews_by_imdb_id("tt1234").is_err_and(|e| e == AppError::Empty));
}

#[test]
fn test_find_review_by_id_ok() {
    let db = db_with_review();
    let r = db.find_review_by_id(REVIEW_A).unwrap();
    assert_eq!(r.title, "La mejor película de la historia");
    assert_eq!(r.rating, 5);
}

#[test]
fn test_find_review_by_id_cannot_parse_object_id() {
    let db = db_with_review();
    assert!(db.find_review_by_id("nope").is_err_and(|e| e == AppError::CannotParseObjId));
}

#[test]
fn test_find_review_by_id_cannot_not_found() {
    let db = db_with_review();
    assert!(db.find_review_by_id(ID_MISSING).is_err_and(|e| e == AppError::NotFound));
}

#[test]
fn review_repo_test_movie_exists_by_imdb_id_true() {
    let db = db_with_review();
    let (found, owner) = db.movie_exists_by_review_id(REVIEW_A);
    assert!(found);
    assert_eq!(owner, Some(MOVIE_ID.to_string()));
}

#[test]
fn review_repo_test_movie_exists_by_imdb_id_false() {
    let db = db_with_review();
    let (found, owner) = db.movie_exists_by_review_id(REVIEW_B);
    assert!(!found);
    assert_eq!(owner, None);
}

#[test]
fn test_delete_review_cannot_parse_object_id() {
    let mut db = db_with_review();
    assert!(db.delete_review("abc").is_err_and(|e| e == AppError::CannotParseObjId));
    assert_eq!(db.reviews.len(), 1);
}

#[test]
fn test_delete_review_not_exists() {
    let mut db = db_with_review();
    assert!(db.delete_review(ID_MISSING).is_err_and(|e| e == AppError::NotExists));
    assert_eq!(db.reviews.len(), 1);
}

#[test]
fn delete_review_of_deleted_movie_still_removes_it() {
    let mut db = db_with_review();
    db.delete_movie(MOVIE_ID).unwrap();
    assert!(db.delete_review(REVIEW_A).is_err_and(|e| e == AppError::NotExists));
    assert!(db.reviews.is_empty());
}

#[test]
fn test_update_review_ok() {
    let mut db = db_with_review();
    let upd = ReviewUpdate {
        title: "El padrino es una obra de arte.".to_string(),
        rating: 4,
        body: "Michael Corleone mucho más maduro.".to_string(),
    };
    let msg = db.update_review(REVIEW_A, upd).unwrap();
    assert_eq!(msg, format!("Review with id: '{}' was successfully updated", REVIEW_A));
    assert_eq!(db.reviews[0].rating, 4);
    assert_eq!(db.reviews[0].created_at, 1_715_082_965_792);
}

#[test]
fn update_review_at_same_time_and_values_is_noop() {
    let mut db = db_with_review();
    let upd = ReviewUpdate {
        title: "La mejor película de la historia".to_string(),
        rating: 5,
        body: "Esta película es una obra de arte, es perfecta".to_string(),
    };
    let msg = db.update_review_at(REVIEW_A, upd, 1_715_082_965_792).unwrap();
    assert_eq!(msg, "Fields have the same value, no update was performed");
}

#[test]
fn update_review_same_values_is_noop_and_stamps_time() {
    let mut db = db_with_review();
    let upd = ReviewUpdate {
        title: "La mejor película de la historia".to_string(),
        rating: 5,
        body: "Esta película es una obra de arte, es perfecta".to_string(),
    };
    let msg = db.update_review(REVIEW_A, upd).unwrap();
    assert_eq!(msg, "Fields have the same value, no update was performed");
    assert!(db.reviews[0].updated_at > 1_715_082_965_792);
    let msg = db.patch_review(REVIEW_A, "rating", "5").unwrap();
    assert_eq!(msg, "Field has the same value, no patch was performed");
}

#[test]
fn update_review_at_stamps_time() {
    let mut db = db_with_review();
    let upd = ReviewUpdate { title: "t".to_string(), rating: 1, body: "b".to_string() };
    db.update_review_at(REVIEW_A, upd, 42).unwrap();
    assert_eq!(db.reviews[0].updated_at, 42);
    assert_eq!(db.reviews[0].created_at, 1_715_082_965_792);
}

#[test]
fn test_update_review_not_exists() {
    let mut db = db_with_review();
    let upd = ReviewUpdate { title: "t".to_string(), rating: 1, body: "b".to_string() };
    assert!(db.update_review(ID_MISSING, upd).is_err_and(|e| e == AppError::NotExists));
}

#[test]
fn test_update_review_cannot_parse_object_id() {
    let mut db = db_with_review();
    let upd = ReviewUpdate { title: "t".to_string(), rating: 1, body: "b".to_string() };
    assert!(db.update_review("bad", upd).is_err_and(|e| e == AppError::CannotParseObjId));
}

#[test]
fn test_patch_review_ok() {
    let mut db = db_with_review();
    let val = "Jedis vs Sith, la nueva serie de Star Wars lo peta";
    let msg = db.patch_review(REVIEW_A, "title", val).unwrap();
    assert_eq!(msg, format!("Review title with id: '{}' was successfully patched", REVIEW_A));
    assert_eq!(db.reviews[0].title, val);
}

#[test]
fn patch_review_rating() {
    let mut db = db_with_review();
    db.patch_review_at(REVIEW_A, "rating", "3", 7).unwrap();
    assert_eq!(db.reviews[0].rating, 3);
    assert_eq!(db.reviews[0].updated_at, 7);
    let msg = db.patch_review_at(REVIEW_A, "rating", "3", 7).unwrap();
    assert_eq!(msg, "Field has the same value, no patch was performed");
    let bad = db.patch_review(REVIEW_A, "rating", "9");
    assert!(matches!(bad, Err(AppError::ValidationAppError(_))));
}

#[test]
fn test_patch_review_cannot_parse_object_id() {
    let mut db = db_with_review();
    assert!(db.patch_review("0", "title", "x").is_err_and(|e| e == AppError::CannotParseObjId));
}

#[test]
fn test_patch_review_field_not_allowed() {
    let mut db = db_with_review();
    assert!(db
        .patch_review(REVIEW_A, "imdbId", "tt1")
        .is_err_and(|e| e == AppError::FieldNotAllowed));
    assert_eq!(db.reviews[0].title, "La mejor película de la historia");
}

#[test]
fn test_patch_review_not_exists() {
    let mut db = db_with_review();
    assert!(db.patch_review(ID_MISSING, "title", "x").is_err_and(|e| e == AppError::NotExists));
}

#[test]
fn review_request_validation() {
    let ok = ReviewRequest {
        title: "t".to_string(),
        rating: 5,
        body: "b".to_string(),
        imdb_id: "tt1".to_string(),
    };
    assert!(ok.validate().is_ok());
    let bad = ReviewRequest { rating: 6, ..ok.clone() };
    assert!(matches!(bad.validate(), Err(AppError::ValidationAppError(_))));
    let upd = ReviewUpdate { title: String::new(), rating: 1, body: "b".to_string() };
    assert!(upd.validate().is_err());
}

#[test]
fn restore_review_keeps_an_unlisted_review() {
    let mut db = Database::new();
    db.restore_review(review(REVIEW_A)).unwrap();
    assert_eq!(db.reviews.len(), 1);
    assert!(db.restore_review(review(REVIEW_A)).is_err_and(|e| e == AppError::InternalServerError));
    assert_eq!(db.find_review_by_id(REVIEW_A).unwrap().rating, 5);
}
