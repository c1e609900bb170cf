use cinema_catalog::error::AppError;
use cinema_catalog::models::movie::{Movie, MovieRequest};
use cinema_catalog::models::series::{Series, SeriesRequest};
use cinema_catalog::services::db::Database;

const ID_A: &str = "6650f1a2b3c4d5e6f7a8b9c0";
const ID_B: &str = "6650f1a2b3c4d5e6f7a8b9c1";
const ID_MISSING: &str = "6650f1a2b3c4d5e6f7a8b9ff";

fn request(imdb_id: &str, title: &str) -> MovieRequest {
    MovieRequest {
        imdb_id: imdb_id.to_string(),
        title: title.to_string(),
        overview: "Película que trata de la mafia de los casinos de Las Vegas".to_string(),
        duration: "2h 54m".to_string(),
        director: "Martin Scorsese".to_string(),
        release_date: "1990-3-4".to_string(),
        trailer_link: "https://youtube.com/video/ds1281o3l1h".to_string(),
        genres: vec!["Crímen".to_string(), "Drama".to_string()],
        poster: "https://moviedb.com/casino/poster.jpg".to_string(),
        backdrop: "https://moviedb.com/casino/poster.jpg".to_string(),
    }
}

fn movie(id: &str, imdb_id: &str, title: &str) -> Movie {
    let r = request(imdb_id, title);
    Movie {
        _id: id.to_string(),
        imdb_id: r.imdb_id,
        title: r.title,
        overview: r.overview,
        duration: r.duration,
        director: r.director,
        release_date: r.release_date,
        trailer_link: r.trailer_link,
        genres: r.genres,
        poster: r.poster,
        backdrop: r.backdrop,
        review_ids: vec![],
    }
}

fn series_request(imdb_id: &str) -> SeriesRequest {
    SeriesRequest {
        imdb_id: imdb_id.to_string(),
        title: "Breaking Bad".to_string(),
        overview: "Serie sobre Walter White y su imperio de la meta.".to_string(),
        number_of_seasons: 5,
        creator: "Vince Gilligan".to_string(),
        release_date: "2006-04-02".to_string(),
        trailer_link: "https://youtube.com/video/dsan21jhk1j".to_string(),
        genres: vec!["Crimen".to_string(), "Drama".to_string()],
        season_list: vec![],
        poster: "https://moviedb.com/breaking_bad/poster.jpg".to_string(),
        backdrop: "https://moviedb.com/breaking_bad/backdrop.jpg".to_string(),
    }
}

fn db_with_casino() -> Database {
    let mut db = Database::new();
    db.create_movie(movie(ID_A, "tt12345", "Casino")).unwrap();
    db
}

#[test]
fn test_find_all_movies_ok() {
    let db = db_with_casino();
    let page = db.find_all_movies(Some("Casino".to_string()), Some(1), Some(10)).unwrap();
    assert_eq!(page.current_page, 1);
    assert_eq!(page.total_items, 1);
    assert_eq!(page.total_pages, 1);
    assert_eq!(page.movies.len(), 1);
    assert_eq!(page.movies[0].title, "Casino");
}

#[test]
fn test_find_all_movies_empty_list() {
    let db = Database::new();
    let result = db.find_all_movies(None, Some(1), Some(10));
    assert!(result.is_err_and(|err| err == AppError::Empty));
}

#[test]
fn find_all_movies_second_page_of_twelve() {
    let mut db = Database::new();
    for k in 0..12 {
        let id = format!("6650f1a2b3c4d5e6f7a8b9{:02x}", k);
        db.create_movie(movie(&id, &format!("tt{}", 100 + k), &format!("Movie {}", k + 1)))
            .unwrap();
    }
    let page = db.find_all_movies(None, Some(2), Some(5)).unwrap();
    let titles: Vec<String> = page.movies.iter().map(|m| m.title.clone()).collect();
    assert_eq!(titles, vec!["Movie 6", "Movie 7", "Movie 8", "Movie 9", "Movie 10"]);
    assert_eq!(page.total_items, 12);
    assert_eq!(page.total_pages, 3);
    assert_eq!(page.current_page, 2);
}

#[test]
fn find_all_movies_defaults_and_last_page() {
    let mut db = Database::new();
    for k in 0..12 {
        let id = format!("6650f1a2b3c4d5e6f7a8b9{:02x}", k);
        db.create_movie(movie(&id, &format!("tt{}", 100 + k), &format!("Movie {}", k + 1)))
            .unwrap();
    }
    let first = db.find_all_movies(None, None, None).unwrap();
    assert_eq!(first.movies.len(), 10);
    assert_eq!(first.current_page, 0);
    assert_eq!(first.total_pages, 2);
    let zero_size = db.find_all_movies(None, Some(0), Some(0)).unwrap();
    assert_eq!(zero_size.movies.len(), 10);
    let last = db.find_all_movies(None, Some(3), Some(5)).unwrap();
    assert_eq!(last.movies.len(), 2);
    assert_eq!(last.movies[1].title, "Movie 12");
    assert!(db.find_all_movies(None, Some(4), Some(5)).is_err_and(|e| e == AppError::Empty));
}

#[test]
fn find_all_movies_title_filter_ignores_case() {
    let mut db = db_with_casino();
    db.create_movie(movie(ID_B, "tt777", "El lobo de Wall Street")).unwrap();
    let page = db.find_all_movies(Some("LOBO".to_string()), None, None).unwrap();
    assert_eq!(page.total_items, 1);
    assert_eq!(page.movies[0].imdb_id, "tt777");
    assert!(db
        .find_all_movies(Some("Padrino".to_string()), None, None)
        .is_err_and(|e| e == AppError::Empty));
}

#[test]
fn test_find_movie_by_id_ok() {
    let db = db_with_casino();
    let m = db.find_movie_by_id(ID_A).unwrap();
    assert_eq!(m._id, ID_A);
    assert_eq!(m.imdb_id, "tt12345");
    assert_eq!(m.title, "Casino");
}

#[test]
fn find_movie_by_id_accepts_upper_case_hex() {
    let db = db_with_casino();
    let m = db.find_movie_by_id(&ID_A.to_uppercase()).unwrap();
    assert_eq!(m._id, ID_A);
}

#[test]
fn test_find_movie_by_id_cannot_parse_obj_id() {
    let db = db_with_casino();
    assert!(db.find_movie_by_id("not-an-id").is_err_and(|e| e == AppError::CannotParseObjId));
}

#[test]
fn test_find_movie_by_id_not_found() {
    let db = db_with_casino();
    assert!(db.find_movie_by_id(ID_MISSING).is_err_and(|e| e == AppError::NotFound));
}

#[test]
fn test_find_movie_by_imdb_id_ok() {
    let db = db_with_casino();
    let m = db.find_movie_by_imdb_id("tt12345").unwrap();
    assert_eq!(m._id, ID_A);
    assert_eq!(m.title, "Casino");
}

#[test]
fn test_find_movie_by_imdb_id_wrong_imdb_id() {
    let db = db_with_casino();
    assert!(db.find_movie_by_imdb_id("tfd2312").is_err_and(|e| e == AppError::WrongImdbId));
}

#[test]
fn find_movie_by_imdb_id_malformed_is_rejected_before_lookup() {
    let db = Database::new();
    assert!(db
        .find_movie_by_imdb_id("not-a-valid-id")
        .is_err_and(|e| e == AppError::WrongImdbId));
}

#[test]
fn test_find_movie_by_imdb_id_not_found() {
    let db = db_with_casino();
    assert!(db.find_movie_by_imdb_id("tt54321").is_err_and(|e| e == AppError::NotFound));
}

#[test]
fn test_create_movie_ok() {
    let mut db = Database::new();
    let m = Movie::from_request(request("tt12345", "Casino"));
    let id = m._id.clone();
    assert_eq!(id.len(), 24);
    let msg = db.create_movie(m).unwrap();
    assert_eq!(msg, format!("Movie was successfully created. (id: '{}')", id));
}

#[test]
fn create_then_find_round_trips() {
    let mut db = Database::new();
    let req = request("tt4242", "Casino");
    let m = Movie::from_request(req.clone());
    let id = m._id.clone();
    db.create_movie(m).unwrap();
    let found = db.find_movie_by_imdb_id("tt4242").unwrap();
    assert_eq!(found._id, id);
    assert_eq!(found.imdb_id, req.imdb_id);
    assert_eq!(found.title, req.title);
    assert_eq!(found.overview, req.overview);
    assert_eq!(found.duration, req.duration);
    assert_eq!(found.director, req.director);
    assert_eq!(found.release_date, req.release_date);
    assert_eq!(found.trailer_link, req.trailer_link);
    assert_eq!(found.genres, req.genres);
    assert_eq!(found.poster, req.poster);
    assert_eq!(found.backdrop, req.backdrop);
    assert!(found.review_ids.is_empty());
}

#[test]
fn create_movie_starts_without_reviews() {
    let mut db = Database::new();
    let mut m = movie(ID_A, "tt1", "Casino");
    m.review_ids = vec![ID_B.to_string()];
    db.create_movie(m).unwrap();
    assert!(db.movies[0].review_ids.is_empty());
}

#[test]
fn test_create_movie_already_exists() {
    let mut db = db_with_casino();
    let result = db.create_movie(movie(ID_B, "tt12345", "Otra"));
    assert!(result.is_err_and(|e| e == AppError::AlreadyExists));
    assert_eq!(db.movies.len(), 1);
}

#[test]
fn create_movie_with_series_imdb_id_already_exists() {
    let mut db = Database::new();
    db.create_series(Series::from_request(series_request("tt999"))).unwrap();
    let result = db.create_movie(movie(ID_A, "tt999", "Casino"));
    assert!(result.is_err_and(|e| e == AppError::AlreadyExists));
    assert!(db.movies.is_empty());
}

#[test]
fn create_movie_with_taken_identity_is_internal_error() {
    let mut db = db_with_casino();
    let result = db.create_movie(movie(ID_A, "tt222", "Otra"));
    assert!(result.is_err_and(|e| e == AppError::InternalServerError));
}

#[test]
fn test_delete_movie_ok() {
    let mut db = db_with_casino();
    let msg = db.delete_movie(ID_A).unwrap();
    assert_eq!(msg, format!("Movie with id: '{}' was successfully deleted", ID_A));
    assert!(db.movies.is_empty());
}

#[test]
fn test_delete_movie_not_exists() {
    let mut db = db_with_casino();
    assert!(db.delete_movie(ID_MISSING).is_err_and(|e| e == AppError::NotExists));
    assert_eq!(db.movies.len(), 1);
}

#[test]
fn delete_movie_cannot_parse_obj_id() {
    let mut db = db_with_casino();
    assert!(db.delete_movie("123").is_err_and(|e| e == AppError::CannotParseObjId));
}

#[test]
fn movie_repo_test_movie_exists_by_imdb_id_true() {
    let db = db_with_casino();
    assert!(db.movie_exists_by_imdb_id("tt12345"));
}

#[test]
fn movie_repo_test_movie_exists_by_imdb_id_false() {
    let db = db_with_casino();
    assert!(!db.movie_exists_by_imdb_id("tt54321"));
}

#[test]
fn test_update_movie_ok() {
    let mut db = db_with_casino();
    let msg = db.update_movie(ID_A, request("tt12345", "Casino Royale")).unwrap();
    assert_eq!(msg, format!("Movie with id: '{}' was successfully updated", ID_A));
    assert_eq!(db.movies[0].title, "Casino Royale");
}

#[test]
fn update_movie_same_values_is_noop() {
    let mut db = db_with_casino();
    let msg = db.update_movie(ID_A, request("tt12345", "Casino")).unwrap();
    assert_eq!(msg, "Fields have the same value, no update was performed");
}

#[test]
fn update_movie_writes_director() {
    let mut db = db_with_casino();
    let mut req = request("tt12345", "Casino");
    req.director = "Brian De Palma".to_string();
    let msg = db.update_movie(ID_A, req).unwrap();
    assert_eq!(msg, format!("Movie with id: '{}' was successfully updated", ID_A));
    assert_eq!(db.movies[0].director, "Brian De Palma");
}

#[test]
fn update_movie_keeps_unchanged_malformed_imdb_id() {
    let mut db = Database::new();
    db.create_movie(movie(ID_A, "legacy-1", "Casino")).unwrap();
    let msg = db.update_movie(ID_A, request("legacy-1", "Casino")).unwrap();
    assert_eq!(msg, "Fields have the same value, no update was performed");
    let msg = db.patch_movie(ID_A, "imdbId", "legacy-1").unwrap();
    assert_eq!(msg, "Field has the same value, no patch was performed");
    assert!(db
        .patch_movie(ID_A, "imdbId", "legacy-2")
        .is_err_and(|e| e == AppError::WrongImdbId));
}

#[test]
fn test_update_movie_not_exists() {
    let mut db = db_with_casino();
    let result = db.update_movie(ID_MISSING, request("tt12345", "Casino"));
    assert!(result.is_err_and(|e| e == AppError::NotExists));
}

#[test]
fn test_update_movie_imdb_id_in_use() {
    let mut db = db_with_casino();
    db.create_movie(movie(ID_B, "tt777", "Otra")).unwrap();
    let result = db.update_movie(ID_B, request("tt12345", "Otra"));
    assert!(result.is_err_and(|e| e == AppError::ImdbIdInUse));
    assert_eq!(db.movies[1].imdb_id, "tt777");
}

#[test]
fn update_movie_wrong_imdb_id() {
    let mut db = db_with_casino();
    let result = db.update_movie(ID_A, request("xx1", "Casino"));
    assert!(result.is_err_and(|e| e == AppError::WrongImdbId));
}

#[test]
fn test_patch_movie_ok() {
    let mut db = db_with_casino();
    let msg = db.patch_movie(ID_A, "title", "El Cabo del Miedo").unwrap();
    assert_eq!(msg, format!("Movie title with id: '{}' was successfully patched", ID_A));
    assert_eq!(db.movies[0].title, "El Cabo del Miedo");
}

#[test]
fn patch_movie_same_value_is_noop() {
    let mut db = db_with_casino();
    let msg = db.patch_movie(ID_A, "title", "Casino").unwrap();
    assert_eq!(msg, "Field has the same value, no patch was performed");
}

#[test]
fn patch_movie_genres_sets_single_genre() {
    let mut db = db_with_casino();
    db.patch_movie(ID_A, "genres", "Thriller").unwrap();
    assert_eq!(db.movies[0].genres, vec!["Thriller".to_string()]);
}

#[test]
fn test_patch_movie_cannot_parse_object_id() {
    let mut db = db_with_casino();
    let result = db.patch_movie("zz", "title", "El Cabo del Miedo");
    assert!(result.is_err_and(|e| e == AppError::CannotParseObjId));
}

#[test]
fn test_patch_movie_field_not_allowed() {
    let mut db = db_with_casino();
    let result = db.patch_movie(ID_A, "titleeee", "El Cabo del Miedo");
    assert!(result.is_err_and(|e| e == AppError::FieldNotAllowed));
    assert_eq!(db.movies[0].title, "Casino");
    let result = db.patch_movie(ID_A, "reviewIds", "x");
    assert!(result.is_err_and(|e| e == AppError::FieldNotAllowed));
}

#[test]
fn test_patch_movie_wrong_imdb_id() {
    let mut db = db_with_casino();
    let result = db.patch_movie(ID_A, "imdbId", "tF123asS");
    assert!(result.is_err_and(|e| e == AppError::WrongImdbId));
}

#[test]
fn test_patch_movie_imdb_id_in_use() {
    let mut db = db_with_casino();
    db.create_movie(movie(ID_B, "tt777", "Otra")).unwrap();
    let result = db.patch_movie(ID_B, "imdbId", "tt12345");
    assert!(result.is_err_and(|e| e == AppError::ImdbIdInUse));
}

#[test]
fn patch_movie_own_imdb_id_is_noop() {
    let mut db = db_with_casino();
    let msg = db.patch_movie(ID_A, "imdbId", "tt12345").unwrap();
    assert_eq!(msg, "Field has the same value, no patch was performed");
}

#[test]
fn patch_movie_not_exists() {
    let mut db = db_with_casino();
    let result = db.patch_movie(ID_MISSING, "title", "x");
    assert!(result.is_err_and(|e| e == AppError::NotExists));
}

#[test]
fn movie_request_validation() {
    assert!(request("tt12345", "Casino").validate().is_ok());
    let bad = request("12345", "Casino").validate();
    assert!(matches!(bad, Err(AppError::ValidationAppError(_))));
    let mut no_genres = request("tt1", "Casino");
    no_genres.genres.clear();
    assert!(no_genres.validate().is_err());
}
