use cinema_catalog::error::AppError;
use cinema_catalog::models::movie::MovieRequest;
use cinema_catalog::models::movie::Movie;
use cinema_catalog::models::series::{Episode, Season, Series, SeriesRequest};
use cinema_catalog::services::db::Database;
use cinema_catalog::services::series_repo::SeriesPatchValue;

const ID_A: &str = "6650f1a2b3c4d5e6f7a8b9c0";
const ID_B: &str = "6650f1a2b3c4d5e6f7a8b9c1";
const ID_MISSING: &str = "6650f1a2b3c4d5e6f7a8b9ff";

fn episode() -> Episode {
    Episode {
        title: "Pilot".to_string(),
        release_date: "2008-01-20".to_string(),
        duration: "58m".to_string(),
        description: "Walter White empieza a cocinar.".to_string(),
    }
}

fn season() -> Season {
    Season {
        overview: "Primera temporada".to_string(),
        episode_list: vec![episode()],
        poster: "https://moviedb.com/breaking_bad/s1.jpg".to_string(),
    }
}

fn request(imdb_id: &str, title: &str) -> SeriesRequest {
    SeriesRequest {
        imdb_id: imdb_id.to_string(),
        title: title.to_string(),
        overview: "Serie sobre Walter White y su imperio de la meta.".to_string(),
        number_of_seasons: 5,
        creator: "Vince Gilligan".to_string(),
        release_date: "2006-04-02".to_string(),
        trailer_link: "https://youtube.com/video/dsan21jhk1j".to_string(),
        genres: vec!["Crimen".to_string(), "Drama".to_string()],
        season_list: vec![season()],
        poster: "https://moviedb.com/breaking_bad/poster.jpg".to_string(),
        backdrop: "https://moviedb.com/breaking_bad/backdrop.jpg".to_string(),
    }
}

fn series(id: &str, imdb_id: &str, title: &str) -> Series {
    let mut s = Series::from_request(request(imdb_id, title));
    s._id = id.to_string();
    s
}

fn text(v: &str) -> SeriesPatchValue {
    SeriesPatchValue::Text(v.to_string())
}

fn db_with_breaking_bad() -> Database {
    let mut db = Database::new();
    db.create_series(series(ID_A, "tt12345", "Breaking Bad")).unwrap();
    db
}

#[test]
fn test_find_all_series_ok() {
    let db = db_with_breaking_bad();
    let page = db.find_all_series(Some("breaking".to_string()), Some(1), Some(10)).unwrap();
    assert_eq!(page.current_page, 1);
    assert_eq!(page.total_items, 1);
    assert_eq!(page.total_pages, 1);
    assert_eq!(page.series.len(), 1);
    assert_eq!(page.series[0].title, "Breaking Bad");
    assert_eq!(page.series[0].number_of_seasons, 5);
}

#[test]
fn test_find_all_series_empty_list() {
    let db = Database::new();
    assert!(db.find_all_series(None, Some(1), Some(10)).is_err_and(|e| e == AppError::Empty));
}

#[test]
fn test_find_series_by_id_ok() {
    let db = db_with_breaking_bad();
    let s = db.find_series_by_id(ID_A).unwrap();
    assert_eq!(s.imdb_id, "tt12345");
    assert_eq!(s.title, "Breaking Bad");
}

#[test]
fn test_find_series_by_id_cannot_parse_obj_id() {
    let db = db_with_breaking_bad();
    assert!(db.find_series_by_id("xyz").is_err_and(|e| e == AppError::CannotParseObjId));
}

#[test]
fn test_find_series_by_id_not_found() {
    let db = db_with_breaking_bad();
    assert!(db.find_series_by_id(ID_MISSING).is_err_and(|e| e == AppError::NotFound));
}

#[test]
fn test_find_series_by_imdb_id_ok() {
    let db = db_with_breaking_bad();
    let s = db.find_series_by_imdb_id("tt12345").unwrap();
    assert_eq!(s._id, ID_A);
    assert_eq!(s.title, "Breaking Bad");
    assert_eq!(s.season_list.len(), 1);
}

#[test]
fn test_find_series_by_imdb_id_wrong_imdb_id() {
    let db = db_with_breaking_bad();
    assert!(db.find_series_by_imdb_id("tf12asD5").is_err_and(|e| e == AppError::WrongImdbId));
}

#[test]
fn test_find_series_by_imdb_id_not_found() {
    let db = db_with_breaking_bad();
    assert!(db.find_series_by_imdb_id("tt54321").is_err_and(|e| e == AppError::NotFound));
}

#[test]
fn test_create_series_ok() {
    let mut db = Database::new();
    let s = Series::from_request(request("tt12345", "Breaking Bad"));
    let id = s._id.clone();
    let msg = db.create_series(s).unwrap();
    assert_eq!(msg, format!("Series was successfully created. (id: '{}')", id));
}

#[test]
fn test_create_series_already_exists() {
    let mut db = db_with_breaking_bad();
    let result = db.create_series(series(ID_B, "tt12345", "Otra"));
    assert!(result.is_err_and(|e| e == AppError::AlreadyExists));
}

#[test]
fn create_series_with_movie_imdb_id_already_exists() {
    let mut db = Database::new();
    let req = MovieRequest {
        imdb_id: "tt999".to_string(),
        title: "Casino".to_string(),
        overview: "Mafia".to_string(),
        duration: "2h 54m".to_string(),
        director: "Martin Scorsese".to_string(),
        release_date: "1990-3-4".to_string(),
        trailer_link: "https://youtu.be/abc".to_string(),
        genres: vec!["Drama".to_string()],
        poster: "https://moviedb.com/casino/poster.jpg".to_string(),
        backdrop: "https://moviedb.com/casino/poster.jpg".to_string(),
    };
    db.create_movie(Movie::from_request(req)).unwrap();
    let result = db.create_series(series(ID_A, "tt999", "Breaking Bad"));
    assert!(result.is_err_and(|e| e == AppError::AlreadyExists));
    assert!(db.series.is_empty());
}

#[test]
fn test_delete_series_ok() {
    let mut db = db_with_breaking_bad();
    let msg = db.delete_series(ID_A).unwrap();
    assert_eq!(msg, format!("Series with id: '{}' was successfully deleted", ID_A));
    assert!(db.series.is_empty());
}

#[test]
fn test_delete_series_not_exists() {
    let mut db = db_with_breaking_bad();
    assert!(db.delete_series(ID_MISSING).is_err_and(|e| e == AppError::NotExists));
}

#[test]
fn series_exists_by_imdb_id_true_and_false() {
    let db = db_with_breaking_bad();
    assert!(db.series_exists_by_imdb_id("tt12345"));
    assert!(!db.series_exists_by_imdb_id("tt1"));
}

#[test]
fn update_series_ok_and_noop() {
    let mut db = db_with_breaking_bad();
    let msg = db.update_series(ID_A, request("tt12345", "Breaking Bad")).unwrap();
    assert_eq!(msg, "Fields have the same value, no update was performed");
    let mut req = request("tt12345", "Breaking Bad");
    req.season_list[0].episode_list[0].title = "Piloto".to_string();
    let msg = db.update_series(ID_A, req).unwrap();
    assert_eq!(msg, format!("Series with id: '{}' was successfully updated", ID_A));
    assert_eq!(db.series[0].season_list[0].episode_list[0].title, "Piloto");
}

#[test]
fn update_series_imdb_id_in_use() {
    let mut db = db_with_breaking_bad();
    db.create_series(series(ID_B, "tt2", "Better Call Saul")).unwrap();
    let result = db.update_series(ID_B, request("tt12345", "Better Call Saul"));
    assert!(result.is_err_and(|e| e == AppError::ImdbIdInUse));
}

#[test]
fn patch_series_number_of_seasons() {
    let mut db = db_with_breaking_bad();
    let msg = db.patch_series(ID_A, "numberOfSeasons", text("6")).unwrap();
    assert_eq!(msg, format!("Series numberOfSeasons with id: '{}' was successfully patched", ID_A));
    assert_eq!(db.series[0].number_of_seasons, 6);
    let msg = db.patch_series(ID_A, "numberOfSeasons", text("6")).unwrap();
    assert_eq!(msg, "Field has the same value, no patch was performed");
    let bad = db.patch_series(ID_A, "numberOfSeasons", text("six"));
    assert!(matches!(bad, Err(AppError::ValidationAppError(_))));
    let too_big = db.patch_series(ID_A, "numberOfSeasons", text("4294967296"));
    assert!(matches!(too_big, Err(AppError::ValidationAppError(_))));
}

#[test]
fn patch_series_season_list() {
    let mut db = db_with_breaking_bad();
    let mut second = season();
    second.overview = "Segunda temporada".to_string();
    let list = vec![season(), second];
    let msg = db.patch_series(ID_A, "seasonList", SeriesPatchValue::Seasons(list)).unwrap();
    assert_eq!(msg, format!("Series seasonList with id: '{}' was successfully patched", ID_A));
    assert_eq!(db.series[0].season_list.len(), 2);
    assert_eq!(db.series[0].season_list[1].overview, "Segunda temporada");
    let msg = db.patch_series(ID_A, "seasonList", SeriesPatchValue::Seasons(vec![season(), {
        let mut s = season();
        s.overview = "Segunda temporada".to_string();
        s
    }])).unwrap();
    assert_eq!(msg, "Field has the same value, no patch was performed");
}

#[test]
fn patch_series_value_must_suit_field() {
    let mut db = db_with_breaking_bad();
    let result = db.patch_series(ID_A, "seasonList", text("[]"));
    assert!(matches!(result, Err(AppError::ValidationAppError(_))));
    let result = db.patch_series(ID_A, "title", SeriesPatchValue::Seasons(vec![]));
    assert!(matches!(result, Err(AppError::ValidationAppError(_))));
    assert_eq!(db.series[0].season_list.len(), 1);
    assert_eq!(db.series[0].title, "Breaking Bad");
}

#[test]
fn patch_series_field_not_allowed() {
    let mut db = db_with_breaking_bad();
    let result = db.patch_series(ID_A, "director", text("Someone Else"));
    assert!(result.is_err_and(|e| e == AppError::FieldNotAllowed));
}

#[test]
fn patch_series_creator() {
    let mut db = db_with_breaking_bad();
    db.patch_series(ID_A, "creator", text("Peter Gould")).unwrap();
    assert_eq!(db.series[0].creator, "Peter Gould");
}

#[test]
fn series_request_validation_requires_episodes() {
    assert!(request("tt1", "Breaking Bad").validate().is_ok());
    let mut empty_season = request("tt1", "Breaking Bad");
    empty_season.season_list[0].episode_list.clear();
    assert!(matches!(empty_season.validate(), Err(AppError::ValidationAppError(_))));
    let mut no_seasons = request("tt1", "Breaking Bad");
    no_seasons.season_list.clear();
    assert!(no_seasons.validate().is_err());
    let mut bad_episode = request("tt1", "Breaking Bad");
    bad_episode.season_list[0].episode_list[0].duration = "an hour".to_string();
    assert!(bad_episode.validate().is_err());
}
