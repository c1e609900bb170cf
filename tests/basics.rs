use cinema_catalog::error::AppError;
use cinema_catalog::formats::{contains_part, parse_count, parse_id, title_passes, valid_imdb_id};
use cinema_catalog::services::paging::count_pages;

#[test]
fn status_codes() {
    assert_eq!(AppError::Empty.status_code(), 204);
    assert_eq!(AppError::NotFound.status_code(), 404);
    assert_eq!(AppError::CannotParseObjId.status_code(), 400);
    assert_eq!(AppError::FieldNotAllowed.status_code(), 400);
    assert_eq!(AppError::ValidationAppError("x".to_string()).status_code(), 400);
    assert_eq!(AppError::InternalServerError.status_code(), 500);
}

#[test]
fn errors_compare_by_variant_and_text() {
    assert!(AppError::Empty == AppError::Empty);
    assert!(AppError::Empty != AppError::NotFound);
    assert!(AppError::ValidationAppError("a".to_string()) == AppError::ValidationAppError("a".to_string()));
    assert!(AppError::ValidationAppError("a".to_string()) != AppError::ValidationAppError("b".to_string()));
}

#[test]
fn imdb_id_format() {
    assert!(valid_imdb_id("tt12345"));
    assert!(!valid_imdb_id("tt"));
    assert!(!valid_imdb_id("not-a-valid-id"));
    assert!(!valid_imdb_id("tt12a"));
}

#[test]
fn object_ids_are_stored_in_lower_case() {
    assert_eq!(parse_id("6650F1A2B3C4D5E6F7A8B9C0").unwrap(), "6650f1a2b3c4d5e6f7a8b9c0");
    assert!(parse_id("6650f1a2b3c4d5e6f7a8b9c").is_err_and(|e| e == AppError::CannotParseObjId));
    assert!(parse_id("6650f1a2b3c4d5e6f7a8b9cg").is_err());
}

#[test]
fn title_filter_is_case_insensitive_substring() {
    assert!(title_passes("CASI", "Casino"));
    assert!(title_passes("", "Casino"));
    assert!(!title_passes("casinos", "Casino"));
}

#[test]
fn counts_parse_in_decimal() {
    assert_eq!(parse_count("0"), Some(0));
    assert_eq!(parse_count("4294967295"), Some(4294967295));
    assert_eq!(parse_count("4294967296"), None);
    assert_eq!(parse_count(""), None);
    assert_eq!(parse_count("+1"), None);
}

#[test]
fn page_counts() {
    assert_eq!(count_pages(12, 5), 3);
    assert_eq!(count_pages(10, 5), 2);
    assert_eq!(count_pages(0, 10), 0);
    assert_eq!(count_pages(u64::MAX, 1), u64::MAX);
}

#[test]
fn substring_search() {
    assert!(contains_part("Casino", "sin"));
    assert!(contains_part("Casino", ""));
    assert!(contains_part("Casino", "Casino"));
    assert!(!contains_part("Casino", "Casinos"));
    assert!(!contains_part("Casino", "sn"));
    assert!(contains_part("película", "ícu"));
}
