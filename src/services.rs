pub mod consistency;
pub mod db;
pub mod messages;
pub mod movie_repo;
pub mod paging;
pub mod review_repo;
pub mod series_repo;
