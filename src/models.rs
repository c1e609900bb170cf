pub mod movie;
pub mod review;
pub mod series;
pub mod validation;
