use vstd::prelude::*;

verus! {

/// The outcomes, other than success, of a catalog operation.
#[derive(Debug)]
pub enum AppError {
    /// The query succeeded but selected nothing.
    Empty,
    /// A lookup of a single entity found nothing.
    NotFound,
    /// The given identity token is not a well-formed object id.
    CannotParseObjId,
    /// The given external identifier is not well formed.
    WrongImdbId,
    /// A create would duplicate an external identifier.
    AlreadyExists,
    /// The target of a mutation, or a referenced owner, is missing.
    NotExists,
    /// A rename would take an external identifier used by another document.
    ImdbIdInUse,
    /// A patch names a field outside the entity's allow-list.
    FieldNotAllowed,
    /// A storage fault or an unexpected state.
    InternalServerError,
    /// A value was rejected by field validation; the text says why.
    ValidationAppError(String),
}

impl PartialEq for AppError {
    fn eq(&self, o: &AppError) -> (r: bool) {
        match (self, o) {
            (AppError::Empty, AppError::Empty) => true,
            (AppError::NotFound, AppError::NotFound) => true,
            (AppError::CannotParseObjId, AppError::CannotParseObjId) => true,
            (AppError::WrongImdbId, AppError::WrongImdbId) => true,
            (AppError::AlreadyExists, AppError::AlreadyExists) => true,
            (AppError::NotExists, AppError::NotExists) => true,
            (AppError::ImdbIdInUse, AppError::ImdbIdInUse) => true,
            (AppError::FieldNotAllowed, AppError::FieldNotAllowed) => true,
            (AppError::InternalServerError, AppError::InternalServerError) => true,
            (AppError::ValidationAppError(a), AppError::ValidationAppError(b)) => a.eq(b),
            _ => false,
        }
    }
}

impl vstd::std_specs::cmp::PartialEqSpecImpl for AppError {
    open spec fn obeys_eq_spec() -> bool {
        true
    }

    open spec fn eq_spec(&self, o: &AppError) -> bool {
        match (self, o) {
            (AppError::ValidationAppError(a), AppError::ValidationAppError(b)) => a@ == b@,
            _ => kind_of(*self) == kind_of(*o),
        }
    }
}

/// The variant of an error, as a number.
pub open spec fn kind_of(e: AppError) -> int {
    match e {
        AppError::Empty => 0,
        AppError::NotFound => 1,
        AppError::CannotParseObjId => 2,
        AppError::WrongImdbId => 3,
        AppError::AlreadyExists => 4,
        AppError::NotExists => 5,
        AppError::ImdbIdInUse => 6,
        AppError::FieldNotAllowed => 7,
        AppError::InternalServerError => 8,
        AppError::ValidationAppError(_) => 9,
    }
}

/// The transport status class of each error: 204, 404, 400 or 500.
pub open spec fn status_of(e: AppError) -> u16 {
    match e {
        AppError::Empty => 204,
        AppError::NotFound => 404,
        AppError::InternalServerError => 500,
        _ => 400,
    }
}

impl AppError {
    /// The status code that the transport layer reports for this error.
    pub fn status_code(&self) -> (r: u16)
        ensures
            r == status_of(*self),
    {
        match self {
            AppError::Empty => 204,
            AppError::NotFound => 404,
            AppError::CannotParseObjId => 400,
            AppError::WrongImdbId => 400,
            AppError::AlreadyExists => 400,
            AppError::NotExists => 400,
            AppError::ImdbIdInUse => 400,
            AppError::FieldNotAllowed => 400,
            AppError::InternalServerError => 500,
            AppError::ValidationAppError(_) => 400,
        }
    }
}

} // verus!
