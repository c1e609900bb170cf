use vstd::prelude::*;

verus! {

/// The query of a paged listing of reviews: the page and its size.
#[derive(Debug, Clone)]
pub struct Params {
    pub page: Option<u32>,
    pub size: Option<u32>,
}

/// The body of a patch: the field to set and its new value, as text.
#[derive(Debug, Clone)]
pub struct PatchParams {
    pub field: String,
    pub value: String,
}

} // verus!
