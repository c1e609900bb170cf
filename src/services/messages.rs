use vstd::prelude::*;
use vstd::string::StringExecFns;

verus! {

pub open spec fn created_text(kind: Seq<char>, id: Seq<char>) -> Seq<char> {
    kind + " was successfully created. (id: '"@ + id + "')"@
}

pub open spec fn deleted_text(kind: Seq<char>, id: Seq<char>) -> Seq<char> {
    kind + " with id: '"@ + id + "' was successfully deleted"@
}

pub open spec fn updated_text(kind: Seq<char>, id: Seq<char>) -> Seq<char> {
    kind + " with id: '"@ + id + "' was successfully updated"@
}

pub open spec fn patched_text(kind: Seq<char>, field: Seq<char>, id: Seq<char>) -> Seq<char> {
    kind + " "@ + field + " with id: '"@ + id + "' was successfully patched"@
}

/// The answer to a replacement that changed nothing.
pub open spec fn update_noop_text() -> Seq<char> {
    "Fields have the same value, no update was performed"@
}

/// The answer to a patch that changed nothing.
pub open spec fn patch_noop_text() -> Seq<char> {
    "Field has the same value, no patch was performed"@
}

pub fn created_message(kind: &str, id: &str) -> (r: String)
    ensures
        r@ == created_text(kind@, id@),
{
    let r = String::from_str(kind).concat(" was successfully created. (id: '").concat(id).concat(
        "')",
    );
    assert(r@ =~= created_text(kind@, id@));
    r
}

pub fn deleted_message(kind: &str, id: &str) -> (r: String)
    ensures
        r@ == deleted_text(kind@, id@),
{
    let r = String::from_str(kind).concat(" with id: '").concat(id).concat(
        "' was successfully deleted",
    );
    assert(r@ =~= deleted_text(kind@, id@));
    r
}

/// The answer to a replacement: what changed, or that nothing did.
pub fn updated_message(kind: &str, id: &str, modified: bool) -> (r: String)
    ensures
        modified ==> r@ == updated_text(kind@, id@),
        !modified ==> r@ == update_noop_text(),
{
    if modified {
        let r = String::from_str(kind).concat(" with id: '").concat(id).concat(
            "' was successfully updated",
        );
        assert(r@ =~= updated_text(kind@, id@));
        r
    } else {
        String::from_str("Fields have the same value, no update was performed")
    }
}

/// The answer to a patch: what changed, or that nothing did.
pub fn patched_message(kind: &str, field: &str, id: &str, modified: bool) -> (r: String)
    ensures
        modified ==> r@ == patched_text(kind@, field@, id@),
        !modified ==> r@ == patch_noop_text(),
{
    if modified {
        let r = String::from_str(kind).concat(" ").concat(field).concat(" with id: '").concat(
            id,
        ).concat("' was successfully patched");
        assert(r@ =~= patched_text(kind@, field@, id@));
        r
    } else {
        String::from_str("Field has the same value, no patch was performed")
    }
}

} // verus!
