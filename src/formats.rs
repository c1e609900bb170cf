use vstd::prelude::*;

verus! {

/// What the regex crate says of `text` under `pattern`: `None` where the
/// pattern does not compile, else whether it matches somewhere in the text.
pub uninterp spec fn regex_verdict(pattern: Seq<char>, text: Seq<char>) -> Option<bool>;

/// What `str::to_lowercase` makes of a text.
pub uninterp spec fn lower_of(s: Seq<char>) -> Seq<char>;

/// Relies on regex::Regex::new, to compile the pattern, and Regex::is_match.
#[verifier::external_body]
fn regex_is_match(pattern: &str, text: &str) -> (r: Option<bool>)
    ensures
        r == regex_verdict(pattern@, text@),
{
    match regex::Regex::new(pattern) {
        Ok(re) => Some(re.is_match(text)),
        Err(_) => None,
    }
}

/// Relies on str::to_lowercase: the result depends on the characters alone.
#[verifier::external_body]
fn lowercase(s: &str) -> (r: String)
    ensures
        r@ == lower_of(s@),
{
    s.to_lowercase()
}

/// Relies on bson's ObjectId::parse_str (`hex::decode`, then exactly twelve
/// bytes) and ObjectId::to_hex (`hex::encode`, in lower case).
#[verifier::external_body]
fn parse_object_id(s: &str) -> (r: Option<String>)
    ensures
        r.is_some() == is_object_id_text(s@),
        r matches Some(t) ==> t@ == canonical_object_id(s@),
{
    match mongodb::bson::oid::ObjectId::parse_str(s) {
        Ok(oid) => Some(oid.to_hex()),
        Err(_) => None,
    }
}

/// Relies on bson's ObjectId::new, written out by ObjectId::to_hex: a fresh
/// id from the clock, the process and a counter, as 24 lower-case hex digits.
#[verifier::external_body]
pub(crate) fn new_object_id() -> (r: String)
    ensures
        is_object_id_text(r@),
        canonical_object_id(r@) == r@,
{
    mongodb::bson::oid::ObjectId::new().to_hex()
}

/// Relies on bson's DateTime::now and DateTime::timestamp_millis: the current
/// time in milliseconds since the epoch.
#[verifier::external_body]
pub(crate) fn now_millis() -> (r: i64) {
    mongodb::bson::DateTime::now().timestamp_millis()
}

/// `needle` occurs as a contiguous part of `text`.
pub open spec fn has_part(text: Seq<char>, needle: Seq<char>) -> bool {
    exists|i: int|
        0 <= i && i + needle.len() <= text.len() && #[trigger] text.subrange(i, i + needle.len())
            == needle
}

/// The format of external identifiers: `tt` and digits.
pub const RE_IMDB_ID: &'static str = r"^tt\d+$";

/// `s` is a well-formed external identifier.
pub open spec fn is_imdb_id(s: Seq<char>) -> bool {
    regex_verdict(RE_IMDB_ID@, s) == Some(true)
}

pub open spec fn is_hex_digit(c: char) -> bool {
    ('0' <= c && c <= '9') || ('a' <= c && c <= 'f') || ('A' <= c && c <= 'F')
}

/// `s` spells an object id: twelve bytes as 24 hex digits.
pub open spec fn is_object_id_text(s: Seq<char>) -> bool {
    s.len() == 24 && forall|i: int| 0 <= i < s.len() ==> is_hex_digit(#[trigger] s[i])
}

pub open spec fn hex_digit_lower(c: char) -> char {
    if c == 'A' {
        'a'
    } else if c == 'B' {
        'b'
    } else if c == 'C' {
        'c'
    } else if c == 'D' {
        'd'
    } else if c == 'E' {
        'e'
    } else if c == 'F' {
        'f'
    } else {
        c
    }
}

/// The form in which an object id is stored: its hex digits in lower case.
pub open spec fn canonical_object_id(s: Seq<char>) -> Seq<char> {
    Seq::new(s.len(), |i: int| hex_digit_lower(s[i]))
}

/// A title passes a filter where the filter, lower-cased, occurs in the
/// lower-cased title.
pub open spec fn title_matches(filter: Seq<char>, title: Seq<char>) -> bool {
    has_part(lower_of(title), lower_of(filter))
}

/// Whether `s` is a well-formed external identifier (`tt` and digits).
pub fn valid_imdb_id(s: &str) -> (r: bool)
    ensures
        r == is_imdb_id(s@),
{
    match regex_is_match(RE_IMDB_ID, s) {
        Some(b) => b,
        None => false,
    }
}

/// The stored form of an identity token, or `CannotParseObjId`.
pub fn parse_id(s: &str) -> (r: Result<String, crate::error::AppError>)
    ensures
        r.is_ok() == is_object_id_text(s@),
        r matches Ok(t) ==> t@ == canonical_object_id(s@),
        r matches Err(e) ==> e == crate::error::AppError::CannotParseObjId,
{
    match parse_object_id(s) {
        Some(t) => Ok(t),
        None => Err(crate::error::AppError::CannotParseObjId),
    }
}

/// Whether `title` passes the case-insensitive filter `filter`.
pub fn title_passes(filter: &str, title: &str) -> (r: bool)
    ensures
        r == title_matches(filter@, title@),
{
    let t = lowercase(title);
    let f = lowercase(filter);
    contains_part(t.as_str(), f.as_str())
}

/// `s` is a non-empty run of decimal digits.
pub open spec fn is_decimal(s: Seq<char>) -> bool {
    s.len() > 0 && forall|i: int| 0 <= i < s.len() ==> '0' <= #[trigger] s[i] && s[i] <= '9'
}

/// The number that the decimal digits `s` spell.
pub open spec fn decimal_value(s: Seq<char>) -> nat
    decreases s.len(),
{
    if s.len() == 0 {
        0
    } else {
        decimal_value(s.drop_last()) * 10 + ((s.last() as u32) - ('0' as u32)) as nat
    }
}

/// The count that `s` spells in decimal, where it is one that fits a `u32`.
pub fn parse_count(s: &str) -> (r: Option<u32>)
    ensures
        r matches Some(n) ==> is_decimal(s@) && decimal_value(s@) == n as nat,
        r is None ==> !is_decimal(s@) || decimal_value(s@) > u32::MAX as nat,
{
    let len = s.unicode_len();
    if len == 0 {
        return None;
    }
    let mut acc: u32 = 0;
    let mut over = false;
    let mut i: usize = 0;
    while i < len
        invariant
            len == s@.len(),
            i <= len,
            forall|k: int| 0 <= k < i ==> '0' <= #[trigger] s@[k] && s@[k] <= '9',
            !over ==> acc as nat == decimal_value(s@.take(i as int)),
            over ==> decimal_value(s@.take(i as int)) > u32::MAX as nat,
        decreases len - i,
    {
        let c = s.get_char(i);
        if c < '0' || c > '9' {
            return None;
        }
        let d: u32 = (c as u32) - ('0' as u32);
        assert(s@.take(i + 1).drop_last() =~= s@.take(i as int));
        assert(s@.take(i + 1).last() == c);
        if !over {
            if acc > 429496729 || (acc == 429496729 && d > 5) {
                over = true;
            } else {
                acc = acc * 10 + d;
            }
        }
        i += 1;
    }
    assert(s@.take(len as int) =~= s@);
    if over {
        None
    } else {
        Some(acc)
    }
}

/// Whether two texts are equal.
pub fn same_text(a: &str, b: &str) -> (r: bool)
    ensures
        r == (a@ == b@),
{
    let x = a.to_owned();
    let y = b.to_owned();
    x.eq(&y)
}

/// Whether `pattern` compiles and matches somewhere in `text`.
pub fn matches_pattern(pattern: &str, text: &str) -> (r: bool)
    ensures
        r == (regex_verdict(pattern@, text@) == Some(true)),
{
    match regex_is_match(pattern, text) {
        Some(b) => b,
        None => false,
    }
}

/// `Ok`, or the validation error `message` where `ok` fails.
pub fn require(ok: bool, message: &str) -> (r: Result<(), crate::error::AppError>)
    ensures
        r is Ok == ok,
        r matches Err(e) ==> e matches crate::error::AppError::ValidationAppError(_),
{
    if ok {
        Ok(())
    } else {
        Err(crate::error::AppError::ValidationAppError(message.to_owned()))
    }
}

/// Whether `needle` occurs as a contiguous part of `text`.
pub fn contains_part(text: &str, needle: &str) -> (r: bool)
    ensures
        r == has_part(text@, needle@),
{
    let n = text.unicode_len();
    let m = needle.unicode_len();
    if m == 0 {
        assert(text@.subrange(0int, 0int + needle@.len()) =~= needle@);
        return true;
    }
    if m > n {
        return false;
    }
    let mut i: usize = 0;
    while i <= n - m
        invariant
            n == text@.len(),
            m == needle@.len(),
            1 <= m <= n,
            i <= n - m + 1,
            forall|k: int| 0 <= k < i ==> #[trigger] text@.subrange(k, k + m) != needle@,
        decreases n - m + 1 - i,
    {
        let mut j: usize = 0;
        let mut same = true;
        while j < m && same
            invariant
                n == text@.len(),
                m == needle@.len(),
                i + m <= n,
                j <= m,
                same == (forall|q: int| 0 <= q < j ==> text@[i + q] == #[trigger] needle@[q]),
            decreases m - j,
        {
            if text.get_char(i + j) != needle.get_char(j) {
                same = false;
                assert(text@[i + j as int] != needle@[j as int]);
            }
            j += 1;
        }
        if same {
            assert(text@.subrange(i as int, i + m) =~= needle@);
            return true;
        }
        proof {
            let q = choose|q: int| 0 <= q < j && text@[i + q] != #[trigger] needle@[q];
            assert(text@.subrange(i as int, i + m)[q] == text@[i + q]);
        }
        i += 1;
    }
    proof {
        if has_part(text@, needle@) {
            let k = choose|k: int|
                0 <= k && k + needle@.len() <= text@.len() && #[trigger] text@.subrange(
                    k,
                    k + needle@.len(),
                ) == needle@;
            assert(text@.subrange(k, k + m) == needle@);
        }
    }
    false
}

} // verus!
