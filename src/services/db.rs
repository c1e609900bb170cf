use crate::formats::same_text;
use crate::models::movie::Movie;
use crate::models::review::Review;
use crate::models::series::Series;
use vstd::prelude::*;

verus! {

/// The three collections of the catalog: movies, series and reviews, each a
/// list of independent documents addressed by their `_id`.
pub struct Database {
    pub movies: Vec<Movie>,
    pub series: Vec<Series>,
    pub reviews: Vec<Review>,
}

/// Some movie in `ms` has the external identifier `imdb`.
pub open spec fn imdb_in_movies(ms: Seq<Movie>, imdb: Seq<char>) -> bool {
    exists|i: int| 0 <= i < ms.len() && (#[trigger] ms[i]).imdb_id@ == imdb
}

/// Some series in `ss` has the external identifier `imdb`.
pub open spec fn imdb_in_series(ss: Seq<Series>, imdb: Seq<char>) -> bool {
    exists|i: int| 0 <= i < ss.len() && (#[trigger] ss[i]).imdb_id@ == imdb
}

/// Some movie in `ms` has the identity `id`.
pub open spec fn id_in_movies(ms: Seq<Movie>, id: Seq<char>) -> bool {
    exists|i: int| 0 <= i < ms.len() && (#[trigger] ms[i])._id@ == id
}

/// Some series in `ss` has the identity `id`.
pub open spec fn id_in_series(ss: Seq<Series>, id: Seq<char>) -> bool {
    exists|i: int| 0 <= i < ss.len() && (#[trigger] ss[i])._id@ == id
}

/// Some review in `rs` has the identity `id`.
pub open spec fn id_in_reviews(rs: Seq<Review>, id: Seq<char>) -> bool {
    exists|i: int| 0 <= i < rs.len() && (#[trigger] rs[i])._id@ == id
}

/// No two movies share an identity or an external identifier.
pub open spec fn movies_distinct(ms: Seq<Movie>) -> bool {
    forall|i: int, j: int|
        0 <= i < ms.len() && 0 <= j < ms.len() && i != j ==> (#[trigger] ms[i])._id@ != (
        #[trigger] ms[j])._id@ && ms[i].imdb_id@ != ms[j].imdb_id@
}

/// No two series share an identity or an external identifier.
pub open spec fn series_distinct(ss: Seq<Series>) -> bool {
    forall|i: int, j: int|
        0 <= i < ss.len() && 0 <= j < ss.len() && i != j ==> (#[trigger] ss[i])._id@ != (
        #[trigger] ss[j])._id@ && ss[i].imdb_id@ != ss[j].imdb_id@
}

/// No two reviews share an identity.
pub open spec fn reviews_distinct(rs: Seq<Review>) -> bool {
    forall|i: int, j: int|
        0 <= i < rs.len() && 0 <= j < rs.len() && i != j ==> (#[trigger] rs[i])._id@ != (
        #[trigger] rs[j])._id@
}

/// No movie shares its external identifier with a series.
pub open spec fn imdb_disjoint(ms: Seq<Movie>, ss: Seq<Series>) -> bool {
    forall|i: int, j: int|
        0 <= i < ms.len() && 0 <= j < ss.len() ==> (#[trigger] ms[i]).imdb_id@ != (
        #[trigger] ss[j]).imdb_id@
}

/// The review-id lists of the movies, in order.
pub open spec fn movie_review_lists(ms: Seq<Movie>) -> Seq<Seq<Seq<char>>> {
    ms.map_values(|m: Movie| m.review_ids.deep_view())
}

/// The review-id lists of the series, in order.
pub open spec fn series_review_lists(ss: Seq<Series>) -> Seq<Seq<Seq<char>>> {
    ss.map_values(|s: Series| s.review_ids.deep_view())
}

/// Every id in the lists `ls` names a stored review.
pub open spec fn refs_stored(ls: Seq<Seq<Seq<char>>>, rs: Seq<Review>) -> bool {
    forall|i: int, id: Seq<char>|
        0 <= i < ls.len() && #[trigger] ls[i].contains(id) ==> id_in_reviews(rs, id)
}

/// No id is in two of the lists `ls`.
pub open spec fn lists_apart(ls: Seq<Seq<Seq<char>>>) -> bool {
    forall|i: int, j: int, id: Seq<char>|
        0 <= i < ls.len() && 0 <= j < ls.len() && i != j && #[trigger] ls[i].contains(id)
            ==> !#[trigger] ls[j].contains(id)
}

/// No id is both in one of the lists `a` and in one of the lists `b`.
pub open spec fn lists_disjoint(a: Seq<Seq<Seq<char>>>, b: Seq<Seq<Seq<char>>>) -> bool {
    forall|i: int, j: int, id: Seq<char>|
        0 <= i < a.len() && 0 <= j < b.len() && #[trigger] a[i].contains(id)
            ==> !#[trigger] b[j].contains(id)
}

/// Taking one list out keeps the lists apart, disjoint from others, and
/// naming stored reviews.
pub proof fn lemma_lists_remove(
    ls: Seq<Seq<Seq<char>>>,
    other: Seq<Seq<Seq<char>>>,
    rs: Seq<Review>,
    i: int,
)
    requires
        0 <= i < ls.len(),
        lists_apart(ls),
        refs_stored(ls, rs),
        lists_disjoint(ls, other),
        lists_disjoint(other, ls),
    ensures
        lists_apart(ls.remove(i)),
        refs_stored(ls.remove(i), rs),
        lists_disjoint(ls.remove(i), other),
        lists_disjoint(other, ls.remove(i)),
{
    let l2 = ls.remove(i);
    assert forall|a: int, b: int, id: Seq<char>|
        0 <= a < l2.len() && 0 <= b < l2.len() && a != b && #[trigger] l2[a].contains(id) implies !#[trigger] l2[b].contains(id) by {
        let a0 = if a < i { a } else { a + 1 };
        let b0 = if b < i { b } else { b + 1 };
        assert(l2[a] == ls[a0] && l2[b] == ls[b0]);
    }
    assert forall|a: int, id: Seq<char>|
        0 <= a < l2.len() && #[trigger] l2[a].contains(id) implies id_in_reviews(rs, id) by {
        let a0 = if a < i { a } else { a + 1 };
        assert(l2[a] == ls[a0]);
    }
    assert forall|a: int, b: int, id: Seq<char>|
        0 <= a < l2.len() && 0 <= b < other.len() && #[trigger] l2[a].contains(id) implies !#[trigger] other[b].contains(id) by {
        let a0 = if a < i { a } else { a + 1 };
        assert(l2[a] == ls[a0]);
    }
    assert forall|b: int, a: int, id: Seq<char>|
        0 <= b < other.len() && 0 <= a < l2.len() && #[trigger] other[b].contains(id) implies !#[trigger] l2[a].contains(id) by {
        let a0 = if a < i { a } else { a + 1 };
        assert(l2[a] == ls[a0]);
    }
}

/// Adding an empty list keeps the lists apart, disjoint from others, and
/// naming stored reviews.
pub proof fn lemma_lists_push_empty(
    ls: Seq<Seq<Seq<char>>>,
    other: Seq<Seq<Seq<char>>>,
    rs: Seq<Review>,
)
    requires
        lists_apart(ls),
        refs_stored(ls, rs),
        lists_disjoint(ls, other),
        lists_disjoint(other, ls),
    ensures
        lists_apart(ls.push(Seq::empty())),
        refs_stored(ls.push(Seq::empty()), rs),
        lists_disjoint(ls.push(Seq::empty()), other),
        lists_disjoint(other, ls.push(Seq::empty())),
{
    let l2 = ls.push(Seq::<Seq<char>>::empty());
    assert forall|a: int, id: Seq<char>| 0 <= a < l2.len() && a == ls.len() implies !(
    #[trigger] l2[a].contains(id)) by {
        assert(l2[a] == Seq::<Seq<char>>::empty());
    }
    assert forall|a: int| 0 <= a < ls.len() implies #[trigger] l2[a] == ls[a] by {}
}

impl Database {
    /// The external identifier `imdb` is held by a movie or by a series.
    pub open spec fn imdb_taken(&self, imdb: Seq<char>) -> bool {
        imdb_in_movies(self.movies@, imdb) || imdb_in_series(self.series@, imdb)
    }

    /// The catalog's invariants: identities are unique in each collection,
    /// external identifiers are unique across movies and series together,
    /// every review id that a document lists names a stored review, and no
    /// review id is listed by two documents.
    pub open spec fn wf(&self) -> bool {
        &&& movies_distinct(self.movies@)
        &&& series_distinct(self.series@)
        &&& reviews_distinct(self.reviews@)
        &&& imdb_disjoint(self.movies@, self.series@)
        &&& refs_stored(movie_review_lists(self.movies@), self.reviews@)
        &&& refs_stored(series_review_lists(self.series@), self.reviews@)
        &&& lists_apart(movie_review_lists(self.movies@))
        &&& lists_apart(series_review_lists(self.series@))
        &&& lists_disjoint(movie_review_lists(self.movies@), series_review_lists(self.series@))
        &&& lists_disjoint(series_review_lists(self.series@), movie_review_lists(self.movies@))
    }

    /// An empty catalog.
    pub fn new() -> (r: Database)
        ensures
            r.wf(),
            r.movies@.len() == 0,
            r.series@.len() == 0,
            r.reviews@.len() == 0,
    {
        Database { movies: Vec::new(), series: Vec::new(), reviews: Vec::new() }
    }

    /// The position of the movie with identity `id`.
    pub(crate) fn movie_index_by_id(&self, id: &str) -> (r: Option<usize>)
        ensures
            r matches Some(i) ==> i < self.movies@.len() && self.movies@[i as int]._id@ == id@,
            r is None ==> !id_in_movies(self.movies@, id@),
    {
        let mut i: usize = 0;
        while i < self.movies.len()
            invariant
                i <= self.movies@.len(),
                forall|k: int| 0 <= k < i ==> (#[trigger] self.movies@[k])._id@ != id@,
            decreases self.movies@.len() - i,
        {
            if same_text(self.movies[i]._id.as_str(), id) {
                return Some(i);
            }
            i += 1;
        }
        None
    }

    /// The position of the movie with external identifier `imdb`.
    pub(crate) fn movie_index_by_imdb(&self, imdb: &str) -> (r: Option<usize>)
        ensures
            r matches Some(i) ==> i < self.movies@.len() && self.movies@[i as int].imdb_id@
                == imdb@,
            r is None ==> !imdb_in_movies(self.movies@, imdb@),
    {
        let mut i: usize = 0;
        while i < self.movies.len()
            invariant
                i <= self.movies@.len(),
                forall|k: int| 0 <= k < i ==> (#[trigger] self.movies@[k]).imdb_id@ != imdb@,
            decreases self.movies@.len() - i,
        {
            if same_text(self.movies[i].imdb_id.as_str(), imdb) {
                return Some(i);
            }
            i += 1;
        }
        None
    }

    /// The position of the series with identity `id`.
    pub(crate) fn series_index_by_id(&self, id: &str) -> (r: Option<usize>)
        ensures
            r matches Some(i) ==> i < self.series@.len() && self.series@[i as int]._id@ == id@,
            r is None ==> !id_in_series(self.series@, id@),
    {
        let mut i: usize = 0;
        while i < self.series.len()
            invariant
                i <= self.series@.len(),
                forall|k: int| 0 <= k < i ==> (#[trigger] self.series@[k])._id@ != id@,
            decreases self.series@.len() - i,
        {
            if same_text(self.series[i]._id.as_str(), id) {
                return Some(i);
            }
            i += 1;
        }
        None
    }

    /// The position of the series with external identifier `imdb`.
    pub(crate) fn series_index_by_imdb(&self, imdb: &str) -> (r: Option<usize>)
        ensures
            r matches Some(i) ==> i < self.series@.len() && self.series@[i as int].imdb_id@
                == imdb@,
            r is None ==> !imdb_in_series(self.series@, imdb@),
    {
        let mut i: usize = 0;
        while i < self.series.len()
            invariant
                i <= self.series@.len(),
                forall|k: int| 0 <= k < i ==> (#[trigger] self.series@[k]).imdb_id@ != imdb@,
            decreases self.series@.len() - i,
        {
            if same_text(self.series[i].imdb_id.as_str(), imdb) {
                return Some(i);
            }
            i += 1;
        }
        None
    }

    /// The position of the review with identity `id`.
    pub(crate) fn review_index_by_id(&self, id: &str) -> (r: Option<usize>)
        ensures
            r matches Some(i) ==> i < self.reviews@.len() && self.reviews@[i as int]._id@ == id@,
            r is None ==> !id_in_reviews(self.reviews@, id@),
    {
        let mut i: usize = 0;
        while i < self.reviews.len()
            invariant
                i <= self.reviews@.len(),
                forall|k: int| 0 <= k < i ==> (#[trigger] self.reviews@[k])._id@ != id@,
            decreases self.reviews@.len() - i,
        {
            if same_text(self.reviews[i]._id.as_str(), id) {
                return Some(i);
            }
            i += 1;
        }
        None
    }
}

/// Whether a list of texts is exactly `[v]`.
pub fn is_single_text(list: &Vec<String>, v: &str) -> (r: bool)
    ensures
        r == (list.deep_view() == seq![v@]),
{
    if list.len() != 1 {
        assert(list.deep_view().len() != 1);
        return false;
    }
    let r = same_text(list[0].as_str(), v);
    if r {
        assert(list.deep_view() =~= seq![v@]);
    } else {
        assert(list.deep_view()[0] != seq![v@][0]);
    }
    r
}

/// The list `[v]`.
pub fn single_text(v: &str) -> (r: Vec<String>)
    ensures
        r.deep_view() == seq![v@],
{
    let mut r: Vec<String> = Vec::new();
    r.push(v.to_owned());
    assert(r.deep_view() =~= seq![v@]);
    r
}

/// Whether two lists of texts are equal, item by item.
pub fn same_texts(a: &Vec<String>, b: &Vec<String>) -> (r: bool)
    ensures
        r == (a.deep_view() == b.deep_view()),
{
    if a.len() != b.len() {
        assert(a.deep_view().len() != b.deep_view().len());
        return false;
    }
    let mut i: usize = 0;
    while i < a.len()
        invariant
            a@.len() == b@.len(),
            i <= a@.len(),
            forall|k: int| 0 <= k < i ==> (#[trigger] a@[k])@ == b@[k]@,
        decreases a@.len() - i,
    {
        if !same_text(a[i].as_str(), b[i].as_str()) {
            assert(a.deep_view()[i as int] != b.deep_view()[i as int]);
            return false;
        }
        i += 1;
    }
    assert(a.deep_view() =~= b.deep_view());
    true
}

/// `s` without any occurrence of `v`, in order.
pub open spec fn drop_all(s: Seq<Seq<char>>, v: Seq<char>) -> Seq<Seq<char>>
    decreases s.len(),
{
    if s.len() == 0 {
        s
    } else {
        let rest = drop_all(s.drop_last(), v);
        if s.last() == v {
            rest
        } else {
            rest.push(s.last())
        }
    }
}

/// What `drop_all` keeps: the other items.
pub proof fn lemma_drop_all_contains(s: Seq<Seq<char>>, v: Seq<char>, x: Seq<char>)
    ensures
        drop_all(s, v).contains(x) == (s.contains(x) && x != v),
    decreases s.len(),
{
    if s.len() > 0 {
        lemma_drop_all_contains(s.drop_last(), v, x);
        let d = s.drop_last();
        let rest = drop_all(d, v);
        assert(s =~= d.push(s.last()));
        vstd::seq_lib::lemma_seq_contains_after_push(d, s.last(), x);
        vstd::seq_lib::lemma_seq_contains_after_push(rest, s.last(), x);
    }
}

/// Dropping an id from one list keeps the lists apart, disjoint from
/// others, and naming stored reviews; the list no longer holds the id.
pub proof fn lemma_lists_drop(
    ls: Seq<Seq<Seq<char>>>,
    other: Seq<Seq<Seq<char>>>,
    rs: Seq<Review>,
    i: int,
    key: Seq<char>,
)
    requires
        0 <= i < ls.len(),
        lists_apart(ls),
        refs_stored(ls, rs),
        lists_disjoint(ls, other),
        lists_disjoint(other, ls),
    ensures
        ({
            let l2 = ls.update(i, drop_all(ls[i], key));
            &&& lists_apart(l2)
            &&& refs_stored(l2, rs)
            &&& lists_disjoint(l2, other)
            &&& lists_disjoint(other, l2)
            &&& !l2[i].contains(key)
        }),
{
    let l2 = ls.update(i, drop_all(ls[i], key));
    assert forall|a: int, id: Seq<char>| 0 <= a < l2.len() && #[trigger] l2[a].contains(id) implies ls[a].contains(id) by {
        if a == i {
            lemma_drop_all_contains(ls[i], key, id);
        }
    }
    lemma_drop_all_contains(ls[i], key, key);
    assert forall|a: int, b: int, id: Seq<char>|
        0 <= a < l2.len() && 0 <= b < l2.len() && a != b && #[trigger] l2[a].contains(id) implies !#[trigger] l2[b].contains(id) by {
        assert(ls[a].contains(id));
        if l2[b].contains(id) {
            assert(ls[b].contains(id));
        }
    }
    assert forall|a: int, id: Seq<char>| 0 <= a < l2.len() && #[trigger] l2[a].contains(id) implies id_in_reviews(rs, id) by {
        assert(ls[a].contains(id));
    }
    assert forall|a: int, b: int, id: Seq<char>|
        0 <= a < l2.len() && 0 <= b < other.len() && #[trigger] l2[a].contains(id) implies !#[trigger] other[b].contains(id) by {
        assert(ls[a].contains(id));
    }
    assert forall|b: int, a: int, id: Seq<char>|
        0 <= b < other.len() && 0 <= a < l2.len() && #[trigger] other[b].contains(id) implies !#[trigger] l2[a].contains(id) by {
        if l2[a].contains(id) {
            assert(ls[a].contains(id));
        }
    }
}

/// Removing a review that no list holds keeps every list naming stored reviews.
pub proof fn lemma_refs_remove_review(ls: Seq<Seq<Seq<char>>>, rs: Seq<Review>, p: int)
    requires
        0 <= p < rs.len(),
        reviews_distinct(rs),
        refs_stored(ls, rs),
        forall|i: int| 0 <= i < ls.len() ==> !(#[trigger] ls[i]).contains(rs[p]._id@),
    ensures
        refs_stored(ls, rs.remove(p)),
        reviews_distinct(rs.remove(p)),
{
    let r2 = rs.remove(p);
    assert forall|i: int, id: Seq<char>| 0 <= i < ls.len() && #[trigger] ls[i].contains(id) implies id_in_reviews(r2, id) by {
        let q = choose|q: int| 0 <= q < rs.len() && (#[trigger] rs[q])._id@ == id;
        assert(q != p);
        let q2 = if q < p { q } else { q - 1 };
        assert(r2[q2] == rs[q]);
    }
    assert forall|a: int, b: int|
        0 <= a < r2.len() && 0 <= b < r2.len() && a != b implies (#[trigger] r2[a])._id@ != (
        #[trigger] r2[b])._id@ by {
        let a0 = if a < p { a } else { a + 1 };
        let b0 = if b < p { b } else { b + 1 };
        assert(r2[a] == rs[a0] && r2[b] == rs[b0]);
    }
}

/// Whether `v` is in the list.
pub fn text_in(list: &Vec<String>, v: &str) -> (r: bool)
    ensures
        r == list.deep_view().contains(v@),
{
    let mut i: usize = 0;
    while i < list.len()
        invariant
            i <= list@.len(),
            forall|k: int| 0 <= k < i ==> (#[trigger] list@[k])@ != v@,
        decreases list@.len() - i,
    {
        if same_text(list[i].as_str(), v) {
            assert(list.deep_view()[i as int] == v@);
            return true;
        }
        i += 1;
    }
    proof {
        if list.deep_view().contains(v@) {
            let k = choose|k: int| 0 <= k < list.deep_view().len() && list.deep_view()[k] == v@;
            assert(list@[k]@ == v@);
        }
    }
    false
}

/// The list without any occurrence of `v`.
pub fn without_text(list: &Vec<String>, v: &str) -> (r: Vec<String>)
    ensures
        r.deep_view() == drop_all(list.deep_view(), v@),
{
    let mut out: Vec<String> = Vec::new();
    let mut i: usize = 0;
    while i < list.len()
        invariant
            i <= list@.len(),
            out.deep_view() == drop_all(list.deep_view().take(i as int), v@),
        decreases list@.len() - i,
    {
        assert(list.deep_view().take(i + 1).drop_last() =~= list.deep_view().take(i as int));
        assert(list.deep_view().take(i + 1).last() == list@[i as int]@);
        if !same_text(list[i].as_str(), v) {
            let ghost before = out.deep_view();
            out.push(list[i].clone());
            assert(out.deep_view() =~= before.push(list@[i as int]@));
        }
        i += 1;
    }
    assert(list.deep_view().take(list@.len() as int) =~= list.deep_view());
    out
}

/// Some list of `ls` holds `id`.
pub open spec fn listed_in(ls: Seq<Seq<Seq<char>>>, id: Seq<char>) -> bool {
    exists|i: int| 0 <= i < ls.len() && #[trigger] ls[i].contains(id)
}

/// The position of a list of `ls` that holds `id`.
pub open spec fn listing_pos(ls: Seq<Seq<Seq<char>>>, id: Seq<char>) -> int {
    choose|i: int| 0 <= i < ls.len() && #[trigger] ls[i].contains(id)
}

/// Storing a review with an unused identity keeps every list naming stored reviews.
pub proof fn lemma_refs_push_review(ls: Seq<Seq<Seq<char>>>, rs: Seq<Review>, x: Review)
    requires
        refs_stored(ls, rs),
        reviews_distinct(rs),
        !id_in_reviews(rs, x._id@),
    ensures
        refs_stored(ls, rs.push(x)),
        reviews_distinct(rs.push(x)),
{
    let r2 = rs.push(x);
    assert forall|i: int, id: Seq<char>| 0 <= i < ls.len() && #[trigger] ls[i].contains(id) implies id_in_reviews(r2, id) by {
        let q = choose|q: int| 0 <= q < rs.len() && (#[trigger] rs[q])._id@ == id;
        assert(r2[q] == rs[q]);
    }
    assert forall|a: int, b: int|
        0 <= a < r2.len() && 0 <= b < r2.len() && a != b implies (#[trigger] r2[a])._id@ != (
        #[trigger] r2[b])._id@ by {
        if a < rs.len() && b < rs.len() {
            assert(r2[a] == rs[a] && r2[b] == rs[b]);
        } else if a < rs.len() {
            assert(r2[a] == rs[a]);
        } else if b < rs.len() {
            assert(r2[b] == rs[b]);
        }
    }
}

/// Listing a newly stored review under one document keeps the lists apart,
/// disjoint from others, and naming stored reviews.
pub proof fn lemma_lists_add(
    ls: Seq<Seq<Seq<char>>>,
    other: Seq<Seq<Seq<char>>>,
    rs: Seq<Review>,
    p: int,
    x: Review,
)
    requires
        0 <= p < ls.len(),
        lists_apart(ls),
        refs_stored(ls, rs),
        refs_stored(other, rs),
        lists_disjoint(ls, other),
        lists_disjoint(other, ls),
        !id_in_reviews(rs, x._id@),
    ensures
        ({
            let l2 = ls.update(p, ls[p].push(x._id@));
            &&& lists_apart(l2)
            &&& refs_stored(l2, rs.push(x))
            &&& lists_disjoint(l2, other)
            &&& lists_disjoint(other, l2)
        }),
{
    let l2 = ls.update(p, ls[p].push(x._id@));
    let r2 = rs.push(x);
    let nid = x._id@;
    assert(r2[rs.len() as int] == x);
    assert forall|a: int, id: Seq<char>| 0 <= a < l2.len() && #[trigger] l2[a].contains(id) implies (
    ls[a].contains(id) || (a == p && id == nid)) by {
        if a == p {
            vstd::seq_lib::lemma_seq_contains_after_push(ls[p], nid, id);
        }
    }
    assert forall|a: int| 0 <= a < ls.len() implies !(#[trigger] ls[a]).contains(nid) by {}
    assert forall|a: int| 0 <= a < other.len() implies !(#[trigger] other[a]).contains(nid) by {}
    assert forall|a: int, b: int, id: Seq<char>|
        0 <= a < l2.len() && 0 <= b < l2.len() && a != b && #[trigger] l2[a].contains(id) implies !#[trigger] l2[b].contains(id) by {
        assert(ls[a].contains(id) || (a == p && id == nid));
        if l2[b].contains(id) {
            assert(ls[b].contains(id) || (b == p && id == nid));
        }
    }
    assert forall|a: int, id: Seq<char>| 0 <= a < l2.len() && #[trigger] l2[a].contains(id) implies id_in_reviews(r2, id) by {
        if ls[a].contains(id) {
            let q = choose|q: int| 0 <= q < rs.len() && (#[trigger] rs[q])._id@ == id;
            assert(r2[q] == rs[q]);
        } else {
            assert(r2[rs.len() as int]._id@ == id);
        }
    }
    assert forall|a: int, b: int, id: Seq<char>|
        0 <= a < l2.len() && 0 <= b < other.len() && #[trigger] l2[a].contains(id) implies !#[trigger] other[b].contains(id) by {
        assert(ls[a].contains(id) || (a == p && id == nid));
    }
    assert forall|b: int, a: int, id: Seq<char>|
        0 <= b < other.len() && 0 <= a < l2.len() && #[trigger] other[b].contains(id) implies !#[trigger] l2[a].contains(id) by {
        if l2[a].contains(id) {
            assert(ls[a].contains(id) || (a == p && id == nid));
        }
    }
}

/// Changing reviews but not their identities keeps every list naming
/// stored reviews.
pub proof fn lemma_reviews_same_ids(ls: Seq<Seq<Seq<char>>>, rs: Seq<Review>, r2: Seq<Review>)
    requires
        refs_stored(ls, rs),
        reviews_distinct(rs),
        r2.len() == rs.len(),
        forall|k: int| 0 <= k < rs.len() ==> (#[trigger] r2[k])._id == rs[k]._id,
    ensures
        refs_stored(ls, r2),
        reviews_distinct(r2),
{
    assert forall|i: int, id: Seq<char>| 0 <= i < ls.len() && #[trigger] ls[i].contains(id) implies id_in_reviews(r2, id) by {
        let q = choose|q: int| 0 <= q < rs.len() && (#[trigger] rs[q])._id@ == id;
        assert(r2[q]._id == rs[q]._id);
    }
    assert forall|a: int, b: int|
        0 <= a < r2.len() && 0 <= b < r2.len() && a != b implies (#[trigger] r2[a])._id@ != (
        #[trigger] r2[b])._id@ by {
        assert(r2[a]._id == rs[a]._id && r2[b]._id == rs[b]._id);
    }
}

impl Database {
    /// The position of the movie that lists the review `id`.
    pub(crate) fn movie_index_listing(&self, id: &str) -> (r: Option<usize>)
        ensures
            r matches Some(i) ==> i < self.movies@.len() && movie_review_lists(self.movies@)[i as int].contains(id@),
            r is None ==> !listed_in(movie_review_lists(self.movies@), id@),
    {
        let ghost ls = movie_review_lists(self.movies@);
        let mut i: usize = 0;
        while i < self.movies.len()
            invariant
                i <= self.movies@.len(),
                ls == movie_review_lists(self.movies@),
                forall|k: int| 0 <= k < i ==> !(#[trigger] ls[k]).contains(id@),
            decreases self.movies@.len() - i,
        {
            if text_in(&self.movies[i].review_ids, id) {
                return Some(i);
            }
            i += 1;
        }
        None
    }

    /// The position of the series that lists the review `id`.
    pub(crate) fn series_index_listing(&self, id: &str) -> (r: Option<usize>)
        ensures
            r matches Some(i) ==> i < self.series@.len() && series_review_lists(self.series@)[i as int].contains(id@),
            r is None ==> !listed_in(series_review_lists(self.series@), id@),
    {
        let ghost ls = series_review_lists(self.series@);
        let mut i: usize = 0;
        while i < self.series.len()
            invariant
                i <= self.series@.len(),
                ls == series_review_lists(self.series@),
                forall|k: int| 0 <= k < i ==> !(#[trigger] ls[k]).contains(id@),
            decreases self.series@.len() - i,
        {
            if text_in(&self.series[i].review_ids, id) {
                return Some(i);
            }
            i += 1;
        }
        None
    }
}

} // verus!
