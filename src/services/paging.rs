use vstd::prelude::*;

verus! {

/// The page asked for, as given: absent means 0. Pages are numbered from 1;
/// 0 also names the first page.
pub open spec fn page_number(page: Option<u32>) -> nat {
    match page {
        Some(p) => p as nat,
        None => 0,
    }
}

/// The zero-based index of the page asked for.
pub open spec fn page_index(page: Option<u32>) -> nat {
    if page_number(page) > 0 {
        (page_number(page) - 1) as nat
    } else {
        0
    }
}

/// The page size asked for: absent or 0 means 10.
pub open spec fn page_size(size: Option<u32>) -> nat {
    match size {
        Some(s) => if s > 0 {
            s as nat
        } else {
            10
        },
        None => 10,
    }
}

/// The number of pages of `size` items that `total` items fill.
pub open spec fn total_pages(total: nat, size: nat) -> nat
    recommends
        size > 0,
{
    if total % size == 0 {
        total / size
    } else {
        total / size + 1
    }
}

/// `x`, or `n` where `x` lies beyond it.
pub open spec fn clamp(x: nat, n: nat) -> nat {
    if x < n {
        x
    } else {
        n
    }
}

/// The items of `s` on page `page` of pages of `size` items.
pub open spec fn window<A>(s: Seq<A>, page: nat, size: nat) -> Seq<A> {
    s.subrange(clamp(page * size, s.len()) as int, clamp(page * size + size, s.len()) as int)
}

/// Appending an item to a sequence adds it to a window exactly where its
/// position falls inside that window.
pub proof fn lemma_window_push<A>(s: Seq<A>, x: A, page: nat, size: nat)
    ensures
        page * size <= s.len() < page * size + size ==> window(s.push(x), page, size) == window(
            s,
            page,
            size,
        ).push(x),
        !(page * size <= s.len() < page * size + size) ==> window(s.push(x), page, size) == window(
            s,
            page,
            size,
        ),
{
    if page * size <= s.len() < page * size + size {
        assert(window(s.push(x), page, size) =~= window(s, page, size).push(x));
    } else {
        assert(window(s.push(x), page, size) =~= window(s, page, size));
    }
}

/// The page number to use for `page`.
pub fn normalize_page(page: Option<u32>) -> (r: u32)
    ensures
        r as nat == page_number(page),
{
    match page {
        Some(p) => if p > 0 {
            p
        } else {
            0
        },
        None => 0,
    }
}

/// The page size to use for `size`.
pub fn normalize_size(size: Option<u32>) -> (r: u32)
    ensures
        r as nat == page_size(size),
        r > 0,
{
    match size {
        Some(s) => if s > 0 {
            s
        } else {
            10
        },
        None => 10,
    }
}

/// The number of pages of `size` items that `total` items fill.
pub fn count_pages(total: u64, size: u32) -> (r: u64)
    requires
        size > 0,
    ensures
        r as nat == total_pages(total as nat, size as nat),
{
    let q = total / (size as u64);
    if total % (size as u64) == 0 {
        q
    } else {
        proof {
            assert(size as u64 >= 2) by {
                if size == 1 {
                    assert(total % 1 == 0) by (nonlinear_arith);
                }
            }
            assert(q <= total / 2) by (nonlinear_arith)
                requires
                    q == total / (size as u64),
                    size as u64 >= 2,
            ;
        }
        q + 1
    }
}

/// The index of the first item of page `page` (numbered from 1, where 0
/// also names the first page), and the index past its last.
pub fn page_bounds(page: u32, size: u32) -> (r: (u64, u64))
    ensures
        ({
            let idx: nat = if page > 0 {
                (page - 1) as nat
            } else {
                0
            };
            &&& r.0 as nat == idx * size as nat
            &&& r.1 as nat == idx * size as nat + size as nat
        }),
{
    let idx: u32 = if page > 0 {
        page - 1
    } else {
        0
    };
    proof {
        assert(idx as nat * size as nat <= 0xffff_ffff * 0xffff_ffff) by (nonlinear_arith)
            requires
                idx as nat <= 0xffff_ffff,
                size as nat <= 0xffff_ffff,
        ;
    }
    let start = (idx as u64) * (size as u64);
    (start, start + size as u64)
}

} // verus!
