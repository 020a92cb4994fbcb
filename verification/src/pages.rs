//! Splitting the index page template around its content marker.
//!
//! The page template contains the marker `<content />` exactly where the
//! generated body belongs; the part before the first marker is the head,
//! the part after it the tail. The template's bytes come from the caller
//! (it is a file of the surrounding application); the split itself is pure
//! byte logic and lives here.

use vstd::prelude::*;

verus! {

/// The marker `<content />`, as its eleven ASCII byte values.
pub open spec fn content_marker() -> Seq<u8> {
    seq![60u8, 99u8, 111u8, 110u8, 116u8, 101u8, 110u8, 116u8, 32u8, 47u8, 62u8]
}

/// The marker occurs in `s` at position `i`.
pub open spec fn is_marker_at(s: Seq<u8>, i: int) -> bool {
    &&& 0 <= i
    &&& i + content_marker().len() <= s.len()
    &&& s.subrange(i, i + content_marker().len()) == content_marker()
}

/// No position strictly before `n` carries the marker.
pub open spec fn no_marker_before(s: Seq<u8>, n: int) -> bool {
    forall|j: int| 0 <= j < n ==> !is_marker_at(s, j)
}

/// The marker occurs somewhere in `s`.
pub open spec fn has_marker(s: Seq<u8>) -> bool {
    exists|i: int| is_marker_at(s, i)
}

/// The marker `<content />` as a byte vector.
fn content_marker_bytes() -> (r: Vec<u8>)
    ensures
        r@ == content_marker(),
{
    let mut v: Vec<u8> = Vec::new();
    v.push(60);  // '<'
    v.push(99);  // 'c'
    v.push(111);  // 'o'
    v.push(110);  // 'n'
    v.push(116);  // 't'
    v.push(101);  // 'e'
    v.push(110);  // 'n'
    v.push(116);  // 't'
    v.push(32);  // ' '
    v.push(47);  // '/'
    v.push(62);  // '>'
    proof {
        assert(v@ =~= content_marker());
    }
    v
}

/// Whether `marker` occurs in `html` at position `i`.
fn marker_matches_at(html: &Vec<u8>, marker: &Vec<u8>, i: usize) -> (r: bool)
    requires
        i + marker@.len() <= html@.len(),
    ensures
        r == (html@.subrange(i as int, i + marker@.len()) == marker@),
{
    let hlen = html.len();
    let mut k: usize = 0;
    while k < marker.len()
        invariant
            hlen == html@.len(),
            i + marker@.len() <= html@.len(),
            k <= marker@.len(),
            forall|m: int| 0 <= m < k ==> html@[i + m] == marker@[m],
        decreases marker@.len() - k,
    {
        if html[i + k] != marker[k] {
            proof {
                assert(html@.subrange(i as int, i + marker@.len())[k as int] != marker@[k as int]);
            }
            return false;
        }
        k = k + 1;
    }
    proof {
        assert(html@.subrange(i as int, i + marker@.len()) =~= marker@);
    }
    true
}

/// The position of the first occurrence of the content marker, if any.
pub fn find_content_marker(html: &Vec<u8>) -> (r: Option<usize>)
    ensures
        match r {
            Some(i) => is_marker_at(html@, i as int) && no_marker_before(html@, i as int),
            None => !has_marker(html@),
        },
{
    let marker = content_marker_bytes();
    if html.len() < marker.len() {
        return None;
    }
    let mut i: usize = 0;
    while i <= html.len() - marker.len()
        invariant
            marker@ == content_marker(),
            marker@.len() <= html@.len(),
            i <= html@.len() - marker@.len() + 1,
            no_marker_before(html@, i as int),
        decreases html@.len() - i,
    {
        if marker_matches_at(html, &marker, i) {
            return Some(i);
        }
        i = i + 1;
    }
    None
}

/// The head of the page: everything before the first content marker.
pub fn get_index_html_head(html: &Vec<u8>) -> (r: Vec<u8>)
    requires
        has_marker(html@),
    ensures
        r@ == html@.subrange(0, r@.len() as int),
        is_marker_at(html@, r@.len() as int),
        no_marker_before(html@, r@.len() as int),
{
    let pos = match find_content_marker(html) {
        Some(p) => p,
        None => {
            return vstd::pervasive::unreached();
        },
    };
    let mut out: Vec<u8> = Vec::new();
    let mut k: usize = 0;
    while k < pos
        invariant
            k <= pos,
            pos + content_marker().len() <= html@.len(),
            out@ == html@.subrange(0, k as int),
        decreases pos - k,
    {
        out.push(html[k]);
        proof {
            assert(out@ =~= html@.subrange(0, k + 1));
        }
        k = k + 1;
    }
    out
}

/// The tail of the page: everything after the first content marker.
pub fn get_index_html_tail(html: &Vec<u8>) -> (r: Vec<u8>)
    requires
        has_marker(html@),
    ensures
        r@.len() + content_marker().len() <= html@.len(),
        r@ == html@.subrange(html@.len() - r@.len(), html@.len() as int),
        is_marker_at(html@, html@.len() - r@.len() - content_marker().len()),
        no_marker_before(html@, html@.len() - r@.len() - content_marker().len()),
    {
    let pos = match find_content_marker(html) {
        Some(p) => p,
        None => {
            return vstd::pervasive::unreached();
        },
    };
    proof {
        assert(content_marker().len() == 11);
    }
    let hlen = html.len();
    let start = pos + 11;
    let mut out: Vec<u8> = Vec::new();
    let mut k: usize = start;
    while k < hlen
        invariant
            hlen == html@.len(),
            start <= k <= html@.len(),
            start == pos + 11,
            pos + content_marker().len() <= html@.len(),
            out@ == html@.subrange(start as int, k as int),
        decreases html@.len() - k,
    {
        out.push(html[k]);
        proof {
            assert(out@ =~= html@.subrange(start as int, k + 1));
        }
        k = k + 1;
    }
    proof {
        assert(out@.len() == html@.len() - start);
    }
    out
}

} // verus!
