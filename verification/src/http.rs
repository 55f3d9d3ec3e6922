//! Decoding of the raw request text: routing, the id segment, and the body.
use vstd::prelude::*;
use vstd::string::StrSliceExecFns;

use crate::text::{find_non_ws, find_slash, find_ws, has_prefix, is_prefix};

verus! {

/// The operation a request selects, by literal prefix of its text.
#[derive(Clone, Copy, PartialEq, Eq, Structural, Debug)]
pub enum Route {
    Create,
    ReadOne,
    ReadAll,
    Update,
    Delete,
    Unmatched,
}

/// The route of a request: the first matching prefix wins, in this order.
pub open spec fn route_spec(r: Seq<char>) -> Route {
    if is_prefix("POST /tasks"@, r) {
        Route::Create
    } else if is_prefix("GET /tasks/"@, r) {
        Route::ReadOne
    } else if is_prefix("GET /tasks"@, r) {
        Route::ReadAll
    } else if is_prefix("PUT /tasks/"@, r) {
        Route::Update
    } else if is_prefix("DELETE /tasks/"@, r) {
        Route::Delete
    } else {
        Route::Unmatched
    }
}

/// Selects the operation for a request.
pub fn route(request: &str) -> (r: Route)
    ensures
        r == route_spec(request@),
{
    if has_prefix(request, "POST /tasks") {
        Route::Create
    } else if has_prefix(request, "GET /tasks/") {
        Route::ReadOne
    } else if has_prefix(request, "GET /tasks") {
        Route::ReadAll
    } else if has_prefix(request, "PUT /tasks/") {
        Route::Update
    } else if has_prefix(request, "DELETE /tasks/") {
        Route::Delete
    } else {
        Route::Unmatched
    }
}

/// First maximal run of non-white-space characters in `s`, or empty.
pub open spec fn token_of(s: Seq<char>) -> Seq<char> {
    let a = find_non_ws(s, 0);
    if a >= s.len() {
        Seq::empty()
    } else {
        s.subrange(a, find_ws(s, a))
    }
}

/// The third slash-separated segment of `s` (index 2), or empty when there
/// are fewer than two slashes.
pub open spec fn segment2(s: Seq<char>) -> Seq<char> {
    let p1 = find_slash(s, 0);
    if p1 >= s.len() {
        Seq::empty()
    } else {
        let p2 = find_slash(s, p1 + 1);
        if p2 >= s.len() {
            Seq::empty()
        } else {
            s.subrange(p2 + 1, find_slash(s, p2 + 1))
        }
    }
}

/// The id token of a request: the third slash-separated segment of the text,
/// cut down to its first white-space-separated token.
pub open spec fn get_id_spec(s: Seq<char>) -> Seq<char> {
    token_of(segment2(s))
}

/// Extracts the id token from the request text.
pub fn get_id<'a>(request: &'a str) -> (r: &'a str)
    ensures
        r@ == get_id_spec(request@),
{
    let n = request.unicode_len();
    let mut i: usize = 0;
    while i < n && request.get_char(i) != '/'
        invariant
            0 <= i <= n,
            n == request@.len(),
            find_slash(request@, 0) == find_slash(request@, i as int),
        decreases n - i,
    {
        i += 1;
    }
    if i >= n {
        proof {
            reveal_strlit("");
            assert(get_id_spec(request@) =~= Seq::<char>::empty());
        }
        return "";
    }
    let mut j: usize = i + 1;
    while j < n && request.get_char(j) != '/'
        invariant
            i + 1 <= j <= n,
            n == request@.len(),
            find_slash(request@, i + 1) == find_slash(request@, j as int),
        decreases n - j,
    {
        j += 1;
    }
    if j >= n {
        proof {
            reveal_strlit("");
            assert(get_id_spec(request@) =~= Seq::<char>::empty());
        }
        return "";
    }
    let mut k: usize = j + 1;
    while k < n && request.get_char(k) != '/'
        invariant
            j + 1 <= k <= n,
            n == request@.len(),
            find_slash(request@, j + 1) == find_slash(request@, k as int),
        decreases n - k,
    {
        k += 1;
    }
    let ghost seg = request@.subrange(j + 1, k as int);
    proof {
        assert(seg == segment2(request@));
    }
    let mut a: usize = j + 1;
    while a < k && crate::text::is_whitespace_char(request.get_char(a))
        invariant
            j + 1 <= a <= k <= n,
            n == request@.len(),
            seg == request@.subrange(j + 1, k as int),
            find_non_ws(seg, 0) == find_non_ws(seg, a - (j + 1)),
        decreases k - a,
    {
        proof {
            assert(seg[a - (j + 1)] == request@[a as int]);
        }
        a += 1;
    }
    if a >= k {
        proof {
            assert(find_non_ws(seg, a - (j + 1)) == seg.len());
            reveal_strlit("");
            assert(get_id_spec(request@) =~= Seq::<char>::empty());
        }
        return "";
    }
    proof {
        assert(seg[a - (j + 1)] == request@[a as int]);
        assert(find_non_ws(seg, 0) == a - (j + 1));
    }
    let mut b: usize = a;
    while b < k && !crate::text::is_whitespace_char(request.get_char(b))
        invariant
            j + 1 <= a <= b <= k <= n,
            n == request@.len(),
            seg == request@.subrange(j + 1, k as int),
            find_ws(seg, a - (j + 1)) == find_ws(seg, b - (j + 1)),
        decreases k - b,
    {
        proof {
            assert(seg[b - (j + 1)] == request@[b as int]);
        }
        b += 1;
    }
    proof {
        if b < k {
            assert(seg[b - (j + 1)] == request@[b as int]);
            assert(find_ws(seg, b - (j + 1)) == b - (j + 1));
        } else {
            assert(find_ws(seg, b - (j + 1)) == seg.len());
        }
        assert(get_id_spec(request@) =~= request@.subrange(a as int, b as int));
    }
    request.substring_char(a, b)
}

/// A blank line (double CRLF) begins at index `i` of `s`.
pub open spec fn sep_at(s: Seq<char>, i: int) -> bool {
    i + 4 <= s.len() && s[i] == '\r' && s[i + 1] == '\n' && s[i + 2] == '\r' && s[i + 3] == '\n'
}

/// Index just past the last blank line found by a left-to-right,
/// non-overlapping scan of `s` from `i`; `acc` carries the answer so far.
pub open spec fn last_sep_end(s: Seq<char>, i: int, acc: int) -> int
    recommends
        0 <= i <= s.len(),
    decreases s.len() - i,
    when 0 <= i <= s.len()
{
    if i + 4 > s.len() {
        acc
    } else if sep_at(s, i) {
        last_sep_end(s, i + 4, i + 4)
    } else {
        last_sep_end(s, i + 1, acc)
    }
}

/// The body of a request: everything after the last blank line, as splitting
/// on the double CRLF finds it, or the whole text when there is none.
pub open spec fn body_of(s: Seq<char>) -> Seq<char> {
    s.subrange(last_sep_end(s, 0, 0), s.len() as int)
}

/// Extracts the request body.
pub fn extract_body<'a>(request: &'a str) -> (r: &'a str)
    ensures
        r@ == body_of(request@),
{
    let n = request.unicode_len();
    let mut i: usize = 0;
    let mut start: usize = 0;
    if n >= 4 {
        while i <= n - 4
            invariant
                4 <= n == request@.len(),
                0 <= start <= i <= n,
                last_sep_end(request@, 0, 0) == last_sep_end(request@, i as int, start as int),
            decreases n - i,
        {
            if request.get_char(i) == '\r' && request.get_char(i + 1) == '\n' && request.get_char(
                i + 2,
            ) == '\r' && request.get_char(i + 3) == '\n' {
                start = i + 4;
                i = i + 4;
            } else {
                i = i + 1;
            }
        }
    }
    proof {
        assert(last_sep_end(request@, i as int, start as int) == start);
    }
    request.substring_char(start, n)
}

} // verus!
