//! Splitting extracted text into overlapping fixed-size windows.

use vstd::prelude::*;
use crate::text::{chars_of, string_from_chars};

verus! {

/// Window size, in characters.
pub const CHUNK_SIZE: usize = 1000;

/// Characters shared by two consecutive windows.
pub const CHUNK_OVERLAP: usize = 200;

/// How far the start of one window lies past the start of the previous one.
pub open spec fn chunk_step() -> int {
    if CHUNK_OVERLAP >= CHUNK_SIZE {
        CHUNK_SIZE as int
    } else {
        CHUNK_SIZE - CHUNK_OVERLAP
    }
}

/// Number of windows for a text of `len` characters.
pub open spec fn chunk_count(len: int) -> int {
    if len <= 0 {
        0
    } else if len <= CHUNK_SIZE {
        1
    } else {
        (len - CHUNK_SIZE + chunk_step() - 1) / chunk_step() + 1
    }
}

pub open spec fn chunk_start(k: int) -> int {
    k * chunk_step()
}

pub open spec fn chunk_end(k: int, len: int) -> int {
    if chunk_start(k) + CHUNK_SIZE <= len {
        chunk_start(k) + CHUNK_SIZE
    } else {
        len
    }
}

/// The `k`-th window of `s`.
pub open spec fn chunk_of(s: Seq<char>, k: int) -> Seq<char> {
    s.subrange(chunk_start(k), chunk_end(k, s.len() as int))
}

/// `r` is the window sequence of `s`.
pub open spec fn is_chunking(s: Seq<char>, r: Seq<Seq<char>>) -> bool {
    &&& r.len() == chunk_count(s.len() as int)
    &&& forall|k: int| 0 <= k < r.len() ==> #[trigger] r[k] == chunk_of(s, k)
}

proof fn lemma_count_at_exit(len: int, k: int)
    requires
        k >= 0,
        k == 0 || (k - 1) * 800 + CHUNK_SIZE < len,
        k * 800 + CHUNK_SIZE >= len,
        len > 0,
    ensures
        chunk_count(len) == k + 1,
{
    if len <= CHUNK_SIZE {
        assert(k == 0) by (nonlinear_arith)
            requires
                k >= 0,
                k == 0 || (k - 1) * 800 + CHUNK_SIZE < len,
                len <= CHUNK_SIZE,
        ;
        return;
    }
    let d = len - CHUNK_SIZE;
    assert((d + 799) / 800 == k) by (nonlinear_arith)
        requires
            (k - 1) * 800 < d,
            d <= k * 800,
            k >= 1,
    ;
}

/// Splits `text` into windows of `CHUNK_SIZE` characters, each starting
/// `CHUNK_SIZE - CHUNK_OVERLAP` characters after the previous one; the last
/// window ends at the end of the text.
pub fn split_into_chunks(text: &str) -> (r: Vec<String>)
    ensures
        is_chunking(text@, r@.map_values(|c: String| c@)),
{
    let chars = chars_of(text);
    let len = chars.len();
    let mut results: Vec<String> = Vec::new();
    if len == 0 {
        assert(results@.map_values(|c: String| c@) =~= Seq::<Seq<char>>::empty());
        return results;
    }
    let mut start: usize = 0;
    let ghost mut k: int = 0;
    loop
        invariant
            len == chars@.len(),
            chars@ == text@,
            len > 0,
            start == k * 800,
            start < len,
            k >= 0,
            k == 0 || (k - 1) * 800 + CHUNK_SIZE < len,
            results@.len() == k,
            forall|j: int| 0 <= j < k ==> #[trigger] results@[j]@ == chunk_of(text@, j),
        decreases len - start,
    {
        let end: usize = if len - start > CHUNK_SIZE { start + CHUNK_SIZE } else { len };
        let chunk = string_from_chars(&chars.as_slice()[start..end]);
        assert(chunk@ == chunk_of(text@, k));
        results.push(chunk);
        proof {
            k = k + 1;
        }
        if end == len {
            proof {
                lemma_count_at_exit(len as int, k - 1);
            }
            assert(results@.map_values(|c: String| c@) =~= Seq::new(
                k as nat,
                |j: int| chunk_of(text@, j),
            ));
            return results;
        }
        start = if CHUNK_OVERLAP >= CHUNK_SIZE { end } else { end - CHUNK_OVERLAP };
        assert(start == k * 800) by (nonlinear_arith)
            requires
                start == (k - 1) * 800 + 800,
        ;
    }
}

proof fn lemma_count_bounds(len: int)
    requires
        len > CHUNK_SIZE,
    ensures
        (chunk_count(len) - 1) * chunk_step() >= len - CHUNK_SIZE,
        (chunk_count(len) - 2) * chunk_step() < len - CHUNK_SIZE,
        chunk_count(len) >= 2,
{
    let d = len - CHUNK_SIZE;
    let c = (d + 799) / 800;
    assert(c * 800 >= d && (c - 1) * 800 < d && c >= 1) by (nonlinear_arith)
        requires
            c == (d + 799) / 800,
            d > 0,
    ;
}

/// A non-empty text shorter than the window is kept whole, as a single window.
pub proof fn lemma_short_text_single_chunk(s: Seq<char>, r: Seq<Seq<char>>)
    requires
        is_chunking(s, r),
        0 < s.len() < CHUNK_SIZE,
    ensures
        r.len() == 1,
        r[0] == s,
{
    assert(r[0] =~= s);
}

/// The empty text has no windows.
pub proof fn lemma_empty_text_no_chunks(s: Seq<char>, r: Seq<Seq<char>>)
    requires
        is_chunking(s, r),
        s.len() == 0,
    ensures
        r.len() == 0,
{
}

/// The overlap length that two consecutive windows are held to:
/// `min(CHUNK_OVERLAP, a.len(), b.len())`.
pub open spec fn shared_len(a: Seq<char>, b: Seq<char>) -> int {
    if CHUNK_OVERLAP as int <= a.len() && CHUNK_OVERLAP as int <= b.len() {
        CHUNK_OVERLAP as int
    } else if a.len() <= b.len() {
        a.len() as int
    } else {
        b.len() as int
    }
}

/// `a` ends with the `shared_len(a, b)` characters that `b` starts with.
pub open spec fn windows_overlap(a: Seq<char>, b: Seq<char>) -> bool {
    let o = shared_len(a, b);
    a.subrange(a.len() - o, a.len() as int) == b.subrange(0, o)
}

/// For a text longer than the window, the number of windows is one more than
/// the least `c` with `c * (CHUNK_SIZE - CHUNK_OVERLAP) >= len - CHUNK_SIZE`,
/// that is `ceil((len - CHUNK_SIZE) / (CHUNK_SIZE - CHUNK_OVERLAP)) + 1`; and
/// each window ends with the characters that the next one starts with, over
/// `min(CHUNK_OVERLAP, a.len(), b.len())` characters, which is `CHUNK_OVERLAP`.
pub proof fn lemma_long_text_windows(s: Seq<char>, r: Seq<Seq<char>>)
    requires
        is_chunking(s, r),
        s.len() > CHUNK_SIZE,
    ensures
        r.len() == (s.len() - CHUNK_SIZE + (CHUNK_SIZE - CHUNK_OVERLAP) - 1) / (CHUNK_SIZE
            - CHUNK_OVERLAP) as int + 1,
        (r.len() - 1) * (CHUNK_SIZE - CHUNK_OVERLAP) >= s.len() - CHUNK_SIZE,
        (r.len() - 2) * (CHUNK_SIZE - CHUNK_OVERLAP) < s.len() - CHUNK_SIZE,
        forall|k: int|
            0 <= k < r.len() - 1 ==> shared_len(#[trigger] r[k], r[k + 1]) == CHUNK_OVERLAP
                && windows_overlap(r[k], r[k + 1]),
{
    let len = s.len() as int;
    lemma_count_bounds(len);
    assert forall|k: int| 0 <= k < r.len() - 1 implies shared_len(#[trigger] r[k], r[k + 1])
        == CHUNK_OVERLAP && windows_overlap(r[k], r[k + 1]) by {
        assert(k * 800 + CHUNK_SIZE < len);
        let a = r[k];
        let b = r[k + 1];
        assert(a == s.subrange(k * 800, k * 800 + 1000));
        assert(b == s.subrange((k + 1) * 800, chunk_end(k + 1, len)));
        assert(b.len() > 200);
        assert(a.subrange(800, 1000) =~= b.subrange(0, 200));
    }
}

} // verus!
