//! Vendor file-field decoding.
//!
//! Reference managers pack a local file reference into a single
//! colon-delimited string of the shape `...:<payload>:PDF...`: a type
//! tag, a path, and a type suffix. Decoding extracts the payload of the
//! first such segment: the match starts at the leftmost colon from
//! which a match is possible, and the payload extends to the last
//! `:PDF` tag reachable from there, where the payload is non-empty and
//! may not contain a newline. A string without such a segment fails
//! with [`FileFieldError::PatternMismatch`]; callers treat that as "no
//! file field", never as an entry-level failure.

use vstd::prelude::*;

verus! {

/// Failure of the vendor file-field decoder.
#[derive(Debug, Clone, Copy, PartialEq, Eq)]
pub enum FileFieldError {
    /// The string holds no colon-delimited, PDF-tagged segment.
    PatternMismatch,
}

/// The four characters `:PDF` stand at position `j` of `s`.
pub open spec fn spec_tag_at(s: Seq<char>, j: int) -> bool {
    &&& 0 <= j
    &&& j + 4 <= s.len()
    &&& s[j] == ':'
    &&& s[j + 1] == 'P'
    &&& s[j + 2] == 'D'
    &&& s[j + 3] == 'F'
}

/// No newline stands in `s` at any position of `[lo, hi)`.
pub open spec fn spec_clear(s: Seq<char>, lo: int, hi: int) -> bool {
    forall|k: int| lo <= k < hi ==> s[k] != '\n'
}

/// Positions `i` and `j` delimit a decodable segment: a colon at `i`,
/// the tag `:PDF` at `j`, and a non-empty, newline-free payload between.
pub open spec fn spec_match_pair(s: Seq<char>, i: int, j: int) -> bool {
    &&& 0 <= i < s.len()
    &&& s[i] == ':'
    &&& i + 2 <= j
    &&& spec_tag_at(s, j)
    &&& spec_clear(s, i + 1, j)
}

/// The largest `j'` in `[i + 2, j]` where the tag stands after a
/// newline-free payload, scanning downward from `j`.
pub open spec fn spec_greedy_end(s: Seq<char>, i: int, j: int) -> Option<int>
    decreases j - i,
{
    if j < i + 2 {
        None
    } else if spec_tag_at(s, j) && spec_clear(s, i + 1, j) {
        Some(j)
    } else {
        spec_greedy_end(s, i, j - 1)
    }
}

/// A match can start at `i`: a colon stands there and some tag position
/// completes it.
pub open spec fn spec_start_ok(s: Seq<char>, i: int) -> bool {
    s[i] == ':' && spec_greedy_end(s, i, s.len() - 4) is Some
}

/// The smallest match start at or after `i`.
pub open spec fn spec_first_start(s: Seq<char>, i: int) -> Option<int>
    decreases s.len() - i,
{
    if i >= s.len() {
        None
    } else if spec_start_ok(s, i) {
        Some(i)
    } else {
        spec_first_start(s, i + 1)
    }
}

/// The decoded payload of `s`: the text between the leftmost colon from
/// which a match is possible and the last tag completing that match, or
/// absence when no decodable segment exists.
pub open spec fn spec_decode_file(s: Seq<char>) -> Option<Seq<char>> {
    match spec_first_start(s, 0) {
        Some(i) => match spec_greedy_end(s, i, s.len() - 4) {
            Some(j) => Some(s.subrange(i + 1, j)),
            None => None,
        },
        None => None,
    }
}

/// The pair `(i, j)` is the one the decoder picks: a match, started no
/// later than any other match, ended no earlier than any other end of a
/// match started at `i`.
pub open spec fn spec_decode_witness(s: Seq<char>, i: int, j: int) -> bool {
    &&& spec_match_pair(s, i, j)
    &&& forall|i2: int, j2: int| spec_match_pair(s, i2, j2) ==> i <= i2
    &&& forall|j2: int| spec_match_pair(s, i, j2) ==> j2 <= j
}

proof fn lemma_greedy_end_correct(s: Seq<char>, i: int, hi: int)
    ensures
        match spec_greedy_end(s, i, hi) {
            Some(j) => {
                &&& i + 2 <= j <= hi
                &&& spec_tag_at(s, j)
                &&& spec_clear(s, i + 1, j)
                &&& forall|j2: int|
                    j < j2 <= hi ==> !(spec_tag_at(s, j2) && spec_clear(s, i + 1, j2))
            },
            None => forall|j2: int|
                i + 2 <= j2 <= hi ==> !(spec_tag_at(s, j2) && spec_clear(s, i + 1, j2)),
        },
    decreases hi - i,
{
    if hi < i + 2 {
    } else if spec_tag_at(s, hi) && spec_clear(s, i + 1, hi) {
    } else {
        lemma_greedy_end_correct(s, i, hi - 1);
    }
}

proof fn lemma_first_start_correct(s: Seq<char>, i: int)
    requires
        0 <= i,
    ensures
        match spec_first_start(s, i) {
            Some(i0) => {
                &&& i <= i0 < s.len()
                &&& spec_start_ok(s, i0)
                &&& forall|i2: int| i <= i2 < i0 ==> !spec_start_ok(s, i2)
            },
            None => forall|i2: int| i <= i2 < s.len() ==> !spec_start_ok(s, i2),
        },
    decreases s.len() - i,
{
    if i >= s.len() {
    } else if spec_start_ok(s, i) {
    } else {
        lemma_first_start_correct(s, i + 1);
    }
}

/// A match pair starting at `i` exists exactly when a match can start
/// at `i`.
proof fn lemma_start_ok_iff_pair(s: Seq<char>, i: int)
    requires
        0 <= i < s.len(),
    ensures
        spec_start_ok(s, i) <==> exists|j: int| spec_match_pair(s, i, j),
{
    lemma_greedy_end_correct(s, i, s.len() - 4);
    if spec_start_ok(s, i) {
        let j = spec_greedy_end(s, i, s.len() - 4)->Some_0;
        assert(spec_match_pair(s, i, j));
    }
    if exists|j: int| spec_match_pair(s, i, j) {
        let j = choose|j: int| spec_match_pair(s, i, j);
        assert(j <= s.len() - 4);
        assert(spec_greedy_end(s, i, s.len() - 4) is Some);
    }
}

/// What the decoder returns, characterized against the segment shape
/// alone: a payload comes back exactly when some decodable segment
/// exists, and it is delimited by the leftmost possible start and the
/// last tag completing a match from that start.
pub proof fn lemma_decode_file_pattern(s: Seq<char>)
    ensures
        (spec_decode_file(s) is Some) <==> exists|i: int, j: int| spec_match_pair(s, i, j),
        spec_decode_file(s) matches Some(p) ==> exists|i: int, j: int|
            spec_decode_witness(s, i, j) && p == s.subrange(i + 1, j),
{
    lemma_first_start_correct(s, 0);
    match spec_first_start(s, 0) {
        Some(i0) => {
            lemma_greedy_end_correct(s, i0, s.len() - 4);
            let j0 = spec_greedy_end(s, i0, s.len() - 4)->Some_0;
            assert(spec_match_pair(s, i0, j0));
            assert forall|i2: int, j2: int| spec_match_pair(s, i2, j2) implies i0 <= i2 by {
                lemma_start_ok_iff_pair(s, i2);
            }
            assert forall|j2: int| spec_match_pair(s, i0, j2) implies j2 <= j0 by {
                assert(j2 <= s.len() - 4);
            }
            assert(spec_decode_witness(s, i0, j0));
            assert(spec_decode_file(s) == Some(s.subrange(i0 + 1, j0)));
        },
        None => {
            assert forall|i: int, j: int| !spec_match_pair(s, i, j) by {
                if spec_match_pair(s, i, j) {
                    lemma_start_ok_iff_pair(s, i);
                }
            }
        },
    }
}

/// The decoder picks one segment: any two witnesses agree.
pub proof fn lemma_decode_witness_unique(s: Seq<char>, i1: int, j1: int, i2: int, j2: int)
    requires
        spec_decode_witness(s, i1, j1),
        spec_decode_witness(s, i2, j2),
    ensures
        i1 == i2,
        j1 == j2,
{
}

/// `:PDF` stands at `j` of `f`.
fn tag_at(f: &str, n: usize, j: usize) -> (r: bool)
    requires
        f@.len() == n,
        j + 4 <= n,
    ensures
        r == spec_tag_at(f@, j as int),
{
    f.get_char(j) == ':' && f.get_char(j + 1) == 'P' && f.get_char(j + 2) == 'D' && f.get_char(
        j + 3,
    ) == 'F'
}

/// No newline stands in `f` at any position of `[lo, hi)`.
fn clear_between(f: &str, n: usize, lo: usize, hi: usize) -> (r: bool)
    requires
        f@.len() == n,
        lo <= hi <= n,
    ensures
        r == spec_clear(f@, lo as int, hi as int),
{
    let mut k = lo;
    while k < hi
        invariant
            lo <= k <= hi <= n,
            f@.len() == n,
            forall|t: int| lo <= t < k ==> f@[t] != '\n',
        decreases hi - k,
    {
        if f.get_char(k) == '\n' {
            return false;
        }
        k = k + 1;
    }
    true
}

/// The largest tag position completing a match started at `i`, found by
/// scanning downward from the last position a tag can stand at.
fn greedy_end(f: &str, n: usize, i: usize) -> (r: Option<usize>)
    requires
        f@.len() == n,
        i + 6 <= n,
    ensures
        match r {
            Some(j) => spec_greedy_end(f@, i as int, n - 4) == Some(j as int) && i + 2 <= j <= n
                - 4,
            None => spec_greedy_end(f@, i as int, n - 4) is None,
        },
{
    let hi = n - 4;
    let mut j = hi;
    while j >= i + 2
        invariant
            i + 1 <= j <= hi,
            hi == n - 4,
            f@.len() == n,
            i + 6 <= n,
            spec_greedy_end(f@, i as int, hi as int) == spec_greedy_end(f@, i as int, j as int),
        decreases j,
    {
        if tag_at(f, n, j) {
            if clear_between(f, n, i + 1, j) {
                return Some(j);
            }
        }
        proof {
            assert(spec_greedy_end(f@, i as int, j as int) == spec_greedy_end(
                f@,
                i as int,
                j - 1,
            ));
        }
        j = j - 1;
    }
    None
}

/// Extracts the local file path packed into a vendor file-reference
/// string: the payload of the first colon-delimited, `:PDF`-tagged
/// segment, taken greedily. Fails with `PatternMismatch` exactly when
/// the string holds no such segment.
pub fn jabref_file_parse(f: &str) -> (r: Result<String, FileFieldError>)
    ensures
        match r {
            Ok(p) => spec_decode_file(f@) == Some(p@),
            Err(e) => spec_decode_file(f@) is None && e == FileFieldError::PatternMismatch,
        },
{
    let n = f.unicode_len();
    let mut i: usize = 0;
    while i < n
        invariant
            i <= n,
            f@.len() == n,
            spec_first_start(f@, 0) == spec_first_start(f@, i as int),
        decreases n - i,
    {
        if n - i >= 6 {
            let c = f.get_char(i);
            if c == ':' {
                match greedy_end(f, n, i) {
                    Some(j) => {
                        proof {
                            assert(spec_start_ok(f@, i as int));
                            assert(spec_first_start(f@, i as int) == Some(i as int));
                        }
                        let payload = f.substring_char(i + 1, j).to_owned();
                        return Ok(payload);
                    },
                    None => {
                        proof {
                            assert(!spec_start_ok(f@, i as int));
                        }
                    },
                }
            } else {
                proof {
                    assert(!spec_start_ok(f@, i as int));
                }
            }
        } else {
            proof {
                assert(f@.len() - 4 < i + 2);
                assert(spec_greedy_end(f@, i as int, f@.len() - 4) is None);
                assert(!spec_start_ok(f@, i as int));
            }
        }
        proof {
            assert(spec_first_start(f@, i as int) == spec_first_start(f@, i + 1));
        }
        i = i + 1;
    }
    proof {
        assert(spec_first_start(f@, n as int) is None);
    }
    Err(FileFieldError::PatternMismatch)
}

} // verus!
