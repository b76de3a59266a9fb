//! Request-line parsing and the fixed route table.
//!
//! A request line is `METHOD SP PATH SP VERSION`: three non-empty tokens with
//! a single space between the first and second and between the second and
//! third.  Anything else is malformed, and the worker answers a malformed
//! request by closing the connection.  The route table maps exactly three
//! `GET` paths to documents; everything else is not found.

use vstd::prelude::*;
use vstd::slice::*;
use vstd::string::*;

verus! {

/// ASCII space.
pub const SP: u8 = 32;

/// ASCII carriage return.
pub const CR: u8 = 13;

/// ASCII line feed.
pub const LF: u8 = 10;

/// `i` is the first position at or after `from` where `t` occurs in `b`.
pub open spec fn is_first_at(b: Seq<u8>, from: int, t: u8, i: int) -> bool {
    from <= i < b.len() && b[i] == t && (forall|j: int| from <= j < i ==> b[j] != t)
}

/// The first occurrence of a byte is unique.
pub proof fn lemma_first_at_unique(b: Seq<u8>, from: int, t: u8, i1: int, i2: int)
    requires
        is_first_at(b, from, t, i1),
        is_first_at(b, from, t, i2),
    ensures
        i1 == i2,
{
    if i1 < i2 {
        assert(b[i1] != t);
    }
    if i2 < i1 {
        assert(b[i2] != t);
    }
}

/// Scans for the first occurrence of `t` at or after `from`.
pub fn find_byte(b: &[u8], from: usize, t: u8) -> (r: Option<usize>)
    requires
        from <= b@.len(),
    ensures
        match r {
            Some(i) => is_first_at(b@, from as int, t, i as int),
            None => forall|j: int| from <= j < b@.len() ==> b@[j] != t,
        },
{
    let mut i: usize = from;
    while i < b.len()
        invariant
            from <= i <= b@.len(),
            forall|j: int| from <= j < i ==> b@[j] != t,
        decreases b@.len() - i,
    {
        if b[i] == t {
            return Some(i);
        }
        i = i + 1;
    }
    None
}

/// The request line splits at space positions `i` and `j` into three
/// non-empty tokens: the method before `i`, the path between them, and the
/// version after `j`, with no space inside the method or the path.
pub open spec fn wf_split(line: Seq<u8>, i: int, j: int) -> bool {
    0 < i && i + 1 < j && j + 1 < line.len() && line[i] == SP && line[j] == SP && (forall|k: int|
        0 <= k < i ==> line[k] != SP) && (forall|k: int| i < k < j ==> line[k] != SP)
}

/// A well-formed request line: some pair of split positions exists.
pub open spec fn wf_request_line(line: Seq<u8>) -> bool {
    exists|i: int, j: int| wf_split(line, i, j)
}

/// The split positions of a well-formed line are the first space and the
/// first space after it, so they are unique.
pub proof fn lemma_split_pinned(line: Seq<u8>, i: int, j: int, i2: int, j2: int)
    requires
        is_first_at(line, 0, SP, i),
        is_first_at(line, i + 1, SP, j),
        wf_split(line, i2, j2),
    ensures
        i2 == i,
        j2 == j,
{
    if i2 < i {
        assert(line[i2] != SP);
    }
    if i < i2 {
        assert(line[i] != SP);
    }
    if j2 < j {
        assert(line[j2] != SP);
    }
    if j < j2 {
        assert(line[j] != SP);
    }
}

/// The method token is pinned by the first space alone.
pub proof fn lemma_first_space_pinned(line: Seq<u8>, i: int, i2: int, j2: int)
    requires
        is_first_at(line, 0, SP, i),
        wf_split(line, i2, j2),
    ensures
        i2 == i,
{
    if i2 < i {
        assert(line[i2] != SP);
    }
    if i < i2 {
        assert(line[i] != SP);
    }
}

/// The method and path of a well-formed request line; nothing for a
/// malformed one.
pub open spec fn spec_parse_line(line: Seq<u8>) -> Option<(Seq<u8>, Seq<u8>)> {
    if wf_request_line(line) {
        let (i, j) = choose|i: int, j: int| wf_split(line, i, j);
        Some((line.subrange(0, i), line.subrange(i + 1, j)))
    } else {
        None
    }
}

/// The two tokens of a parsed request line.
pub struct RequestLine {
    pub method: Vec<u8>,
    pub path: Vec<u8>,
}

/// Parses a request line into its method and path: exactly the well-formed
/// lines parse, and the tokens are exactly the spans the split positions
/// delimit.
pub fn parse_request_line(line: &[u8]) -> (r: Option<RequestLine>)
    ensures
        match r {
            Some(rl) => spec_parse_line(line@) == Some((rl.method@, rl.path@)),
            None => spec_parse_line(line@) is None,
        },
{
    let i = match find_byte(line, 0, SP) {
        Some(i) => i,
        None => {
            proof {
                if wf_request_line(line@) {
                    let (i2, j2) = choose|i2: int, j2: int| wf_split(line@, i2, j2);
                    assert(line@[i2] == SP);
                }
            }
            return None;
        },
    };
    if i == 0 {
        proof {
            if wf_request_line(line@) {
                let (i2, j2) = choose|i2: int, j2: int| wf_split(line@, i2, j2);
                assert(line@[0] == SP);
                assert(line@[0] != SP);
            }
        }
        return None;
    }
    let n = line.len();
    let j = match find_byte(line, i + 1, SP) {
        Some(j) => j,
        None => {
            proof {
                if wf_request_line(line@) {
                    let (i2, j2) = choose|i2: int, j2: int| wf_split(line@, i2, j2);
                    lemma_first_space_pinned(line@, i as int, i2, j2);
                    assert(line@[j2] == SP);
                }
            }
            return None;
        },
    };
    if j == i + 1 || j + 1 >= n {
        proof {
            if wf_request_line(line@) {
                let (i2, j2) = choose|i2: int, j2: int| wf_split(line@, i2, j2);
                lemma_split_pinned(line@, i as int, j as int, i2, j2);
            }
        }
        return None;
    }
    proof {
        assert(wf_split(line@, i as int, j as int));
        let (i2, j2) = choose|i2: int, j2: int| wf_split(line@, i2, j2);
        lemma_split_pinned(line@, i as int, j as int, i2, j2);
    }
    let method = slice_to_vec(slice_subrange(line, 0, i));
    let path = slice_to_vec(slice_subrange(line, i + 1, j));
    Some(RequestLine { method, path })
}

/// The fixed routes the node serves.
#[derive(Clone, Copy, PartialEq, Eq, Structural, Debug)]
pub enum Route {
    /// `GET /`: the static HTML page.
    Index,
    /// `GET /main.css`: the static stylesheet.
    Stylesheet,
    /// `GET /data`: the current reading, serialized.
    SensorData,
    /// Anything else.
    NotFound,
}

/// The route table: three fixed `GET` paths; every other method or path is
/// not found.
pub open spec fn spec_route(method: Seq<u8>, path: Seq<u8>) -> Route {
    if method != ("GET").spec_bytes() {
        Route::NotFound
    } else if path == ("/").spec_bytes() {
        Route::Index
    } else if path == ("/main.css").spec_bytes() {
        Route::Stylesheet
    } else if path == ("/data").spec_bytes() {
        Route::SensorData
    } else {
        Route::NotFound
    }
}

/// Byte-for-byte comparison of two slices.
pub fn bytes_eq(a: &[u8], b: &[u8]) -> (r: bool)
    ensures
        r <==> a@ == b@,
{
    if a.len() != b.len() {
        return false;
    }
    let mut i: usize = 0;
    while i < a.len()
        invariant
            i <= a@.len(),
            a@.len() == b@.len(),
            forall|j: int| 0 <= j < i ==> a@[j] == b@[j],
        decreases a@.len() - i,
    {
        if a[i] != b[i] {
            return false;
        }
        i = i + 1;
    }
    proof {
        assert(a@ =~= b@);
    }
    true
}

/// Dispatches a method and path through the route table.
pub fn route(method: &[u8], path: &[u8]) -> (r: Route)
    ensures
        r == spec_route(method@, path@),
{
    if !bytes_eq(method, ("GET").as_bytes()) {
        Route::NotFound
    } else if bytes_eq(path, ("/").as_bytes()) {
        Route::Index
    } else if bytes_eq(path, ("/main.css").as_bytes()) {
        Route::Stylesheet
    } else if bytes_eq(path, ("/data").as_bytes()) {
        Route::SensorData
    } else {
        Route::NotFound
    }
}

/// The empty line that ends a request head stands at `j`.
pub open spec fn head_end_marker(b: Seq<u8>, j: int) -> bool {
    0 <= j && j + 4 <= b.len() && b[j] == CR && b[j + 1] == LF && b[j + 2] == CR && b[j + 3] == LF
}

/// `i` is the first position where a request head ends.
pub open spec fn is_head_end_at(b: Seq<u8>, i: int) -> bool {
    head_end_marker(b, i) && (forall|j: int| 0 <= j < i ==> !head_end_marker(b, j))
}

/// Where the first complete request head ends, if anywhere.
pub open spec fn head_end(b: Seq<u8>) -> Option<int> {
    if exists|i: int| is_head_end_at(b, i) {
        Some(choose|i: int| is_head_end_at(b, i))
    } else {
        None
    }
}

/// The first head end is unique.
pub proof fn lemma_head_end_unique(b: Seq<u8>, i1: int, i2: int)
    requires
        is_head_end_at(b, i1),
        is_head_end_at(b, i2),
    ensures
        i1 == i2,
{
    if i1 < i2 {
        assert(!head_end_marker(b, i1));
    }
    if i2 < i1 {
        assert(!head_end_marker(b, i2));
    }
}

/// Scans for the end of the first complete request head.
pub fn find_head_end(b: &[u8]) -> (r: Option<usize>)
    ensures
        match r {
            Some(i) => i + 4 <= b@.len() && head_end(b@) == Some(i as int),
            None => head_end(b@) is None,
        },
{
    if b.len() < 4 {
        proof {
            if exists|w: int| is_head_end_at(b@, w) {
                let w = choose|w: int| is_head_end_at(b@, w);
                assert(head_end_marker(b@, w));
            }
        }
        return None;
    }
    let mut i: usize = 0;
    while i <= b.len() - 4
        invariant
            4 <= b@.len(),
            i <= b@.len(),
            forall|j: int| 0 <= j < i ==> !head_end_marker(b@, j),
        decreases b@.len() - i,
    {
        if b[i] == CR && b[i + 1] == LF && b[i + 2] == CR && b[i + 3] == LF {
            proof {
                assert(is_head_end_at(b@, i as int));
                let w = choose|w: int| is_head_end_at(b@, w);
                lemma_head_end_unique(b@, w, i as int);
            }
            return Some(i);
        }
        proof {
            assert(!head_end_marker(b@, i as int));
        }
        i = i + 1;
    }
    proof {
        if exists|w: int| is_head_end_at(b@, w) {
            let w = choose|w: int| is_head_end_at(b@, w);
            assert(head_end_marker(b@, w));
        }
    }
    None
}

} // verus!
