//! The directory wire contract: building the fixed HTTP/1.0 requests
//! and locating the header/body boundary of a response.
//!
//! Requests name a path, a `Host` header and `Connection: close`; the
//! response body starts after the first blank line. A response with no
//! blank line is treated as header-less: the whole payload is the
//! body.

use vstd::prelude::*;
use vstd::slice::*;
use vstd::string::*;

verus! {

/// The carriage-return byte.
pub const CR: u8 = 13;

/// The line-feed byte.
pub const LF: u8 = 10;

/// The well-known request path for the microdescriptor-flavored
/// consensus document.
pub fn consensus_request_path() -> (r: String)
    ensures
        r@ == "/tor/status-vote/current/consensus-microdesc"@,
{
    String::from_str("/tor/status-vote/current/consensus-microdesc")
}

/// The characters of a directory request for `path` against `host`.
pub open spec fn request_chars(path: Seq<char>, host: Seq<char>) -> Seq<char> {
    "GET "@ + path + " HTTP/1.0\r\nHost: "@ + host + "\r\nConnection: close\r\n\r\n"@
}

/// Build the `GET` request the directory wire contract prescribes:
/// HTTP/1.0, a `Host` header, and `Connection: close`.
pub fn build_http_request(path: &str, host: &str) -> (r: String)
    ensures
        r@ == request_chars(path@, host@),
{
    let mut s = String::from_str("GET ");
    s.append(path);
    s.append(" HTTP/1.0\r\nHost: ");
    s.append(host);
    s.append("\r\nConnection: close\r\n\r\n");
    proof {
        assert(s@ =~= request_chars(path@, host@));
    }
    s
}

/// True iff the blank-line separator (CR LF CR LF) starts at index
/// `i` of `b`.
pub open spec fn separator_at(b: Seq<u8>, i: int) -> bool {
    &&& i + 4 <= b.len()
    &&& b[i] == CR
    &&& b[i + 1] == LF
    &&& b[i + 2] == CR
    &&& b[i + 3] == LF
}

/// The first index at or after `i` where the blank-line separator
/// starts, if any.
pub open spec fn separator_from(b: Seq<u8>, i: int) -> Option<int>
    decreases b.len() - i,
{
    if i + 4 > b.len() {
        None
    } else if separator_at(b, i) {
        Some(i)
    } else {
        separator_from(b, i + 1)
    }
}

/// The first index where the blank-line separator starts, if any.
pub open spec fn separator_index(b: Seq<u8>) -> Option<int> {
    separator_from(b, 0)
}

/// The body of a response: everything after the first blank line, or
/// the whole payload when no blank line occurs.
pub open spec fn body_bytes(b: Seq<u8>) -> Seq<u8> {
    match separator_index(b) {
        Some(i) => b.subrange(i + 4, b.len() as int),
        None => b,
    }
}

/// A found separator index lies in bounds and carries the separator;
/// earlier positions do not.
pub proof fn lemma_separator_from_props(b: Seq<u8>, i: int)
    requires
        0 <= i,
    ensures
        match separator_from(b, i) {
            Some(j) => i <= j && separator_at(b, j),
            None => forall|k: int| i <= k ==> !separator_at(b, k),
        },
    decreases b.len() - i,
{
    if i + 4 > b.len() {
        assert forall|k: int| i <= k implies !separator_at(b, k) by {}
    } else if separator_at(b, i) {
    } else {
        lemma_separator_from_props(b, i + 1);
    }
}

/// Find the first blank-line separator of `b`, if any.
pub fn find_separator(b: &[u8]) -> (r: Option<usize>)
    ensures
        match r {
            Some(i) => separator_index(b@) == Some(i as int),
            None => separator_index(b@) is None,
        },
{
    let n = b.len();
    let mut i: usize = 0;
    loop
        invariant
            i <= b@.len(),
            n == b@.len(),
            separator_index(b@) == separator_from(b@, i as int),
        decreases b@.len() - i,
    {
        if n - i < 4 {
            return None;
        }
        if *slice_index_get(b, i) == CR && *slice_index_get(b, i + 1) == LF && *slice_index_get(
            b,
            i + 2,
        ) == CR && *slice_index_get(b, i + 3) == LF {
            return Some(i);
        }
        i = i + 1;
    }
}

/// Strip the HTTP headers from a response, best-effort: when the
/// payload has no blank-line separator the whole payload is returned
/// as the body.
pub fn body_after_headers(b: &Vec<u8>) -> (r: Vec<u8>)
    ensures
        r@ == body_bytes(b@),
{
    match find_separator(b.as_slice()) {
        Some(i) => {
            let blen = b.len();
            proof {
                lemma_separator_from_props(b@, 0);
                assert(i + 4 <= blen);
            }
            let tail = slice_subrange(b.as_slice(), i + 4, blen);
            slice_to_vec(tail)
        },
        None => {
            let whole = slice_subrange(b.as_slice(), 0, b.len());
            let r = slice_to_vec(whole);
            proof {
                assert(b@.subrange(0, b@.len() as int) =~= b@);
            }
            r
        },
    }
}

} // verus!
