use vstd::prelude::*;
use vstd::string::*;

verus! {

/// The request line that asks for the homepage.
pub const REQUEST_GET_HOME: &'static str = "GET / HTTP/1.1\r\n";

/// The request line that asks for the favicon.
pub const REQUEST_GET_FAVICON: &'static str = "GET /favicon.ico HTTP/1.1\r\n";

/// Method and path of a login request; version and headers are not checked.
pub const REQUEST_POST_LOGIN: &'static str = "POST /login";

/// The request line of the slow route, served as the homepage after a delay.
pub const REQUEST_GET_SLEEP: &'static str = "GET /sleep HTTP/1.1\r\n";

/// The blank line that ends the head of a request.
pub const HEAD_DELIMITER: &'static str = "\r\n\r\n";

/// The classified intent of one request.
#[derive(Debug, Clone, Copy, PartialEq, Eq, Structural)]
pub enum Route {
    Homepage,
    Favicon,
    BadRequest,
    Login,
}

/// `prefix` is the start of `s`.
pub open spec fn starts_with(s: Seq<u8>, prefix: Seq<u8>) -> bool {
    prefix.len() <= s.len() && s.subrange(0, prefix.len() as int) == prefix
}

/// `needle` occurs in `hay` at position `i`.
pub open spec fn occurs_at(hay: Seq<u8>, needle: Seq<u8>, i: int) -> bool {
    0 <= i && i + needle.len() <= hay.len() && hay.subrange(i, i + needle.len()) == needle
}

/// `i` is the first position at which `needle` occurs in `hay`.
pub open spec fn first_occurrence(hay: Seq<u8>, needle: Seq<u8>, i: int) -> bool {
    occurs_at(hay, needle, i) && forall|j: int| 0 <= j < i ==> !occurs_at(hay, needle, j)
}

/// `needle` occurs somewhere in `hay`.
pub open spec fn occurs(hay: Seq<u8>, needle: Seq<u8>) -> bool {
    exists|i: int| occurs_at(hay, needle, i)
}

/// The request's head is ended by a blank line.
pub open spec fn has_delimiter(request: Seq<u8>) -> bool {
    occurs(request, HEAD_DELIMITER.spec_bytes())
}

/// The route of a request, by the first request-line prefix that matches.
///
/// A login request whose head is not ended by a blank line carries no payload
/// and is a bad request.
pub open spec fn route_of(request: Seq<u8>) -> Route {
    if starts_with(request, REQUEST_GET_HOME.spec_bytes()) {
        Route::Homepage
    } else if starts_with(request, REQUEST_GET_FAVICON.spec_bytes()) {
        Route::Favicon
    } else if starts_with(request, REQUEST_POST_LOGIN.spec_bytes()) {
        if has_delimiter(request) {
            Route::Login
        } else {
            Route::BadRequest
        }
    } else if starts_with(request, REQUEST_GET_SLEEP.spec_bytes()) {
        Route::Homepage
    } else {
        Route::BadRequest
    }
}

/// The request asks for the slow route.
pub open spec fn is_delayed_spec(request: Seq<u8>) -> bool {
    starts_with(request, REQUEST_GET_SLEEP.spec_bytes())
}

/// What follows the first blank line of a request, if there is one.
pub open spec fn payload_of(request: Seq<u8>) -> Option<Seq<u8>> {
    if has_delimiter(request) {
        let i = choose|i: int| first_occurrence(request, HEAD_DELIMITER.spec_bytes(), i);
        Some(request.subrange(i + 4, request.len() as int))
    } else {
        None
    }
}

/// Whether `s` starts with `prefix`.
pub fn bytes_start_with(s: &[u8], prefix: &[u8]) -> (r: bool)
    ensures
        r == starts_with(s@, prefix@),
{
    if prefix.len() > s.len() {
        return false;
    }
    let mut i: usize = 0;
    while i < prefix.len()
        invariant
            prefix@.len() <= s@.len(),
            i <= prefix@.len(),
            forall|k: int| 0 <= k < i ==> s@[k] == prefix@[k],
        decreases prefix@.len() - i,
    {
        if s[i] != prefix[i] {
            assert(s@.subrange(0, prefix@.len() as int)[i as int] != prefix@[i as int]);
            return false;
        }
        i = i + 1;
    }
    assert(s@.subrange(0, prefix@.len() as int) =~= prefix@);
    true
}

/// The first position at which `needle` occurs in `hay`.
pub fn find_bytes(hay: &[u8], needle: &[u8]) -> (r: Option<usize>)
    ensures
        match r {
            Some(i) => first_occurrence(hay@, needle@, i as int),
            None => !occurs(hay@, needle@),
        },
{
    if needle.len() == 0 {
        assert(hay@.subrange(0, 0) =~= needle@);
        return Some(0);
    }
    let mut i: usize = 0;
    while i < hay.len()
        invariant
            needle@.len() > 0,
            forall|j: int| 0 <= j < i ==> !occurs_at(hay@, needle@, j),
        decreases hay@.len() - i,
    {
        if hay.len() - i < needle.len() {
            return None;
        }
        let mut k: usize = 0;
        let mut same = true;
        while k < needle.len()
            invariant
                hay@.len() <= usize::MAX,
                i < hay@.len(),
                i + needle@.len() <= hay@.len(),
                k <= needle@.len(),
                same ==> forall|m: int| 0 <= m < k ==> hay@[i + m] == needle@[m],
                !same ==> !occurs_at(hay@, needle@, i as int),
            decreases needle@.len() - k,
        {
            if hay[i + k] != needle[k] {
                if same {
                    assert(hay@.subrange(i as int, i + needle@.len())[k as int] != needle@[k as int]);
                }
                same = false;
            }
            k = k + 1;
        }
        if same {
            assert(hay@.subrange(i as int, i + needle@.len()) =~= needle@);
            return Some(i);
        }
        i = i + 1;
    }
    None
}

/// Classifies a request by the bytes read from the connection.
pub fn classify(request: &[u8]) -> (r: Route)
    ensures
        r == route_of(request@),
{
    if bytes_start_with(request, REQUEST_GET_HOME.as_bytes()) {
        Route::Homepage
    } else if bytes_start_with(request, REQUEST_GET_FAVICON.as_bytes()) {
        Route::Favicon
    } else if bytes_start_with(request, REQUEST_POST_LOGIN.as_bytes()) {
        match find_bytes(request, HEAD_DELIMITER.as_bytes()) {
            Some(_) => Route::Login,
            None => Route::BadRequest,
        }
    } else if bytes_start_with(request, REQUEST_GET_SLEEP.as_bytes()) {
        Route::Homepage
    } else {
        Route::BadRequest
    }
}

/// Whether the request asks for the slow route.
pub fn is_delayed(request: &[u8]) -> (r: bool)
    ensures
        r == is_delayed_spec(request@),
{
    bytes_start_with(request, REQUEST_GET_SLEEP.as_bytes())
}

/// The bytes after the first blank line of a request, if there is one.
pub fn request_payload(request: &[u8]) -> (r: Option<Vec<u8>>)
    ensures
        match r {
            Some(p) => payload_of(request@) == Some(p@),
            None => payload_of(request@) is None,
        },
{
    let delimiter = HEAD_DELIMITER.as_bytes();
    let n = request.len();
    match find_bytes(request, delimiter) {
        Some(i) => {
            proof {
                reveal_strlit("\r\n\r\n");
                assert(is_ascii(HEAD_DELIMITER));
                assert(delimiter@.len() == 4);
                let j = choose|j: int| first_occurrence(request@, HEAD_DELIMITER.spec_bytes(), j);
                assert(j == i);
            }
            let mut out: Vec<u8> = Vec::new();
            let mut k: usize = i + 4;
            while k < n
                invariant
                    n == request@.len(),
                    i + 4 <= k <= n,
                    out@ =~= request@.subrange(i + 4, k as int),
                decreases request@.len() - k,
            {
                out.push(request[k]);
                k = k + 1;
            }
            Some(out)
        },
        None => None,
    }
}

} // verus!
