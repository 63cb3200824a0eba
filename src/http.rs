use vstd::prelude::*;
use vstd::string::{StrSliceExecFns, StringSliceAdditionalSpecFns};

verus! {

/// What the server does with a request, chosen by its request line.
#[derive(PartialEq, Eq, Structural, Clone, Copy, Debug)]
pub enum Route {
    /// `GET /`: the greeting page.
    Index,
    /// `GET /sleep`: the greeting page, after a pause.
    Sleep,
    /// Anything else: the not-found page.
    NotFound,
}

/// The route that a request line selects; only exact matches count.
pub open spec fn route_of(line: Seq<char>) -> Route {
    if line == "GET / HTTP/1.1"@ {
        Route::Index
    } else if line == "GET /sleep HTTP/1.1"@ {
        Route::Sleep
    } else {
        Route::NotFound
    }
}

/// Whether two strings hold the same characters.
pub fn same_text(a: &str, b: &str) -> (r: bool)
    ensures
        r == (a@ == b@),
{
    let n = a.unicode_len();
    if n != b.unicode_len() {
        return false;
    }
    let mut i: usize = 0;
    while i < n
        invariant
            n == a@.len(),
            n == b@.len(),
            i <= n,
            forall|k: int| 0 <= k < i ==> a@[k] == b@[k],
        decreases n - i,
    {
        if a.get_char(i) != b.get_char(i) {
            return false;
        }
        i = i + 1;
    }
    assert(a@ =~= b@);
    true
}

/// Picks the route for a request line.
pub fn route(line: &str) -> (r: Route)
    ensures
        r == route_of(line@),
{
    if same_text(line, "GET / HTTP/1.1") {
        Route::Index
    } else if same_text(line, "GET /sleep HTTP/1.1") {
        Route::Sleep
    } else {
        Route::NotFound
    }
}

impl Route {
    /// The status line the response starts with.
    pub fn status_line(&self) -> (r: &'static str)
        ensures
            *self == Route::NotFound ==> r@ == "HTTP/1.1 404 NOT FOUND"@,
            *self != Route::NotFound ==> r@ == "HTTP/1.1 200 OK"@,
    {
        match self {
            Route::NotFound => "HTTP/1.1 404 NOT FOUND",
            _ => "HTTP/1.1 200 OK",
        }
    }

    /// The file whose contents make the response body.
    pub fn file_name(&self) -> (r: &'static str)
        ensures
            *self == Route::NotFound ==> r@ == "404.html"@,
            *self != Route::NotFound ==> r@ == "hello.html"@,
    {
        match self {
            Route::NotFound => "404.html",
            _ => "hello.html",
        }
    }

    /// Whether the response is held back by a pause before it is sent.
    pub fn delays(&self) -> (r: bool)
        ensures
            r == (*self == Route::Sleep),
    {
        match self {
            Route::Sleep => true,
            _ => false,
        }
    }
}

/// The decimal digits of `n` in ASCII, most significant first, with no
/// leading zero.
pub open spec fn decimal(n: nat) -> Seq<u8>
    decreases n,
{
    if n < 10 {
        seq![(48 + n) as u8]
    } else {
        decimal(n / 10).push((48 + n % 10) as u8)
    }
}

/// A response: the status line, a `Content-Length` header giving the body's
/// size in bytes, a blank line, then the body.
pub open spec fn response_of(status_line: Seq<u8>, body: Seq<u8>) -> Seq<u8> {
    status_line + "\r\nContent-Length: ".spec_bytes() + decimal(body.len()) + "\r\n\r\n".spec_bytes()
        + body
}

/// Writes `n` in decimal ASCII digits.
pub fn decimal_bytes(n: usize) -> (r: Vec<u8>)
    ensures
        r@ == decimal(n as nat),
    decreases n,
{
    if n < 10 {
        vec![(48 + n) as u8]
    } else {
        let mut digits = decimal_bytes(n / 10);
        digits.push((48 + n % 10) as u8);
        digits
    }
}

fn append_bytes(out: &mut Vec<u8>, src: &[u8])
    ensures
        final(out)@ == old(out)@ + src@,
{
    let mut i: usize = 0;
    while i < src.len()
        invariant
            i <= src@.len(),
            out@ == old(out)@ + src@.subrange(0, i as int),
        decreases src@.len() - i,
    {
        out.push(src[i]);
        i = i + 1;
        assert(src@.subrange(0, i as int) =~= src@.subrange(0, i - 1 as int).push(src@[i - 1]));
    }
    assert(src@.subrange(0, i as int) =~= src@);
}

/// Frames `body` as a response under `status_line`.
pub fn response(status_line: &str, body: &[u8]) -> (r: Vec<u8>)
    ensures
        r@ == response_of(status_line.spec_bytes(), body@),
{
    let mut out: Vec<u8> = Vec::new();
    append_bytes(&mut out, status_line.as_bytes());
    append_bytes(&mut out, "\r\nContent-Length: ".as_bytes());
    let digits = decimal_bytes(body.len());
    append_bytes(&mut out, digits.as_slice());
    append_bytes(&mut out, "\r\n\r\n".as_bytes());
    append_bytes(&mut out, body);
    out
}

} // verus!
