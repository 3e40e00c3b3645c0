//! Commands that query or feed the HTTP and ingest APIs: the addresses they
//! request and the repository they address.
use vstd::prelude::*;

use crate::text::{owned, push_all, push_char};
use vstd::utf8::encode_utf8;

pub mod export;
pub mod ingest;
pub mod trend;

verus! {

/// A byte `urlencoding` leaves as it is: ASCII letters and digits and
/// `-`, `.`, `_`, `~`.
pub open spec fn is_unreserved(b: u8) -> bool {
    (48 <= b <= 57) || (65 <= b <= 90) || (97 <= b <= 122) || b == 45 || b == 46 || b == 95 || b
        == 126
}

/// The upper-case hexadecimal digit of `d` (below 16).
pub open spec fn hex_digit(d: u8) -> char {
    if d < 10 {
        ((48 + d) as u8) as char
    } else {
        ((55 + d) as u8) as char
    }
}

/// A byte as it appears in an encoded URL component.
pub open spec fn encode_byte(b: u8) -> Seq<char> {
    if is_unreserved(b) {
        seq![b as char]
    } else {
        seq!['%', hex_digit(b / 16), hex_digit(b % 16)]
    }
}

/// Bytes percent-encoded one by one.
pub open spec fn encode_bytes(bs: Seq<u8>) -> Seq<char>
    decreases bs.len(),
{
    if bs.len() == 0 {
        Seq::empty()
    } else {
        encode_bytes(bs.drop_last()) + encode_byte(bs.last())
    }
}

/// `s` percent-encoded as a URL component: each byte of its UTF-8 encoding
/// is kept when unreserved and written `%XX` otherwise.
pub open spec fn url_encoded(s: Seq<char>) -> Seq<char> {
    encode_bytes(encode_utf8(s))
}

/// `urlencoding::encode`: the contract claims the encoding its source
/// performs, byte by byte over the UTF-8 encoding.
#[verifier::external_body]
pub(crate) fn url_encode(s: &str) -> (r: String)
    ensures
        r@ == url_encoded(s@),
{
    urlencoding::encode(s).into_owned()
}

/// The character of a decimal digit.
pub open spec fn digit_char(d: int) -> char {
    ((48 + d) as u8) as char
}

/// The decimal numeral of `n`, without leading zeros.
pub open spec fn decimal(n: nat) -> Seq<char>
    decreases n,
{
    if n < 10 {
        seq![digit_char(n as int)]
    } else {
        decimal(n / 10).push(digit_char((n % 10) as int))
    }
}

fn digit(d: u64) -> (c: char)
    requires
        d < 10,
    ensures
        c == digit_char(d as int),
{
    if d == 0 {
        '0'
    } else if d == 1 {
        '1'
    } else if d == 2 {
        '2'
    } else if d == 3 {
        '3'
    } else if d == 4 {
        '4'
    } else if d == 5 {
        '5'
    } else if d == 6 {
        '6'
    } else if d == 7 {
        '7'
    } else if d == 8 {
        '8'
    } else {
        '9'
    }
}

/// The decimal numeral of `n`.
pub fn decimal_string(n: u64) -> (r: String)
    ensures
        r@ == decimal(n as nat),
    decreases n,
{
    if n < 10 {
        let mut s = String::new();
        push_char(&mut s, digit(n));
        assert(s@ =~= seq![digit_char(n as int)]);
        s
    } else {
        let mut s = decimal_string(n / 10);
        push_char(&mut s, digit(n % 10));
        s
    }
}

/// Why a command could not build its request.
#[derive(Debug)]
pub enum RequestError {
    /// No repository was given and none is configured.
    RepositoryNotSpecified,
}

/// The first of the two that is set.
pub open spec fn first_set(a: Option<String>, b: Option<String>) -> Option<String> {
    match a {
        Some(x) => Some(x),
        None => b,
    }
}

/// The address that lists benchmarks: `/v1/benchmarks` under `api_url`,
/// for `repository`, at most `limit`, optionally filtered by commit and
/// benchmark name; every value URL-encoded.
pub open spec fn benchmarks_query(
    api_url: Seq<char>,
    repository: Seq<char>,
    limit: u32,
    commit: Option<String>,
    name: Option<String>,
) -> Seq<char> {
    api_url + "/v1/benchmarks?repository="@ + url_encoded(repository) + "&limit="@ + decimal(
        limit as nat,
    ) + match commit {
        Some(c) => "&commit_sha="@ + url_encoded(c@),
        None => Seq::empty(),
    } + match name {
        Some(n) => "&benchmark_name="@ + url_encoded(n@),
        None => Seq::empty(),
    }
}

/// The address listing a repository's benchmarks.
pub fn benchmarks_url(
    api_url: &str,
    repository: &str,
    limit: u32,
    commit: &Option<String>,
    name: &Option<String>,
) -> (r: String)
    ensures
        r@ == benchmarks_query(api_url@, repository@, limit, *commit, *name),
{
    let mut url = owned(api_url);
    push_all(&mut url, "/v1/benchmarks?repository=");
    push_all(&mut url, &url_encode(repository));
    push_all(&mut url, "&limit=");
    push_all(&mut url, &decimal_string(limit as u64));
    let ghost head = url@;
    match commit {
        Some(c) => {
            push_all(&mut url, "&commit_sha=");
            push_all(&mut url, &url_encode(c));
        },
        None => {},
    }
    let ghost mid = url@;
    assert(mid =~= head + match *commit {
        Some(c) => "&commit_sha="@ + url_encoded(c@),
        None => Seq::empty(),
    });
    match name {
        Some(n) => {
            push_all(&mut url, "&benchmark_name=");
            push_all(&mut url, &url_encode(n));
        },
        None => {},
    }
    assert(url@ =~= mid + match *name {
        Some(n) => "&benchmark_name="@ + url_encoded(n@),
        None => Seq::empty(),
    });
    url
}

} // verus!
