//! Reading an S3 location given on the command line: `s3://bucket`, a URL
//! whose first path segment is the bucket, or a bare bucket name.
use vstd::prelude::*;

use crate::text::{chars_of, concat_str, find_char, find_char_at, owned, starts_with, starts_with_chars, string_from_chars};

verus! {

broadcast use vstd::string::group_string_axioms;

/// What the URL parser of `url` (through `reqwest::Url::parse`) makes of a
/// text: its scheme, its host where it has one, and its path; `None` where
/// the text is not a valid URL.
pub uninterp spec fn url_parse(text: Seq<char>) -> Option<(Seq<char>, Option<Seq<char>>, Seq<char>)>;

/// Parses a URL with `reqwest::Url::parse` and gives its scheme, host and
/// path. The contract names the result: URL parsing (WHATWG) is the `url`
/// crate's.
#[verifier::external_body]
fn parse_url(text: &str) -> (r: Option<(String, Option<String>, String)>)
    ensures
        match r {
            Some((s, h, p)) => url_parse(text@) == Some((s@, match h {
                Some(x) => Some(x@),
                None => None,
            }, p@)),
            None => url_parse(text@) is None,
        },
{
    match reqwest::Url::parse(text) {
        Ok(u) => Some((u.scheme().to_string(), u.host_str().map(|h| h.to_string()), u.path().to_string())),
        Err(_) => None,
    }
}

/// Why a location could not be read.
#[derive(Debug, Clone, Copy, PartialEq, Eq, Structural)]
pub enum LocationError {
    /// The location starts like a URL but is not one.
    InvalidUrl,
}

/// The endpoint used where the location names none.
pub open spec fn default_endpoint() -> Seq<char> {
    "https://s3.amazonaws.com"@
}

/// `s` without its leading `/` characters.
pub open spec fn trim_leading_slashes(s: Seq<char>) -> Seq<char>
    decreases s.len(),
{
    if s.len() > 0 && s[0] == '/' {
        trim_leading_slashes(s.drop_first())
    } else {
        s
    }
}

/// The first `/`-separated segment of `s`.
pub open spec fn first_segment(s: Seq<char>) -> Seq<char> {
    s.subrange(0, find_char(s, '/', 0))
}

/// The endpoint and the bucket a location names.
pub open spec fn s3_location(location: Seq<char>) -> Result<(Seq<char>, Seq<char>), LocationError> {
    if starts_with(location, "s3://"@) {
        Ok((default_endpoint(), location.subrange(5, location.len() as int)))
    } else if starts_with(location, "http://"@) || starts_with(location, "https://"@) {
        match url_parse(location) {
            None => Err(LocationError::InvalidUrl),
            Some((scheme, host, path)) => {
                let h = match host {
                    Some(x) => x,
                    None => Seq::empty(),
                };
                Ok((scheme + "://"@ + h, first_segment(trim_leading_slashes(path))))
            },
        }
    } else {
        Ok((default_endpoint(), location))
    }
}

fn tail_from(v: &Vec<char>, from: usize) -> (r: Vec<char>)
    requires
        from <= v@.len(),
    ensures
        r@ == v@.subrange(from as int, v@.len() as int),
{
    let mut r: Vec<char> = Vec::new();
    let mut i = from;
    while i < v.len()
        invariant
            from <= i <= v@.len(),
            r@ == v@.subrange(from as int, i as int),
        decreases v@.len() - i,
    {
        r.push(v[i]);
        i = i + 1;
        assert(r@ =~= v@.subrange(from as int, i as int));
    }
    r
}

fn bucket_of_path(path: &str) -> (r: String)
    ensures
        r@ == first_segment(trim_leading_slashes(path@)),
{
    let p = chars_of(path);
    let mut a: usize = 0;
    assert(p@.subrange(0, p@.len() as int) == p@);
    while a < p.len() && p[a] == '/'
        invariant
            a <= p@.len(),
            trim_leading_slashes(p@) == trim_leading_slashes(p@.subrange(a as int, p@.len() as int)),
        decreases p@.len() - a,
    {
        proof {
            let t = p@.subrange(a as int, p@.len() as int);
            assert(t.drop_first() == p@.subrange(a + 1, p@.len() as int));
        }
        a = a + 1;
    }
    let rest = tail_from(&p, a);
    proof {
        assert(trim_leading_slashes(rest@) == rest@);
    }
    let end = find_char_at(rest.as_slice(), '/', 0);
    let mut seg: Vec<char> = Vec::new();
    let mut i: usize = 0;
    while i < end
        invariant
            i <= end <= rest@.len(),
            seg@ == rest@.subrange(0, i as int),
        decreases end - i,
    {
        seg.push(rest[i]);
        i = i + 1;
        assert(seg@ =~= rest@.subrange(0, i as int));
    }
    string_from_chars(seg.as_slice())
}

/// The endpoint and the bucket a location names: `s3://bucket` is a bucket
/// of AWS; an `http` or `https` URL gives the endpoint `scheme://host` and
/// the bucket in the first segment of its path; anything else is a bucket
/// name on AWS.
pub fn parse_s3_location(location: &str) -> (r: Result<(String, String), LocationError>)
    ensures
        match r {
            Ok((e, b)) => s3_location(location@) == Ok::<(Seq<char>, Seq<char>), LocationError>((e@, b@)),
            Err(x) => s3_location(location@) == Err::<(Seq<char>, Seq<char>), LocationError>(x),
        },
{
    let l = chars_of(location);
    let s3 = chars_of("s3://");
    let http = chars_of("http://");
    let https = chars_of("https://");
    proof {
        reveal_strlit("s3://");
        reveal_strlit("http://");
        reveal_strlit("https://");
    }
    if starts_with_chars(l.as_slice(), s3.as_slice()) {
        let bucket = tail_from(&l, 5);
        return Ok((owned("https://s3.amazonaws.com"), string_from_chars(bucket.as_slice())));
    }
    if starts_with_chars(l.as_slice(), http.as_slice()) || starts_with_chars(l.as_slice(), https.as_slice()) {
        match parse_url(location) {
            None => return Err(LocationError::InvalidUrl),
            Some((scheme, host, path)) => {
                let a = concat_str(scheme.as_str(), "://");
                let endpoint = match &host {
                    Some(h) => concat_str(a.as_str(), h.as_str()),
                    None => a,
                };
                proof {
                    if host is None {
                        assert(endpoint@ == scheme@ + "://"@ + Seq::<char>::empty());
                    }
                }
                return Ok((endpoint, bucket_of_path(path.as_str())));
            },
        }
    }
    Ok((owned("https://s3.amazonaws.com"), owned(location)))
}

} // verus!
