use vstd::prelude::*;
use vstd::string::StrSliceExecFns;

use crate::errors::PipelineError;

verus! {

/// Whether the scheme separator `://` stands at index `i` of `s`.
pub open spec fn sep_at(s: Seq<char>, i: int) -> bool {
    0 <= i && i + 3 <= s.len() && s[i] == ':' && s[i + 1] == '/' && s[i + 2] == '/'
}

/// Index of the first scheme separator at or after `i`, if any.
pub open spec fn first_sep_from(s: Seq<char>, i: int) -> Option<int>
    decreases s.len() - i,
{
    if i < 0 || i + 3 > s.len() {
        None
    } else if sep_at(s, i) {
        Some(i)
    } else {
        first_sep_from(s, i + 1)
    }
}

/// Index of the first `/` at or after `i`, if any.
pub open spec fn first_slash_from(s: Seq<char>, i: int) -> Option<int>
    decreases s.len() - i,
{
    if i < 0 || i >= s.len() {
        None
    } else if s[i] == '/' {
        Some(i)
    } else {
        first_slash_from(s, i + 1)
    }
}

/// How a storage location string splits into a container and a key: the
/// scheme runs up to the first `://`, the container up to the next `/`, and
/// the key is the rest. The split exists exactly when scheme, container and
/// key are all non-empty; otherwise the location is malformed.
pub open spec fn parse_location_spec(s: Seq<char>) -> Option<(Seq<char>, Seq<char>)> {
    match first_sep_from(s, 0) {
        None => None,
        Some(i) => if i == 0 {
            None
        } else {
            match first_slash_from(s, i + 3) {
                None => None,
                Some(j) => if j == i + 3 || j + 1 >= s.len() {
                    None
                } else {
                    Some((s.subrange(i + 3, j), s.subrange(j + 1, s.len() as int)))
                },
            }
        },
    }
}

proof fn lemma_first_sep_step(s: Seq<char>, i: int)
    requires
        0 <= i,
        i + 3 <= s.len(),
        !sep_at(s, i),
    ensures
        first_sep_from(s, i) == first_sep_from(s, i + 1),
{
}

proof fn lemma_first_slash_step(s: Seq<char>, i: int)
    requires
        0 <= i < s.len(),
        s[i] != '/',
    ensures
        first_slash_from(s, i) == first_slash_from(s, i + 1),
{
}

/// Splits a storage location of the form `scheme://container/key` into its
/// container and key. A string without that shape — no `://`, an empty
/// scheme, an empty container, or an empty key — is rejected as
/// `MalformedLocation`, before any use of the location.
pub fn parse_s3_uri(uri: &str) -> (r: Result<(&str, &str), PipelineError>)
    ensures
        match r {
            Ok((container, key)) => parse_location_spec(uri@) == Some((container@, key@)),
            Err(e) => parse_location_spec(uri@) is None && e == PipelineError::MalformedLocation,
        },
{
    let n = uri.unicode_len();
    let mut i: usize = 0;
    loop
        invariant
            i <= n,
            n == uri@.len(),
            first_sep_from(uri@, 0) == first_sep_from(uri@, i as int),
        ensures
            i + 3 <= n,
            sep_at(uri@, i as int),
            first_sep_from(uri@, 0) == Some(i as int),
        decreases n - i,
    {
        if n < 3 || i > n - 3 {
            assert(first_sep_from(uri@, 0) is None);
            return Err(PipelineError::MalformedLocation);
        }
        if uri.get_char(i) == ':' && uri.get_char(i + 1) == '/' && uri.get_char(i + 2) == '/' {
            assert(sep_at(uri@, i as int));
            break;
        }
        proof {
            lemma_first_sep_step(uri@, i as int);
        }
        i += 1;
    }
    if i == 0 {
        return Err(PipelineError::MalformedLocation);
    }
    let mut j: usize = i + 3;
    loop
        invariant
            i + 3 <= j <= n,
            n == uri@.len(),
            first_sep_from(uri@, 0) == Some(i as int),
            i > 0,
            first_slash_from(uri@, i as int + 3) == first_slash_from(uri@, j as int),
        ensures
            i + 3 <= j < n,
            uri@[j as int] == '/',
            first_slash_from(uri@, i as int + 3) == Some(j as int),
        decreases n - j,
    {
        if j >= n {
            assert(first_slash_from(uri@, i as int + 3) is None);
            return Err(PipelineError::MalformedLocation);
        }
        if uri.get_char(j) == '/' {
            break;
        }
        proof {
            lemma_first_slash_step(uri@, j as int);
        }
        j += 1;
    }
    if j == i + 3 || j + 1 >= n {
        return Err(PipelineError::MalformedLocation);
    }
    let container = uri.substring_char(i + 3, j);
    let key = uri.substring_char(j + 1, n);
    Ok((container, key))
}

} // verus!
