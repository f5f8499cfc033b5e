use vstd::prelude::*;

verus! {

/// The cross-origin headers of every response: the request's origin is
/// echoed back, and any header, any method and credentials are allowed.
pub open spec fn cors_policy(origin: Seq<char>) -> Seq<(Seq<char>, Seq<char>)> {
    seq![
        ("access-control-allow-origin"@, origin),
        ("access-control-allow-headers"@, "*"@),
        ("access-control-allow-methods"@, "*"@),
        ("access-control-allow-credentials"@, "true"@),
    ]
}

/// The header names and values to set on a response to a request from
/// `origin` (empty when the request named none).
pub fn cors_headers(origin: &str) -> (r: Vec<(String, String)>)
    ensures
        r@.map_values(|p: (String, String)| (p.0@, p.1@)) == cors_policy(origin@),
{
    let mut r: Vec<(String, String)> = Vec::new();
    r.push(("access-control-allow-origin".to_owned(), origin.to_owned()));
    r.push(("access-control-allow-headers".to_owned(), "*".to_owned()));
    r.push(("access-control-allow-methods".to_owned(), "*".to_owned()));
    r.push(("access-control-allow-credentials".to_owned(), "true".to_owned()));
    assert(r@.map_values(|p: (String, String)| (p.0@, p.1@)) =~= cors_policy(origin@));
    r
}

} // verus!
