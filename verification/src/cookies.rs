//! Lookup of a cookie in the name/value pairs a response carried.
//!
//! The poll endpoint hands the CSRF token back as a `Set-Cookie` header
//! named `bili_jct`; the transport layer gives the flow the response's
//! cookies as name/value pairs, and the flow picks that one out.

use vstd::prelude::*;

verus! {

/// Name of the session cookie that carries the CSRF token.
pub const CSRF_COOKIE: &'static str = "bili_jct";

/// The pairs of a cookie jar as sequences of characters.
pub open spec fn jar_view(jar: Seq<(String, String)>) -> Seq<(Seq<char>, Seq<char>)> {
    jar.map_values(|pair: (String, String)| (pair.0@, pair.1@))
}

/// The value of the first pair named `name` at or after position `i`,
/// or `None` when no pair from there on is named so.
pub open spec fn lookup_from(
    jar: Seq<(Seq<char>, Seq<char>)>,
    name: Seq<char>,
    i: int,
) -> Option<Seq<char>>
    decreases jar.len() - i,
{
    if i < 0 || i >= jar.len() {
        None
    } else if jar[i].0 == name {
        Some(jar[i].1)
    } else {
        lookup_from(jar, name, i + 1)
    }
}

/// The value of the first pair named `name`, or `None` when no pair is
/// named so.
pub open spec fn lookup(jar: Seq<(Seq<char>, Seq<char>)>, name: Seq<char>) -> Option<Seq<char>> {
    lookup_from(jar, name, 0)
}

/// Returns the value of the first cookie named `name`, or `None` when
/// the jar holds no cookie of that name.
pub fn find_cookie(jar: &Vec<(String, String)>, name: &str) -> (r: Option<String>)
    ensures
        r.deep_view() == lookup(jar_view(jar@), name@),
{
    let wanted: String = name.to_owned();
    let ghost jv = jar_view(jar@);
    let mut i: usize = 0;
    while i < jar.len()
        invariant
            0 <= i <= jar.len(),
            jv == jar_view(jar@),
            jv.len() == jar@.len(),
            wanted@ == name@,
            lookup(jv, name@) == lookup_from(jv, name@, i as int),
        decreases jar.len() - i,
    {
        if jar[i].0 == wanted {
            assert(jv[i as int].0 == name@);
            return Some(jar[i].1.clone());
        }
        assert(jv[i as int].0 != name@);
        assert(lookup_from(jv, name@, i as int) == lookup_from(jv, name@, i + 1));
        i += 1;
    }
    assert(lookup_from(jv, name@, i as int) is None);
    None
}

/// Returns the CSRF token set by a response: the value of its first
/// `bili_jct` cookie, if any.
pub fn find_csrf_cookie(jar: &Vec<(String, String)>) -> (r: Option<String>)
    ensures
        r.deep_view() == lookup(jar_view(jar@), CSRF_COOKIE@),
{
    find_cookie(jar, CSRF_COOKIE)
}

} // verus!
