//! The per-session URL of every asset a theme serves.

use vstd::prelude::*;

use crate::text::str_eq;

verus! {

/// Session URLs by logical asset path, as plain values.
pub open spec fn url_table(urls: Seq<(String, String)>) -> Seq<(Seq<char>, Seq<char>)> {
    urls.map_values(|e: (String, String)| (e.0@, e.1@))
}

/// The URL of `path`: the first entry for it.
pub open spec fn lookup_url(table: Seq<(Seq<char>, Seq<char>)>, path: Seq<char>) -> Option<
    Seq<char>,
>
    decreases table.len(),
{
    if table.len() == 0 {
        None
    } else if table[0].0 == path {
        Some(table[0].1)
    } else {
        lookup_url(table.drop_first(), path)
    }
}

/// The URL of `path` in `urls`, if it has one.
pub fn find_url(urls: &Vec<(String, String)>, path: &str) -> (r: Option<String>)
    ensures
        match r {
            Some(u) => lookup_url(url_table(urls@), path@) == Some(u@),
            None => lookup_url(url_table(urls@), path@) is None,
        },
{
    let mut i: usize = 0;
    assert(url_table(urls@).skip(0) =~= url_table(urls@));
    while i < urls.len()
        invariant
            i <= urls.len(),
            lookup_url(url_table(urls@), path@) == lookup_url(
                url_table(urls@).skip(i as int),
                path@,
            ),
        decreases urls.len() - i,
    {
        if str_eq(urls[i].0.as_str(), path) {
            assert(url_table(urls@).skip(i as int)[0] == (urls@[i as int].0@, urls@[i as int].1@));
            return Some(urls[i].1.clone());
        }
        assert(url_table(urls@).skip(i as int).drop_first() =~= url_table(urls@).skip(i + 1));
        i = i + 1;
    }
    None
}

} // verus!
