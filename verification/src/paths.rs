//! File system paths as plain values.
//!
//! A [`LocalPath`] is an absolute, normalized path (as produced by
//! canonicalization): a root prefix (`/` on Unix, a drive or verbatim prefix
//! plus separator on Windows) and the sequence of its normal components.
//! The operations below mirror `std::path::Path` on such paths.

use vstd::prelude::*;

use crate::text::{chars_of, concat, push_char, str_eq, string_from_range};

verus! {

/// An absolute, normalized path.
#[derive(Debug, Clone)]
pub struct LocalPath {
    /// Everything before the first normal component, e.g. `/` or `C:\`.
    pub root: String,
    /// The normal components, each non-empty and free of separators.
    pub parts: Vec<String>,
}

/// The value of a [`LocalPath`].
pub struct PathView {
    pub root: Seq<char>,
    pub parts: Seq<Seq<char>>,
}

impl LocalPath {
    /// The root prefix and components as character sequences.
    pub open spec fn spec_view(&self) -> PathView {
        PathView { root: self.root@, parts: self.parts.deep_view() }
    }
}

/// The value of an optional path.
pub open spec fn opt_path(o: Option<LocalPath>) -> Option<PathView> {
    match o {
        Some(p) => Some(p.spec_view()),
        None => None,
    }
}

/// `Path::parent`: the path without its last component, if it has one.
pub open spec fn spec_parent(p: PathView) -> Option<PathView> {
    if p.parts.len() == 0 {
        None
    } else {
        Some(PathView { root: p.root, parts: p.parts.drop_last() })
    }
}

/// `Path::join` of one normal component.
pub open spec fn spec_join(p: PathView, name: Seq<char>) -> PathView {
    PathView { root: p.root, parts: p.parts.push(name) }
}

/// `Path::starts_with`: `base` is a component-wise prefix of `p`.
pub open spec fn path_has_base(p: PathView, base: PathView) -> bool {
    p.root == base.root && base.parts.len() <= p.parts.len() && p.parts.take(
        base.parts.len() as int,
    ) == base.parts
}

/// `parts` joined with `/`.
pub open spec fn join_slash(parts: Seq<Seq<char>>) -> Seq<char>
    decreases parts.len(),
{
    if parts.len() == 0 {
        seq![]
    } else if parts.len() == 1 {
        parts[0]
    } else {
        join_slash(parts.drop_last()) + seq!['/'] + parts.last()
    }
}

/// `parts` joined with `sep`.
pub open spec fn join_sep(parts: Seq<Seq<char>>, sep: char) -> Seq<char>
    decreases parts.len(),
{
    if parts.len() == 0 {
        seq![]
    } else if parts.len() == 1 {
        parts[0]
    } else {
        join_sep(parts.drop_last(), sep) + seq![sep] + parts.last()
    }
}

/// A path written the Windows way: its root ends with a backslash
/// (`C:\`, `\\?\C:\`).
pub open spec fn windows_style(p: PathView) -> bool {
    p.root.len() > 0 && p.root.last() == '\\'
}

/// The separator the path is written with.
pub open spec fn path_separator(p: PathView) -> char {
    if windows_style(p) {
        '\\'
    } else {
        '/'
    }
}

/// `Path::display`: the root followed by the components, separated by the
/// path's separator.
pub open spec fn path_display(p: PathView) -> Seq<char> {
    p.root + join_sep(p.parts, path_separator(p))
}

/// Index of the last `.` in `s`, or -1.
pub open spec fn last_dot(s: Seq<char>) -> int
    decreases s.len(),
{
    if s.len() == 0 {
        -1
    } else if s.last() == '.' {
        s.len() - 1
    } else {
        last_dot(s.drop_last())
    }
}

/// `Path::extension` of a file name: the text after its last `.`, empty when
/// the name has no `.` other than a leading one.
pub open spec fn name_extension(name: Seq<char>) -> Seq<char> {
    let d = last_dot(name);
    if d <= 0 {
        seq![]
    } else {
        name.subrange(d + 1, name.len() as int)
    }
}

/// The extension of a path's last component (empty for the root).
pub open spec fn path_extension(p: PathView) -> Seq<char> {
    if p.parts.len() == 0 {
        seq![]
    } else {
        name_extension(p.parts.last())
    }
}

proof fn lemma_last_dot_bounds(s: Seq<char>)
    ensures
        -1 <= last_dot(s) < s.len(),
        last_dot(s) >= 0 ==> s[last_dot(s)] == '.',
        forall|i: int| last_dot(s) < i < s.len() ==> s[i] != '.',
    decreases s.len(),
{
    if s.len() > 0 && s.last() != '.' {
        lemma_last_dot_bounds(s.drop_last());
        assert forall|i: int| last_dot(s) < i < s.len() implies s[i] != '.' by {
            if i < s.len() - 1 {
                assert(s[i] == s.drop_last()[i]);
            }
        }
    }
}

impl LocalPath {
    /// A copy of this path.
    pub fn duplicate(&self) -> (r: LocalPath)
        ensures
            r.spec_view() == self.spec_view(),
    {
        let parts = self.parts.clone();
        proof {
            assert(parts.deep_view() == self.parts.deep_view());
        }
        LocalPath { root: self.root.clone(), parts }
    }

    /// `Path::parent`.
    pub fn parent(&self) -> (r: Option<LocalPath>)
        ensures
            r matches Some(q) ==> spec_parent(self.spec_view()) == Some(q.spec_view()),
            r is None <==> spec_parent(self.spec_view()) is None,
    {
        if self.parts.len() == 0 {
            None
        } else {
            let mut parts = self.parts.clone();
            proof {
                assert(parts.deep_view() == self.parts.deep_view());
            }
            parts.pop();
            proof {
                assert(parts.deep_view() =~= self.parts.deep_view().drop_last());
            }
            Some(LocalPath { root: self.root.clone(), parts })
        }
    }

    /// `Path::join` of one normal component.
    pub fn join(&self, name: &str) -> (r: LocalPath)
        ensures
            r.spec_view() == spec_join(self.spec_view(), name@),
    {
        let mut parts = self.parts.clone();
        proof {
            assert(parts.deep_view() == self.parts.deep_view());
        }
        parts.push(name.to_owned());
        proof {
            assert(parts.deep_view() =~= self.parts.deep_view().push(name@));
        }
        LocalPath { root: self.root.clone(), parts }
    }

    /// `Path::starts_with`.
    pub fn has_base(&self, base: &LocalPath) -> (r: bool)
        ensures
            r == path_has_base(self.spec_view(), base.spec_view()),
    {
        if !str_eq(self.root.as_str(), base.root.as_str()) {
            return false;
        }
        if base.parts.len() > self.parts.len() {
            return false;
        }
        let mut i: usize = 0;
        while i < base.parts.len()
            invariant
                base.parts.len() <= self.parts.len(),
                i <= base.parts.len(),
                forall|j: int|
                    0 <= j < i ==> self.parts.deep_view()[j] == base.parts.deep_view()[j],
            decreases base.parts.len() - i,
        {
            if !str_eq(self.parts[i].as_str(), base.parts[i].as_str()) {
                assert(self.parts.deep_view().take(base.parts.len() as int)[i as int]
                    != base.parts.deep_view()[i as int]);
                return false;
            }
            i = i + 1;
        }
        assert(self.parts.deep_view().take(base.parts.len() as int) =~= base.parts.deep_view());
        true
    }

    /// Equality of paths.
    pub fn same_as(&self, other: &LocalPath) -> (r: bool)
        ensures
            r == (self.spec_view() == other.spec_view()),
    {
        if self.parts.len() != other.parts.len() {
            return false;
        }
        let r = self.has_base(other);
        proof {
            assert(self.parts.deep_view() =~= self.parts.deep_view().take(
                other.parts.len() as int,
            ));
        }
        r
    }

    /// The extension of the last component (empty when there is none).
    pub fn extension(&self) -> (r: String)
        ensures
            r@ == path_extension(self.spec_view()),
    {
        if self.parts.len() == 0 {
            return String::new();
        }
        let name = chars_of(self.parts[self.parts.len() - 1].as_str());
        proof {
            lemma_last_dot_bounds(name@);
        }
        let mut k: usize = name.len();
        assert(name@.take(k as int) =~= name@);
        while k > 0 && name[k - 1] != '.'
            invariant
                k <= name.len(),
                last_dot(name@) == last_dot(name@.take(k as int)),
            decreases k,
        {
            assert(name@.take(k as int).drop_last() =~= name@.take(k - 1));
            k = k - 1;
        }
        proof {
            if k > 0 {
                assert(name@.take(k as int).last() == '.');
            } else {
                assert(name@.take(0) =~= Seq::<char>::empty());
            }
        }
        if k <= 1 {
            String::new()
        } else {
            string_from_range(&name, k, name.len())
        }
    }

    /// The components after `base`, joined with `/` (`strip_prefix` rendered as
    /// a URL path).
    pub fn relative_to(&self, base: &LocalPath) -> (r: String)
        requires
            path_has_base(self.spec_view(), base.spec_view()),
        ensures
            r@ == join_slash(self.spec_view().parts.skip(base.parts.len() as int)),
    {
        let mut r = String::new();
        let start = base.parts.len();
        let mut i = start;
        proof {
            assert(self.parts.deep_view().subrange(start as int, start as int) =~= Seq::<
                Seq<char>,
            >::empty());
        }
        while i < self.parts.len()
            invariant
                start <= i <= self.parts.len(),
                r@ == join_slash(self.parts.deep_view().subrange(start as int, i as int)),
            decreases self.parts.len() - i,
        {
            let ghost prev = self.parts.deep_view().subrange(start as int, i as int);
            if i > start {
                push_char(&mut r, '/');
            }
            r.append(self.parts[i].as_str());
            i = i + 1;
            proof {
                let next = self.parts.deep_view().subrange(start as int, i as int);
                assert(next.drop_last() =~= prev);
                assert(next.last() == self.parts.deep_view()[i - 1]);
                if prev.len() == 0 {
                    assert(r@ =~= next[0]);
                } else {
                    assert(r@ =~= join_slash(prev) + seq!['/'] + next.last());
                }
            }
        }
        assert(self.parts.deep_view().subrange(start as int, self.parts.len() as int)
            =~= self.parts.deep_view().skip(start as int));
        r
    }
}

impl LocalPath {
    /// Whether the path is written the Windows way.
    pub fn uses_backslash(&self) -> (r: bool)
        ensures
            r == windows_style(self.spec_view()),
    {
        let v = chars_of(self.root.as_str());
        v.len() > 0 && v[v.len() - 1] == '\\'
    }

    /// The path as `Path::display` shows it.
    pub fn display(&self) -> (r: String)
        ensures
            r@ == path_display(self.spec_view()),
    {
        let sep = if self.uses_backslash() {
            '\\'
        } else {
            '/'
        };
        let ghost parts = self.parts.deep_view();
        let mut body = String::new();
        let mut i: usize = 0;
        while i < self.parts.len()
            invariant
                i <= self.parts.len(),
                parts == self.parts.deep_view(),
                body@ == join_sep(parts.subrange(0, i as int), sep),
            decreases self.parts.len() - i,
        {
            let ghost prev = parts.subrange(0, i as int);
            if i > 0 {
                push_char(&mut body, sep);
            }
            body.append(self.parts[i].as_str());
            i = i + 1;
            proof {
                let next = parts.subrange(0, i as int);
                assert(next.drop_last() =~= prev);
                assert(next.last() == parts[i - 1]);
                if prev.len() == 0 {
                    assert(body@ =~= next[0]);
                } else {
                    assert(body@ =~= join_sep(prev, sep) + seq![sep] + next.last());
                }
            }
        }
        assert(parts.subrange(0, self.parts.len() as int) =~= parts);
        let r = concat(self.root.as_str(), body.as_str());
        r
    }
}

/// A path separator: `/`, and on Windows also `\\`.
pub open spec fn is_separator(c: char, windows: bool) -> bool {
    c == '/' || (windows && c == '\\')
}

/// An ASCII letter.
pub open spec fn is_ascii_letter(c: char) -> bool {
    ('a' <= c && c <= 'z') || ('A' <= c && c <= 'Z')
}

/// A `..` component starts at index `i` of `rel`.
pub open spec fn dotdot_at(rel: Seq<char>, i: int, windows: bool) -> bool {
    0 <= i && i + 2 <= rel.len() && rel[i] == '.' && rel[i + 1] == '.' && (i == 0 || is_separator(
        rel[i - 1],
        windows,
    )) && (i + 2 == rel.len() || is_separator(rel[i + 2], windows))
}

/// A relative path that leaves its base: one with a root (a leading
/// separator), on Windows one with a drive prefix (`C:`), or one with a `..`
/// component.
pub open spec fn escapes_base(rel: Seq<char>, windows: bool) -> bool {
    ||| (rel.len() > 0 && is_separator(rel[0], windows))
    ||| (windows && rel.len() >= 2 && is_ascii_letter(rel[0]) && rel[1] == ':')
    ||| exists|i: int| #[trigger] dotdot_at(rel, i, windows)
}

fn is_sep(c: char, windows: bool) -> (r: bool)
    ensures
        r == is_separator(c, windows),
{
    c == '/' || (windows && c == '\\')
}

fn is_letter(c: char) -> (r: bool)
    ensures
        r == is_ascii_letter(c),
{
    ('a' <= c && c <= 'z') || ('A' <= c && c <= 'Z')
}

/// Whether the relative path `rel` leaves the directory it is joined to,
/// read with Windows path rules when `windows` holds.
pub fn relative_path_escapes(rel: &str, windows: bool) -> (r: bool)
    ensures
        r == escapes_base(rel@, windows),
{
    let v = chars_of(rel);
    let n = v.len();
    if n > 0 && is_sep(v[0], windows) {
        return true;
    }
    if windows && n >= 2 && is_letter(v[0]) && v[1] == ':' {
        return true;
    }
    let mut i: usize = 0;
    while n >= 2 && i <= n - 2
        invariant
            n == v.len(),
            v@ == rel@,
            !(n > 0 && is_separator(v@[0], windows)),
            !(windows && n >= 2 && is_ascii_letter(v@[0]) && v@[1] == ':'),
            forall|j: int| 0 <= j < i ==> !#[trigger] dotdot_at(v@, j, windows),
        decreases n - i,
    {
        if v[i] == '.' && v[i + 1] == '.' && (i == 0 || is_sep(v[i - 1], windows)) && (i + 2 == n
            || is_sep(v[i + 2], windows)) {
            assert(dotdot_at(v@, i as int, windows));
            return true;
        }
        i = i + 1;
    }
    false
}

} // verus!
