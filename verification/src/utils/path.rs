//! Path arithmetic on paths held as text, through `std::path`.
//!
//! Paths are kept as `String`s in this library; the few `std::path` operations
//! that the service needs are reached through the trusted wrappers below.
use vstd::prelude::*;

verus! {

/// Position of the last `'.'` in `p` that no `'/'` follows, or `-1` if there is none.
pub open spec fn trailing_dot(p: Seq<char>) -> int
    decreases p.len(),
{
    if p.len() == 0 {
        -1
    } else if p.last() == '.' {
        p.len() - 1
    } else if p.last() == '/' {
        -1
    } else {
        trailing_dot(p.drop_last())
    }
}

/// The extension of `p` in the plain case: the text after the last `'.'` of the
/// final component, when that text is nonempty and the dot is neither the first
/// character of the path nor the first character of its final component.
pub open spec fn plain_extension(p: Seq<char>) -> Option<Seq<char>> {
    let i = trailing_dot(p);
    if 0 < i && i + 1 < p.len() && p[i - 1] != '/' {
        Some(p.subrange(i + 1, p.len() as int))
    } else {
        None
    }
}

/// The text after the last `'/'` of `p` (all of `p` if it holds none).
pub open spec fn last_segment(p: Seq<char>) -> Seq<char>
    decreases p.len(),
{
    if p.len() == 0 {
        p
    } else if p.last() == '/' {
        Seq::empty()
    } else {
        last_segment(p.drop_last()).push(p.last())
    }
}

/// The final component of `p` in the plain case: the text after the last `'/'`,
/// when it is nonempty and is neither `.` nor `..`.
pub open spec fn plain_file_name(p: Seq<char>) -> Option<Seq<char>> {
    let s = last_segment(p);
    if s.len() > 0 && s != seq!['.'] && s != seq!['.', '.'] {
        Some(s)
    } else {
        None
    }
}

/// What `PathBuf::push` makes of `base` extended by `rel` with Unix separators:
/// an absolute `rel` replaces `base`; otherwise a `'/'` is put between the two
/// unless `base` is empty or already ends with one.
pub open spec fn joined(base: Seq<char>, rel: Seq<char>) -> Seq<char> {
    if rel.len() > 0 && rel[0] == '/' {
        rel
    } else if base.len() == 0 || base.last() == '/' {
        base + rel
    } else {
        base + seq!['/'] + rel
    }
}

/// The trailing dot of `q.e` is the one before `e` when `e` holds neither
/// dots nor slashes.
pub proof fn lemma_trailing_dot_before(q: Seq<char>, e: Seq<char>)
    requires
        forall|k: int| 0 <= k < e.len() ==> e[k] != '.' && e[k] != '/',
    ensures
        trailing_dot(q + seq!['.'] + e) == q.len(),
    decreases e.len(),
{
    let p = q + seq!['.'] + e;
    if e.len() == 0 {
        assert(p.last() == '.');
    } else {
        lemma_trailing_dot_before(q, e.drop_last());
        assert(p.drop_last() =~= q + seq!['.'] + e.drop_last());
        assert(p.last() == e[e.len() - 1]);
    }
}

/// A path `q.e`, with `q` nonempty and not ending in a slash and `e` a
/// nonempty text without dots or slashes, has the plain extension `e`.
pub proof fn lemma_plain_extension(q: Seq<char>, e: Seq<char>)
    requires
        q.len() > 0,
        q.last() != '/',
        e.len() > 0,
        forall|k: int| 0 <= k < e.len() ==> e[k] != '.' && e[k] != '/',
    ensures
        plain_extension(q + seq!['.'] + e) == Some(e),
{
    let p = q + seq!['.'] + e;
    lemma_trailing_dot_before(q, e);
    assert(p[q.len() - 1] == q.last());
    assert(p.subrange(q.len() as int + 1, p.len() as int) =~= e);
}

/// Whatever `base` is, `joined(base, rel)` ends with `rel`.
pub proof fn lemma_joined_ends_with(base: Seq<char>, rel: Seq<char>)
    ensures
        exists|head: Seq<char>| joined(base, rel) == #[trigger] (head + rel),
{
    if rel.len() > 0 && rel[0] == '/' {
        assert(joined(base, rel) =~= Seq::<char>::empty() + rel);
    } else if base.len() == 0 || base.last() == '/' {
        assert(joined(base, rel) == base + rel);
    } else {
        assert(joined(base, rel) == (base + seq!['/']) + rel);
    }
}

/// The final segment of `head + rel` is `rel` when `head` is empty or ends in
/// a slash and `rel` holds no slash.
pub proof fn lemma_last_segment_after_slash(head: Seq<char>, rel: Seq<char>)
    requires
        head.len() == 0 || head.last() == '/',
        forall|k: int| 0 <= k < rel.len() ==> rel[k] != '/',
    ensures
        last_segment(head + rel) == rel,
    decreases rel.len(),
{
    let p = head + rel;
    if rel.len() == 0 {
        assert(p =~= head);
        if head.len() > 0 {
            assert(p.last() == '/');
        }
    } else {
        lemma_last_segment_after_slash(head, rel.drop_last());
        assert(p.drop_last() =~= head + rel.drop_last());
        assert(p.last() == rel[rel.len() - 1]);
        assert(rel.drop_last().push(rel[rel.len() - 1]) =~= rel);
    }
}

/// Joining a nonempty relative name without slashes, other than `.` and `..`,
/// gives a path whose final component, in the plain case, is that name.
pub proof fn lemma_joined_file_name(base: Seq<char>, rel: Seq<char>)
    requires
        rel.len() > 0,
        rel != seq!['.'],
        rel != seq!['.', '.'],
        forall|k: int| 0 <= k < rel.len() ==> rel[k] != '/',
    ensures
        plain_file_name(joined(base, rel)) == Some(rel),
{
    if base.len() == 0 || base.last() == '/' {
        lemma_last_segment_after_slash(base, rel);
    } else {
        let head = base + seq!['/'];
        assert(joined(base, rel) == head + rel);
        lemma_last_segment_after_slash(head, rel);
    }
}

/// Whether `s` holds no `'.'`.
pub open spec fn dotless(s: Seq<char>) -> bool {
    forall|k: int| 0 <= k < s.len() ==> s[k] != '.'
}

/// The plain case of a final component without extension: it holds no dot,
/// or its only dot is its first character.
pub open spec fn plain_without_extension(p: Seq<char>) -> bool {
    plain_file_name(p) matches Some(name) && (dotless(name) || (name[0] == '.' && dotless(
        name.drop_first(),
    )))
}

/// The parent of `p` in the plain case, where the final component is an
/// ordinary name: the text before the `'/'` that precedes it (`/` when that
/// is the root, empty when there is no `'/'`), provided that text does not
/// itself end in a `'/'` or a `.` component.
pub open spec fn plain_parent(p: Seq<char>) -> Option<Seq<char>> {
    let k = p.len() - last_segment(p).len();
    if plain_file_name(p) is None {
        None
    } else if k == 0 {
        Some(Seq::empty())
    } else if k == 1 {
        Some(seq!['/'])
    } else {
        let q = p.subrange(0, k - 1);
        if q.last() != '/' && last_segment(q) != seq!['.'] {
            Some(q)
        } else {
            None
        }
    }
}

/// What a path buffer holding `p` holds after `PathBuf::pop`: its parent, or
/// `p` itself when it has none.
pub open spec fn popped(p: Seq<char>) -> Seq<char> {
    match path_parent_of(p) {
        Some(parent) => parent,
        None => p,
    }
}

/// How a path is joined: an absolute name replaces the base; a relative one
/// follows the base after exactly one `'/'`, which is not doubled when the
/// base already ends with one and is left out after an empty base.
pub proof fn lemma_join(base: Seq<char>, rel: Seq<char>)
    ensures
        rel.len() > 0 && rel[0] == '/' ==> joined(base, rel) == rel,
        !(rel.len() > 0 && rel[0] == '/') && base.len() > 0 && base.last() != '/' ==> joined(
            base,
            rel,
        ) == base + seq!['/'] + rel,
        !(rel.len() > 0 && rel[0] == '/') && base.len() > 0 && base.last() == '/' ==> joined(
            base,
            rel,
        ) == base + rel,
        !(rel.len() > 0 && rel[0] == '/') && base.len() == 0 ==> joined(base, rel) == rel,
{
    if base.len() == 0 {
        assert(base + rel =~= rel);
    }
}

/// Name for what `std::path::Path::extension` yields for a path given as text.
pub uninterp spec fn path_extension_of(path: Seq<char>) -> Option<Seq<char>>;

/// Name for what `std::path::Path::file_name` yields for a path given as text.
pub uninterp spec fn path_file_name_of(path: Seq<char>) -> Option<Seq<char>>;

/// Name for what `std::path::Path::parent` yields for a path given as text.
pub uninterp spec fn path_parent_of(path: Seq<char>) -> Option<Seq<char>>;

/// Calls `std::path::Path::extension` on `path`, as text.
///
/// Claims that the result is `path_extension_of(path)`, and, as the
/// documentation says, that in the plain case it is "the portion of the file
/// name after the final `.`", and that there is none when the file name has
/// no embedded dot or "begins with `.` and has no other `.`s within".  What
/// the call gives in the other cases (`..`, a trailing dot, a trailing `/`) is
/// left to the name.
#[verifier::external_body]
pub(crate) fn path_extension(path: &str) -> (r: Option<String>)
    ensures
        r.deep_view() == path_extension_of(path@),
        plain_extension(path@) is Some ==> r.deep_view() == plain_extension(path@),
        plain_without_extension(path@) ==> r is None,
{
    match std::path::Path::new(path).extension() {
        Some(ext) => Some(ext.to_string_lossy().into_owned()),
        None => None,
    }
}

/// Calls `std::path::Path::file_name` on `path`, as text.
///
/// Claims that the result is `path_file_name_of(path)` and that, as the
/// documentation says ("the final component of the `Path`"), in the plain case
/// it is the text after the last `'/'`.
#[verifier::external_body]
pub(crate) fn path_file_name(path: &str) -> (r: Option<String>)
    ensures
        r.deep_view() == path_file_name_of(path@),
        plain_file_name(path@) is Some ==> r.deep_view() == plain_file_name(path@),
{
    match std::path::Path::new(path).file_name() {
        Some(name) => Some(name.to_string_lossy().into_owned()),
        None => None,
    }
}

/// Name for whether `std::path::Path`'s `==` holds of two paths given as text
/// (it compares their components).
pub uninterp spec fn paths_equal_of(a: Seq<char>, b: Seq<char>) -> bool;

/// Calls `==` on `std::path::Path`s made of `a` and `b`.
///
/// Claims that the result is `paths_equal_of(a, b)` and that the same text
/// makes equal paths; how paths of other texts compare (by components) is
/// left to the name.
#[verifier::external_body]
pub(crate) fn same_path(a: &str, b: &str) -> (r: bool)
    ensures
        r == paths_equal_of(a@, b@),
        a@ == b@ ==> r,
{
    std::path::Path::new(a) == std::path::Path::new(b)
}

/// Calls `std::path::Path::parent` on `path`, as text.
///
/// Claims that the result is `path_parent_of(path)`; that, as the
/// documentation shows (`/foo/bar` to `/foo`, `/foo` to `/`, `foo` to the
/// empty path), in the plain case it is the path without its final
/// component; and that there is a parent whenever the final component is an
/// ordinary name, since the documentation gives none only for a path that
/// "terminates in a root or a prefix, or if it's the empty string".  In the
/// other cases the parent is left to the name.
#[verifier::external_body]
pub(crate) fn path_parent(path: &str) -> (r: Option<String>)
    ensures
        r.deep_view() == path_parent_of(path@),
        plain_parent(path@) is Some ==> r.deep_view() == plain_parent(path@),
        plain_file_name(path@) is Some ==> r is Some,
{
    match std::path::Path::new(path).parent() {
        Some(parent) => Some(parent.to_string_lossy().into_owned()),
        None => None,
    }
}

/// What `PathBuf::pop` does to a buffer holding `path`: as its documentation
/// says, the buffer is truncated to the parent when there is one and left as
/// it is otherwise.
pub fn path_pop(path: &str) -> (r: String)
    ensures
        r@ == popped(path@),
        plain_parent(path@) matches Some(parent) ==> r@ == parent,
{
    match path_parent(path) {
        Some(parent) => parent,
        None => String::from_str(path),
    }
}

/// `base` extended by `rel` as `PathBuf::push` does with Unix separators: an
/// absolute `rel` replaces `base`; otherwise `rel` is appended after a `'/'`,
/// which is left out when `base` is empty or already ends with one.
pub fn path_join(base: &str, rel: &str) -> (r: String)
    ensures
        r@ == joined(base@, rel@),
{
    let rel_len = rel.unicode_len();
    if rel_len > 0 && rel.get_char(0) == '/' {
        return String::from_str(rel);
    }
    let base_len = base.unicode_len();
    let mut out = String::from_str(base);
    if base_len > 0 && base.get_char(base_len - 1) != '/' {
        out.append("/");
        proof {
            reveal_strlit("/");
            assert("/"@ =~= seq!['/']);
        }
    }
    out.append(rel);
    proof {
        if !(rel@.len() > 0 && rel@[0] == '/') && (base@.len() == 0 || base@.last() == '/') {
            assert(out@ =~= base@ + rel@);
        }
    }
    out
}

} // verus!
