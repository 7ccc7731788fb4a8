//! Paths as `/`-separated strings.
//!
//! A path is a string. Its file name is what follows the last separator;
//! the names `.` and `..` and the empty name are no file names. The extension
//! of a file name is what follows its last dot, unless that dot leads the
//! name.

use crate::text::{append, find_last, last_index_of, lemma_last_index_is, lemma_last_index_of, str_eq};
use vstd::prelude::*;

verus! {

/// Where the file name of `p` begins.
pub open spec fn file_name_start(p: Seq<char>) -> int {
    last_index_of(p, '/') + 1
}

/// What follows the last separator of `p`.
pub open spec fn file_name(p: Seq<char>) -> Seq<char> {
    p.subrange(file_name_start(p), p.len() as int)
}

/// Whether `p` ends in the name of a file.
pub open spec fn has_file_name(p: Seq<char>) -> bool {
    let name = file_name(p);
    name.len() > 0 && name != seq!['.'] && name != seq!['.', '.']
}

/// Position in `p` of the dot that begins its extension, or -1.
pub open spec fn extension_dot(p: Seq<char>) -> int {
    let dot = last_index_of(file_name(p), '.');
    if has_file_name(p) && dot > 0 {
        file_name_start(p) + dot
    } else {
        -1
    }
}

/// The extension of `p`, without its dot.
pub open spec fn extension(p: Seq<char>) -> Option<Seq<char>> {
    if extension_dot(p) >= 0 {
        Some(p.subrange(extension_dot(p) + 1, p.len() as int))
    } else {
        None
    }
}

/// `p` without its extension and the dot before it.
pub open spec fn stem(p: Seq<char>) -> Seq<char> {
    if extension_dot(p) >= 0 {
        p.subrange(0, extension_dot(p))
    } else {
        p
    }
}

/// `p` with its extension replaced by `ext`, or given one where it has none.
/// A path without a file name stays as it is.
pub open spec fn with_extension(p: Seq<char>, ext: Seq<char>) -> Seq<char> {
    if !has_file_name(p) {
        p
    } else if ext.len() == 0 {
        stem(p)
    } else {
        stem(p) + seq!['.'] + ext
    }
}

/// The directory that holds `p`: what stands before its last separator, the
/// root for a name directly under it, nothing for a bare name.
pub open spec fn parent(p: Seq<char>) -> Seq<char> {
    let sep = last_index_of(p, '/');
    if sep < 0 {
        Seq::empty()
    } else if sep == 0 {
        seq!['/']
    } else {
        p.subrange(0, sep)
    }
}

/// Whether `p` starts at the root.
pub open spec fn is_absolute(p: Seq<char>) -> bool {
    p.len() > 0 && p[0] == '/'
}

/// `rel` taken from the directory `base`; an absolute `rel` stands alone.
pub open spec fn join(base: Seq<char>, rel: Seq<char>) -> Seq<char> {
    if is_absolute(rel) {
        rel
    } else if base.len() == 0 || base.last() == '/' {
        base + rel
    } else {
        base + seq!['/'] + rel
    }
}

/// Whether `ext` can stand as an extension: not empty, no separator, no dot.
pub open spec fn valid_extension(ext: Seq<char>) -> bool {
    ext.len() > 0 && forall|i: int| 0 <= i < ext.len() ==> ext[i] != '/' && ext[i] != '.'
}

/// Where the parts of a path lie, relative to each other.
pub proof fn lemma_layout(p: Seq<char>)
    ensures
        0 <= file_name_start(p) <= p.len(),
        forall|i: int| 0 <= i < file_name(p).len() ==> file_name(p)[i] != '/',
        -1 <= extension_dot(p) < p.len(),
        extension_dot(p) >= 0 ==> file_name_start(p) < extension_dot(p) && p[extension_dot(p)]
            == '.',
        forall|i: int| extension_dot(p) < i < p.len() && extension_dot(p) >= 0 ==> p[i] != '.',
{
    lemma_last_index_of(p, '/');
    lemma_last_index_of(file_name(p), '.');
    let start = file_name_start(p);
    assert forall|i: int| 0 <= i < file_name(p).len() implies file_name(p)[i] != '/' by {
        assert(file_name(p)[i] == p[start + i]);
    }
    if extension_dot(p) >= 0 {
        let dot = last_index_of(file_name(p), '.');
        assert(file_name(p)[dot] == p[start + dot]);
        assert forall|i: int| extension_dot(p) < i < p.len() implies p[i] != '.' by {
            assert(file_name(p)[i - start] == p[i]);
        }
    }
}

/// Giving a path an extension makes that its extension, and leaves the stem.
pub proof fn lemma_with_extension(p: Seq<char>, ext: Seq<char>)
    requires
        has_file_name(p),
        valid_extension(ext),
    ensures
        has_file_name(with_extension(p, ext)),
        extension(with_extension(p, ext)) == Some(ext),
        stem(with_extension(p, ext)) == stem(p),
{
    lemma_layout(p);
    lemma_last_index_of(p, '/');
    let q = with_extension(p, ext);
    let s = stem(p);
    let start = file_name_start(p);
    assert(q == s + seq!['.'] + ext);
    assert(s.len() > start) by {
        if extension_dot(p) < 0 {
            assert(file_name(p).len() > 0);
        }
    }
    assert forall|i: int| 0 <= i < s.len() implies q[i] == p[i] by {}
    // the last separator of q is that of p
    assert(last_index_of(q, '/') == start - 1) by {
        assert forall|j: int| start - 1 < j < q.len() implies q[j] != '/' by {
            if j < s.len() {
                assert(file_name(p)[j - start] == p[j]);
            } else if j > s.len() {
                assert(q[j] == ext[j - s.len() - 1]);
            }
        }
        lemma_last_index_is(q, '/', start - 1);
    }
    let name = file_name(q);
    let d = s.len() - start;
    assert(name.len() == d + 1 + ext.len());
    assert(name[d] == q[s.len() as int]);
    assert(last_index_of(name, '.') == d) by {
        assert forall|j: int| d < j < name.len() implies name[j] != '.' by {
            assert(name[j] == ext[j - d - 1]);
        }
        lemma_last_index_is(name, '.', d);
    }
    assert(name != seq!['.']);
    assert(name != seq!['.', '.']) by {
        assert(name.len() >= 2);
        if name.len() == 2 {
            assert(name[1] == ext[0]);
        }
    }
    assert(extension_dot(q) == s.len());
    assert(q.subrange(s.len() as int + 1, q.len() as int) =~= ext);
    assert(q.subrange(0, s.len() as int) =~= s);
}

/// Giving a path the extension it has changes nothing.
pub proof fn lemma_with_own_extension(p: Seq<char>)
    requires
        extension(p) is Some,
        extension(p).unwrap().len() > 0,
    ensures
        with_extension(p, extension(p).unwrap()) == p,
{
    lemma_layout(p);
    let dot = extension_dot(p);
    assert(p.subrange(0, dot) + seq!['.'] + p.subrange(dot + 1, p.len() as int) =~= p);
}

/// The last component of a path.
pub fn get_file_name(p: &str) -> (r: String)
    ensures
        r@ == file_name(p@),
{
    let n: usize = p.unicode_len();
    proof {
        lemma_last_index_of(p@, '/');
    }
    let start: usize = match find_last(p, '/') {
        Some(i) => i + 1,
        None => 0,
    };
    p.substring_char(start, n).to_owned()
}

/// Position of the dot that begins the extension of `p`, if it has one.
fn find_extension_dot(p: &str) -> (r: Option<usize>)
    ensures
        match r {
            Some(i) => i == extension_dot(p@),
            None => extension_dot(p@) == -1,
        },
        has_file_name(p@) || r is None,
{
    let n: usize = p.unicode_len();
    proof {
        lemma_last_index_of(p@, '/');
        lemma_layout(p@);
    }
    let start: usize = match find_last(p, '/') {
        Some(i) => i + 1,
        None => 0,
    };
    let name = p.substring_char(start, n);
    if !get_has_file_name(p) {
        return None;
    }
    match find_last(name, '.') {
        Some(d) => if d > 0 {
            Some(start + d)
        } else {
            None
        },
        None => None,
    }
}

/// Whether `p` ends in the name of a file.
pub fn get_has_file_name(p: &str) -> (r: bool)
    ensures
        r == has_file_name(p@),
{
    let name = get_file_name(p);
    proof {
        reveal_strlit(".");
        reveal_strlit("..");
        assert("."@ =~= seq!['.']);
        assert(".."@ =~= seq!['.', '.']);
    }
    name.as_str().unicode_len() > 0 && !str_eq(name.as_str(), ".") && !str_eq(name.as_str(), "..")
}

/// The extension of `p`, without its dot.
pub fn get_extension(p: &str) -> (r: Option<String>)
    ensures
        match r {
            Some(e) => extension(p@) == Some(e@),
            None => extension(p@) is None,
        },
{
    let n: usize = p.unicode_len();
    proof {
        lemma_layout(p@);
    }
    match find_extension_dot(p) {
        Some(dot) => Some(p.substring_char(dot + 1, n).to_owned()),
        None => None,
    }
}

/// `p` with its extension replaced by `ext`.
pub fn set_extension(p: &str, ext: &str) -> (r: String)
    ensures
        r@ == with_extension(p@, ext@),
{
    proof {
        lemma_layout(p@);
        reveal_strlit(".");
        assert("."@ =~= seq!['.']);
    }
    if !get_has_file_name(p) {
        return p.to_owned();
    }
    let stem: String = match find_extension_dot(p) {
        Some(dot) => p.substring_char(0, dot).to_owned(),
        None => p.to_owned(),
    };
    if ext.unicode_len() == 0 {
        stem
    } else {
        stem.concat(".").concat(ext)
    }
}

/// The directory that holds `p`.
pub fn get_parent(p: &str) -> (r: String)
    ensures
        r@ == parent(p@),
{
    proof {
        lemma_last_index_of(p@, '/');
        reveal_strlit("/");
        assert("/"@ =~= seq!['/']);
    }
    match find_last(p, '/') {
        None => String::new(),
        Some(sep) => if sep == 0 {
            "/".to_owned()
        } else {
            p.substring_char(0, sep).to_owned()
        },
    }
}

/// `rel` taken from the directory `base`.
pub fn join_paths(base: &str, rel: &str) -> (r: String)
    ensures
        r@ == join(base@, rel@),
{
    proof {
        reveal_strlit("/");
        assert("/"@ =~= seq!['/']);
    }
    let m: usize = rel.unicode_len();
    if m > 0 && rel.get_char(0) == '/' {
        return rel.to_owned();
    }
    let n: usize = base.unicode_len();
    if n == 0 || base.get_char(n - 1) == '/' {
        append(base, rel)
    } else {
        base.to_owned().concat("/").concat(rel)
    }
}

} // verus!
