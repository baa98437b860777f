//! File-system paths, held as strings.
//!
//! The component-wise operations of `std::path::Path` are called through the
//! trusted wrappers below; their results are named and not restated.
//! `join` and `extension` are written out from their documented behaviour.
use vstd::prelude::*;

use crate::text::{chars_of, str_concat, str_concat3, rfind_char, string_of_range};

verus! {

/// What `Path::file_name` returns for `path`.
pub uninterp spec fn path_file_name(path: Seq<char>) -> Option<Seq<char>>;

/// What `Path::parent` returns for `path`.
pub uninterp spec fn path_parent(path: Seq<char>) -> Option<Seq<char>>;

/// What `Path::strip_prefix` returns for `path` and `base`.
pub uninterp spec fn path_strip_prefix(path: Seq<char>, base: Seq<char>) -> Option<Seq<char>>;

/// What `Path::starts_with` returns for `path` and `base`.
pub uninterp spec fn path_starts_with(path: Seq<char>, base: Seq<char>) -> bool;

/// What `==` on `Path` returns for `a` and `b` (a comparison by components).
pub uninterp spec fn path_equal(a: Seq<char>, b: Seq<char>) -> bool;

/// `Path::file_name`: the final component of `path`, unless it is `..` or
/// there is none. The result is named by `path_file_name`.
#[verifier::external_body]
pub fn file_name(path: &str) -> (r: Option<String>)
    ensures
        match r {
            Some(n) => path_file_name(path@) == Some(n@),
            None => path_file_name(path@) is None,
        },
{
    match std::path::Path::new(path).file_name() {
        Some(n) => Some(n.to_string_lossy().into_owned()),
        None => None,
    }
}

/// `Path::parent`: `path` without its final component, unless it ends in a
/// root or is empty. The result is named by `path_parent`.
#[verifier::external_body]
pub fn parent(path: &str) -> (r: Option<String>)
    ensures
        match r {
            Some(p) => path_parent(path@) == Some(p@),
            None => path_parent(path@) is None,
        },
{
    match std::path::Path::new(path).parent() {
        Some(p) => Some(p.to_string_lossy().into_owned()),
        None => None,
    }
}

/// `Path::strip_prefix`: what remains of `path` after the components of
/// `base`, if `base` is a prefix of it. The result is named by
/// `path_strip_prefix`.
#[verifier::external_body]
pub fn strip_path_prefix(path: &str, base: &str) -> (r: Option<String>)
    ensures
        match r {
            Some(p) => path_strip_prefix(path@, base@) == Some(p@),
            None => path_strip_prefix(path@, base@) is None,
        },
{
    match std::path::Path::new(path).strip_prefix(base) {
        Ok(p) => Some(p.to_string_lossy().into_owned()),
        Err(_) => None,
    }
}

/// `Path::starts_with`: whether the components of `base` begin those of
/// `path`. The result is named by `path_starts_with`.
#[verifier::external_body]
pub fn path_has_prefix(path: &str, base: &str) -> (r: bool)
    ensures
        r == path_starts_with(path@, base@),
{
    std::path::Path::new(path).starts_with(base)
}

/// `==` on `Path`. The result is named by `path_equal`.
#[verifier::external_body]
pub fn same_path(a: &str, b: &str) -> (r: bool)
    ensures
        r == path_equal(a@, b@),
{
    std::path::Path::new(a) == std::path::Path::new(b)
}

/// `Path::join` on Unix: an absolute `p` replaces `base`; otherwise `p` is
/// appended, after a `/` unless `base` is empty or already ends in one.
pub open spec fn join_spec(base: Seq<char>, p: Seq<char>) -> Seq<char> {
    if p.len() > 0 && p[0] == '/' {
        p
    } else if base.len() > 0 && base.last() != '/' {
        base + seq!['/'] + p
    } else {
        base + p
    }
}

/// `Path::join`, as its documentation and `PathBuf::push` describe it on Unix.
pub fn join(base: &str, p: &str) -> (r: String)
    ensures
        r@ == join_spec(base@, p@),
{
    let b = chars_of(base);
    let q = chars_of(p);
    if q.len() > 0 && q[0] == '/' {
        string_of_range(&q, 0, q.len())
    } else if b.len() > 0 && b[b.len() - 1] != '/' {
        let r = str_concat3(base, "/", p);
        proof {
            reveal_strlit("/");
        }
        r
    } else {
        str_concat(base, p)
    }
}

/// The extension of a file name, as `Path::extension` takes it: the part
/// after the last `.`, unless there is no `.` or the only `.` begins the name.
pub open spec fn extension_of_name(name: Seq<char>) -> Option<Seq<char>> {
    if !name.contains('.') {
        None
    } else {
        let k = choose|k: int|
            0 <= k < name.len() && name[k] == '.' && forall|j: int| k < j < name.len() ==> name[j]
                != '.';
        if k == 0 {
            None
        } else {
            Some(name.skip(k + 1))
        }
    }
}

/// `Path::extension`: the extension of the file name of `path`.
pub open spec fn extension_spec(path: Seq<char>) -> Option<Seq<char>> {
    match path_file_name(path) {
        Some(name) => extension_of_name(name),
        None => None,
    }
}

/// The extension of a file name (see `extension_of_name`).
pub fn name_extension(name: &str) -> (r: Option<String>)
    ensures
        match r {
            Some(e) => extension_of_name(name@) == Some(e@),
            None => extension_of_name(name@) is None,
        },
{
    match rfind_char(name, '.') {
        None => None,
        Some(k) => {
            let ghost kk = choose|k: int|
                0 <= k < name@.len() && name@[k] == '.' && forall|j: int|
                    k < j < name@.len() ==> name@[j] != '.';
            assert(kk == k as int) by {
                assert(name@[k as int] == '.');
                if kk < k {
                    assert(name@[k as int] != '.');
                } else if kk > k {
                    assert(name@[kk] != '.');
                }
            }
            if k == 0 {
                None
            } else {
                let cs = chars_of(name);
                assert(cs@.len() == cs.len());
                let e = string_of_range(&cs, k + 1, cs.len());
                assert(e@ =~= name@.skip(k + 1));
                Some(e)
            }
        },
    }
}

/// `Path::extension`.
pub fn extension(path: &str) -> (r: Option<String>)
    ensures
        match r {
            Some(e) => extension_spec(path@) == Some(e@),
            None => extension_spec(path@) is None,
        },
{
    match file_name(path) {
        Some(n) => name_extension(n.as_str()),
        None => None,
    }
}

} // verus!
