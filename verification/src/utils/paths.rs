//! Paths as text: absolute or relative, and how one is put under another.

use crate::text::{concat2, concat3, ends_with, starts_with};
use vstd::prelude::*;

verus! {

/// A path that starts at the root.
pub open spec fn is_absolute_spec(path: Seq<char>) -> bool {
    path.len() > 0 && path[0] == '/'
}

/// `path` under `base`: an absolute `path` stays as it is; a relative one
/// follows `base`, with one separator between them unless `base` is empty
/// or already ends in one.
pub open spec fn join_spec(base: Seq<char>, path: Seq<char>) -> Seq<char> {
    if is_absolute_spec(path) || base.len() == 0 {
        path
    } else if base.last() == '/' {
        base + path
    } else {
        base + "/"@ + path
    }
}

/// Whether `path` starts at the root.
pub fn is_absolute(path: &str) -> (r: bool)
    ensures
        r == is_absolute_spec(path@),
{
    proof {
        reveal_strlit("/");
    }
    let r = starts_with(path, "/");
    proof {
        if path@.len() > 0 {
            assert(path@.subrange(0, 1)[0] == path@[0]);
            if path@[0] == '/' {
                assert(path@.subrange(0, 1) =~= "/"@);
            }
        }
    }
    r
}

/// Whether `text` ends in a separator.
pub fn ends_in_separator(text: &str) -> (r: bool)
    ensures
        r == (text@.len() > 0 && text@.last() == '/'),
{
    proof {
        reveal_strlit("/");
    }
    let r = ends_with(text, "/");
    proof {
        if text@.len() > 0 {
            let tail = text@.subrange(text@.len() - 1, text@.len() as int);
            assert(tail[0] == text@.last());
            if text@.last() == '/' {
                assert(tail =~= "/"@);
            }
        }
    }
    r
}

/// `path` under `base`.
pub fn join(base: &str, path: &str) -> (r: String)
    ensures
        r@ == join_spec(base@, path@),
{
    if is_absolute(path) || base.unicode_len() == 0 {
        path.to_owned()
    } else if ends_in_separator(base) {
        concat2(base, path)
    } else {
        concat3(base, "/", path)
    }
}

/// The position of the last separator among the first `to` characters of
/// `path`; -1 where there is none.
pub open spec fn last_separator(path: Seq<char>, to: int) -> int
    decreases to,
{
    if to <= 0 || to > path.len() {
        -1
    } else if path[to - 1] == '/' {
        to - 1
    } else {
        last_separator(path, to - 1)
    }
}

/// What follows the last separator of `path`; `None` where nothing does.
pub open spec fn file_name_spec(path: Seq<char>) -> Option<Seq<char>> {
    let name = path.subrange(last_separator(path, path.len() as int) + 1, path.len() as int);
    if name.len() == 0 {
        None
    } else {
        Some(name)
    }
}

/// What stands before the last separator of `path`: the root for a path
/// directly under it, nothing for a path without a separator.
pub open spec fn parent_spec(path: Seq<char>) -> Seq<char> {
    let k = last_separator(path, path.len() as int);
    if k < 0 {
        Seq::empty()
    } else if k == 0 {
        "/"@
    } else {
        path.subrange(0, k)
    }
}

/// The number of characters of `path` up to and including its last
/// separator.
fn after_last_separator(path: &str) -> (r: usize)
    ensures
        r == last_separator(path@, path@.len() as int) + 1,
        r <= path@.len(),
{
    let v = crate::text::to_chars(path);
    let mut to: usize = v.len();
    while to > 0 && v[to - 1] != '/'
        invariant
            to <= v@.len(),
            last_separator(v@, v@.len() as int) == last_separator(v@, to as int),
        decreases to,
    {
        to = to - 1;
    }
    to
}

/// What follows the last separator of `path`.
pub fn file_name(path: &str) -> (r: Option<String>)
    ensures
        r.deep_view() == file_name_spec(path@),
{
    let from = after_last_separator(path);
    let n = path.unicode_len();
    if from >= n {
        None
    } else {
        Some(path.substring_char(from, n).to_owned())
    }
}

/// What stands before the last separator of `path`.
pub fn parent(path: &str) -> (r: String)
    ensures
        r@ == parent_spec(path@),
{
    let from = after_last_separator(path);
    if from == 0 {
        String::new()
    } else if from == 1 {
        "/".to_owned()
    } else {
        path.substring_char(0, from - 1).to_owned()
    }
}

} // verus!
