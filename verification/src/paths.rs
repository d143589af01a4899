//! Paths as text: joining a directory and a name, and the parts of a bare
//! file name.

use vstd::prelude::*;
use vstd::string::*;

use crate::text::{chars_of, string_from_chars};

verus! {

/// The text of `Path::new(dir).join(name)`.
pub uninterp spec fn joined_path(dir: Seq<char>, name: Seq<char>) -> Seq<char>;

/// std's `Path::join` on two texts, rendered back as text. For a given
/// build target the result is a function of the two texts (the separator
/// is the target's); how they are joined is left to `joined_path`.
#[verifier::external_body]
pub(crate) fn join_path(dir: &str, name: &str) -> (r: String)
    ensures
        r@ == joined_path(dir@, name@),
{
    std::path::Path::new(dir).join(name).to_string_lossy().into_owned()
}

/// Index of the last `.` in `s`, if any.
pub open spec fn last_dot(s: Seq<char>) -> Option<int>
    decreases s.len(),
{
    if s.len() == 0 {
        None
    } else if s.last() == '.' {
        Some(s.len() - 1)
    } else {
        last_dot(s.drop_last())
    }
}

/// Where a bare file name splits into stem and extension, as `Path` does:
/// at the last `.`, unless that is the name's first character (a name like
/// `.json` has no extension) or the name is `..`.
pub open spec fn split_point(name: Seq<char>) -> Option<int> {
    if name == ".."@ {
        None
    } else {
        match last_dot(name) {
            Some(i) => if i == 0 {
                None
            } else {
                Some(i)
            },
            None => None,
        }
    }
}

/// The extension of a bare file name (`Path::extension`).
pub open spec fn extension_of(name: Seq<char>) -> Option<Seq<char>> {
    match split_point(name) {
        Some(i) => Some(name.skip(i + 1)),
        None => None,
    }
}

/// The stem of a bare file name (`Path::file_stem`).
pub open spec fn stem_of(name: Seq<char>) -> Seq<char> {
    match split_point(name) {
        Some(i) => name.take(i),
        None => name,
    }
}

proof fn lemma_last_dot_bound(s: Seq<char>)
    ensures
        match last_dot(s) {
            Some(i) => 0 <= i < s.len(),
            None => true,
        },
    decreases s.len(),
{
    if s.len() > 0 && s.last() != '.' {
        lemma_last_dot_bound(s.drop_last());
    }
}

fn find_last_dot(v: &Vec<char>) -> (r: Option<usize>)
    ensures
        match last_dot(v@) {
            Some(i) => r == Some(i as usize),
            None => r is None,
        },
{
    let mut i: usize = v.len();
    assert(v@.take(i as int) == v@);
    while i > 0
        invariant
            i <= v.len(),
            last_dot(v@) == last_dot(v@.take(i as int)),
        decreases i,
    {
        assert(v@.take(i as int).drop_last() == v@.take(i - 1));
        if v[i - 1] == '.' {
            return Some(i - 1);
        }
        i = i - 1;
    }
    None
}

fn split_point_of(v: &Vec<char>) -> (r: Option<usize>)
    ensures
        match split_point(v@) {
            Some(i) => r == Some(i as usize) && 0 < i < v@.len(),
            None => r is None,
        },
        r matches Some(j) ==> j < v@.len(),
{
    proof {
        lemma_last_dot_bound(v@);
    }
    if v.len() == 2 && v[0] == '.' && v[1] == '.' {
        proof {
            reveal_strlit("..");
            assert(v@ =~= ".."@);
        }
        return None;
    }
    proof {
        reveal_strlit("..");
        if v@ == ".."@ {
            assert(v@.len() == 2 && v@[0] == '.' && v@[1] == '.');
        }
        assert(v@ != ".."@);
    }
    match find_last_dot(v) {
        Some(i) => if i == 0 {
            None
        } else {
            Some(i)
        },
        None => None,
    }
}

/// The extension of a bare file name, as `Path::extension` gives it.
pub fn file_extension(name: &str) -> (r: Option<String>)
    ensures
        match extension_of(name@) {
            Some(e) => r matches Some(s) && s@ == e,
            None => r is None,
        },
{
    let v = chars_of(name);
    match split_point_of(&v) {
        Some(i) => {
            let n = v.len();
            assert(i < n);
            let mut e: Vec<char> = Vec::new();
            let mut k: usize = i + 1;
            while k < v.len()
                invariant
                    i < v.len(),
                    i + 1 <= k <= v.len(),
                    e@ == v@.subrange(i + 1, k as int),
                decreases v.len() - k,
            {
                e.push(v[k]);
                k = k + 1;
            }
            Some(string_from_chars(&e))
        },
        None => None,
    }
}

/// The stem of a bare file name, as `Path::file_stem` gives it.
pub fn file_stem(name: &str) -> (r: String)
    ensures
        r@ == stem_of(name@),
{
    let v = chars_of(name);
    match split_point_of(&v) {
        Some(i) => {
            let mut e: Vec<char> = Vec::new();
            let mut k: usize = 0;
            while k < i
                invariant
                    i < v.len(),
                    k <= i,
                    e@ == v@.take(k as int),
                decreases i - k,
            {
                e.push(v[k]);
                k = k + 1;
            }
            string_from_chars(&e)
        },
        None => string_from_chars(&v),
    }
}

} // verus!
