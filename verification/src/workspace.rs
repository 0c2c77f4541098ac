//! The workspace root: the build tool reports the manifest file's path, and
//! the directory that holds it is where the selected command runs.

use vstd::prelude::*;
use vstd::string::StrSliceExecFns;

verus! {

/// The text before the last separator of `s`: the separator itself when it is
/// the first character, `None` when `s` holds no separator at all.
pub open spec fn dir_before_last_sep(s: Seq<char>) -> Option<Seq<char>>
    decreases s.len(),
{
    if s.len() == 0 {
        None
    } else if s.last() == '/' {
        if s.len() == 1 {
            Some(s)
        } else {
            Some(s.drop_last())
        }
    } else {
        dir_before_last_sep(s.drop_last())
    }
}

/// The directory that holds the file a path names: the text before the last
/// separator, asked only of a path that ends in a nonempty file name. `None`
/// for an empty path, a path ending in a separator (a bare root included),
/// and a bare file name without any separator.
pub open spec fn parent_dir_of(s: Seq<char>) -> Option<Seq<char>> {
    if s.len() == 0 || s.last() == '/' {
        None
    } else {
        dir_before_last_sep(s)
    }
}

/// The directory that holds the manifest path `s`: the text before its last
/// separator. Fails when `s` does not end in a file name under some
/// directory: when it is empty, ends in a separator, or holds no separator.
pub fn manifest_parent_dir(s: &str) -> (r: Option<String>)
    ensures
        (match r {
            Some(d) => parent_dir_of(s@) == Some(d@),
            None => parent_dir_of(s@) is None,
        }),
{
    let n = s.unicode_len();
    if n == 0 {
        return None;
    }
    if s.get_char(n - 1) == '/' {
        return None;
    }
    let mut i: usize = n;
    proof {
        assert(s@.take(n as int) =~= s@);
    }
    while i > 0
        invariant
            n == s@.len(),
            0 < n,
            i <= n,
            s@.last() != '/',
            dir_before_last_sep(s@) == dir_before_last_sep(s@.take(i as int)),
        decreases i,
    {
        if s.get_char(i - 1) == '/' {
            let d = if i == 1 {
                s.substring_char(0, 1)
            } else {
                s.substring_char(0, i - 1)
            };
            proof {
                let t = s@.take(i as int);
                assert(t.last() == s@[i - 1]);
                if i == 1 {
                    assert(t =~= s@.subrange(0, 1));
                } else {
                    assert(t.drop_last() =~= s@.subrange(0, i - 1));
                }
            }
            return Some(d.to_owned());
        }
        proof {
            let t = s@.take(i as int);
            assert(t.last() == s@[i - 1]);
            assert(t.drop_last() =~= s@.take(i - 1));
        }
        i -= 1;
    }
    proof {
        assert(s@.take(0) =~= Seq::<char>::empty());
    }
    None
}

} // verus!
