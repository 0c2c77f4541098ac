//! Classification of an invocation from the target artifact's path: a `deps`
//! path segment marks a test binary, a segment starting `rustdoctest` marks a
//! doctest binary, anything else is a plain run.

use vstd::prelude::*;
use vstd::string::StrSliceExecFns;

use crate::RunnerError;

verus! {

/// How an invocation is classified from the target artifact's path.
#[derive(Clone, Copy, Debug, PartialEq, Eq, Structural)]
pub enum Mode {
    Run,
    Test,
    Doctest,
}

/// `i` is the first character position of a path segment: the start of the
/// path, or the position right after a separator.
pub open spec fn is_segment_start(s: Seq<char>, i: int) -> bool {
    0 <= i <= s.len() && (i == 0 || s[i - 1] == '/')
}

/// A complete path segment equal to `seg` begins at position `i` of `s`
/// (meant for a nonempty, slash-free `seg`).
pub open spec fn segment_at(s: Seq<char>, i: int, seg: Seq<char>) -> bool {
    &&& is_segment_start(s, i)
    &&& i + seg.len() <= s.len()
    &&& s.subrange(i, i + seg.len()) == seg
    &&& (i + seg.len() == s.len() || s[i + seg.len()] == '/')
}

/// A path segment starting with `pre` begins at position `i` of `s`
/// (meant for a nonempty, slash-free `pre`).
pub open spec fn segment_prefix_at(s: Seq<char>, i: int, pre: Seq<char>) -> bool {
    &&& is_segment_start(s, i)
    &&& i + pre.len() <= s.len()
    &&& s.subrange(i, i + pre.len()) == pre
}

/// Some complete path segment of `s` equals `seg`.
pub open spec fn has_segment(s: Seq<char>, seg: Seq<char>) -> bool {
    exists|i: int| segment_at(s, i, seg)
}

/// Some path segment of `s` starts with `pre`.
pub open spec fn has_segment_with_prefix(s: Seq<char>, pre: Seq<char>) -> bool {
    exists|i: int| segment_prefix_at(s, i, pre)
}

/// The classification rule: a `deps` segment wins, then a segment starting
/// `rustdoctest`, and any other path is a plain run.
pub open spec fn mode_of_path(path: Seq<char>) -> Mode {
    if has_segment(path, "deps"@) {
        Mode::Test
    } else if has_segment_with_prefix(path, "rustdoctest"@) {
        Mode::Doctest
    } else {
        Mode::Run
    }
}

/// Whether `pat` occurs in `s` at character position `i`.
fn matches_at(s: &str, i: usize, pat: &str) -> (b: bool)
    requires
        i <= s@.len(),
    ensures
        b == (i + pat@.len() <= s@.len() && s@.subrange(i as int, i + pat@.len()) == pat@),
{
    let n = s.unicode_len();
    let m = pat.unicode_len();
    if m > n - i {
        return false;
    }
    let mut j: usize = 0;
    while j < m
        invariant
            n == s@.len(),
            m == pat@.len(),
            i + m <= n,
            j <= m,
            forall|k: int| 0 <= k < j ==> s@[i + k] == pat@[k],
        decreases m - j,
    {
        if s.get_char(i + j) != pat.get_char(j) {
            assert(s@.subrange(i as int, i + pat@.len()) != pat@) by {
                if s@.subrange(i as int, i + pat@.len()) == pat@ {
                    assert(s@.subrange(i as int, i + pat@.len())[j as int] == pat@[j as int]);
                }
            }
            return false;
        }
        j += 1;
    }
    assert(s@.subrange(i as int, i + pat@.len()) =~= pat@);
    true
}

/// Classifies the target path: `deps` segment to `Test`, segment starting
/// `rustdoctest` to `Doctest`, anything else to `Run`.
pub fn classify_path(file: &str) -> (m: Mode)
    ensures
        m == mode_of_path(file@),
{
    proof {
        reveal_strlit("deps");
        reveal_strlit("rustdoctest");
    }
    let deps: &str = "deps";
    let doctest_pre: &str = "rustdoctest";
    let deps_len: usize = deps.unicode_len();
    let n = file.unicode_len();
    let mut found_deps = false;
    let mut found_doctest = false;
    let mut i: usize = 0;
    while i < n
        invariant
            n == file@.len(),
            deps@ == "deps"@,
            doctest_pre@ == "rustdoctest"@,
            deps_len == deps@.len(),
            i <= n,
            found_deps == (exists|k: int| 0 <= k < i && segment_at(file@, k, "deps"@)),
            found_doctest == (exists|k: int|
                0 <= k < i && segment_prefix_at(file@, k, "rustdoctest"@)),
        decreases n - i,
    {
        let seg_start = i == 0 || file.get_char(i - 1) == '/';
        if seg_start {
            if matches_at(file, i, deps) {
                let end = i + deps_len;
                if end == n || file.get_char(end) == '/' {
                    assert(segment_at(file@, i as int, "deps"@));
                    found_deps = true;
                }
            }
            if matches_at(file, i, doctest_pre) {
                assert(segment_prefix_at(file@, i as int, "rustdoctest"@));
                found_doctest = true;
            }
        }
        i += 1;
    }
    proof {
        if has_segment(file@, "deps"@) {
            let k = choose|k: int| segment_at(file@, k, "deps"@);
            assert(0 <= k < n);
            assert(exists|k2: int| 0 <= k2 < n && segment_at(file@, k2, "deps"@));
        }
        if has_segment_with_prefix(file@, "rustdoctest"@) {
            let k = choose|k: int| segment_prefix_at(file@, k, "rustdoctest"@);
            assert(0 <= k < n);
            assert(exists|k2: int| 0 <= k2 < n && segment_prefix_at(file@, k2, "rustdoctest"@));
        }
    }
    if found_deps {
        Mode::Test
    } else if found_doctest {
        Mode::Doctest
    } else {
        Mode::Run
    }
}

/// Classifies from the forwarded argument list, whose first entry is the
/// target artifact's path. Fails exactly when no argument is present.
pub fn detect_mode(args: &Vec<String>) -> (r: Result<Mode, RunnerError>)
    ensures
        (match r {
            Ok(m) => args@.len() > 0 && m == mode_of_path(args@[0]@),
            Err(e) => args@.len() == 0 && e == RunnerError::NoTargetArgument,
        }),
{
    if args.len() == 0 {
        Err(RunnerError::NoTargetArgument)
    } else {
        Ok(classify_path(args[0].as_str()))
    }
}

} // verus!
