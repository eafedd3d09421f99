//! File-system path text as shown to the user.
//!
//! Paths reach the library as text (`/`-separated, as on Linux and macOS). The final component is
//! read the way [`std::path::Path::file_name`] reads it: repeated separators and trailing
//! separators are ignored, `.` components are normalized away, and a path that ends in `..`, in
//! the root, or in nothing has no file name.
use vstd::prelude::*;
use vstd::string::*;

verus! {

/// Index of the last `/` in `s`, or `-1` when there is none.
pub open spec fn last_sep(s: Seq<char>) -> int
    decreases s.len(),
{
    if s.len() == 0 {
        -1
    } else if s.last() == '/' {
        s.len() - 1
    } else {
        last_sep(s.drop_last())
    }
}

/// The final normal component of the path `s`, if it has one.
pub open spec fn spec_file_name(s: Seq<char>) -> Option<Seq<char>>
    decreases s.len(),
{
    if s.len() == 0 {
        None
    } else if s.last() == '/' {
        spec_file_name(s.drop_last())
    } else {
        proof {
            lemma_last_sep_range(s);
        }
        let k = last_sep(s);
        let seg = s.subrange(k + 1, s.len() as int);
        let rest = s.subrange(0, k + 1);
        if seg == seq!['.'] {
            if rest.len() == 0 {
                None
            } else {
                spec_file_name(rest)
            }
        } else if seg == seq!['.', '.'] {
            None
        } else {
            Some(seg)
        }
    }
}

/// `last_sep` is `-1` or the index of a `/`, and no `/` follows it.
pub proof fn lemma_last_sep_range(s: Seq<char>)
    ensures
        -1 <= last_sep(s) < s.len(),
        last_sep(s) >= 0 ==> s[last_sep(s)] == '/',
        forall|i: int| last_sep(s) < i < s.len() ==> s[i] != '/',
    decreases s.len(),
{
    if s.len() > 0 && s.last() != '/' {
        lemma_last_sep_range(s.drop_last());
        assert forall|i: int| last_sep(s) < i < s.len() implies s[i] != '/' by {
            if i < s.len() - 1 {
                assert(s[i] == s.drop_last()[i]);
            }
        }
    }
}

proof fn lemma_last_sep_is(s: Seq<char>, k: int)
    requires
        k == -1 || (0 <= k < s.len() && s[k] == '/'),
        forall|i: int| k < i < s.len() ==> s[i] != '/',
    ensures
        last_sep(s) == k,
    decreases s.len(),
{
    if s.len() > 0 && s.last() != '/' {
        lemma_last_sep_is(s.drop_last(), k);
    }
}

/// The final component of `path` (see the module documentation), as text.
pub fn path_file_name(path: &str) -> (name: Option<String>)
    ensures
        match name {
            Some(n) => spec_file_name(path@) == Some(n@),
            None => spec_file_name(path@) is None,
        },
{
    let n = path.unicode_len();
    let mut end: usize = n;
    assert(path@.subrange(0, n as int) =~= path@);
    while end > 0
        invariant
            n == path@.len(),
            end <= n,
            spec_file_name(path@) == spec_file_name(path@.subrange(0, end as int)),
        decreases end,
    {
        let p = Ghost(path@.subrange(0, end as int));
        if path.get_char(end - 1) == '/' {
            assert(p@.drop_last() =~= path@.subrange(0, end - 1));
            end = end - 1;
            continue;
        }
        // Scan back to the separator before the last segment.
        let mut j: usize = end - 1;
        while j > 0 && path.get_char(j - 1) != '/'
            invariant
                n == path@.len(),
                0 <= j < end <= n,
                forall|i: int| j <= i < end ==> path@[i] != '/',
            decreases j,
        {
            j = j - 1;
        }
        let ghost k: int = j as int - 1;
        proof {
            lemma_last_sep_is(p@, k);
        }
        let seg_len = end - j;
        let is_dot = seg_len == 1 && path.get_char(j) == '.';
        let is_dot_dot = seg_len == 2 && path.get_char(j) == '.' && path.get_char(j + 1) == '.';
        let ghost seg = p@.subrange(k + 1, p@.len() as int);
        let ghost rest = p@.subrange(0, k + 1);
        proof {
            if is_dot {
                assert(seg =~= seq!['.']);
            } else if seg_len == 1 {
                assert(seg[0] != '.');
                assert(seg != seq!['.']);
            } else {
                assert(seg.len() != seq!['.'].len());
            }
            if is_dot_dot {
                assert(seg =~= seq!['.', '.']);
            } else if seg_len == 2 {
                assert(seg[0] != '.' || seg[1] != '.');
                assert(seg != seq!['.', '.']);
            } else {
                assert(seg.len() != seq!['.', '.'].len());
            }
        }
        if is_dot {
            if j == 0 {
                return None;
            }
            assert(rest =~= path@.subrange(0, j as int));
            end = j;
            continue;
        }
        if is_dot_dot {
            return None;
        }
        let sub = path.substring_char(j, end);
        assert(sub@ =~= seg);
        return Some(sub.to_owned());
    }
    None
}

} // verus!
