//! String helpers: comparison and destination-name resolution.

use vstd::prelude::*;
use vstd::string::StrSliceExecFns;

verus! {

/// Compares two string slices character by character.
pub fn str_eq(a: &str, b: &str) -> (r: bool)
    ensures
        r == (a@ == b@),
{
    let an = a.unicode_len();
    let bn = b.unicode_len();
    if an != bn {
        proof {
            assert(a@.len() != b@.len());
        }
        return false;
    }
    let mut i: usize = 0;
    while i < an
        invariant
            an == a@.len(),
            bn == b@.len(),
            an == bn,
            0 <= i <= an,
            forall|j: int| 0 <= j < i ==> a@[j] == b@[j],
        decreases an - i,
    {
        if a.get_char(i) != b.get_char(i) {
            return false;
        }
        i = i + 1;
    }
    proof {
        assert(a@ =~= b@);
    }
    true
}

/// `s` without its ignored tail: trailing separators and trailing lone
/// `.` segments, dropped repeatedly. A `.` segment names no file, so a
/// path such as `a/.` resolves to the segment before it.
pub open spec fn strip_ignored_tail(s: Seq<char>) -> Seq<char>
    decreases s.len(),
{
    if s.len() == 0 {
        s
    } else if s.last() == '/' {
        strip_ignored_tail(s.drop_last())
    } else if s.last() == '.' && (s.len() == 1 || s[s.len() - 2] == '/') {
        strip_ignored_tail(s.drop_last())
    } else {
        s
    }
}

/// The suffix of `s` that follows its last `/` (all of `s` if there is none).
pub open spec fn after_last_slash(s: Seq<char>) -> Seq<char>
    decreases s.len(),
{
    if s.len() == 0 {
        s
    } else if s.last() == '/' {
        Seq::<char>::empty()
    } else {
        after_last_slash(s.drop_last()).push(s.last())
    }
}

/// The destination file name declared by a manifest path: its last
/// segment, once trailing separators and `.` segments are dropped. When
/// no usable segment remains (the path is empty or all separators and
/// `.` segments, or ends in a `..` component), a fixed placeholder name
/// stands in.
pub open spec fn resolved_name(path: Seq<char>) -> Seq<char> {
    let seg = after_last_slash(strip_ignored_tail(path));
    if seg.len() == 0 || seg == seq!['.', '.'] {
        "Unknown Mod"@
    } else {
        seg
    }
}

/// Resolves the destination file name for an entry path.
pub fn resolve_mod_name(path: &str) -> (r: String)
    ensures
        r@ == resolved_name(path@),
{
    let n = path.unicode_len();
    let mut end: usize = n;
    proof {
        assert(path@.take(n as int) =~= path@);
    }
    while end > 0 && (path.get_char(end - 1) == '/' || (path.get_char(end - 1) == '.' && (end == 1
        || path.get_char(end - 2) == '/')))
        invariant
            0 <= end <= n,
            n == path@.len(),
            strip_ignored_tail(path@) == strip_ignored_tail(path@.take(end as int)),
        decreases end,
    {
        proof {
            let t = path@.take(end as int);
            assert(t.last() == path@[end - 1]);
            if end >= 2 {
                assert(t[t.len() - 2] == path@[end - 2]);
            }
            assert(t.drop_last() =~= path@.take(end - 1));
            assert(strip_ignored_tail(t) == strip_ignored_tail(t.drop_last()));
        }
        end = end - 1;
    }
    proof {
        let t = path@.take(end as int);
        if end > 0 {
            assert(t.last() == path@[end - 1]);
            if end >= 2 {
                assert(t[t.len() - 2] == path@[end - 2]);
            }
            assert(t.last() != '/');
            assert(!(t.last() == '.' && (t.len() == 1 || t[t.len() - 2] == '/')));
        }
        assert(strip_ignored_tail(path@) == t);
    }
    let mut start: usize = end;
    proof {
        let t = path@.take(end as int);
        assert(after_last_slash(t) =~= after_last_slash(path@.take(start as int))
            + path@.subrange(start as int, end as int));
    }
    while start > 0 && path.get_char(start - 1) != '/'
        invariant
            0 <= start <= end <= n,
            n == path@.len(),
            after_last_slash(path@.take(end as int)) == after_last_slash(
                path@.take(start as int),
            ) + path@.subrange(start as int, end as int),
            forall|j: int| start <= j < end ==> path@[j] != '/',
        decreases start,
    {
        proof {
            let u = path@.take(start as int);
            assert(u.last() != '/');
            assert(u.drop_last() =~= path@.take(start - 1));
            assert(after_last_slash(u) == after_last_slash(path@.take(start - 1)).push(
                path@[start - 1],
            ));
            assert(after_last_slash(path@.take(start - 1)).push(path@[start - 1]) + path@.subrange(
                start as int,
                end as int,
            ) =~= after_last_slash(path@.take(start - 1)) + path@.subrange(
                start - 1,
                end as int,
            ));
        }
        start = start - 1;
    }
    proof {
        let u = path@.take(start as int);
        if start == 0 {
            assert(after_last_slash(u) + path@.subrange(start as int, end as int) =~= path@.subrange(
                start as int,
                end as int,
            ));
        } else {
            assert(u.last() == '/');
            assert(after_last_slash(u) + path@.subrange(start as int, end as int) =~= path@.subrange(
                start as int,
                end as int,
            ));
        }
        assert(after_last_slash(strip_ignored_tail(path@)) == path@.subrange(
            start as int,
            end as int,
        ));
    }
    let seg = path.substring_char(start, end);
    let seg_len = seg.unicode_len();
    let placeholder = seg_len == 0 || (seg_len == 2 && seg.get_char(0) == '.' && seg.get_char(1)
        == '.');
    proof {
        let s = seg@;
        if seg_len == 2 && s[0] == '.' && s[1] == '.' {
            assert(s =~= seq!['.', '.']);
        }
        if !placeholder {
            if s.len() == 2 {
                assert(s != seq!['.', '.']) by {
                    assert(seq!['.', '.'][0] == '.');
                    assert(seq!['.', '.'][1] == '.');
                }
            } else {
                assert(s.len() != seq!['.', '.'].len());
            }
        }
    }
    if placeholder {
        "Unknown Mod".to_owned()
    } else {
        seg.to_owned()
    }
}

} // verus!
