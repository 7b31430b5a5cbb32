//! Derivation of a display name from a filesystem path: its last component,
//! or a fixed placeholder when the path has no extractable component (it is
//! empty, a root, or ends in a parent component).
//!
//! The derivation is purely for display and carries no identity semantics:
//! two different paths with the same base name are indistinguishable in
//! display but distinguishable as tracked paths.

use vstd::prelude::*;
use vstd::string::StrSliceExecFns;
use vstd::string::StringExecFns;

verus! {

/// The fallback display name used when a path has no usable final component.
pub open spec fn untitled() -> Seq<char> {
    "Untitled"@
}

/// True when the path's last character is a lone `.` standing as a whole
/// component: preceded by a separator, or alone at the start.
pub open spec fn ends_in_cur_dir(s: Seq<char>) -> bool {
    &&& s.len() > 0
    &&& s.last() == '.'
    &&& (s.len() == 1 || s[s.len() - 2] == '/')
}

/// The path with trailing separators and trailing `.` components removed;
/// what remains ends in the path's final real component, if it has one.
pub open spec fn strip_tail(s: Seq<char>) -> Seq<char>
    decreases s.len(),
{
    if s.len() > 0 && (s.last() == '/' || ends_in_cur_dir(s)) {
        strip_tail(s.drop_last())
    } else {
        s
    }
}

/// The characters after the last separator: the whole string when no
/// separator occurs, and empty when the string ends in one.
pub open spec fn after_last_slash(s: Seq<char>) -> Seq<char>
    decreases s.len(),
{
    if s.len() == 0 {
        Seq::<char>::empty()
    } else if s.last() == '/' {
        Seq::<char>::empty()
    } else {
        after_last_slash(s.drop_last()).push(s.last())
    }
}

/// The display name derived from a path: the final component, or the
/// placeholder when none can be extracted (the component is empty, as for
/// an empty path or a root, or is the parent component `..`).
pub open spec fn derived_name(path: Seq<char>) -> Seq<char> {
    let comp = after_last_slash(strip_tail(path));
    if comp.len() == 0 || comp == seq!['.', '.'] {
        untitled()
    } else {
        comp
    }
}

/// The derived name is the path's last real component whenever the path has
/// one, and the fixed placeholder otherwise.
pub proof fn lemma_derived_name_cases(path: Seq<char>)
    ensures
        ({
            let comp = after_last_slash(strip_tail(path));
            derived_name(path) == if comp.len() == 0 || comp == seq!['.', '.'] {
                untitled()
            } else {
                comp
            }
        }),
{
}

/// Where no separator stands at or after position `i`, and `i` sits on a
/// component boundary, everything from `i` on is what follows the last
/// separator.
proof fn lemma_after_last_slash_from(t: Seq<char>, i: int)
    requires
        0 <= i <= t.len(),
        forall|j: int| i <= j < t.len() ==> t[j] != '/',
        i == 0 || t[i - 1] == '/',
    ensures
        after_last_slash(t) == t.subrange(i, t.len() as int),
    decreases t.len(),
{
    if t.len() == 0 {
        assert(after_last_slash(t) =~= t.subrange(i, t.len() as int));
    } else if i == t.len() {
        assert(t.last() == '/');
        assert(after_last_slash(t) =~= t.subrange(i, t.len() as int));
    } else {
        assert(t.last() != '/');
        lemma_after_last_slash_from(t.drop_last(), i);
        assert(after_last_slash(t) =~= t.subrange(i, t.len() as int));
    }
}

/// Computes the display name for a path, as `derived_name` states it.
pub fn filename_from_path(path: &str) -> (r: String)
    ensures
        r@ == derived_name(path@),
{
    let n: usize = path.unicode_len();
    let mut end: usize = n;
    proof {
        assert(path@.subrange(0, n as int) =~= path@);
    }
    loop
        invariant
            end <= n,
            n == path@.len(),
            strip_tail(path@) == strip_tail(path@.subrange(0, end as int)),
        ensures
            end <= n,
            n == path@.len(),
            strip_tail(path@) == path@.subrange(0, end as int),
        decreases end,
    {
        if end == 0 {
            proof {
                assert(path@.subrange(0, 0) =~= Seq::<char>::empty());
            }
            break;
        }
        let c = path.get_char(end - 1);
        let strippable: bool = if c == '/' {
            true
        } else if c == '.' {
            end == 1 || path.get_char(end - 2) == '/'
        } else {
            false
        };
        proof {
            let pre = path@.subrange(0, end as int);
            assert(pre.len() == end);
            assert(pre.last() == c);
            if end >= 2 {
                assert(pre[end - 2] == path@[end - 2]);
            }
        }
        if !strippable {
            proof {
                let pre = path@.subrange(0, end as int);
                assert(!ends_in_cur_dir(pre));
                assert(strip_tail(pre) == pre);
            }
            break;
        }
        proof {
            let pre = path@.subrange(0, end as int);
            assert(pre.last() == '/' || ends_in_cur_dir(pre));
            assert(pre.drop_last() =~= path@.subrange(0, end - 1));
            assert(strip_tail(pre) == strip_tail(pre.drop_last()));
        }
        end = end - 1;
    }
    let mut start: usize = end;
    while start > 0 && path.get_char(start - 1) != '/'
        invariant
            start <= end <= n,
            n == path@.len(),
            forall|j: int| start <= j < end ==> path@[j] != '/',
        decreases start,
    {
        start = start - 1;
    }
    proof {
        let pre = path@.subrange(0, end as int);
        lemma_after_last_slash_from(pre, start as int);
        assert(pre.subrange(start as int, end as int) =~= path@.subrange(
            start as int,
            end as int,
        ));
        assert(after_last_slash(strip_tail(path@)) == path@.subrange(start as int, end as int));
    }
    let len: usize = end - start;
    let is_parent: bool = len == 2 && path.get_char(start) == '.' && path.get_char(start + 1)
        == '.';
    if len == 0 || is_parent {
        proof {
            let comp = path@.subrange(start as int, end as int);
            if len == 2 {
                assert(comp =~= seq!['.', '.']);
            }
        }
        String::from_str("Untitled")
    } else {
        proof {
            let comp = path@.subrange(start as int, end as int);
            if comp == seq!['.', '.'] {
                assert(comp.len() == 2);
                assert(comp[0] == '.' && comp[1] == '.');
            }
        }
        let sub = path.substring_char(start, end);
        String::from_str(sub)
    }
}

} // verus!
