//! Paths as the tools see them: sequences of characters in which `/` parts the
//! components.

use crate::text;
use vstd::prelude::*;

verus! {

/// The component that names the parent directory.
pub open spec fn parent_dir() -> Seq<char> {
    seq!['.', '.']
}

/// The component that names the directory itself.
pub open spec fn current_dir() -> Seq<char> {
    seq!['.']
}

/// Whether `path` starts at the root of the file system.
pub open spec fn is_absolute(path: Seq<char>) -> bool {
    path.len() > 0 && path[0] == '/'
}

/// Whether `path` stays inside the directory it is read from: it is relative,
/// and none of its components is the parent directory.
pub open spec fn in_workspace(path: Seq<char>) -> bool {
    &&& !is_absolute(path)
    &&& forall|i: int|
        0 <= i < text::split(path, '/').len() ==> #[trigger] text::split(path, '/')[i]
            != parent_dir()
}

/// Whether a component names something: it is not empty, and is neither the
/// directory itself nor its parent.
pub open spec fn is_normal(component: Seq<char>) -> bool {
    component.len() > 0 && component != current_dir() && component != parent_dir()
}

/// `s` with each white space character replaced by a hyphen.
pub open spec fn hyphenated(s: Seq<char>) -> Seq<char> {
    s.map_values(
        |c: char|
            if text::is_whitespace(c) {
                '-'
            } else {
                c
            },
    )
}

/// The name that `path` gives a directory: its naming components, each with
/// hyphens for white space, joined by hyphens.
pub open spec fn dirname(path: Seq<char>) -> Seq<char> {
    text::join(text::split(path, '/').filter(|c: Seq<char>| is_normal(c)).map_values(|c: Seq<char>| hyphenated(c)), seq!['-'])
}

/// Whether `component` is `..`.
fn is_parent_dir(component: &Vec<char>) -> (b: bool)
    ensures
        b == (component@ == parent_dir()),
{
    let b = component.len() == 2 && component[0] == '.' && component[1] == '.';
    proof {
        if b {
            assert(component@ =~= parent_dir());
        }
    }
    b
}

/// Whether `component` names something.
fn names_something(component: &Vec<char>) -> (b: bool)
    ensures
        b == is_normal(component@),
{
    if component.len() == 0 {
        return false;
    }
    if component.len() == 1 && component[0] == '.' {
        assert(component@ =~= current_dir());
        return false;
    }
    !is_parent_dir(component)
}

/// Whether a tool may touch `path`: absolute paths and paths with a `..`
/// component are refused, everything else is accepted, the empty path too.
pub fn is_path_in_workspace(path: &str) -> (allowed: bool)
    ensures
        allowed == in_workspace(path@),
{
    let chars = text::to_chars(path);
    if chars.len() > 0 && chars[0] == '/' {
        return false;
    }
    let parts = text::split_at_char(&chars, '/');
    let mut i: usize = 0;
    while i < parts.len()
        invariant
            i <= parts.len(),
            text::rows(parts@) == text::split(path@, '/'),
            forall|j: int| 0 <= j < i ==> #[trigger] text::split(path@, '/')[j] != parent_dir(),
        decreases parts.len() - i,
    {
        assert(text::rows(parts@)[i as int] == parts@[i as int]@);
        if is_parent_dir(&parts[i]) {
            return false;
        }
        i += 1;
    }
    true
}

/// A component with hyphens for white space.
fn hyphenate(component: &Vec<char>) -> (out: Vec<char>)
    ensures
        out@ == hyphenated(component@),
{
    let mut out: Vec<char> = Vec::new();
    let mut i: usize = 0;
    while i < component.len()
        invariant
            i <= component.len(),
            out@ == hyphenated(component@.take(i as int)),
        decreases component.len() - i,
    {
        let c = component[i];
        assert(component@.take(i + 1) == component@.take(i as int).push(c));
        assert(hyphenated(component@.take(i + 1)) == hyphenated(component@.take(i as int)).push(
            if text::is_whitespace(c) {
                '-'
            } else {
                c
            },
        ));
        if text::char_is_whitespace(c) {
            out.push('-');
        } else {
            out.push(c);
        }
        i += 1;
    }
    assert(component@.take(component.len() as int) == component@);
    out
}

/// The directory name that stands for `path`: what is left of it when the
/// root, `.` and `..` are dropped, white space becomes a hyphen, and the
/// components are joined by hyphens.
pub fn path_to_dirname(path: &str) -> (name: String)
    ensures
        name@ == dirname(path@),
{
    let chars = text::to_chars(path);
    let parts = text::split_at_char(&chars, '/');
    let mut kept: Vec<Vec<char>> = Vec::new();
    let ghost keep = |c: Seq<char>| is_normal(c);
    let ghost hyph = |c: Seq<char>| hyphenated(c);
    let mut i: usize = 0;
    assert(text::rows(parts@).take(0).filter(keep).map_values(hyph) == text::rows(kept@));
    while i < parts.len()
        invariant
            i <= parts.len(),
            keep == |c: Seq<char>| is_normal(c),
            hyph == |c: Seq<char>| hyphenated(c),
            text::rows(parts@) == text::split(path@, '/'),
            text::rows(kept@) == text::rows(parts@).take(i as int).filter(keep).map_values(hyph),
        decreases parts.len() - i,
    {
        let ghost all = text::rows(parts@);
        let ghost item = parts@[i as int]@;
        assert(all.take(i + 1) == all.take(i as int).push(item));
        proof {
            lemma_filter_push(all.take(i as int), item, keep);
        }
        if names_something(&parts[i]) {
            let ghost before = kept@;
            let h = hyphenate(&parts[i]);
            kept.push(h);
            assert(text::rows(kept@) == text::rows(before).push(hyphenated(item)));
            assert(all.take(i as int).filter(keep).push(item).map_values(hyph) == all.take(
                i as int,
            ).filter(keep).map_values(hyph).push(hyphenated(item)));
        }
        i += 1;
    }
    assert(text::rows(parts@).take(parts.len() as int) == text::rows(parts@));
    let mut sep: Vec<char> = Vec::new();
    sep.push('-');
    assert(sep@ == seq!['-']);
    let out = text::joined(&kept, &sep);
    text::from_chars(&out)
}

/// Filtering a sequence with one more item at its end keeps the item where the
/// test holds of it, and only there.
pub proof fn lemma_filter_push<A>(s: Seq<A>, a: A, keep: spec_fn(A) -> bool)
    ensures
        s.push(a).filter(keep) == if keep(a) {
            s.filter(keep).push(a)
        } else {
            s.filter(keep)
        },
{
    reveal(Seq::filter);
    assert(s.push(a).drop_last() == s);
}

} // verus!
