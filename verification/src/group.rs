//! Names of the nodes in a group.
use vstd::prelude::*;

use vstd::string::*;

use zarrs::node::NodePath;

use crate::text::{chars_of, string_from_chars};

verus! {

/// `s` with every trailing `/` removed.
pub open spec fn trim_end_slashes(s: Seq<char>) -> Seq<char>
    decreases s.len(),
{
    if s.len() > 0 && s.last() == '/' {
        trim_end_slashes(s.drop_last())
    } else {
        s
    }
}

/// The part of `s` after its last `/`, or all of `s` when it holds none.
pub open spec fn after_last_slash(s: Seq<char>) -> Seq<char>
    decreases s.len(),
{
    if s.len() == 0 {
        s
    } else if s.last() == '/' {
        Seq::empty()
    } else {
        after_last_slash(s.drop_last()).push(s.last())
    }
}

/// The final segment of a node path: trailing slashes are ignored.
pub open spec fn spec_last_segment(path: Seq<char>) -> Seq<char> {
    after_last_slash(trim_end_slashes(path))
}

/// The final path segment of an absolute node path (`/a/b` -> `b`).
pub fn last_segment(path: &str) -> (res: String)
    ensures
        res@ == spec_last_segment(path@),
{
    let chars = chars_of(path);
    let n = chars.len();
    // Drop the trailing slashes.
    let mut end: usize = n;
    assert(chars@.take(n as int) =~= chars@);
    while end > 0 && chars[end - 1] == '/'
        invariant
            end <= n == chars@.len(),
            trim_end_slashes(chars@) == trim_end_slashes(chars@.take(end as int)),
        decreases end,
    {
        assert(chars@.take(end as int).drop_last() =~= chars@.take(end - 1));
        end = end - 1;
    }
    assert(chars@.take(n as int) =~= chars@);
    let ghost t = chars@.take(end as int);
    assert(trim_end_slashes(chars@) == t);
    // Walk back to the last slash.
    let mut start: usize = end;
    assert(t.take(end as int) =~= t);
    assert(t.subrange(end as int, end as int) =~= Seq::<char>::empty());
    assert(t + Seq::<char>::empty() =~= t);
    while start > 0 && chars[start - 1] != '/'
        invariant
            start <= end <= n == chars@.len(),
            t == chars@.take(end as int),
            after_last_slash(t) == after_last_slash(t.take(start as int)) + t.subrange(
                start as int,
                end as int,
            ),
        decreases start,
    {
        assert(t.take(start as int).drop_last() =~= t.take(start - 1));
        assert(t.subrange(start - 1, end as int) =~= seq![t[start - 1]] + t.subrange(
            start as int,
            end as int,
        ));
        assert(after_last_slash(t.take(start - 1)).push(t[start - 1]) + t.subrange(
            start as int,
            end as int,
        ) =~= after_last_slash(t.take(start - 1)) + t.subrange(start - 1, end as int));
        start = start - 1;
    }
    if start > 0 {
        assert(t.take(start as int).last() == '/');
        assert(after_last_slash(t.take(start as int)) =~= Seq::<char>::empty());
    } else {
        assert(after_last_slash(t.take(0)) =~= Seq::<char>::empty());
    }
    assert(after_last_slash(t) =~= t.subrange(start as int, end as int));
    string_from_chars(&chars, start, end)
}


/// The absolute path of the direct child `name` of the group at `path`.
pub open spec fn spec_child_path(path: Seq<char>, name: Seq<char>) -> Seq<char> {
    if path == "/"@ {
        "/"@ + name
    } else {
        path + "/"@ + name
    }
}

/// Build the absolute path of a direct child.
pub fn child_path(path: &str, name: &str) -> (res: String)
    ensures
        res@ == spec_child_path(path@, name@),
{
    let p = path.to_owned();
    if p == String::from_str("/") {
        let mut s = String::from_str("/");
        s.append(name);
        s
    } else {
        let mut s = p;
        s.append("/");
        s.append(name);
        s
    }
}

/// `s` split at every `/`, as `str::split` does (an empty string gives one
/// empty part).
pub open spec fn split_slash(s: Seq<char>) -> Seq<Seq<char>>
    decreases s.len(),
{
    if s.len() == 0 {
        seq![Seq::empty()]
    } else if s.last() == '/' {
        split_slash(s.drop_last()).push(Seq::empty())
    } else {
        let parts = split_slash(s.drop_last());
        parts.update(parts.len() - 1, parts.last().push(s.last()))
    }
}

/// A valid name of a non-root node: not empty, not starting with the reserved
/// prefix `__`, and not made only of periods.
pub open spec fn valid_node_name(name: Seq<char>) -> bool {
    &&& name.len() > 0
    &&& !(name.len() >= 2 && name[0] == '_' && name[1] == '_')
    &&& exists|i: int| 0 <= i < name.len() && name[i] != '.'
}

/// A valid node path: the root `/`, or `/` followed by `/`-separated valid
/// node names.
pub open spec fn valid_node_path(path: Seq<char>) -> bool {
    ||| path == "/"@
    ||| {
        &&& path.len() > 0
        &&& path[0] == '/'
        &&& path.last() != '/'
        &&& forall|i: int|
            0 <= i < split_slash(path.skip(1)).len() ==> valid_node_name(
                #[trigger] split_slash(path.skip(1))[i],
            )
    }
}

/// zarrs' `NodePath::new`: it accepts `/`, and otherwise a path that starts
/// with `/`, does not end with `/`, and whose `/`-separated components are
/// valid node names.
#[verifier::external_body]
fn zarrs_node_path_ok(path: &str) -> (res: bool)
    ensures
        res == valid_node_path(path@),
{
    NodePath::new(path).is_ok()
}

/// An invalid node path; holds the path as given.
#[derive(Clone, Debug)]
pub struct NodePathError(pub String);

/// Read a node path such as `/group/array`.
pub fn parse_node_path(path: &str) -> (res: Result<String, NodePathError>)
    ensures
        match res {
            Ok(p) => valid_node_path(path@) && p@ == path@,
            Err(NodePathError(given)) => !valid_node_path(path@) && given@ == path@,
        },
{
    if zarrs_node_path_ok(path) {
        Ok(path.to_owned())
    } else {
        Err(NodePathError(path.to_owned()))
    }
}

} // verus!
