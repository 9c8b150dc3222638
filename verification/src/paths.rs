//! Base-name extraction and output-path joining.
//!
//! The external tool writes its output file into the temporary directory
//! under the source file's base name: the final path component, with
//! trailing separators ignored, and with the relative markers "." and ".."
//! counting as no name at all.

use vstd::prelude::*;
use vstd::string::{StrSliceExecFns, StringExecFns};

verus! {

/// `path` with every trailing '/' removed.
pub open spec fn strip_trailing_separators(path: Seq<char>) -> Seq<char>
    decreases path.len(),
{
    if path.len() > 0 && path.last() == '/' {
        strip_trailing_separators(path.drop_last())
    } else {
        path
    }
}

/// The maximal suffix of `path` that contains no '/'.
pub open spec fn last_component(path: Seq<char>) -> Seq<char>
    decreases path.len(),
{
    if path.len() == 0 {
        path
    } else if path.last() == '/' {
        Seq::empty()
    } else {
        last_component(path.drop_last()).push(path.last())
    }
}

/// Whether `name` can name a file: non-empty and not a relative marker.
pub open spec fn is_usable_name(name: Seq<char>) -> bool {
    &&& name.len() > 0
    &&& name != seq!['.']
    &&& name != seq!['.', '.']
}

/// The base name of `path`: its final component, if that is a usable file
/// name. Trailing separators are ignored, so a path that merely ends in
/// '/' still has the base name of its last real component.
pub open spec fn base_name_spec(path: Seq<char>) -> Option<Seq<char>> {
    let name = last_component(strip_trailing_separators(path));
    if is_usable_name(name) {
        Some(name)
    } else {
        None
    }
}

/// The final path component of `path`, or `None` when `path` has no usable
/// base name (empty, a bare separator run, or ending in "." or "..").
pub fn base_name(path: &str) -> (r: Option<String>)
    ensures
        base_name_spec(path@) matches Some(n) ==> (r matches Some(name) && name@ == n),
        base_name_spec(path@) is None ==> r is None,
{
    let len = path.unicode_len();
    proof {
        assert(path@.take(len as int) =~= path@);
    }
    let mut end: usize = len;
    while end > 0 && path.get_char(end - 1) == '/'
        invariant
            end <= len,
            len == path@.len(),
            strip_trailing_separators(path@) == strip_trailing_separators(path@.take(end as int)),
        decreases end,
    {
        proof {
            let pre = path@.take(end as int);
            assert(pre.last() == path@[end - 1]);
            assert(pre.drop_last() =~= path@.take(end - 1));
        }
        end = end - 1;
    }
    proof {
        let trimmed = path@.take(end as int);
        if trimmed.len() > 0 {
            assert(trimmed.last() == path@[end - 1]);
        }
        assert(strip_trailing_separators(path@) == trimmed);
        assert(trimmed + path@.subrange(end as int, end as int) =~= trimmed);
    }
    let mut start: usize = end;
    while start > 0 && path.get_char(start - 1) != '/'
        invariant
            start <= end,
            end <= len,
            len == path@.len(),
            last_component(path@.take(end as int)) == last_component(path@.take(start as int))
                + path@.subrange(start as int, end as int),
        decreases start,
    {
        proof {
            let pre = path@.take(start as int);
            assert(pre.last() == path@[start - 1]);
            assert(pre.drop_last() =~= path@.take(start - 1));
            assert(last_component(pre) == last_component(path@.take(start - 1)).push(
                path@[start - 1],
            ));
            assert(last_component(path@.take(start - 1)).push(path@[start - 1]) + path@.subrange(
                start as int,
                end as int,
            ) =~= last_component(path@.take(start - 1)) + path@.subrange(start - 1, end as int));
        }
        start = start - 1;
    }
    proof {
        let head = path@.take(start as int);
        if start > 0 {
            assert(head.last() == path@[start - 1]);
        } else {
            assert(head =~= Seq::<char>::empty());
        }
        assert(last_component(head) =~= Seq::<char>::empty());
        assert(last_component(path@.take(end as int)) =~= path@.subrange(
            start as int,
            end as int,
        ));
    }
    let count = end - start;
    let ghost name = path@.subrange(start as int, end as int);
    if count == 0 {
        return None;
    }
    if count == 1 && path.get_char(start) == '.' {
        proof {
            assert(name =~= seq!['.']);
        }
        return None;
    }
    if count == 2 && path.get_char(start) == '.' && path.get_char(start + 1) == '.' {
        proof {
            assert(name =~= seq!['.', '.']);
        }
        return None;
    }
    proof {
        if name == seq!['.'] {
            assert(name.len() == 1 && name[0] == '.');
        }
        if name == seq!['.', '.'] {
            assert(name.len() == 2 && name[0] == '.' && name[1] == '.');
        }
        assert(is_usable_name(name));
    }
    let slice = path.substring_char(start, end);
    Some(String::from_str(slice))
}

/// The path of the expected output file: `dir` and `base` joined by a
/// single separator.
pub open spec fn joined_path(dir: Seq<char>, base: Seq<char>) -> Seq<char> {
    dir + seq!['/'] + base
}

/// The file the tool is expected to have written: `<dir>/<base>`.
pub fn output_file_path(dir: &str, base: &str) -> (r: String)
    ensures
        r@ == joined_path(dir@, base@),
{
    proof {
        reveal_strlit("/");
        assert("/"@ =~= seq!['/']);
    }
    let mut s = String::from_str(dir);
    s.append("/");
    s.append(base);
    proof {
        assert(s@ =~= joined_path(dir@, base@));
    }
    s
}

/// A sequence of characters that contains no path separator.
pub open spec fn separator_free(name: Seq<char>) -> bool {
    forall|i: int| 0 <= i < name.len() ==> name[i] != '/'
}

proof fn lemma_last_component_no_separator(name: Seq<char>)
    requires
        separator_free(name),
    ensures
        last_component(name) == name,
    decreases name.len(),
{
    if name.len() > 0 {
        lemma_last_component_no_separator(name.drop_last());
        assert(last_component(name.drop_last()).push(name.last()) =~= name);
    }
}

proof fn lemma_last_component_after_separator(head: Seq<char>, name: Seq<char>)
    requires
        head.len() > 0,
        head.last() == '/',
        separator_free(name),
    ensures
        last_component(head + name) == name,
    decreases name.len(),
{
    if name.len() == 0 {
        assert(head + name =~= head);
    } else {
        lemma_last_component_after_separator(head, name.drop_last());
        let whole = head + name;
        assert(whole.last() == name.last());
        assert(whole.drop_last() =~= head + name.drop_last());
        assert(last_component(whole) == last_component(head + name.drop_last()).push(name.last()));
        assert(name.drop_last().push(name.last()) =~= name);
    }
}

/// Round trip through the temporary directory: joining a usable,
/// separator-free file name onto any directory path and taking the base
/// name of the result gives that name back. The tool writes `<base>` into
/// the temporary directory, and the orchestrator looks it up there under
/// exactly that name.
pub proof fn lemma_base_name_of_joined_path(dir: Seq<char>, base: Seq<char>)
    requires
        is_usable_name(base),
        separator_free(base),
    ensures
        base_name_spec(joined_path(dir, base)) == Some(base),
{
    let whole = joined_path(dir, base);
    assert(whole.last() == base.last());
    assert(base.last() != '/');
    assert(strip_trailing_separators(whole) == whole);
    assert(whole =~= (dir + seq!['/']) + base);
    assert((dir + seq!['/']).last() == '/');
    lemma_last_component_after_separator(dir + seq!['/'], base);
    assert(last_component(whole) == base);
}

/// A bare file name is its own base name: a usable, separator-free `name`
/// resolves to itself, with or without leading directories.
pub proof fn lemma_base_name_of_bare_name(name: Seq<char>)
    requires
        is_usable_name(name),
        separator_free(name),
    ensures
        base_name_spec(name) == Some(name),
{
    assert(name.last() != '/');
    assert(strip_trailing_separators(name) == name);
    lemma_last_component_no_separator(name);
}

} // verus!
