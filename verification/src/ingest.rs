//! Ingestion of an upload: which parts are accepted, and where an accepted
//! part is staged.

use crate::config::Config;
use crate::identifier::{fresh_uuid_text, is_hex_digit, is_identifier};
use crate::text::{chars_of, concat3, ends_with_folded, fold, has_suffix_folded};
use vstd::prelude::*;
use vstd::string::*;

verus! {

/// Whether a part named `name` is accepted: its name ends in `extension`,
/// ASCII letters compared without regard to case.
pub open spec fn accepts(extension: Seq<char>, name: Seq<char>) -> bool {
    ends_with_folded(name, extension)
}

/// A character that parts a directory from what lies in it.
pub open spec fn is_separator(c: char) -> bool {
    c == '/' || c == '\\'
}

/// The last component of `name`: what follows its last separator, or all of
/// it where it has none.
pub open spec fn leaf(name: Seq<char>) -> Seq<char>
    decreases name.len(),
{
    if name.len() == 0 || is_separator(name.last()) {
        Seq::empty()
    } else {
        leaf(name.drop_last()).push(name.last())
    }
}

/// Path at which the part named `name` is staged in `workspace`: directly
/// in it, under the last component of the name.
pub open spec fn staged_path(workspace: Seq<char>, name: Seq<char>) -> Seq<char> {
    workspace + "/"@ + leaf(name)
}

/// The paths at which the parts named `names`, in the order received, are
/// staged: one for each accepted part, in the same order.
pub open spec fn staged_paths(
    extension: Seq<char>,
    workspace: Seq<char>,
    names: Seq<Seq<char>>,
) -> Seq<Seq<char>>
    decreases names.len(),
{
    if names.len() == 0 {
        Seq::empty()
    } else {
        let before = staged_paths(extension, workspace, names.drop_last());
        if accepts(extension, names.last()) {
            before.push(staged_path(workspace, names.last()))
        } else {
            before
        }
    }
}

/// The name under which a part is judged: the file name that it came with,
/// or a fresh unique name where it came with none.
pub fn part_name(filename: Option<String>) -> (r: String)
    ensures
        filename matches Some(given) ==> r@ == given@,
        filename is None ==> is_identifier(r@),
{
    match filename {
        Some(given) => given,
        None => fresh_uuid_text(),
    }
}

/// Tests whether a part named `name` is accepted.
pub fn is_accepted(config: &Config, name: &str) -> (r: bool)
    ensures
        r == accepts(config@.accepted_extension, name@),
{
    has_suffix_folded(name, config.accepted_extension.as_str())
}

/// The last component of `name` is the part of it from `start` on, if no
/// separator lies in that part and one lies just before it, or none at all.
pub proof fn leaf_is_last_component(name: Seq<char>, start: int)
    requires
        0 <= start <= name.len(),
        start == 0 || is_separator(name[start - 1]),
        forall|i: int| start <= i < name.len() ==> !is_separator(#[trigger] name[i]),
    ensures
        leaf(name) == name.subrange(start, name.len() as int),
    decreases name.len(),
{
    if start == name.len() {
        assert(name.subrange(start, name.len() as int) =~= Seq::empty());
    } else {
        let front = name.drop_last();
        assert(!is_separator(name[name.len() - 1]));
        assert forall|i: int| start <= i < front.len() implies !is_separator(
            #[trigger] front[i],
        ) by {
            assert(front[i] == name[i]);
        }
        leaf_is_last_component(front, start);
        assert(name.subrange(start, name.len() as int) =~= front.subrange(
            start,
            front.len() as int,
        ).push(name.last()));
    }
}

/// Cuts the last component out of `name`.
pub fn leaf_of(name: &str) -> (r: &str)
    ensures
        r@ == leaf(name@),
{
    let chars = chars_of(name);
    let n: usize = chars.len();
    let mut start: usize = n;
    while start > 0 && !(chars[start - 1] == '/' || chars[start - 1] == '\\')
        invariant
            chars@ == name@,
            n == name@.len(),
            start <= n,
            forall|i: int| start <= i < n ==> !is_separator(#[trigger] name@[i]),
        decreases start,
    {
        start = start - 1;
    }
    proof {
        leaf_is_last_component(name@, start as int);
    }
    name.substring_char(start, n)
}

/// Builds the path at which the part named `name` is staged.
pub fn staged_path_of(workspace: &str, name: &str) -> (r: String)
    ensures
        r@ == staged_path(workspace@, name@),
{
    concat3(workspace, "/", leaf_of(name))
}

/// The last component of a name holds no separator.
pub proof fn leaf_has_no_separator(name: Seq<char>)
    ensures
        leaf(name).len() <= name.len(),
        forall|i: int| 0 <= i < leaf(name).len() ==> !is_separator(#[trigger] leaf(name)[i]),
    decreases name.len(),
{
    if name.len() > 0 && !is_separator(name.last()) {
        leaf_has_no_separator(name.drop_last());
    }
}

/// An accepted part is staged directly in the workspace: where the
/// extension ends in a character that is neither a dot nor a separator,
/// the file's name is not empty, is neither `.` nor `..`, and holds no
/// separator, so that the path cannot lead out of the workspace.
pub proof fn staged_file_lies_in_workspace(
    extension: Seq<char>,
    workspace: Seq<char>,
    name: Seq<char>,
)
    requires
        accepts(extension, name),
        extension.len() > 0,
        extension.last() != '.',
        !is_separator(extension.last()),
    ensures
        staged_path(workspace, name) == workspace + "/"@ + leaf(name),
        leaf(name).len() > 0,
        leaf(name).last() != '.',
        forall|i: int| 0 <= i < leaf(name).len() ==> !is_separator(#[trigger] leaf(name)[i]),
{
    leaf_has_no_separator(name);
    let k = extension.len() - 1;
    assert(fold(name[name.len() - extension.len() + k]) == fold(extension[k]));
    assert(fold(name.last()) == fold(extension.last()));
    assert(!is_separator(name.last()));
    assert(name.last() != '.');
}

/// A generated name is never accepted where the extension starts with a
/// dot: a part without a file name is not staged.
pub proof fn generated_name_is_rejected(extension: Seq<char>, name: Seq<char>)
    requires
        is_identifier(name),
        extension.len() > 0,
        extension[0] == '.',
    ensures
        !accepts(extension, name),
{
    if extension.len() <= name.len() {
        let at = name.len() - extension.len() + 0;
        assert(fold(extension[0]) == '.');
        assert(name[at] == '-' || is_hex_digit(name[at]));
        assert(fold(name[at]) != '.');
    }
}

/// The staged paths are what is left of the names when those that are not
/// accepted are dropped and each other is replaced by its staged path.
pub proof fn staged_paths_are_the_accepted_names(
    extension: Seq<char>,
    workspace: Seq<char>,
    names: Seq<Seq<char>>,
)
    ensures
        staged_paths(extension, workspace, names) == names.filter(
            |name: Seq<char>| accepts(extension, name),
        ).map_values(|name: Seq<char>| staged_path(workspace, name)),
    decreases names.len(),
{
    reveal(Seq::filter);
    let accepted = |name: Seq<char>| accepts(extension, name);
    let place = |name: Seq<char>| staged_path(workspace, name);
    if names.len() > 0 {
        staged_paths_are_the_accepted_names(extension, workspace, names.drop_last());
        let before = names.drop_last().filter(accepted);
        if accepts(extension, names.last()) {
            assert(names.filter(accepted) == before.push(names.last()));
            assert(before.push(names.last()).map_values(place) =~= before.map_values(place).push(
                place(names.last()),
            ));
        }
    }
    assert(staged_paths(extension, workspace, names) =~= names.filter(accepted).map_values(place));
}

/// No more paths are staged than parts were received, and one is staged
/// exactly when some part is accepted.
pub proof fn staged_paths_bounded(
    extension: Seq<char>,
    workspace: Seq<char>,
    names: Seq<Seq<char>>,
)
    ensures
        staged_paths(extension, workspace, names).len() <= names.len(),
        staged_paths(extension, workspace, names).len() > 0 <==> exists|i: int|
            0 <= i < names.len() && accepts(extension, #[trigger] names[i]),
    decreases names.len(),
{
    if names.len() > 0 {
        let front = names.drop_last();
        staged_paths_bounded(extension, workspace, front);
        if accepts(extension, names.last()) {
            assert(accepts(extension, names[names.len() - 1]));
        } else if staged_paths(extension, workspace, front).len() > 0 {
            let i = choose|i: int| 0 <= i < front.len() && accepts(extension, #[trigger] front[i]);
            assert(names[i] == front[i]);
        } else {
            assert forall|i: int| 0 <= i < names.len() implies !accepts(
                extension,
                #[trigger] names[i],
            ) by {
                if i < front.len() {
                    assert(front[i] == names[i]);
                }
            }
        }
    }
}

} // verus!
