//! The names that sessions go by in the directory of their sockets.

use std::path::PathBuf;
use vstd::prelude::*;

verus! {

/// Some system takes `c` for a separator of paths, or of a drive from a path.
pub open spec fn is_separator(c: char) -> bool {
    c == '/' || c == '\\' || c == ':'
}

/// `name` is a single component of a path on every system.
pub open spec fn plain_name(name: Seq<char>) -> bool {
    &&& name.len() > 0
    &&& name != seq!['.']
    &&& name != seq!['.', '.']
    &&& forall|i: int| 0 <= i < name.len() ==> !is_separator(#[trigger] name[i])
}

/// `dir` does not start with two separators, which on some systems is not a
/// directory but the start of a name on the network.
pub open spec fn local_directory(dir: Seq<char>) -> bool {
    !(dir.len() >= 2 && is_separator(dir[0]) && is_separator(dir[1]))
}

/// `Path::file_name` of `name` after `PathBuf::push` has put it under `dir`: the
/// last component of the path, which is `name` itself where that is a single
/// component. What other names come to depends on the system, and is not claimed.
#[verifier::external_body]
fn file_name_under(dir: &str, name: &str) -> (r: Option<String>)
    ensures
        plain_name(name@) && local_directory(dir@) ==> r is Some && r->0@ == name@,
{
    let mut path = PathBuf::from(dir);
    path.push(name);
    let last = path.file_name()?.to_str()?;
    Some(last.to_owned())
}

/// The system may give `r` for the last component of `name` under `dir`.
pub closed spec fn last_component(dir: &str, name: &str, r: Option<String>) -> bool {
    call_ensures(file_name_under, (dir, name), r)
}

fn component_of<F: Fn(&str, &str) -> Option<String>>(path: F, dir: &str, name: &str) -> (r: Option<
    String,
>)
    requires
        call_requires(path, (dir, name)),
    ensures
        call_ensures(path, (dir, name), r),
{
    path(dir, name)
}

/// The name of the session whose socket is `name` under `socket_directory`, if
/// there can be one.
pub fn socket_session_name(socket_directory: &str, name: &str) -> (r: Option<String>)
    ensures
        last_component(socket_directory, name, r),
        plain_name(name@) && local_directory(socket_directory@) ==> r is Some && r->0@ == name@,
{
    component_of(file_name_under, socket_directory, name)
}

/// Whether `name` is a single component of a path on every system.
pub fn is_plain_name(name: &str) -> (r: bool)
    ensures
        r == plain_name(name@),
{
    let mut len: u64 = 0;
    let mut dots: bool = true;
    for c in it: name.chars()
        invariant
            it.seq() == name@,
            len <= 3,
            it.index() <= 3 ==> len == it.index(),
            it.index() > 3 ==> len == 3,
            dots <==> forall|i: int| 0 <= i < it.index() ==> name@[i] == '.',
            forall|i: int| 0 <= i < it.index() ==> !is_separator(#[trigger] name@[i]),
    {
        if c == '/' || c == '\\' || c == ':' {
            return false;
        }
        if c != '.' {
            dots = false;
        }
        if len < 3 {
            len += 1;
        }
    }
    if dots && len == 1 {
        assert(name@ =~= seq!['.']);
    }
    if dots && len == 2 {
        assert(name@ =~= seq!['.', '.']);
    }
    len > 0 && !(dots && len <= 2)
}

/// A name of no separators is a plain one if it holds anything but dots, and if it
/// is nothing but dots, then if there are more than two of them. A name with a
/// separator in it is not.
pub proof fn law_which_names_are_plain(name: Seq<char>, i: int)
    requires
        0 <= i < name.len(),
    ensures
        name[i] == '/' || name[i] == '\\' || name[i] == ':' ==> !plain_name(name),
        (forall|j: int|
            0 <= j < name.len() ==> #[trigger] name[j] != '/' && name[j] != '\\' && name[j] != ':')
            && (name[i] != '.' || name.len() > 2) ==> plain_name(name),
        !plain_name(seq![]),
        !plain_name(seq!['.']),
        !plain_name(seq!['.', '.']),
{
    assert(seq!['.'][0] == '.');
    assert(seq!['.', '.'][0] == '.' && seq!['.', '.'][1] == '.');
}

/// Every directory that does not start with two separators is a local one.
pub proof fn law_which_directories_are_local(dir: Seq<char>)
    ensures
        dir.len() < 2 ==> local_directory(dir),
        dir.len() >= 2 ==> (local_directory(dir) <==> !((dir[0] == '/' || dir[0] == '\\' || dir[0]
            == ':') && (dir[1] == '/' || dir[1] == '\\' || dir[1] == ':'))),
{
}

} // verus!
