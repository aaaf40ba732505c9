//! Paths as texts: what `std::path` makes of them. Platforms take paths apart differently, so each
//! relation here is exact where they all agree, and says of the rest what holds on any of them.

use vstd::prelude::*;

use crate::seqs::kept;
use crate::text::{ascii_lowercase, occurs, opt_text};

verus! {

// ----- extensions -----------------------------------------------------------------------------

/// What follows the last `/` of a path.
pub open spec fn last_component(path: Seq<char>) -> Seq<char>
    decreases path.len(),
{
    if path.len() == 0 || path.last() == '/' {
        Seq::empty()
    } else {
        last_component(path.drop_last()).push(path.last())
    }
}

/// What follows the last `.` of a name.
pub open spec fn after_dot(name: Seq<char>) -> Seq<char>
    decreases name.len(),
{
    if name.len() == 0 || name.last() == '.' {
        Seq::empty()
    } else {
        after_dot(name.drop_last()).push(name.last())
    }
}

/// The extension of a file name: what follows its last `.`, unless that starts the name.
pub open spec fn extension_in(name: Seq<char>) -> Option<Seq<char>> {
    if after_dot(name).len() + 1 < name.len() {
        Some(after_dot(name))
    } else {
        None
    }
}

/// A path that `/` alone takes apart, on every platform: it names no drive or network share.
pub open spec fn slashed(path: Seq<char>) -> bool {
    &&& !path.contains('\\')
    &&& !path.contains(':')
    &&& !(path.len() >= 2 && path[0] == '/' && path[1] == '/')
}

/// A path every platform reads alike that ends in the name of a file.
pub open spec fn portable_path(path: Seq<char>) -> bool {
    &&& slashed(path)
    &&& last_component(path).len() > 0
    &&& last_component(path) != seq!['.']
    &&& last_component(path) != seq!['.', '.']
}

/// A character that separates components on some platform.
pub open spec fn separates(c: char) -> bool {
    c == '/' || c == '\\' || c == ':'
}

/// A path whose extension is plain to see, on a drive or off it: its last `.` is inside a name, no
/// component ends behind it, and it names no network share.
pub open spec fn plain_extension(path: Seq<char>) -> bool {
    let dot = path.len() - after_dot(path).len() - 1;
    &&& dot > 0
    &&& path[dot - 1] != '.'
    &&& !separates(path[dot - 1])
    &&& forall|i: int| dot < i < path.len() ==> !separates(#[trigger] path[i])
    &&& !(path.len() >= 2 && separates(path[0]) && separates(path[1]))
}

/// A path whose extension, or want of one, is the same on every platform.
pub open spec fn extension_is_plain(path: Seq<char>) -> bool {
    plain_extension(path) || !path.contains('.') || portable_path(path)
}

/// The extension of a path where that is the same on every platform.
pub open spec fn plain_extension_of(path: Seq<char>) -> Option<Seq<char>> {
    if plain_extension(path) {
        Some(after_dot(path))
    } else if !path.contains('.') {
        None
    } else {
        extension_in(last_component(path))
    }
}

/// Whether a file at `path` may have this extension: the one every platform reads, where they agree,
/// and in any case one that stands in the path behind a `.` and holds none.
pub open spec fn may_have(path: Seq<char>, extension: Option<Seq<char>>) -> bool {
    &&& extension_is_plain(path) ==> extension == plain_extension_of(path)
    &&& extension matches Some(e) ==> occurs(path, seq!['.'] + e) && !e.contains('.')
}

/// `std::path::Path::extension`: what follows the last `.` of the file name, so it stands in the path
/// behind a `.` and holds none. Where that `.` is inside a name and the path ends in that name, what
/// follows it is the extension on every platform, drive letters and backslashes or not. A path
/// without a `.` has none, and of a path that `/` alone takes apart the file name is what follows the
/// last `/`. What is left depends on the platform, such as a `\` behind the last `.`; of such a path
/// no more is said.
#[verifier::external_body]
pub(crate) fn path_extension(path: &str) -> (r: Option<String>)
    ensures
        may_have(path@, opt_text(r)),
{
    std::path::Path::new(path).extension().and_then(|e| e.to_str()).map(|e| e.to_owned())
}

// ----- names ----------------------------------------------------------------------------------

/// Whether the file at `path` may have this name: what every platform reads, where they agree, and in
/// any case something that stands in the path.
pub open spec fn may_be_named(path: Seq<char>, name: Option<Seq<char>>) -> bool {
    &&& portable_path(path) ==> name == Some(last_component(path))
    &&& path.len() == 0 ==> name is None
    &&& name matches Some(n) ==> n.len() > 0 && occurs(path, n)
}

/// `std::path::Path::file_name`: the final component of the path, where that is a name, as it stands
/// there. Of a path that `/` alone takes apart and that ends in a name it is what follows the last `/`;
/// of other paths, such as one with a `\` or with a `/` at its end, no more is said than that.
#[verifier::external_body]
pub(crate) fn path_name(path: &str) -> (r: Option<String>)
    ensures
        may_be_named(path@, opt_text(r)),
{
    std::path::Path::new(path).file_name().map(|name| name.to_string_lossy().into_owned())
}

// ----- folders --------------------------------------------------------------------------------

/// What stands ahead of the last name of a path, the `/` between them included.
pub open spec fn ahead_of_name(path: Seq<char>) -> Seq<char> {
    path.take(path.len() - last_component(path).len())
}

/// The folder of a file, where that is the same on every platform: what stands ahead of the file's
/// name, without the `/` between them unless that is the root.
pub open spec fn parent_of(path: Seq<char>) -> Seq<char> {
    let ahead = ahead_of_name(path);
    if ahead.len() <= 1 {
        ahead
    } else {
        ahead.drop_last()
    }
}

/// A path whose folder is plain to see: it ends in the name of a file, ahead of which stands nothing,
/// the root, or a folder that ends in a name itself.
pub open spec fn plain_parent(path: Seq<char>) -> bool {
    &&& portable_path(path)
    &&& ahead_of_name(path).len() <= 1 || (last_component(parent_of(path)).len() > 0 && last_component(parent_of(path)) != seq!['.'])
}

/// Whether the file at `path` may be in this folder: the one every platform reads, where they agree,
/// and in any case one the path starts with.
pub open spec fn may_be_parent(path: Seq<char>, parent: Option<Seq<char>>) -> bool {
    &&& plain_parent(path) ==> parent == Some(parent_of(path))
    &&& path.len() == 0 || path == seq!['/'] ==> parent is None
    &&& parent matches Some(dir) ==> dir.len() < path.len() && dir == path.take(dir.len() as int)
}

/// `std::path::Path::parent`: the path without its final component, so it starts the path; nothing for
/// the root and for the empty path. Of a path that `/` alone takes apart and that ends in a name it is
/// what stands ahead of that name; what else separates components depends on the platform, and of such
/// a path no more is said.
#[verifier::external_body]
pub(crate) fn path_parent(path: &str) -> (r: Option<String>)
    ensures
        may_be_parent(path@, opt_text(r)),
{
    std::path::Path::new(path).parent().map(|dir| dir.to_string_lossy().into_owned())
}

/// A name without anything that separates components on some platform.
pub open spec fn plain_name(name: Seq<char>) -> bool {
    forall|i: int| 0 <= i < name.len() ==> !separates(#[trigger] name[i])
}

/// A path in the form that one platform takes as it stands: it starts with `\\?\`.
pub open spec fn verbatim(path: Seq<char>) -> bool {
    path.len() >= 4 && path.take(4) == seq!['\\', '\\', '?', '\\']
}

/// Whether `path` may be that of a file called `name` in the folder `dir`: the two, with one separator
/// between them unless the folder brings its own.
pub open spec fn may_join(dir: Seq<char>, name: Seq<char>, path: Seq<char>) -> bool {
    plain_name(name) && !verbatim(dir) ==> {
        &&& path == dir + name || path == dir.push('/') + name || path == dir.push('\\') + name
        &&& dir.len() == 0 || dir.last() == '/' ==> path == dir + name
        &&& dir.len() > 0 && dir.last() != '/' && slashed(dir) ==> path != dir + name
    }
}

/// `std::path::Path::join` with a single name: the folder, a separator unless the folder is empty or
/// ends in one, and the name. The separator is the platform's own. Of a name that holds separators
/// itself, and of folders written in the form that starts with `\\?\`, nothing is said.
#[verifier::external_body]
pub(crate) fn join_path(dir: &str, name: &str) -> (r: String)
    ensures
        may_join(dir@, name@, r@),
{
    std::path::Path::new(dir).join(name).to_string_lossy().into_owned()
}

// ----- sameness -------------------------------------------------------------------------------

/// Whether a path starts at the root.
pub open spec fn rooted(path: Seq<char>) -> bool {
    path.len() > 0 && path[0] == '/'
}

/// The names a path is made of, in order: what its `/` set apart. Nothing between two of them is no
/// name, and a `.` is one only at the start of a path.
pub open spec fn names(path: Seq<char>) -> Seq<Seq<char>>
    decreases path.len(),
{
    let name = last_component(path);
    let ahead = ahead_of_name(path);
    if 0 < ahead.len() <= path.len() {
        let before = names(ahead.drop_last());
        if name.len() == 0 || name == seq!['.'] {
            before
        } else {
            before.push(name)
        }
    } else if name.len() == 0 {
        Seq::empty()
    } else {
        seq![name]
    }
}

/// The characters of a path that are no part of how it is taken apart, in lower case.
pub open spec fn solid(path: Seq<char>) -> Seq<char> {
    ascii_lowercase(kept(path, |c: char| c != '/' && c != '\\' && c != '.'))
}

/// Whether the two paths may be the same, or not: they are the same where their names are, where every
/// platform takes them apart alike. In any case a path is the same as itself, and the same paths differ
/// in separators, in `.` and in the case of a drive's letter only.
pub open spec fn may_equal(a: Seq<char>, b: Seq<char>, same: bool) -> bool {
    &&& slashed(a) && slashed(b) ==> same == (rooted(a) == rooted(b) && names(a) == names(b))
    &&& a == b ==> same
    &&& same ==> solid(a) == solid(b)
}

/// `==` on `std::path::Path`: whether the two are made of the same components. Repeated separators,
/// one at the end, and a `.` that does not start the path do not count; nothing else is disregarded.
/// What separates components depends on the platform, so of paths with a `\` or a drive no more is
/// said than that.
#[verifier::external_body]
pub(crate) fn same_path(a: &str, b: &str) -> (r: bool)
    ensures
        may_equal(a@, b@, r),
{
    std::path::Path::new(a) == std::path::Path::new(b)
}

// ----- laws -----------------------------------------------------------------------------------

proof fn lemma_last_component(ahead: Seq<char>, name: Seq<char>)
    requires
        !name.contains('/'),
        ahead.len() == 0 || ahead.last() == '/',
    ensures
        last_component(ahead + name) == name,
    decreases name.len(),
{
    let path = ahead + name;
    if name.len() == 0 {
        assert(path =~= ahead);
    } else {
        assert(path.drop_last() =~= ahead + name.drop_last());
        assert(path.last() == name.last());
        assert(name.contains(name[name.len() - 1]));
        assert forall|c: char| name.drop_last().contains(c) implies name.contains(c) by {
            let i = choose|i: int| 0 <= i < name.drop_last().len() && name.drop_last()[i] == c;
            assert(name[i] == c);
        }
        lemma_last_component(ahead, name.drop_last());
        assert(name.drop_last().push(name.last()) =~= name);
    }
}

/// A `/` at its end makes no other path of a folder.
pub proof fn a_trailing_slash_names_the_same_folder(dir: Seq<char>)
    requires
        dir.len() > 0,
    ensures
        names(dir.push('/')) == names(dir),
        rooted(dir.push('/')) == rooted(dir),
{
    let path = dir.push('/');
    assert(last_component(path).len() == 0);
    assert(ahead_of_name(path) =~= path);
    assert(path.drop_last() =~= dir);
}

/// The folder of a file is the one it was put into.
pub proof fn a_file_is_in_the_folder_it_was_put_into(dir: Seq<char>, name: Seq<char>)
    requires
        slashed(dir),
        last_component(dir).len() > 0,
        last_component(dir) != seq!['.'],
        plain_name(name),
        name.len() > 0,
        name != seq!['.'],
        name != seq!['.', '.'],
    ensures
        may_be_parent(dir.push('/') + name, Some(dir)),
        forall|parent: Option<Seq<char>>| #[trigger] may_be_parent(dir.push('/') + name, parent) ==> parent == Some(dir),
{
    let path = dir.push('/') + name;
    if name.contains('/') {
        let i = choose|i: int| 0 <= i < name.len() && name[i] == '/';
        assert(separates(name[i]));
    }
    lemma_last_component(dir.push('/'), name);
    assert(ahead_of_name(path) =~= dir.push('/'));
    assert(dir.push('/').drop_last() =~= dir);
    assert(parent_of(path) == dir);
    assert(slashed(path)) by {
        assert forall|i: int| 0 <= i < path.len() implies path[i] != '\\' && path[i] != ':' by {
            if i < dir.len() {
                assert(path[i] == dir[i]);
                assert(dir.contains(dir[i]));
            } else if i > dir.len() {
                assert(path[i] == name[i - dir.len() - 1]);
                assert(!separates(name[i - dir.len() - 1]));
            }
        }
        assert(path[0] == dir[0]);
        if dir.len() == 1 {
            assert(last_component(dir) == last_component(dir.drop_last()).push(dir.last()));
        }
    }
    assert(plain_parent(path));
    assert(path.take(dir.len() as int) =~= dir);
}

proof fn lemma_after_dot(ahead: Seq<char>, extension: Seq<char>)
    requires
        !extension.contains('.'),
    ensures
        after_dot(ahead.push('.') + extension) == extension,
    decreases extension.len(),
{
    let path = ahead.push('.') + extension;
    if extension.len() == 0 {
        assert(path =~= ahead.push('.'));
    } else {
        assert(path.drop_last() =~= ahead.push('.') + extension.drop_last());
        assert(extension.contains(extension[extension.len() - 1]));
        assert forall|c: char| extension.drop_last().contains(c) implies extension.contains(c) by {
            let i = choose|i: int| 0 <= i < extension.drop_last().len() && extension.drop_last()[i] == c;
            assert(extension[i] == c);
        }
        lemma_after_dot(ahead, extension.drop_last());
        assert(extension.drop_last().push(extension.last()) =~= extension);
    }
}

/// The extension of a file is what follows the last `.` of its name, whatever stands ahead.
pub proof fn an_extension_follows_the_last_dot(ahead: Seq<char>, extension: Seq<char>, found: Option<Seq<char>>)
    requires
        ahead.len() > 0,
        ahead.last() != '.',
        !separates(ahead.last()),
        !(ahead.len() >= 2 && separates(ahead[0]) && separates(ahead[1])),
        !extension.contains('.'),
        plain_name(extension),
        may_have(ahead.push('.') + extension, found),
    ensures
        found == Some(extension),
{
    let path = ahead.push('.') + extension;
    lemma_after_dot(ahead, extension);
    assert(path[ahead.len() - 1] == ahead.last());
    assert forall|i: int| ahead.len() < i < path.len() implies !separates(#[trigger] path[i]) by {
        assert(path[i] == extension[i - ahead.len() - 1]);
    }
    assert(path[0] == ahead[0]);
    assert(plain_extension(path));
}

/// A file is called by what follows the folder it is in.
pub proof fn a_file_is_called_by_what_follows_its_folder(dir: Seq<char>, name: Seq<char>, found: Option<Seq<char>>)
    requires
        slashed(dir.push('/') + name),
        !name.contains('/'),
        name.len() > 0,
        name != seq!['.'],
        name != seq!['.', '.'],
        may_be_named(dir.push('/') + name, found),
    ensures
        found == Some(name),
{
    lemma_last_component(dir.push('/'), name);
}

} // verus!
