//! Paths as text, taken apart and put together by `std::path`.
//!
//! A path is held as a string. The platform's rules for separators, roots and
//! `.`/`..` components stay with `std::path`: each function here hands the text
//! to one method of `Path` or `PathBuf` and takes the answer back as text.
//!
//! Nothing here is proved about `std::path`. What a method answers is given a
//! name (`path_file_name`, `path_parent`, `path_join`, `extension_replaced`),
//! and the contracts of the library speak of those names. The answers follow
//! the path syntax of the platform that the library is built for; on one
//! build, the same text always gets the same answer. The extension is not
//! asked of std: it is read off the file name, by the rule that std documents
//! for `Path::extension`.

use std::path::{Path, PathBuf};
use vstd::prelude::*;

verus! {

/// What `Path::file_name` answers for the path with this text.
pub uninterp spec fn path_file_name(path: Seq<char>) -> Option<Seq<char>>;

/// What `Path::parent` answers for the path with this text.
pub uninterp spec fn path_parent(path: Seq<char>) -> Option<Seq<char>>;

/// The text of the path that `Path::join` builds from `base` and `tail`.
pub uninterp spec fn path_join(base: Seq<char>, tail: Seq<char>) -> Seq<char>;

/// The text of the path that `PathBuf::set_extension` leaves behind.
pub uninterp spec fn extension_replaced(path: Seq<char>, extension: Seq<char>) -> Seq<char>;

/// Position of the last `.` in `name`, or -1 where it holds none.
pub open spec fn final_dot(name: Seq<char>) -> int
    decreases name.len(),
{
    if name.len() == 0 {
        -1
    } else if name.last() == '.' {
        name.len() - 1
    } else {
        final_dot(name.drop_last())
    }
}

/// The extension of a file name: what follows its last `.`; none where the
/// name has no `.` or its only `.` is the first character.
pub open spec fn name_extension(name: Seq<char>) -> Option<Seq<char>> {
    let dot = final_dot(name);
    if dot <= 0 {
        None
    } else {
        Some(name.subrange(dot + 1, name.len() as int))
    }
}

/// The extension of a path: that of its file name, where it has one.
pub open spec fn path_extension(path: Seq<char>) -> Option<Seq<char>> {
    match path_file_name(path) {
        Some(name) => name_extension(name),
        None => None,
    }
}

/// What follows the last `.` of `text`; all of `text` where it holds none.
pub open spec fn after_final_dot(text: Seq<char>) -> Seq<char> {
    text.subrange(final_dot(text) + 1, text.len() as int)
}

/// True of `/` and `\`, the characters that some platform reads as a path
/// separator.
pub open spec fn is_separator(c: char) -> bool {
    c == '/' || c == '\\'
}

/// True when no character of `text` is a path separator.
pub open spec fn separator_free(text: Seq<char>) -> bool {
    forall|i: int| 0 <= i < text.len() ==> !is_separator(#[trigger] text[i])
}

/// Where `final_dot` points there is a `.`, and none comes after it; where it
/// is -1 the name holds no `.` at all.
pub proof fn lemma_final_dot(name: Seq<char>)
    ensures
        -1 <= final_dot(name) < name.len(),
        final_dot(name) >= 0 ==> name[final_dot(name)] == '.',
        forall|i: int| final_dot(name) < i < name.len() ==> name[i] != '.',
    decreases name.len(),
{
    if name.len() > 0 && name.last() != '.' {
        let front = name.drop_last();
        lemma_final_dot(front);
        assert forall|i: int| final_dot(name) < i < name.len() implies name[i] != '.' by {
            if i < front.len() {
                assert(front[i] == name[i]);
            }
        }
    }
}

/// A `.` that no other `.` follows is the one `final_dot` finds.
pub proof fn lemma_final_dot_unique(name: Seq<char>, dot: int)
    requires
        0 <= dot < name.len(),
        name[dot] == '.',
        forall|i: int| dot < i < name.len() ==> name[i] != '.',
    ensures
        final_dot(name) == dot,
{
    lemma_final_dot(name);
}

/// Tells whether `text` is free of path separators.
pub fn is_separator_free(text: &str) -> (free: bool)
    ensures
        free == separator_free(text@),
{
    let mut free = true;
    for c in it: text.chars()
        invariant
            it.seq() == text@,
            free == (forall|i: int| 0 <= i < it.index() ==> !is_separator(#[trigger] text@[i])),
    {
        if c == '/' || c == '\\' {
            free = false;
        }
    }
    free
}

/// Calls `Path::file_name`, which gives the final component of a path, and
/// none where the path ends in a root or in `..`. Taken on trust: the answer
/// is `path_file_name` of the text.
#[verifier::external_body]
pub(crate) fn file_name(path: &str) -> (name: Option<String>)
    ensures
        name.deep_view() == path_file_name(path@),
{
    match Path::new(path).file_name() {
        Some(name) => Some(name.to_string_lossy().into_owned()),
        None => None,
    }
}

/// Calls `Path::parent`, which gives the path without its final component,
/// and none where the path ends in a root or is empty. Taken on trust: the
/// answer is `path_parent` of the text.
#[verifier::external_body]
pub(crate) fn parent(path: &str) -> (dir: Option<String>)
    ensures
        dir.deep_view() == path_parent(path@),
{
    match Path::new(path).parent() {
        Some(dir) => Some(dir.to_string_lossy().into_owned()),
        None => None,
    }
}

/// Calls `Path::join`, which adjoins `tail` to `base`. Taken on trust: the
/// answer is `path_join` of the two texts.
#[verifier::external_body]
pub(crate) fn join(base: &str, tail: &str) -> (joined: String)
    ensures
        joined@ == path_join(base@, tail@),
{
    Path::new(base).join(tail).to_string_lossy().into_owned()
}

/// Calls `PathBuf::set_extension` on a copy of the path. It panics where the
/// new extension holds a path separator: such an extension is not admitted.
/// Taken on trust: the answer is `extension_replaced` of the two texts; and,
/// as std documents it, on a path with a file name a new extension that is
/// not empty is used whole, so that the extension of the path left behind
/// (`path_extension`) is the part of the new extension that follows its last
/// `.`.
///
/// `Path::with_extension` is not used: for a file name such as `..pdf` it
/// answers `..`, where `set_extension` replaces the extension as for any other
/// name.
#[verifier::external_body]
pub(crate) fn replace_extension(path: &str, extension: &str) -> (renamed: String)
    requires
        separator_free(extension@),
    ensures
        renamed@ == extension_replaced(path@, extension@),
        path_file_name(path@) is Some && extension@.len() > 0 ==> path_extension(renamed@)
            == Some(after_final_dot(extension@)),
{
    let mut renamed = PathBuf::from(path);
    renamed.set_extension(extension);
    renamed.to_string_lossy().into_owned()
}

} // verus!
