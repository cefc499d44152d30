//! Where the shrunk copy of a PDF file goes.
//!
//! Every function here answers only for a path whose extension is exactly
//! `pdf`; for any other path the answer is `None`. Nothing is looked up on
//! disk, and the text of the input is handed to `std::path` as it stands.

use crate::path::{
    after_final_dot, extension_replaced, file_name, final_dot, join, lemma_final_dot,
    lemma_final_dot_unique, name_extension, parent, path_extension, path_file_name, path_join,
    path_parent, replace_extension, separator_free,
};
use vstd::prelude::*;
use vstd::string::{StrSliceExecFns, StringExecFns};

verus! {

/// True when the extension of `path` is exactly `pdf`.
pub open spec fn has_pdf_extension(path: Seq<char>) -> bool {
    path_extension(path) == Some("pdf"@)
}

/// The parent of `path`, or the empty path where it has none.
pub open spec fn parent_or_empty(path: Seq<char>) -> Seq<char> {
    match path_parent(path) {
        Some(dir) => dir,
        None => Seq::empty(),
    }
}

/// `path` with its `pdf` extension replaced by `<suffix>.pdf`.
pub open spec fn rename_target(path: Seq<char>, suffix: Seq<char>) -> Option<Seq<char>> {
    if has_pdf_extension(path) {
        Some(extension_replaced(path, suffix + ".pdf"@))
    } else {
        None
    }
}

/// The directory `subdir` beside `path`.
pub open spec fn subdir_of(path: Seq<char>, subdir: Seq<char>) -> Option<Seq<char>> {
    if has_pdf_extension(path) {
        Some(path_join(parent_or_empty(path), subdir))
    } else {
        None
    }
}

/// The file of `path`, moved into the directory `subdir` beside it.
pub open spec fn target_in_subdir(path: Seq<char>, subdir: Seq<char>) -> Option<Seq<char>> {
    if has_pdf_extension(path) {
        Some(path_join(path_join(parent_or_empty(path), subdir), path_file_name(path).unwrap()))
    } else {
        None
    }
}

/// A file name has the extension `pdf` exactly when it ends in `.pdf` and
/// something stands before that: `.pdf` alone is a hidden file without an
/// extension.
pub proof fn lemma_pdf_name(name: Seq<char>)
    ensures
        name_extension(name) == Some("pdf"@) <==> name.len() > 4 && name.subrange(
            name.len() - 4,
            name.len() as int,
        ) == ".pdf"@,
{
    reveal_strlit("pdf");
    reveal_strlit(".pdf");
    lemma_final_dot(name);
    let n = name.len() as int;
    if name_extension(name) == Some("pdf"@) {
        let dot = final_dot(name);
        let ext = name.subrange(dot + 1, n);
        assert(ext.len() == 3);
        assert(ext[0] == 'p' && ext[1] == 'd' && ext[2] == 'f');
        assert(name.subrange(n - 4, n) =~= ".pdf"@);
    }
    if n > 4 && name.subrange(n - 4, n) == ".pdf"@ {
        let tail = name.subrange(n - 4, n);
        assert(tail[0] == '.' && tail[1] == 'p' && tail[2] == 'd' && tail[3] == 'f');
        lemma_final_dot_unique(name, n - 4);
        assert(name.subrange(n - 3, n) =~= "pdf"@);
    }
}

/// Each way of asking gives an output path exactly for the paths whose
/// extension is `pdf`: a path with no extension, or with another one, gets
/// none.
pub proof fn lemma_only_pdf_paths_resolve(path: Seq<char>, suffix: Seq<char>, subdir: Seq<char>)
    ensures
        rename_target(path, suffix) is Some <==> has_pdf_extension(path),
        subdir_of(path, subdir) is Some <==> has_pdf_extension(path),
        target_in_subdir(path, subdir) is Some <==> has_pdf_extension(path),
        path_extension(path) is None ==> !has_pdf_extension(path),
{
}

/// The output path in a subdirectory is that subdirectory joined with the
/// file name of the input, and there is the one exactly when there is the
/// other.
pub proof fn lemma_target_lies_in_subdir(path: Seq<char>, subdir: Seq<char>)
    ensures
        target_in_subdir(path, subdir) is Some <==> subdir_of(path, subdir) is Some,
        has_pdf_extension(path) ==> path_file_name(path) is Some && target_in_subdir(path, subdir)
            == Some(path_join(subdir_of(path, subdir).unwrap(), path_file_name(path).unwrap())),
{
}

/// The answers depend on the arguments alone: asked the same question again,
/// each way of asking gives the same answer.
pub proof fn lemma_same_question_same_answer(
    path: Seq<char>,
    suffix: Seq<char>,
    subdir: Seq<char>,
    path_again: Seq<char>,
    suffix_again: Seq<char>,
    subdir_again: Seq<char>,
)
    requires
        path_again == path,
        suffix_again == suffix,
        subdir_again == subdir,
    ensures
        rename_target(path_again, suffix_again) == rename_target(path, suffix),
        subdir_of(path_again, subdir_again) == subdir_of(path, subdir),
        target_in_subdir(path_again, subdir_again) == target_in_subdir(path, subdir),
{
}

/// The extension `<suffix>.pdf` ends in `pdf` after its last `.`, and holds a
/// separator only where `suffix` does.
proof fn lemma_suffixed_extension(suffix: Seq<char>)
    ensures
        after_final_dot(suffix + ".pdf"@) == "pdf"@,
        (suffix + ".pdf"@).len() > 0,
        separator_free(suffix) ==> separator_free(suffix + ".pdf"@),
{
    reveal_strlit("pdf");
    reveal_strlit(".pdf");
    let whole = suffix + ".pdf"@;
    let n = whole.len() as int;
    assert(whole[n - 4] == '.' && whole[n - 3] == 'p');
    assert(whole[n - 2] == 'd' && whole[n - 1] == 'f');
    lemma_final_dot_unique(whole, n - 4);
    assert(whole.subrange(n - 3, n) =~= "pdf"@);
}

/// Tells whether the extension of the file name `name` is exactly `pdf`:
/// whether the name ends in `.pdf` behind at least one more character.
pub fn is_pdf_name(name: &str) -> (yes: bool)
    ensures
        yes == (name_extension(name@) == Some("pdf"@)),
{
    proof {
        lemma_pdf_name(name@);
    }
    let len: usize = name.unicode_len();
    if len <= 4 {
        return false;
    }
    let tail = String::from_str(name.substring_char(len - 4, len));
    tail == String::from_str(".pdf")
}

/// Tells whether the extension of `path` is exactly `pdf`: whether it has a
/// file name, and that name has the extension `pdf`.
pub fn is_pdf(path: &str) -> (yes: bool)
    ensures
        yes == has_pdf_extension(path@),
{
    match file_name(path) {
        Some(name) => is_pdf_name(name.as_str()),
        None => false,
    }
}

/// Replaces a `.pdf` extension with `.<suffix>.pdf`.
///
/// The answer is `None` where the path has no extension or another one than
/// `pdf`. The suffix may hold dots, but no path separator (`is_separator_free`
/// tells). The new path again has the extension `pdf`.
pub fn pdf_with_suffix(inpath: &str, suffix: &str) -> (outpath: Option<String>)
    requires
        separator_free(suffix@),
    ensures
        outpath.deep_view() == rename_target(inpath@, suffix@),
        outpath matches Some(p) ==> has_pdf_extension(p@),
{
    if is_pdf(inpath) {
        let new_extension = String::from_str(suffix).concat(".pdf");
        proof {
            lemma_suffixed_extension(suffix@);
        }
        Some(replace_extension(inpath, new_extension.as_str()))
    } else {
        None
    }
}

/// Replaces a `.pdf` extension with `.cmp.pdf`: `pdf_with_suffix` with the
/// suffix `cmp`, kept for callers that rely on the older name.
pub fn pdf_to_cmp_pdf(inpath: &str) -> (outpath: Option<String>)
    ensures
        outpath.deep_view() == rename_target(inpath@, "cmp"@),
        outpath matches Some(p) ==> has_pdf_extension(p@),
{
    proof {
        reveal_strlit("cmp");
    }
    pdf_with_suffix(inpath, "cmp")
}

/// The directory `subdir` beside `inpath`: the parent of `inpath`, or the
/// empty path where it has none, joined with `subdir`.
///
/// The answer is `None` where the path has no extension or another one than
/// `pdf`.
pub fn pdf_subdir(inpath: &str, subdir: &str) -> (outdir: Option<String>)
    ensures
        outdir.deep_view() == subdir_of(inpath@, subdir@),
{
    if is_pdf(inpath) {
        Some(sibling(inpath, subdir))
    } else {
        None
    }
}

/// Moves the file `inpath` into the directory `subdir` beside it: the
/// directory that `pdf_subdir` gives, joined with the file name of `inpath`.
///
/// The answer is `None` where the path has no extension or another one than
/// `pdf`.
pub fn pdf_into_subdir(inpath: &str, subdir: &str) -> (outpath: Option<String>)
    ensures
        outpath.deep_view() == target_in_subdir(inpath@, subdir@),
{
    match file_name(inpath) {
        Some(name) => {
            if is_pdf_name(name.as_str()) {
                let dir = sibling(inpath, subdir);
                Some(join(dir.as_str(), name.as_str()))
            } else {
                None
            }
        },
        None => None,
    }
}

/// Joins the parent of `inpath`, or the empty path, with `subdir`.
fn sibling(inpath: &str, subdir: &str) -> (dir: String)
    ensures
        dir@ == path_join(parent_or_empty(inpath@), subdir@),
{
    match parent(inpath) {
        Some(base) => join(base.as_str(), subdir),
        None => {
            proof {
                reveal_strlit("");
                assert(""@ =~= Seq::<char>::empty());
            }
            join("", subdir)
        },
    }
}

} // verus!
