//! A command written out as one line, the way it would be typed at a shell.
//!
//! The program comes first, as it is; each argument follows after a space,
//! quoted by the `shell_escape` crate where the shell would otherwise read it
//! differently.

use crate::command::{command_args, fixed_options, CommandSpec};
use std::borrow::Cow;
use vstd::prelude::*;
use vstd::string::StringExecFns;

verus! {

/// True of the characters that no shell reads specially: ASCII letters and
/// digits, and `-`, `_`, `=`, `/`, `,`, `.`, `+`.
pub open spec fn is_plain_char(c: char) -> bool {
    ||| 'a' <= c <= 'z'
    ||| 'A' <= c <= 'Z'
    ||| '0' <= c <= '9'
    ||| c == '-'
    ||| c == '_'
    ||| c == '='
    ||| c == '/'
    ||| c == ','
    ||| c == '.'
    ||| c == '+'
}

/// True of a word that is not empty and holds plain characters only.
pub open spec fn is_plain_word(word: Seq<char>) -> bool {
    word.len() > 0 && forall|i: int| 0 <= i < word.len() ==> is_plain_char(#[trigger] word[i])
}

/// What is known of `escaped` when it is the quoted form of `word`: it is not
/// empty, and it is `word` itself where `word` is plain.
pub open spec fn escape_outcome(word: Seq<char>, escaped: Seq<char>) -> bool {
    escaped.len() > 0 && (is_plain_word(word) ==> escaped == word)
}

/// True when `escaped` holds a quoted form of each word of `words`, in order.
pub open spec fn escapes(words: Seq<Seq<char>>, escaped: Seq<Seq<char>>) -> bool {
    escaped.len() == words.len() && forall|i: int|
        0 <= i < words.len() ==> escape_outcome(#[trigger] words[i], escaped[i])
}

/// The line made of `program` and then each word behind one space.
pub open spec fn command_line_text(program: Seq<char>, words: Seq<Seq<char>>) -> Seq<char>
    decreases words.len(),
{
    if words.len() == 0 {
        program
    } else {
        command_line_text(program, words.drop_last()) + seq![' '] + words.last()
    }
}

/// Calls `shell_escape::escape`, which quotes for a Unix shell or for
/// `cmd.exe` as the platform and the environment have it. Assumed is only what
/// holds of both forms: the result is never empty, and a word of plain
/// characters comes back as it went in.
#[verifier::external_body]
fn escape(word: &str) -> (escaped: String)
    ensures
        escape_outcome(word@, escaped@),
{
    shell_escape::escape(Cow::Borrowed(word)).into_owned()
}

/// Writes `program` and the words, already quoted, as one line.
pub fn join_command_line(program: &str, words: &Vec<String>) -> (line: String)
    ensures
        line@ == command_line_text(program@, words.deep_view()),
{
    let mut line = String::from_str(program);
    let mut done: usize = 0;
    while done < words.len()
        invariant
            done <= words.len(),
            line@ == command_line_text(program@, words.deep_view().take(done as int)),
        decreases words.len() - done,
    {
        proof {
            reveal_strlit(" ");
            let all = words.deep_view();
            let next = all.take(done + 1);
            assert(next.drop_last() =~= all.take(done as int));
            assert(next.last() == words[done as int]@);
            assert(" "@ =~= seq![' ']);
        }
        line.append(" ");
        line.append(words[done].as_str());
        done += 1;
    }
    proof {
        assert(words.deep_view().take(done as int) =~= words.deep_view());
    }
    line
}

/// Writes `cmd` as one line: the program, then each argument quoted for the
/// shell. An argument of plain characters stands in the line unquoted.
pub fn command_line(cmd: &CommandSpec) -> (line: String)
    ensures
        exists|escaped: Seq<Seq<char>>|
            escapes(cmd@.args, escaped) && line@ == command_line_text(cmd@.program, escaped),
        (forall|i: int| 0 <= i < cmd@.args.len() ==> is_plain_word(#[trigger] cmd@.args[i]))
            ==> line@ == command_line_text(cmd@.program, cmd@.args),
{
    let mut words: Vec<String> = Vec::new();
    let mut done: usize = 0;
    while done < cmd.args.len()
        invariant
            done <= cmd.args.len(),
            escapes(cmd@.args.take(done as int), words.deep_view()),
        decreases cmd.args.len() - done,
    {
        let word = escape(cmd.args[done].as_str());
        words.push(word);
        done += 1;
    }
    proof {
        assert(cmd@.args.take(done as int) =~= cmd@.args);
        if forall|i: int| 0 <= i < cmd@.args.len() ==> is_plain_word(#[trigger] cmd@.args[i]) {
            lemma_plain_words_stay(cmd@.args, words.deep_view());
        }
    }
    join_command_line(cmd.program.as_str(), &words)
}

/// Where every argument is plain, quoting changes nothing: the quoted words
/// are the arguments.
pub proof fn lemma_plain_words_stay(words: Seq<Seq<char>>, escaped: Seq<Seq<char>>)
    requires
        escapes(words, escaped),
        forall|i: int| 0 <= i < words.len() ==> is_plain_word(#[trigger] words[i]),
    ensures
        escaped == words,
{
    assert(escaped =~= words);
}

/// The fixed options of a run are plain words: a command line shows them as
/// they are. So a run whose two paths are plain words is shown without a
/// single quote.
pub proof fn lemma_fixed_options_are_plain(inpath: Seq<char>, outpath: Seq<char>)
    ensures
        forall|i: int|
            0 <= i < fixed_options().len() ==> is_plain_word(#[trigger] fixed_options()[i]),
        is_plain_word(inpath) && is_plain_word(outpath) ==> forall|i: int|
            0 <= i < command_args(inpath, outpath).len() ==> is_plain_word(
                #[trigger] command_args(inpath, outpath)[i],
            ),
{
    reveal_strlit("-q");
    reveal_strlit("-dBATCH");
    reveal_strlit("-dSAFER");
    reveal_strlit("-dNOPAUSE");
    reveal_strlit("-sDEVICE=pdfwrite");
    reveal_strlit("-dCompatibilityLevel=1.4");
    reveal_strlit("-dPDFSETTINGS=/ebook");
    reveal_strlit("-dAutoRotatePages=/None");
    reveal_strlit("-dColorImageDownsampleType=/Bicubic");
    reveal_strlit("-dColorImageResolution=135");
    reveal_strlit("-dGrayImageDownsampleType=/Bicubic");
    reveal_strlit("-dGrayImageResolution=135");
    reveal_strlit("-dMonoImageDownsampleType=/Bicubic");
    reveal_strlit("-dMonoImageResolution=135");
    reveal_strlit("-sOutputFile=");
    assert(is_plain_word("-sOutputFile="@));
    if is_plain_word(outpath) {
        assert(is_plain_word("-sOutputFile="@ + outpath));
    }
}

} // verus!
