//! The Ghostscript command that shrinks one file, and its stand-in for a dry
//! run.
//!
//! A command is described, not started: a program name and its arguments in
//! order. Both commands carry the same arguments: the fixed options, then the
//! output file, then the input file.

use vstd::prelude::*;
use vstd::string::StringExecFns;

verus! {

/// A program and the arguments it is started with.
#[derive(Debug, Clone, PartialEq, Eq)]
pub struct CommandSpec {
    pub program: String,
    pub args: Vec<String>,
}

/// A command as text: what `CommandSpec` stands for.
pub struct CommandText {
    pub program: Seq<char>,
    pub args: Seq<Seq<char>>,
}

impl View for CommandSpec {
    type V = CommandText;

    open spec fn view(&self) -> CommandText {
        CommandText { program: self.program@, args: self.args.deep_view() }
    }
}

/// The options that every run passes to Ghostscript: quiet batch operation in
/// safer mode without pauses, the `pdfwrite` device at compatibility level 1.4
/// with the `/ebook` preset, no automatic page rotation, and bicubic
/// downsampling to 135 dpi for colour, grey and monochrome images.
pub open spec fn fixed_options() -> Seq<Seq<char>> {
    seq![
        "-q"@,
        "-dBATCH"@,
        "-dSAFER"@,
        "-dNOPAUSE"@,
        "-sDEVICE=pdfwrite"@,
        "-dCompatibilityLevel=1.4"@,
        "-dPDFSETTINGS=/ebook"@,
        "-dAutoRotatePages=/None"@,
        "-dColorImageDownsampleType=/Bicubic"@,
        "-dColorImageResolution=135"@,
        "-dGrayImageDownsampleType=/Bicubic"@,
        "-dGrayImageResolution=135"@,
        "-dMonoImageDownsampleType=/Bicubic"@,
        "-dMonoImageResolution=135"@,
    ]
}

/// The arguments of a run: the fixed options, the output file behind
/// `-sOutputFile=`, and the input file last.
pub open spec fn command_args(inpath: Seq<char>, outpath: Seq<char>) -> Seq<Seq<char>> {
    fixed_options().push("-sOutputFile="@ + outpath).push(inpath)
}

/// The command that shrinks `inpath` into `outpath`: the program `gs`.
pub open spec fn gs_command_text(inpath: Seq<char>, outpath: Seq<char>) -> CommandText {
    CommandText { program: "gs"@, args: command_args(inpath, outpath) }
}

/// The command that shows what a run would do: the program `args`.
pub open spec fn dry_run_command_text(inpath: Seq<char>, outpath: Seq<char>) -> CommandText {
    CommandText { program: "args"@, args: command_args(inpath, outpath) }
}

/// A dry run shows the arguments of the real run, one for one: the two
/// commands differ in the program alone.
pub proof fn lemma_dry_run_shows_real_arguments(inpath: Seq<char>, outpath: Seq<char>)
    ensures
        dry_run_command_text(inpath, outpath).args == gs_command_text(inpath, outpath).args,
        dry_run_command_text(inpath, outpath).program != gs_command_text(inpath, outpath).program,
{
    reveal_strlit("gs");
    reveal_strlit("args");
    assert("gs"@.len() != "args"@.len());
}

/// The arguments are the fourteen fixed options, then the output file, then
/// the input file.
pub proof fn lemma_command_shape(inpath: Seq<char>, outpath: Seq<char>)
    ensures
        command_args(inpath, outpath).len() == 16,
        command_args(inpath, outpath).take(14) == fixed_options(),
        command_args(inpath, outpath)[14] == "-sOutputFile="@ + outpath,
        command_args(inpath, outpath)[15] == inpath,
{
    assert(command_args(inpath, outpath).take(14) =~= fixed_options());
}

/// Fills in the arguments for `program`.
fn build(program: &str, inpath: &str, outpath: &str) -> (cmd: CommandSpec)
    ensures
        cmd@.program == program@,
        cmd@.args == command_args(inpath@, outpath@),
{
    let mut args: Vec<String> = Vec::new();
    args.push(String::from_str("-q"));
    args.push(String::from_str("-dBATCH"));
    args.push(String::from_str("-dSAFER"));
    args.push(String::from_str("-dNOPAUSE"));
    args.push(String::from_str("-sDEVICE=pdfwrite"));
    args.push(String::from_str("-dCompatibilityLevel=1.4"));
    args.push(String::from_str("-dPDFSETTINGS=/ebook"));
    args.push(String::from_str("-dAutoRotatePages=/None"));
    args.push(String::from_str("-dColorImageDownsampleType=/Bicubic"));
    args.push(String::from_str("-dColorImageResolution=135"));
    args.push(String::from_str("-dGrayImageDownsampleType=/Bicubic"));
    args.push(String::from_str("-dGrayImageResolution=135"));
    args.push(String::from_str("-dMonoImageDownsampleType=/Bicubic"));
    args.push(String::from_str("-dMonoImageResolution=135"));
    assert(args.deep_view() =~= fixed_options());
    args.push(String::from_str("-sOutputFile=").concat(outpath));
    args.push(String::from_str(inpath));
    assert(args.deep_view() =~= command_args(inpath@, outpath@));
    CommandSpec { program: String::from_str(program), args }
}

/// Ghostscript command to shrink `inpath` and write to `outpath`.
///
/// The command needs Ghostscript installed as the program `gs`.
pub fn gs_command(inpath: &str, outpath: &str) -> (cmd: CommandSpec)
    ensures
        cmd@ == gs_command_text(inpath@, outpath@),
{
    build("gs", inpath, outpath)
}

/// Command to simulate `gs_command`: the same arguments, handed to the
/// program `args`, which prints the command line it was given.
pub fn dry_run_command(inpath: &str, outpath: &str) -> (cmd: CommandSpec)
    ensures
        cmd@ == dry_run_command_text(inpath@, outpath@),
        cmd@.args == gs_command_text(inpath@, outpath@).args,
{
    build("args", inpath, outpath)
}

} // verus!
