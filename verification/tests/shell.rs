use pdfshrink::{command_line, gs_command, join_command_line, CommandSpec};

#[test]
fn join_puts_one_space_before_each_word() {
    let words = vec![String::from("-a"), String::from("'b c'"), String::from("")];
    assert_eq!(join_command_line("prog", &words), "prog -a 'b c' ");
    assert_eq!(join_command_line("prog", &Vec::new()), "prog");
    assert_eq!(join_command_line("", &vec![String::from("x")]), " x");
}

#[test]
fn plain_arguments_stand_unquoted() {
    let cmd = gs_command("docs/report.pdf", "docs/report.shrunk.pdf");
    assert_eq!(
        command_line(&cmd),
        "gs -q -dBATCH -dSAFER -dNOPAUSE -sDEVICE=pdfwrite -dCompatibilityLevel=1.4 \
         -dPDFSETTINGS=/ebook -dAutoRotatePages=/None -dColorImageDownsampleType=/Bicubic \
         -dColorImageResolution=135 -dGrayImageDownsampleType=/Bicubic \
         -dGrayImageResolution=135 -dMonoImageDownsampleType=/Bicubic \
         -dMonoImageResolution=135 -sOutputFile=docs/report.shrunk.pdf docs/report.pdf"
    );
}

#[test]
fn argument_with_a_space_is_quoted() {
    let cmd = CommandSpec { program: String::from("gs"), args: vec![String::from("a b")] };
    let line = command_line(&cmd);
    assert!(line == "gs 'a b'" || line == "gs \"a b\"");
}

#[test]
fn empty_argument_is_quoted() {
    let cmd = CommandSpec { program: String::from("args"), args: vec![String::new()] };
    let line = command_line(&cmd);
    assert!(line == "args ''" || line == "args \"\"");
}

#[test]
fn program_is_not_quoted() {
    let cmd = CommandSpec { program: String::from("my prog"), args: Vec::new() };
    assert_eq!(command_line(&cmd), "my prog");
}
