use pdfshrink::{dry_run_command, gs_command, CommandSpec};

fn expected_args(inpath: &str, outpath: &str) -> Vec<String> {
    vec![
        String::from("-q"),
        String::from("-dBATCH"),
        String::from("-dSAFER"),
        String::from("-dNOPAUSE"),
        String::from("-sDEVICE=pdfwrite"),
        String::from("-dCompatibilityLevel=1.4"),
        String::from("-dPDFSETTINGS=/ebook"),
        String::from("-dAutoRotatePages=/None"),
        String::from("-dColorImageDownsampleType=/Bicubic"),
        String::from("-dColorImageResolution=135"),
        String::from("-dGrayImageDownsampleType=/Bicubic"),
        String::from("-dGrayImageResolution=135"),
        String::from("-dMonoImageDownsampleType=/Bicubic"),
        String::from("-dMonoImageResolution=135"),
        format!("-sOutputFile={}", outpath),
        String::from(inpath),
    ]
}

#[test]
fn gs_command_is_spelled_out() {
    let cmd = gs_command("docs/report.pdf", "docs/report.shrunk.pdf");
    assert_eq!(cmd.program, "gs");
    assert_eq!(cmd.args, expected_args("docs/report.pdf", "docs/report.shrunk.pdf"));
    assert_eq!(cmd.args.len(), 16);
    assert_eq!(cmd.args[14], "-sOutputFile=docs/report.shrunk.pdf");
    assert_eq!(cmd.args[15], "docs/report.pdf");
}

#[test]
fn dry_run_command_is_spelled_out() {
    let cmd = dry_run_command("in file.pdf", "out dir/in file.pdf");
    assert_eq!(
        cmd,
        CommandSpec {
            program: String::from("args"),
            args: expected_args("in file.pdf", "out dir/in file.pdf"),
        }
    );
}

#[test]
fn dry_run_carries_the_real_arguments() {
    for (inpath, outpath) in &[
        ("a.pdf", "a.shrunk.pdf"),
        ("", ""),
        ("x y/z.pdf", "x y/sub/z.pdf"),
        ("-weird'name.pdf", "=out"),
    ] {
        let real = gs_command(inpath, outpath);
        let dry = dry_run_command(inpath, outpath);
        assert_eq!(dry.args, real.args);
        assert_ne!(dry.program, real.program);
    }
}
