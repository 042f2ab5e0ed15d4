use zeus::db::command::{CommandLine, Stdio};
use zeus::db::tools::{Git, Makepkg, Pacman};

#[test]
fn test_generated_cmd_tools() {
    assert_eq!(
        Makepkg::default()
            .ignore_arch()
            .pkgbuild("test")
            .install()
            .install_dependencies()
            .key("test")
            .arg("--")
            .arg("test")
            .into_raw()
            .display(),
        "\"/usr/bin/makepkg\" \"--ignorearch\" \"-p\" \"test\" \"--install\" \"--syncdeps\" \"--key\" \"test\" \"--\" \"test\""
    )
}

#[test]
fn display_with_directory_and_escapes() {
    let c = Git::default().at("/tmp/a b").pull().arg("say \"hi\"\n").into_raw();
    assert_eq!(c.display(), "cd \"/tmp/a b\" && \"/usr/bin/git\" \"pull\" \"say \\\"hi\\\"\\n\"");
}

#[test]
fn attach_and_capture_set_every_stream() {
    let c = Pacman::default().attach(true).into_raw();
    assert_eq!(c.stdin, Some(Stdio::Inherit));
    assert_eq!(c.stdout, Some(Stdio::Inherit));
    assert_eq!(c.stderr, Some(Stdio::Inherit));
    let c = Pacman::default().attach(false).into_raw();
    assert_eq!(c.stdout, Some(Stdio::Null));
    let c = Makepkg::default().capture().into_raw();
    assert_eq!(c.stderr, Some(Stdio::Piped));
}

#[test]
fn pacman_options_with_values() {
    let c = Pacman::default()
        .sync()
        .refresh()
        .sysupgrade()
        .ignore("linux")
        .foreign()
        .package("zeus")
        .into_raw();
    assert_eq!(c.program, "/usr/bin/pacman");
    assert_eq!(
        c.args,
        vec!["--sync", "--refresh", "--sysupgrade", "--ignore", "linux", "--foreign,", "zeus"]
    );
    assert_eq!(c.cwd, None);
}

#[test]
fn custom_tool_path_and_args() {
    let extra = vec!["-a".to_string(), "-b".to_string()];
    let c = Git::new("/opt/git").args(&extra).clone().repository("u").directory("d").into_raw();
    assert_eq!(c.plain_line(), "/opt/git -a -b clone u d");
    let raw = CommandLine::new("x");
    let back = Makepkg::from_raw(raw).force().into_raw();
    assert_eq!(back.display(), "\"x\" \"--force\"");
}

#[test]
fn display_escapes_bytes_as_ascii() {
    let samples = [
        "plain",
        "a b",
        "quote\"d",
        "it's",
        "back\\slash",
        "bell\u{7}",
        "del\u{7f}",
        "esc\u{1b}[0m",
        "tab\tnl\ncr\r",
        "caf\u{e9}",
        "\u{20ac}uro",
        "\u{1f980}",
    ];
    for s in samples {
        assert_eq!(CommandLine::new(s).display(), format!("\"{}\"", s.as_bytes().escape_ascii()));
    }
    assert_eq!(CommandLine::new("caf\u{e9}").display(), "\"caf\\xc3\\xa9\"");
    assert_eq!(CommandLine::new("nul\0").display(), "\"<string-with-nul>\"");
}
