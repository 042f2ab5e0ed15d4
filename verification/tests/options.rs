use zeus::aur::pkg::By;
use zeus::config::types::{Color, Output, Shell};
use zeus::log::{Level, LogLevel, Logger};

#[test]
fn by_names_round_trip() {
    let all = [
        By::Name,
        By::NameDesc,
        By::Maintainer,
        By::Depends,
        By::MakeDepends,
        By::OptDepends,
        By::CheckDepends,
    ];
    let names = By::possible_values();
    assert_eq!(
        names,
        &["name", "name-desc", "maintainer", "depends", "makedepends", "optdepends", "checkdepends"]
    );
    for (b, n) in all.iter().zip(names.iter()) {
        assert_eq!(b.as_api_repr(), *n);
        assert_eq!(By::from_str(n), Ok(*b));
    }
    assert_eq!(By::from_str("description"), Err(()));
    assert_eq!(By::from_str("Name"), Err(()));
    assert_eq!(By::from_str(""), Err(()));
}

#[test]
fn color_output_shell_names() {
    assert_eq!(Color::possible_values(), &["always", "never", "auto"]);
    assert_eq!(Output::possible_values(), &["pretty", "json"]);
    assert_eq!(Shell::possible_values(), &["bash", "zsh", "fish"]);
    assert_eq!(Color::from_str("never"), Ok(Color::Never));
    assert_eq!(Color::from_str("auto"), Ok(Color::Auto));
    assert_eq!(Color::from_str("sometimes"), Err(()));
    assert_eq!(Output::from_str("json"), Ok(Output::Json));
    assert_eq!(Output::from_str("yaml"), Err(()));
    assert_eq!(Shell::from_str("zsh"), Ok(Shell::Zsh));
    assert_eq!(Shell::from_str("fish"), Ok(Shell::Fish));
    assert_eq!(Shell::from_str("powershell"), Err(()));
    for c in [Color::Always, Color::Never, Color::Auto] {
        assert_eq!(Color::from_str(c.as_str()), Ok(c));
    }
    for s in [Shell::Bash, Shell::Fish, Shell::Zsh] {
        assert_eq!(Shell::from_str(s.as_str()), Ok(s));
    }
    assert_eq!(Output::Pretty.as_str(), "pretty");
}

#[test]
fn color_forcing() {
    assert_eq!(Color::Always.forced(), Some(true));
    assert_eq!(Color::Never.forced(), Some(false));
    assert_eq!(Color::Auto.forced(), None);
}

#[test]
fn levels_names_order_and_markers() {
    assert_eq!(Level::possible_values(), &["fatal", "error", "warn", "info", "debug", "trace"]);
    for (i, n) in Level::possible_values().iter().enumerate() {
        let l = Level::from_str(n).unwrap();
        assert_eq!(l.rank() as usize, i);
        assert_eq!(l.as_str(), *n);
    }
    assert_eq!(Level::from_str("warning"), Err(()));
    assert!(Level::Error.enabled(Level::Info));
    assert!(Level::Info.enabled(Level::Info));
    assert!(!Level::Debug.enabled(Level::Info));
    assert!(Level::Fatal.enabled(Level::Fatal));
    assert_eq!(Level::Trace.marker(), "==");
    assert_eq!(Level::Debug.marker(), "--");
    assert_eq!(Level::Info.marker(), "=>");
    assert_eq!(Level::Warn.marker(), "!!");
    assert_eq!(Level::Error.marker(), "**");
    assert_eq!(Level::Fatal.marker(), "**");
}

#[test]
fn logger_levels() {
    assert_eq!(LogLevel::default(), LogLevel::Info);
    assert_eq!(LogLevel::default_level(), LogLevel::Info);
    assert_eq!(LogLevel::Warn.label(), "WARNING");
    assert_eq!(LogLevel::Error.label(), "ERROR");
    let logger = Logger::new();
    assert!(logger.log_impl(LogLevel::Error));
    assert!(logger.log_impl(LogLevel::Info));
    assert!(!logger.log_impl(LogLevel::Debug));
    let quiet = Logger { level: LogLevel::Error };
    assert!(!quiet.log_impl(LogLevel::Warn));
}
