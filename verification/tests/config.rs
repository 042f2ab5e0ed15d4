use zeus::config::global::{config_value, CliSettings, ConfigError, Defaults, FileSettings, GlobalConfig};
use zeus::config::types::Color;
use zeus::log::Level;

fn no_cli() -> CliSettings {
    CliSettings {
        color: None,
        log_level: None,
        aur_url: None,
        runtime: None,
        machine_name: None,
        machine_image: None,
    }
}

fn defaults() -> Defaults {
    Defaults {
        log_level: "info".to_string(),
        build_dir: "/var/cache/aur".to_string(),
        aur_url: "https://aur.archlinux.org".to_string(),
        runtime: "docker".to_string(),
        builder_name: "zeus-builder".to_string(),
        builder_image: "zeus-builder".to_string(),
    }
}

const FILE: &str = r#"
[zeus]
Color = "never"
BuildDir = "/srv/aur"

[log]
Level = "debug"

[aur]
Url = "https://aur.example.com"

[runtime]
Name = "custom"
BuilderName = "b1"
"#;

#[test]
fn defaults_apply_without_file() {
    let g = GlobalConfig::new(&no_cli(), "", &defaults()).unwrap();
    assert_eq!(g.color, Color::Auto);
    assert_eq!(g.log_level, Level::Info);
    assert_eq!(g.build_dir, "/var/cache/aur");
    assert_eq!(g.aur_url, "https://aur.archlinux.org");
    assert_eq!(g.runtime, "docker");
    assert_eq!(g.machine_name, "zeus-builder");
    assert_eq!(g.machine_image, "zeus-builder");
}

#[test]
fn file_overrides_defaults() {
    let g = GlobalConfig::new(&no_cli(), FILE, &defaults()).unwrap();
    assert_eq!(g.color, Color::Never);
    assert_eq!(g.log_level, Level::Debug);
    assert_eq!(g.build_dir, "/srv/aur");
    assert_eq!(g.aur_url, "https://aur.example.com");
    assert_eq!(g.runtime, "custom");
    assert_eq!(g.machine_name, "b1");
    assert_eq!(g.machine_image, "zeus-builder");
}

#[test]
fn command_line_overrides_file() {
    let mut cli = no_cli();
    cli.color = Some("always".to_string());
    cli.aur_url = Some("https://aur.archlinux.org".to_string());
    cli.machine_image = Some("img".to_string());
    let g = GlobalConfig::new(&cli, FILE, &defaults()).unwrap();
    assert_eq!(g.color, Color::Always);
    assert_eq!(g.aur_url, "https://aur.archlinux.org");
    assert_eq!(g.machine_image, "img");
    assert_eq!(g.log_level, Level::Debug);
}

#[test]
fn unreadable_file_counts_as_empty() {
    let g = GlobalConfig::new(&no_cli(), "this is [ not toml", &defaults()).unwrap();
    assert_eq!(g.color, Color::Auto);
    assert_eq!(g.build_dir, "/var/cache/aur");
    let f = FileSettings::read("[zeus]\nColor = 3\n");
    assert_eq!(f.color, None);
}

#[test]
fn documents_are_checked() {
    assert!(FileSettings::is_valid(""));
    assert!(FileSettings::is_valid("[aur]\nUrl = \"https://aur.example\"\n"));
    assert!(!FileSettings::is_valid("this is [ not toml"));
    let f = FileSettings::read("[aur\nUrl = \"x\"\n");
    assert_eq!(f.aur_url, None);
    assert_eq!(f.color, None);
}

#[test]
fn invalid_values_are_errors() {
    let mut cli = no_cli();
    cli.color = Some("sometimes".to_string());
    cli.log_level = Some("loud".to_string());
    let e = GlobalConfig::new(&cli, "", &defaults()).unwrap_err();
    assert_eq!(e, ConfigError::InvalidColor);
    assert_eq!(e.message(), "invalid value for 'zeus.Color'");
    let e = GlobalConfig::new(&no_cli(), "[log]\nLevel = \"loud\"\n", &defaults()).unwrap_err();
    assert_eq!(e, ConfigError::InvalidLogLevel);
    assert_eq!(e.message(), "invalid value for 'log.Level'");
}

#[test]
fn only_string_values_in_tables_are_read() {
    let f = FileSettings::read("zeus = 5\n[log]\nLevel = \"debug\"\n");
    assert_eq!(f.color, None);
    assert_eq!(f.log_level, Some("debug".to_string()));
    let f = FileSettings::read("[zeus.Color]\nx = 1\n[aur]\nUrl = [\"a\"]\n");
    assert_eq!(f.color, None);
    assert_eq!(f.aur_url, None);
    let f = FileSettings::read("[zeus]\nBuildDir = \"/tmp/b\"\nColor = true\n");
    assert_eq!(f.build_dir, Some("/tmp/b".to_string()));
    assert_eq!(f.color, None);
}

#[test]
fn config_values_by_table_and_key() {
    let doc = "[runtime]\nProgram = \"/opt/docker\"\nLimit = 3\n";
    assert_eq!(config_value(doc, "runtime", "Program"), Some("/opt/docker".to_string()));
    assert_eq!(config_value(doc, "runtime", "Limit"), None);
    assert_eq!(config_value(doc, "runtime", "Context"), None);
    assert_eq!(config_value(doc, "docker", "Program"), None);
    assert_eq!(config_value("[runtime", "runtime", "Program"), None);
}
