//! The global configuration and the rules that build it: a value given on
//! the command line wins over one in the configuration file, which wins
//! over the built-in default.

use vstd::prelude::*;

use crate::config::types::{color_parse, Color};
use crate::db::command::opt_string_view;
use crate::log::{level_parse, Level};
use crate::text::str_eq;

verus! {

/// The characters of the keys and string values of a table's entries; a
/// value that is not a string is `None`.
pub open spec fn entries_view(v: Seq<(String, Option<String>)>) -> Seq<(Seq<char>, Option<Seq<char>>)> {
    v.map_values(|e: (String, Option<String>)| (e.0@, opt_string_view(e.1)))
}

/// The characters of the top-level entries of a document: each name with
/// its table's entries, or `None` where the value is not a table.
pub open spec fn tables_view(v: Seq<(String, Option<Vec<(String, Option<String>)>>)>) -> Seq<
    (Seq<char>, Option<Seq<(Seq<char>, Option<Seq<char>>)>>),
> {
    v.map_values(
        |e: (String, Option<Vec<(String, Option<String>)>>)|
            (
                e.0@,
                match e.1 {
                    Some(t) => Some(entries_view(t@)),
                    None => None,
                },
            ),
    )
}

/// The top-level entries of the TOML document `document`, with the string
/// entries of each table, as `toml::from_str` reads them into a
/// `toml::Table`; `None` when the document does not parse.
pub uninterp spec fn toml_tables(document: Seq<char>) -> Option<
    Seq<(Seq<char>, Option<Seq<(Seq<char>, Option<Seq<char>>)>>)>,
>;

/// Parses a TOML document with `toml::from_str` into a `toml::Table` and
/// converts it entry by entry: a `Table` value into its entries, a
/// `String` value into `Some`, any other value into `None`. The result is
/// named by `toml_tables`; the empty document is the empty table.
#[verifier::external_body]
fn parse_tables(document: &str) -> (r: Option<Vec<(String, Option<Vec<(String, Option<String>)>>)>>)
    ensures
        match r {
            Some(t) => toml_tables(document@) == Some(tables_view(t@)),
            None => toml_tables(document@) is None,
        },
        document@.len() == 0 ==> r is Some && r.unwrap()@.len() == 0,
{
    let doc: toml::Table = match toml::from_str(document) {
        Ok(doc) => doc,
        Err(_) => return None,
    };
    Some(doc.into_iter().map(|(name, value)| (name, match value {
        toml::Value::Table(t) => Some(t.into_iter().map(|(key, v)| (key, match v {
            toml::Value::String(s) => Some(s),
            _ => None,
        })).collect()),
        _ => None,
    })).collect())
}

/// The value of the first entry of `entries` named `name`, if any.
pub open spec fn entry_value<A>(entries: Seq<(Seq<char>, A)>, name: Seq<char>) -> Option<A>
    decreases entries.len(),
{
    if entries.len() == 0 {
        None
    } else if entries[0].0 == name {
        Some(entries[0].1)
    } else {
        entry_value(entries.drop_first(), name)
    }
}

/// Looking up from index `i` on: the entry at `i`, or the rest.
proof fn lemma_entry_value_step<A>(s: Seq<(Seq<char>, A)>, name: Seq<char>, i: int)
    requires
        0 <= i < s.len(),
    ensures
        entry_value(s.subrange(i, s.len() as int), name) == (if s[i].0 == name {
            Some(s[i].1)
        } else {
            entry_value(s.subrange(i + 1, s.len() as int), name)
        }),
{
    assert(s.subrange(i, s.len() as int).drop_first() =~= s.subrange(i + 1, s.len() as int));
}

/// The string at `table.key` of a document's entries: present when the
/// document parsed, `table` is a table and `key` holds a string there.
pub open spec fn table_string(
    tables: Option<Seq<(Seq<char>, Option<Seq<(Seq<char>, Option<Seq<char>>)>>)>>,
    table: Seq<char>,
    key: Seq<char>,
) -> Option<Seq<char>> {
    match tables {
        Some(ts) => match entry_value(ts, table) {
            Some(Some(entries)) => match entry_value(entries, key) {
                Some(v) => v,
                None => None,
            },
            _ => None,
        },
        None => None,
    }
}

/// The string at `table.key` of the TOML document `document`, if the
/// document parses and holds a string there.
pub open spec fn toml_string_at(document: Seq<char>, table: Seq<char>, key: Seq<char>) -> Option<
    Seq<char>,
> {
    table_string(toml_tables(document), table, key)
}

/// The string value of `key` among a table's entries, if it has one.
fn key_value(entries: &Vec<(String, Option<String>)>, key: &str) -> (r: Option<String>)
    ensures
        opt_string_view(r) == match entry_value(entries_view(entries@), key@) {
            Some(v) => v,
            None => None,
        },
{
    let ghost ev = entries_view(entries@);
    assert(ev.subrange(0, ev.len() as int) =~= ev);
    let mut i: usize = 0;
    while i < entries.len()
        invariant
            ev == entries_view(entries@),
            i <= entries.len(),
            entry_value(ev, key@) == entry_value(ev.subrange(i as int, ev.len() as int), key@),
        decreases entries.len() - i,
    {
        proof {
            lemma_entry_value_step(ev, key@, i as int);
        }
        if str_eq(entries[i].0.as_str(), key) {
            return match &entries[i].1 {
                Some(v) => Some(v.clone()),
                None => None,
            };
        }
        i = i + 1;
    }
    assert(ev.subrange(i as int, ev.len() as int) =~= Seq::<(Seq<char>, Option<Seq<char>>)>::empty());
    None
}

/// The string at `table.key` of a document's entries.
fn table_value(tables: &Vec<(String, Option<Vec<(String, Option<String>)>>)>, table: &str, key: &str) -> (r: Option<String>)
    ensures
        opt_string_view(r) == table_string(Some(tables_view(tables@)), table@, key@),
{
    let ghost tv = tables_view(tables@);
    assert(tv.subrange(0, tv.len() as int) =~= tv);
    let mut i: usize = 0;
    while i < tables.len()
        invariant
            tv == tables_view(tables@),
            i <= tables.len(),
            entry_value(tv, table@) == entry_value(tv.subrange(i as int, tv.len() as int), table@),
        decreases tables.len() - i,
    {
        proof {
            lemma_entry_value_step(tv, table@, i as int);
        }
        if str_eq(tables[i].0.as_str(), table) {
            return match &tables[i].1 {
                Some(entries) => key_value(entries, key),
                None => None,
            };
        }
        i = i + 1;
    }
    assert(tv.subrange(i as int, tv.len() as int) =~= Seq::<(Seq<char>, Option<Seq<(Seq<char>, Option<Seq<char>>)>>)>::empty());
    None
}

/// The string at `table.key` of the TOML document `document`: `None` when
/// the document does not parse, `table` is missing or not a table, or
/// `key` is missing there or holds no string.
pub fn config_value(document: &str, table: &str, key: &str) -> (r: Option<String>)
    ensures
        opt_string_view(r) == toml_string_at(document@, table@, key@),
{
    match parse_tables(document) {
        Some(t) => table_value(&t, table, key),
        None => None,
    }
}

/// The value of a setting: the command line's if given, else the
/// configuration file's if it has one, else the default.
pub open spec fn setting(cli: Option<Seq<char>>, file: Option<Seq<char>>, default: Seq<char>) -> Seq<
    char,
> {
    match cli {
        Some(v) => v,
        None => match file {
            Some(v) => v,
            None => default,
        },
    }
}

/// The settings given on the command line; `None` where an option was not
/// given.
#[derive(Debug, Clone)]
pub struct CliSettings {
    pub color: Option<String>,
    pub log_level: Option<String>,
    pub aur_url: Option<String>,
    pub runtime: Option<String>,
    pub machine_name: Option<String>,
    pub machine_image: Option<String>,
}

/// The built-in defaults of the settings.
#[derive(Debug, Clone)]
pub struct Defaults {
    pub log_level: String,
    pub build_dir: String,
    pub aur_url: String,
    pub runtime: String,
    pub builder_name: String,
    pub builder_image: String,
}

/// Why the global configuration could not be built.
#[derive(Debug, Clone, Copy, PartialEq, Eq, Structural)]
pub enum ConfigError {
    /// The color setting names no color mode.
    InvalidColor,
    /// The log level setting names no level.
    InvalidLogLevel,
}

impl ConfigError {
    /// The message reported for the error.
    pub fn message(&self) -> (r: &'static str)
        ensures
            r@ == match *self {
                ConfigError::InvalidColor => "invalid value for 'zeus.Color'"@,
                ConfigError::InvalidLogLevel => "invalid value for 'log.Level'"@,
            },
    {
        match self {
            ConfigError::InvalidColor => "invalid value for 'zeus.Color'",
            ConfigError::InvalidLogLevel => "invalid value for 'log.Level'",
        }
    }
}

/// The configuration that every operation runs with.
#[derive(Debug, Clone)]
pub struct GlobalConfig {
    pub color: Color,
    pub log_level: Level,
    pub build_dir: String,
    pub aur_url: String,
    pub runtime: String,
    pub machine_name: String,
    pub machine_image: String,
}

/// The settings found in the configuration file; `None` where the file
/// has none.
#[derive(Debug, Clone)]
pub struct FileSettings {
    /// `zeus.Color`
    pub color: Option<String>,
    /// `log.Level`
    pub log_level: Option<String>,
    /// `zeus.BuildDir`
    pub build_dir: Option<String>,
    /// `aur.Url`
    pub aur_url: Option<String>,
    /// `runtime.Name`
    pub runtime: Option<String>,
    /// `runtime.BuilderName`
    pub machine_name: Option<String>,
    /// `runtime.BuilderImage`
    pub machine_image: Option<String>,
}

/// The settings that the TOML document `doc` holds, in field order.
pub open spec fn file_settings_of(doc: Seq<char>) -> Seq<Option<Seq<char>>> {
    seq![
        toml_string_at(doc, "zeus"@, "Color"@),
        toml_string_at(doc, "log"@, "Level"@),
        toml_string_at(doc, "zeus"@, "BuildDir"@),
        toml_string_at(doc, "aur"@, "Url"@),
        toml_string_at(doc, "runtime"@, "Name"@),
        toml_string_at(doc, "runtime"@, "BuilderName"@),
        toml_string_at(doc, "runtime"@, "BuilderImage"@),
    ]
}

impl FileSettings {
    /// The settings, in field order.
    pub open spec fn view_seq(&self) -> Seq<Option<Seq<char>>> {
        seq![
            opt_string_view(self.color),
            opt_string_view(self.log_level),
            opt_string_view(self.build_dir),
            opt_string_view(self.aur_url),
            opt_string_view(self.runtime),
            opt_string_view(self.machine_name),
            opt_string_view(self.machine_image),
        ]
    }

    /// Whether the configuration file `document` is a TOML document; one
    /// that is not is read as holding no settings.
    pub fn is_valid(document: &str) -> (r: bool)
        ensures
            r == toml_tables(document@) is Some,
    {
        parse_tables(document).is_some()
    }

    /// Reads the settings from the configuration file `document` (TOML
    /// text); a document that does not parse holds none.
    pub fn read(document: &str) -> (r: FileSettings)
        ensures
            r.view_seq() == file_settings_of(document@),
            toml_tables(document@) is None ==> r.view_seq() == Seq::new(7, |i: int| None::<Seq<char>>),
            document@.len() == 0 ==> r.view_seq() == Seq::new(7, |i: int| None::<Seq<char>>),
    {
        match parse_tables(document) {
            Some(t) => FileSettings {
                color: table_value(&t, "zeus", "Color"),
                log_level: table_value(&t, "log", "Level"),
                build_dir: table_value(&t, "zeus", "BuildDir"),
                aur_url: table_value(&t, "aur", "Url"),
                runtime: table_value(&t, "runtime", "Name"),
                machine_name: table_value(&t, "runtime", "BuilderName"),
                machine_image: table_value(&t, "runtime", "BuilderImage"),
            },
            None => FileSettings {
                color: None,
                log_level: None,
                build_dir: None,
                aur_url: None,
                runtime: None,
                machine_name: None,
                machine_image: None,
            },
        }
    }
}

/// The color setting.
pub open spec fn color_setting(cli: CliSettings, file: FileSettings) -> Seq<char> {
    setting(opt_string_view(cli.color), opt_string_view(file.color), "auto"@)
}

/// The log level setting.
pub open spec fn level_setting(cli: CliSettings, file: FileSettings, d: Defaults) -> Seq<char> {
    setting(opt_string_view(cli.log_level), opt_string_view(file.log_level), d.log_level@)
}

/// The build directory setting (configuration file or default only).
pub open spec fn build_dir_setting(file: FileSettings, d: Defaults) -> Seq<char> {
    setting(None, opt_string_view(file.build_dir), d.build_dir@)
}

/// The AUR URL setting.
pub open spec fn aur_url_setting(cli: CliSettings, file: FileSettings, d: Defaults) -> Seq<char> {
    setting(opt_string_view(cli.aur_url), opt_string_view(file.aur_url), d.aur_url@)
}

/// The runtime setting.
pub open spec fn runtime_setting(cli: CliSettings, file: FileSettings, d: Defaults) -> Seq<char> {
    setting(opt_string_view(cli.runtime), opt_string_view(file.runtime), d.runtime@)
}

/// The builder machine name setting.
pub open spec fn machine_name_setting(cli: CliSettings, file: FileSettings, d: Defaults) -> Seq<char> {
    setting(opt_string_view(cli.machine_name), opt_string_view(file.machine_name), d.builder_name@)
}

/// The builder machine image setting.
pub open spec fn machine_image_setting(cli: CliSettings, file: FileSettings, d: Defaults) -> Seq<
    char,
> {
    setting(opt_string_view(cli.machine_image), opt_string_view(file.machine_image), d.builder_image@)
}

/// What `GlobalConfig::resolve` gives for these settings.
pub open spec fn resolved(cli: CliSettings, file: FileSettings, d: Defaults, r: Result<GlobalConfig, ConfigError>) -> bool {
    &&& color_parse(color_setting(cli, file)) is Err ==> r == Err::<GlobalConfig, ConfigError>(
        ConfigError::InvalidColor,
    )
    &&& color_parse(color_setting(cli, file)) is Ok && level_parse(level_setting(cli, file, d)) is Err
        ==> r == Err::<GlobalConfig, ConfigError>(ConfigError::InvalidLogLevel)
    &&& color_parse(color_setting(cli, file)) is Ok && level_parse(level_setting(cli, file, d)) is Ok
        ==> (r matches Ok(g) && g.color == color_parse(color_setting(cli, file)).unwrap()
        && g.log_level == level_parse(level_setting(cli, file, d)).unwrap() && g.build_dir@
        == build_dir_setting(file, d) && g.aur_url@ == aur_url_setting(cli, file, d) && g.runtime@
        == runtime_setting(cli, file, d) && g.machine_name@ == machine_name_setting(cli, file, d)
        && g.machine_image@ == machine_image_setting(cli, file, d))
}

/// The value of a setting, chosen as `setting` says.
pub fn choose_setting(cli: &Option<String>, file: &Option<String>, default: &str) -> (r: String)
    ensures
        r@ == setting(opt_string_view(*cli), opt_string_view(*file), default@),
{
    match cli {
        Some(v) => v.clone(),
        None => match file {
            Some(v) => v.clone(),
            None => default.to_owned(),
        },
    }
}

impl GlobalConfig {
    /// Builds the configuration from the command line settings `cli`, the
    /// settings of the configuration file and the defaults. Each setting
    /// comes from the command line if given there, else from the file,
    /// else from the default; the color defaults to `auto`, and the build
    /// directory is not taken from the command line. A color or log level
    /// that names no value is an error, the color checked first.
    pub fn resolve(cli: &CliSettings, file: &FileSettings, defaults: &Defaults) -> (r: Result<
        GlobalConfig,
        ConfigError,
    >)
        ensures
            resolved(*cli, *file, *defaults, r),
    {
        let color_value = choose_setting(&cli.color, &file.color, "auto");
        let color = match Color::from_str(color_value.as_str()) {
            Ok(c) => c,
            Err(_) => return Err(ConfigError::InvalidColor),
        };
        let level_value = choose_setting(&cli.log_level, &file.log_level, defaults.log_level.as_str());
        let log_level = match Level::from_str(level_value.as_str()) {
            Ok(l) => l,
            Err(_) => return Err(ConfigError::InvalidLogLevel),
        };
        let build_dir = choose_setting(&None, &file.build_dir, defaults.build_dir.as_str());
        let aur_url = choose_setting(&cli.aur_url, &file.aur_url, defaults.aur_url.as_str());
        let runtime = choose_setting(&cli.runtime, &file.runtime, defaults.runtime.as_str());
        let machine_name = choose_setting(
            &cli.machine_name,
            &file.machine_name,
            defaults.builder_name.as_str(),
        );
        let machine_image = choose_setting(
            &cli.machine_image,
            &file.machine_image,
            defaults.builder_image.as_str(),
        );
        Ok(GlobalConfig { color, log_level, build_dir, aur_url, runtime, machine_name, machine_image })
    }

    /// Builds the configuration from the command line settings, the
    /// configuration file `document` (TOML text, read by
    /// `FileSettings::read`) and the defaults, as `resolve` does.
    pub fn new(cli: &CliSettings, document: &str, defaults: &Defaults) -> (r: Result<
        GlobalConfig,
        ConfigError,
    >)
        ensures
            exists|file: FileSettings|
                file.view_seq() == file_settings_of(document@) && #[trigger] resolved(
                    *cli,
                    file,
                    *defaults,
                    r,
                ),
    {
        let file = FileSettings::read(document);
        let r = GlobalConfig::resolve(cli, &file, defaults);
        assert(resolved(*cli, file, *defaults, r));
        r
    }
}

/// A setting given on the command line overrides the configuration file:
/// whatever the file says, the command line value is taken.
pub proof fn lemma_cli_overrides_file(
    cli: Seq<char>,
    file1: Option<Seq<char>>,
    file2: Option<Seq<char>>,
    default: Seq<char>,
)
    ensures
        setting(Some(cli), file1, default) == cli,
        setting(Some(cli), file1, default) == setting(Some(cli), file2, default),
{
}

/// A setting in the configuration file overrides the default when the
/// command line does not give it.
pub proof fn lemma_file_overrides_default(file: Seq<char>, default: Seq<char>)
    ensures
        setting(None, Some(file), default) == file,
{
}

/// The whole configuration follows the command line: two configuration
/// files that differ give the same AUR URL, runtime, builder name and
/// builder image when the command line gives them, and the same color when
/// it gives the color.
pub proof fn lemma_cli_overrides_config_files(
    cli: CliSettings,
    doc1: FileSettings,
    doc2: FileSettings,
    d: Defaults,
)
    ensures
        cli.color is Some ==> color_setting(cli, doc1) == color_setting(cli, doc2),
        cli.log_level is Some ==> level_setting(cli, doc1, d) == level_setting(cli, doc2, d),
        cli.aur_url is Some ==> aur_url_setting(cli, doc1, d) == aur_url_setting(cli, doc2, d),
        cli.runtime is Some ==> runtime_setting(cli, doc1, d) == runtime_setting(cli, doc2, d),
        cli.machine_name is Some ==> machine_name_setting(cli, doc1, d) == machine_name_setting(
            cli,
            doc2,
            d,
        ),
        cli.machine_image is Some ==> machine_image_setting(cli, doc1, d) == machine_image_setting(
            cli,
            doc2,
            d,
        ),
{
}

/// A configuration file that holds no settings (one that does not parse,
/// for one) leaves every setting to the command line and the defaults.
pub proof fn lemma_empty_file_gives_defaults(cli: CliSettings, file: FileSettings, d: Defaults)
    requires
        file.view_seq() == Seq::new(7, |i: int| None::<Seq<char>>),
    ensures
        color_setting(cli, file) == setting(opt_string_view(cli.color), None, "auto"@),
        level_setting(cli, file, d) == setting(opt_string_view(cli.log_level), None, d.log_level@),
        build_dir_setting(file, d) == d.build_dir@,
        aur_url_setting(cli, file, d) == setting(opt_string_view(cli.aur_url), None, d.aur_url@),
        runtime_setting(cli, file, d) == setting(opt_string_view(cli.runtime), None, d.runtime@),
        machine_name_setting(cli, file, d) == setting(
            opt_string_view(cli.machine_name),
            None,
            d.builder_name@,
        ),
        machine_image_setting(cli, file, d) == setting(
            opt_string_view(cli.machine_image),
            None,
            d.builder_image@,
        ),
{
    assert(file.view_seq()[0] == opt_string_view(file.color));
    assert(file.view_seq()[1] == opt_string_view(file.log_level));
    assert(file.view_seq()[2] == opt_string_view(file.build_dir));
    assert(file.view_seq()[3] == opt_string_view(file.aur_url));
    assert(file.view_seq()[4] == opt_string_view(file.runtime));
    assert(file.view_seq()[5] == opt_string_view(file.machine_name));
    assert(file.view_seq()[6] == opt_string_view(file.machine_image));
}

/// Each setting of a resolved configuration comes from the command line
/// when given there, else from the configuration file when given there,
/// else from the default (the build directory only from the file or the
/// default, the color defaulting to `auto`).
pub proof fn lemma_resolve_takes_each_setting_by_precedence(
    cli: CliSettings,
    file: FileSettings,
    d: Defaults,
    g: GlobalConfig,
)
    requires
        resolved(cli, file, d, Ok::<GlobalConfig, ConfigError>(g)),
    ensures
        Ok::<Color, ()>(g.color) == color_parse(match cli.color { Some(c) => c@, None => match file.color { Some(f) => f@, None => "auto"@ } }),
        Ok::<Level, ()>(g.log_level) == level_parse(match cli.log_level { Some(c) => c@, None => match file.log_level { Some(f) => f@, None => d.log_level@ } }),
        g.build_dir@ == match file.build_dir { Some(f) => f@, None => d.build_dir@ },
        g.aur_url@ == match cli.aur_url { Some(c) => c@, None => match file.aur_url { Some(f) => f@, None => d.aur_url@ } },
        g.runtime@ == match cli.runtime { Some(c) => c@, None => match file.runtime { Some(f) => f@, None => d.runtime@ } },
        g.machine_name@ == match cli.machine_name { Some(c) => c@, None => match file.machine_name { Some(f) => f@, None => d.builder_name@ } },
        g.machine_image@ == match cli.machine_image { Some(c) => c@, None => match file.machine_image { Some(f) => f@, None => d.builder_image@ } },
{
}

/// A setting given in the configuration file and not on the command line
/// is taken from the file, for every setting.
pub proof fn lemma_file_settings_are_taken(cli: CliSettings, file: FileSettings, d: Defaults)
    ensures
        cli.color is None && file.color is Some ==> color_setting(cli, file) == file.color.unwrap()@,
        cli.log_level is None && file.log_level is Some ==> level_setting(cli, file, d)
            == file.log_level.unwrap()@,
        file.build_dir is Some ==> build_dir_setting(file, d) == file.build_dir.unwrap()@,
        cli.aur_url is None && file.aur_url is Some ==> aur_url_setting(cli, file, d)
            == file.aur_url.unwrap()@,
        cli.runtime is None && file.runtime is Some ==> runtime_setting(cli, file, d)
            == file.runtime.unwrap()@,
        cli.machine_name is None && file.machine_name is Some ==> machine_name_setting(cli, file, d)
            == file.machine_name.unwrap()@,
        cli.machine_image is None && file.machine_image is Some ==> machine_image_setting(cli, file, d)
            == file.machine_image.unwrap()@,
{
}

} // verus!
