//! The configuration, its errors, and the steps of resolving it.
use vstd::prelude::*;
use vstd::string::to_string_from_display_ensures;
use crate::environment::{opt_view, Environment};
use crate::expansion::{concrete_path_expands_to_itself, expand, expansion_spec, ExpansionError};
use crate::paths::{is_absolute, app_dir_spec, config_dir, config_dir_spec, config_file_spec, data_dir, data_dir_spec, join, join_path};
use crate::toml_format::{parse_table, parsed_table, render_entry, rendered_entry, string_entries, string_entry};

verus! {

#[verifier::external_type_specification]
#[verifier::external_body]
pub struct ExIoError(std::io::Error);

/// The user's configuration.
#[derive(Debug)]
pub struct Configuration {
    /// Where installed application bundles live.
    pub install_dir: String,
}

/// Why a read failed: the file could not be read, or the install directory
/// could not be expanded.
#[derive(Debug)]
pub enum ReadFailure {
    Io(std::io::Error),
    Expansion(ExpansionError),
}

/// Why a parse failed: the text is not TOML, or it holds no string
/// `install_dir`.
#[derive(Debug)]
pub enum ParseFailure {
    Syntax(toml::de::Error),
    MissingInstallDir,
}

/// Why writing the default configuration failed.
#[derive(Debug)]
pub enum WriteFailure {
    Io(std::io::Error),
    Serialize(toml::ser::Error),
}

#[derive(Debug)]
pub enum ConfigError {
    /// No usable configuration (or data) directory could be determined.
    ConfigDirNotFound,
    ReadError(ReadFailure),
    ParseError(ParseFailure),
    WriteError(WriteFailure),
}

/// The opening words of each kind of error's message.
pub open spec fn message_head(e: &ConfigError) -> Seq<char> {
    match e {
        ConfigError::ConfigDirNotFound => "Could not determine config directory (tried XDG_CONFIG_HOME and ~/.config)"@,
        ConfigError::ReadError(_) => "Failed to read config file: "@,
        ConfigError::ParseError(_) => "Failed to parse config file: "@,
        ConfigError::WriteError(_) => "Failed to write default config file: "@,
    }
}

impl ConfigError {
    /// A message for the user: the kind of failure, then its cause.
    pub fn message(&self) -> (r: String)
        ensures
            self is ConfigDirNotFound ==> r@ == message_head(self),
            self matches ConfigError::ParseError(ParseFailure::MissingInstallDir) ==> r@
                == message_head(self) + "missing string field `install_dir`"@,
            self matches ConfigError::ReadError(ReadFailure::Expansion(x)) ==> r@
                == message_head(self) + "environment variable `"@ + x.var_name@ + "` is not set"@,
            self matches ConfigError::ReadError(ReadFailure::Io(e)) ==> exists|c: String|
                #[trigger] to_string_from_display_ensures::<std::io::Error>(&e, c) && r@
                    == message_head(self) + c@,
            self matches ConfigError::ParseError(ParseFailure::Syntax(e)) ==> exists|c: String|
                #[trigger] to_string_from_display_ensures::<toml::de::Error>(&e, c) && r@
                    == message_head(self) + c@,
            self matches ConfigError::WriteError(WriteFailure::Io(e)) ==> exists|c: String|
                #[trigger] to_string_from_display_ensures::<std::io::Error>(&e, c) && r@
                    == message_head(self) + c@,
            self matches ConfigError::WriteError(WriteFailure::Serialize(e)) ==> exists|c: String|
                #[trigger] to_string_from_display_ensures::<toml::ser::Error>(&e, c) && r@
                    == message_head(self) + c@,
    {
        match self {
            ConfigError::ConfigDirNotFound => String::from_str(
                "Could not determine config directory (tried XDG_CONFIG_HOME and ~/.config)",
            ),
            ConfigError::ReadError(ReadFailure::Io(e)) => {
                let c = e.to_string();
                String::from_str("Failed to read config file: ").concat(c.as_str())
            },
            ConfigError::ReadError(ReadFailure::Expansion(x)) => String::from_str(
                "Failed to read config file: ",
            ).concat("environment variable `").concat(x.var_name.as_str()).concat("` is not set"),
            ConfigError::ParseError(ParseFailure::Syntax(e)) => {
                let c = e.to_string();
                String::from_str("Failed to parse config file: ").concat(c.as_str())
            },
            ConfigError::ParseError(ParseFailure::MissingInstallDir) => String::from_str(
                "Failed to parse config file: ",
            ).concat("missing string field `install_dir`"),
            ConfigError::WriteError(WriteFailure::Io(e)) => {
                let c = e.to_string();
                String::from_str("Failed to write default config file: ").concat(c.as_str())
            },
            ConfigError::WriteError(WriteFailure::Serialize(e)) => {
                let c = e.to_string();
                String::from_str("Failed to write default config file: ").concat(c.as_str())
            },
        }
    }
}

/// A failed read of the configuration file.
impl From<std::io::Error> for ConfigError {
    fn from(err: std::io::Error) -> Self {
        ConfigError::ReadError(ReadFailure::Io(err))
    }
}

impl vstd::std_specs::convert::FromSpecImpl<std::io::Error> for ConfigError {
    open spec fn obeys_from_spec() -> bool {
        true
    }

    open spec fn from_spec(v: std::io::Error) -> Self {
        ConfigError::ReadError(ReadFailure::Io(v))
    }
}

/// A configuration file that is not TOML.
impl From<toml::de::Error> for ConfigError {
    fn from(err: toml::de::Error) -> Self {
        ConfigError::ParseError(ParseFailure::Syntax(err))
    }
}

impl vstd::std_specs::convert::FromSpecImpl<toml::de::Error> for ConfigError {
    open spec fn obeys_from_spec() -> bool {
        true
    }

    open spec fn from_spec(v: toml::de::Error) -> Self {
        ConfigError::ParseError(ParseFailure::Syntax(v))
    }
}

/// Where the configuration file lives.
pub struct ConfigLocation {
    /// `<config_dir>/<app>`, to be created before the file is written.
    pub dir: String,
    /// `<config_dir>/<app>/<app>.toml`.
    pub file: String,
}

/// The install directory of the default configuration.
pub open spec fn default_install_dir(data_dir: Seq<char>) -> Seq<char> {
    join(data_dir, "AppImages"@)
}

/// What resolving a looked-up `install_dir` entry gives.
pub open spec fn entry_outcome(
    entry: Option<Seq<char>>,
    env: &Environment,
    r: Result<Configuration, ConfigError>,
) -> bool {
    match entry {
        None => r matches Err(ConfigError::ParseError(ParseFailure::MissingInstallDir)),
        Some(d) => match expansion_spec(d, env) {
            None => r matches Err(ConfigError::ReadError(ReadFailure::Expansion(_))),
            Some(e) => r matches Ok(c) && c.install_dir@ == e,
        },
    }
}

/// The string `install_dir` entry of a table, if there is one.
pub open spec fn install_dir_entry(t: toml::Table) -> Option<Seq<char>> {
    if string_entries(t).contains_key("install_dir"@) {
        Some(string_entries(t)["install_dir"@])
    } else {
        None
    }
}

/// What resolving the text of a configuration file gives.
pub open spec fn text_outcome(
    text: Seq<char>,
    env: &Environment,
    r: Result<Configuration, ConfigError>,
) -> bool {
    match parsed_table(text) {
        None => r matches Err(ConfigError::ParseError(ParseFailure::Syntax(_))),
        Some(t) => entry_outcome(install_dir_entry(t), env, r),
    }
}

/// The default install directory of an absolute data directory free of `$`
/// is already concrete: expanding it gives it back.
pub proof fn default_install_dir_is_concrete(data_dir: Seq<char>, env: &Environment)
    requires
        is_absolute(data_dir),
        !data_dir.contains('$'),
    ensures
        expansion_spec(default_install_dir(data_dir), env) == Some(default_install_dir(data_dir)),
{
    reveal_strlit("AppImages");
    let d = default_install_dir(data_dir);
    let part = "AppImages"@;
    assert(!part.contains('$')) by {
        assert forall|i: int| 0 <= i < part.len() implies part[i] != '$' by {}
    }
    assert(d == data_dir + seq!['/'] + part || d == data_dir + part);
    assert(!d.contains('$')) by {
        assert forall|i: int| 0 <= i < d.len() implies d[i] != '$' by {
            if d == data_dir + seq!['/'] + part {
                if i < data_dir.len() {
                    assert(d[i] == data_dir[i]);
                } else if i > data_dir.len() {
                    assert(d[i] == part[i - data_dir.len() - 1]);
                }
            } else {
                if i < data_dir.len() {
                    assert(d[i] == data_dir[i]);
                } else {
                    assert(d[i] == part[i - data_dir.len()]);
                }
            }
        }
    }
    assert(d[0] == data_dir[0]);
    concrete_path_expands_to_itself(d, env);
}

/// On first run, the default file's text resolves to `<data_dir>/AppImages`,
/// where the data directory is absolute and free of `$`.
pub proof fn first_run_resolves_to_default(
    text: Seq<char>,
    env: &Environment,
    r: Result<Configuration, ConfigError>,
)
    requires
        data_dir_spec(env) matches Some(d) && is_absolute(d) && !d.contains('$'),
        parsed_table(text) matches Some(t) && install_dir_entry(t) == Some(
            default_install_dir(data_dir_spec(env)->0),
        ),
        text_outcome(text, env, r),
    ensures
        r matches Ok(c) && c.install_dir@ == default_install_dir(data_dir_spec(env)->0),
{
    default_install_dir_is_concrete(data_dir_spec(env)->0, env);
}

/// Resolving the same text twice, under the same environment, gives
/// equivalent configurations, or fails both times.
pub proof fn resolution_is_repeatable(
    text: Seq<char>,
    env: &Environment,
    r1: Result<Configuration, ConfigError>,
    r2: Result<Configuration, ConfigError>,
)
    requires
        text_outcome(text, env, r1),
        text_outcome(text, env, r2),
    ensures
        r1 is Ok == r2 is Ok,
        r1 matches Ok(c1) ==> r2 matches Ok(c2) && c1.install_dir@ == c2.install_dir@,
{
}

/// Finds where the configuration file of `app_name` lives.
pub fn locate(env: &Environment, app_name: &str) -> (r: Result<ConfigLocation, ConfigError>)
    ensures
        r is Ok == config_dir_spec(env) is Some,
        r matches Ok(l) ==> l.dir@ == app_dir_spec(config_dir_spec(env)->0, app_name@)
            && l.file@ == config_file_spec(config_dir_spec(env)->0, app_name@),
        r matches Err(e) ==> e is ConfigDirNotFound,
{
    match config_dir(env) {
        None => Err(ConfigError::ConfigDirNotFound),
        Some(base) => {
            let dir = join_path(base.as_str(), app_name);
            let file_name = String::from_str(app_name).concat(".toml");
            let file = join_path(dir.as_str(), file_name.as_str());
            Ok(ConfigLocation { dir, file })
        },
    }
}

impl Configuration {
    /// The default configuration: `<data_dir>/AppImages` as install directory.
    /// Without a data directory there is no default.
    pub fn default(env: &Environment) -> (r: Result<Configuration, ConfigError>)
        ensures
            r is Ok == data_dir_spec(env) is Some,
            r matches Ok(c) ==> c.install_dir@ == default_install_dir(data_dir_spec(env)->0),
            r matches Err(e) ==> e is ConfigDirNotFound,
    {
        match data_dir(env) {
            Some(share) => Ok(Configuration { install_dir: join_path(share.as_str(), "AppImages") }),
            None => Err(ConfigError::ConfigDirNotFound),
        }
    }

    /// The TOML text of this configuration; it parses back to a table whose
    /// `install_dir` is this configuration's, character for character.
    pub fn to_toml(&self) -> (r: Result<String, ConfigError>)
        ensures
            r is Ok,
            r matches Ok(s) ==> s@ == rendered_entry("install_dir"@, self.install_dir@),
            r matches Ok(s) ==> (parsed_table(s@) matches Some(t) && install_dir_entry(t) == Some(self.install_dir@)),
    {
        match render_entry("install_dir", self.install_dir.as_str()) {
            Ok(s) => {
                proof {
                    let t = parsed_table(s@)->0;
                    assert(string_entries(t).contains_key("install_dir"@));
                }
                Ok(s)
            },
            Err(e) => Err(ConfigError::WriteError(WriteFailure::Serialize(e))),
        }
    }

    /// The text of the default configuration file, written on first run.
    pub fn default_config_text(env: &Environment) -> (r: Result<String, ConfigError>)
        ensures
            r is Ok == data_dir_spec(env) is Some,
            r matches Ok(s) ==> (parsed_table(s@) matches Some(t) && install_dir_entry(t) == Some(
                default_install_dir(data_dir_spec(env)->0),
            )),
            r matches Err(e) ==> e is ConfigDirNotFound,
    {
        let default_config = Configuration::default(env)?;
        default_config.to_toml()
    }

    /// Resolves the `install_dir` entry found in a configuration file: none is
    /// a parse error; otherwise it is expanded, and a failed expansion is a
    /// read error.
    pub fn from_entry(entry: Option<String>, env: &Environment) -> (r: Result<Configuration, ConfigError>)
        ensures
            entry_outcome(opt_view(entry), env, r),
    {
        match entry {
            None => Err(ConfigError::ParseError(ParseFailure::MissingInstallDir)),
            Some(d) => match expand(d.as_str(), env) {
                Ok(install_dir) => Ok(Configuration { install_dir }),
                Err(e) => Err(ConfigError::ReadError(ReadFailure::Expansion(e))),
            },
        }
    }

    /// Resolves the text of a configuration file: parses it as TOML, reads its
    /// `install_dir` string and expands it.
    pub fn from_toml(text: &str, env: &Environment) -> (r: Result<Configuration, ConfigError>)
        ensures
            text_outcome(text@, env, r),
    {
        match parse_table(text) {
            Err(e) => Err(ConfigError::ParseError(ParseFailure::Syntax(e))),
            Ok(t) => {
                let entry = string_entry(&t, "install_dir");
                Configuration::from_entry(entry, env)
            },
        }
    }
}

} // verus!
