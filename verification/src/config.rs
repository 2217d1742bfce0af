//! The agent's configuration: what it holds, where it is looked for, and
//! what is set up for a user who has none yet.

use vstd::prelude::*;
use vstd::string::StringExecFns;

verus! {

/// The text of the user's settings file, held in memory.
pub struct ConfFile {
    contents: String,
}

impl View for ConfFile {
    type V = Seq<char>;

    closed spec fn view(&self) -> Seq<char> {
        self.contents@
    }
}

impl ConfFile {
    /// Holds `contents` as the text of the settings file.
    pub fn from_contents(contents: String) -> (r: ConfFile)
        ensures
            r@ == contents@,
    {
        ConfFile { contents }
    }

    /// A copy of the text.
    pub fn read(&self) -> (r: String)
        ensures
            r@ == self@,
    {
        self.contents.clone()
    }
}

/// The system-wide configuration: where the credential helper is found.
#[derive(Clone, Debug, PartialEq, Eq)]
pub struct SystemConfig {
    helper_path: String,
}

impl View for SystemConfig {
    type V = Seq<char>;

    closed spec fn view(&self) -> Seq<char> {
        self.helper_path@
    }
}

impl SystemConfig {
    /// A configuration with the helper at `helper_path`.
    pub fn new(helper_path: String) -> (r: SystemConfig)
        ensures
            r@ == helper_path@,
    {
        SystemConfig { helper_path }
    }

    /// The path of the credential helper.
    pub fn get_helper_path(&self) -> (r: &str)
        ensures
            r@ == self@,
    {
        self.helper_path.as_str()
    }
}

/// Where the system-wide configuration is taken from.
#[derive(Clone, Copy, Debug, PartialEq, Eq, Structural)]
pub enum ConfigSource {
    /// The administrator's file under `/usr/local/etc`.
    Local,
    /// The distribution's file under `/etc`.
    Distribution,
    /// No file: the defaults that were built in.
    BuiltIn,
}

impl ConfigSource {
    /// Picks the source, given which of the two files exist. The
    /// administrator's file wins over the distribution's, and either wins
    /// over the defaults.
    pub fn select(local_exists: bool, distribution_exists: bool) -> (r: ConfigSource)
        ensures
            r == if local_exists {
                ConfigSource::Local
            } else if distribution_exists {
                ConfigSource::Distribution
            } else {
                ConfigSource::BuiltIn
            },
    {
        if local_exists {
            ConfigSource::Local
        } else if distribution_exists {
            ConfigSource::Distribution
        } else {
            ConfigSource::BuiltIn
        }
    }

    /// The file that the source stands for, if it is a file.
    pub fn path(&self) -> (r: Option<&'static str>)
        ensures
            match *self {
                ConfigSource::Local => r matches Some(p) && p@
                    == "/usr/local/etc/cutekit/config.toml"@,
                ConfigSource::Distribution => r matches Some(p) && p@
                    == "/etc/cutekit/config.toml"@,
                ConfigSource::BuiltIn => r is None,
            },
    {
        match self {
            ConfigSource::Local => Some("/usr/local/etc/cutekit/config.toml"),
            ConfigSource::Distribution => Some("/etc/cutekit/config.toml"),
            ConfigSource::BuiltIn => None,
        }
    }
}

/// What to do about the user's settings directory.
#[derive(Clone, Copy, Debug, PartialEq, Eq, Structural)]
pub enum DirectoryStep {
    /// It is there: leave it.
    Keep,
    /// Create it, and the directories above it that are missing.
    CreateWithParents,
    /// Create it alone.
    Create,
}

/// Decides what to do about the user's settings directory: it is kept if it
/// exists and is a directory. Else it is created, together with its parents
/// unless a `.config` is found from where the agent runs.
pub fn directory_step(present: bool, is_dir: bool, dot_config_found: bool) -> (r: DirectoryStep)
    ensures
        r == if present && is_dir {
            DirectoryStep::Keep
        } else if dot_config_found {
            DirectoryStep::Create
        } else {
            DirectoryStep::CreateWithParents
        },
{
    if !present || !is_dir {
        if !dot_config_found {
            DirectoryStep::CreateWithParents
        } else {
            DirectoryStep::Create
        }
    } else {
        DirectoryStep::Keep
    }
}

/// Whether the user's settings file is to be written with the defaults: it
/// is, unless it exists and is a file.
pub fn needs_default_file(present: bool, is_file: bool) -> (r: bool)
    ensures
        r == !(present && is_file),
{
    !present || !is_file
}

/// The directory that holds the user's configuration: the one that
/// `XDG_CONFIG_HOME` names where it is set, else `.config` below the home
/// directory, and none where neither is known.
pub open spec fn config_home_of(
    xdg_config_home: Option<Seq<char>>,
    home: Option<Seq<char>>,
) -> Option<Seq<char>> {
    match (xdg_config_home, home) {
        (Some(directory), _) => Some(directory),
        (None, Some(home)) => Some(home + "/.config"@),
        (None, None) => None,
    }
}

/// The directory that holds the user's configuration, from the values of
/// `XDG_CONFIG_HOME` and `HOME`.
pub fn config_home(xdg_config_home: Option<String>, home: Option<String>) -> (r: Option<String>)
    ensures
        r.deep_view() == config_home_of(xdg_config_home.deep_view(), home.deep_view()),
{
    match xdg_config_home {
        Some(directory) => Some(directory),
        None => match home {
            Some(home) => {
                let mut directory = home;
                directory.append("/.config");
                Some(directory)
            },
            None => None,
        },
    }
}

/// The user's settings file below the configuration directory.
pub fn settings_path(config_home: &str) -> (r: String)
    ensures
        r@ == config_home@ + "/cutekit/config.json"@,
{
    let mut path = String::from_str(config_home);
    path.append("/cutekit/config.json");
    path
}

/// The user's stylesheet below the configuration directory.
pub fn stylesheet_path(config_home: &str) -> (r: String)
    ensures
        r@ == config_home@ + "/cutekit/style.css"@,
{
    let mut path = String::from_str(config_home);
    path.append("/cutekit/style.css");
    path
}

} // verus!
