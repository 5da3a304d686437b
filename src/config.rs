use vstd::prelude::*;
use crate::error::LaunchError;

verus! {

/// Name of the configuration file, which lives in the user's home directory.
pub const CONFIG_FILE_NAME: &'static str = "rdp-config.json";

/// The defaults read at startup: the client's base arguments, the default
/// user and the default server.
pub struct Config {
    pub args: Vec<String>,
    pub default_user: String,
    pub default_server: String,
}

/// What a `Config` holds, as character sequences.
pub struct ConfigView {
    pub args: Seq<Seq<char>>,
    pub default_user: Seq<char>,
    pub default_server: Seq<char>,
}

impl View for Config {
    type V = ConfigView;

    open spec fn view(&self) -> ConfigView {
        ConfigView {
            args: self.args.deep_view(),
            default_user: self.default_user@,
            default_server: self.default_server@,
        }
    }
}

impl Config {
    /// A configuration holding exactly the three given values.
    pub fn new(args: Vec<String>, default_user: String, default_server: String) -> (r: Config)
        ensures
            r.args == args,
            r.default_user == default_user,
            r.default_server == default_server,
            r@ == (ConfigView {
                args: args.deep_view(),
                default_user: default_user@,
                default_server: default_server@,
            }),
    {
        Config { args, default_user, default_server }
    }
}

/// The outcome of looking for the configuration file and decoding it.
pub enum ConfigRead {
    /// No file at the expected place.
    NotFound,
    /// A file whose content is not an object with the three fields.
    Malformed,
    /// The three fields, as the file gave them.
    Fields(Config),
}

/// Turns the outcome of reading the configuration file into the loaded
/// configuration or the matching error. Nothing is ever defaulted: a missing
/// file and a malformed one each fail with their own error, and decoded fields
/// are kept exactly as read.
pub fn load_config(read: ConfigRead) -> (r: Result<Config, LaunchError>)
    ensures
        match read {
            ConfigRead::NotFound => r == Err::<Config, LaunchError>(LaunchError::ConfigNotFound),
            ConfigRead::Malformed => r == Err::<Config, LaunchError>(LaunchError::ConfigParseError),
            ConfigRead::Fields(c) => r == Ok::<Config, LaunchError>(c),
        },
{
    match read {
        ConfigRead::NotFound => Err(LaunchError::ConfigNotFound),
        ConfigRead::Malformed => Err(LaunchError::ConfigParseError),
        ConfigRead::Fields(c) => Ok(c),
    }
}

} // verus!
