//! Explicit configuration passed in at process start. Directory selection is
//! a pure choice among an environment override, a platform project
//! directory, and a fallback beside the working directory; reading the
//! environment and the platform directories is the caller's side.

use vstd::prelude::*;

verus! {

/// The directory for application data: the environment override when one is
/// set, else the platform's local data directory when one is known, else
/// `./.data`.
pub fn get_data_dir(data_folder: Option<String>, project_data_dir: Option<String>) -> (r: String)
    ensures
        data_folder matches Some(s) ==> r == s,
        data_folder is None ==> (project_data_dir matches Some(p) ==> r == p),
        data_folder is None && project_data_dir is None ==> r@ == "./.data"@,
{
    match data_folder {
        Some(s) => s,
        None => match project_data_dir {
            Some(p) => p,
            None => "./.data".to_owned(),
        },
    }
}

/// The directory for configuration files: the environment override when one
/// is set, else the platform's local config directory when one is known,
/// else `./.config`.
pub fn get_config_dir(
    config_folder: Option<String>,
    project_config_dir: Option<String>,
) -> (r: String)
    ensures
        config_folder matches Some(s) ==> r == s,
        config_folder is None ==> (project_config_dir matches Some(p) ==> r == p),
        config_folder is None && project_config_dir is None ==> r@ == "./.config"@,
{
    match config_folder {
        Some(s) => s,
        None => match project_config_dir {
            Some(p) => p,
            None => "./.config".to_owned(),
        },
    }
}

/// The resolved directories the application runs with.
#[derive(Clone, Debug)]
pub struct AppConfig {
    pub _data_dir: String,
    pub _config_dir: String,
}

impl Default for AppConfig {
    fn default() -> (c: AppConfig)
        ensures
            c._data_dir@ == Seq::<char>::empty(),
            c._config_dir@ == Seq::<char>::empty(),
    {
        AppConfig { _data_dir: String::new(), _config_dir: String::new() }
    }
}

/// The application's configuration value, constructed once at process start
/// and passed along explicitly.
#[derive(Clone, Debug)]
pub struct Config {
    pub config: AppConfig,
}

impl Config {
    /// A configuration rooted at the given resolved directories.
    pub fn new(data_dir: String, config_dir: String) -> (c: Config)
        ensures
            c.config._data_dir == data_dir,
            c.config._config_dir == config_dir,
    {
        Config { config: AppConfig { _data_dir: data_dir, _config_dir: config_dir } }
    }
}

impl Default for Config {
    fn default() -> (c: Config)
        ensures
            c.config._data_dir@ == Seq::<char>::empty(),
            c.config._config_dir@ == Seq::<char>::empty(),
    {
        Config { config: AppConfig::default() }
    }
}

} // verus!
