//! Resolved command-line arguments and configuration-file locations.
//!
//! The binary parses its command line and asks the operating system for the
//! per-user directories; the decisions — which base directory to use, how a
//! file name is joined under it, and which defaults stand in for absent
//! arguments — are made here, on plain path strings.

use vstd::prelude::*;
use vstd::string::StringExecFns;

verus! {

/// The arguments the binary hands to the rest of the application.
#[derive(Clone, Debug, PartialEq)]
pub struct CliArgs {
    /// Resolved path of the theme file, under the config directory.
    pub theme: String,
    /// The working directory to operate on.
    pub workdir: String,
    /// Use the file-system watcher instead of tick-based updates.
    pub notify_watcher: bool,
}

/// Failure to resolve where configuration lives.  The only error of this
/// library that is fatal to startup: every other failure degrades to a
/// compiled-in default.
#[derive(Clone, Copy, Debug, PartialEq, Eq, Structural)]
pub enum ConfigError {
    DirectoryResolution,
}

impl ConfigError {
    /// The operator-facing description of the failure.
    pub fn message(&self) -> (r: String)
        ensures
            r@ == "failed to find os config dir."@,
    {
        "failed to find os config dir.".to_owned()
    }
}

/// The application's configuration directory.  On the platform family that
/// keeps configuration under the home directory (`use_home_config`), it is
/// `<home>/.config/gitui`; elsewhere it is `<config>/gitui` under the
/// platform's standard per-user config directory.  `None` for the needed
/// base directory is the fatal resolution failure.
pub fn get_app_config_path(
    home_dir: Option<String>,
    os_config_dir: Option<String>,
    use_home_config: bool,
) -> (r: Result<String, ConfigError>)
    ensures
        use_home_config ==> (home_dir matches Some(h) ==> r matches Ok(p) && p@ == h@
            + "/.config/gitui"@),
        use_home_config && home_dir is None ==> r == Err::<String, _>(
            ConfigError::DirectoryResolution,
        ),
        !use_home_config ==> (os_config_dir matches Some(d) ==> r matches Ok(p) && p@ == d@
            + "/gitui"@),
        !use_home_config && os_config_dir is None ==> r == Err::<String, _>(
            ConfigError::DirectoryResolution,
        ),
{
    if use_home_config {
        match home_dir {
            Some(h) => {
                let mut p = h;
                p.append("/.config/gitui");
                Ok(p)
            },
            None => Err(ConfigError::DirectoryResolution),
        }
    } else {
        match os_config_dir {
            Some(d) => {
                let mut p = d;
                p.append("/gitui");
                Ok(p)
            },
            None => Err(ConfigError::DirectoryResolution),
        }
    }
}

/// Joins a file name under a directory with the path separator.
pub fn join_config_path(dir: &str, filename: &str) -> (r: String)
    ensures
        r@ == dir@ + "/"@ + filename@,
{
    let mut p = dir.to_owned();
    p.append("/");
    p.append(filename);
    p
}

/// The key-binding file's path under the config directory.
pub fn key_list_file(config_dir: &str) -> (r: String)
    ensures
        r@ == config_dir@ + "/key_bindings.ron"@,
{
    let mut p = config_dir.to_owned();
    p.append("/key_bindings.ron");
    p
}

/// The key-symbol file's path under the config directory.
pub fn key_symbols_file(config_dir: &str) -> (r: String)
    ensures
        r@ == config_dir@ + "/key_symbols.ron"@,
{
    let mut p = config_dir.to_owned();
    p.append("/key_symbols.ron");
    p
}

/// Settles the command-line arguments: an absent theme argument means
/// `theme.ron`, an absent working directory the current one; the theme file
/// is located under the config directory.
pub fn process_cmdline(
    theme_arg: Option<String>,
    workdir_arg: Option<String>,
    notify_watcher: bool,
    config_dir: &str,
) -> (r: CliArgs)
    ensures
        theme_arg matches Some(t) ==> r.theme@ == config_dir@ + "/"@ + t@,
        theme_arg is None ==> r.theme@ == config_dir@ + "/"@ + "theme.ron"@,
        workdir_arg matches Some(w) ==> r.workdir@ == w@,
        workdir_arg is None ==> r.workdir@ == "."@,
        r.notify_watcher == notify_watcher,
{
    let theme = match theme_arg {
        Some(t) => join_config_path(config_dir, t.as_str()),
        None => join_config_path(config_dir, "theme.ron"),
    };
    let workdir = match workdir_arg {
        Some(w) => w,
        None => ".".to_owned(),
    };
    CliArgs { theme, workdir, notify_watcher }
}

} // verus!
