use vstd::prelude::*;
use vstd::string::StringExecFns;

use crate::bindings::{Binding, Keybindings};
use crate::paths::{joined, path_join};

verus! {

/// The name of the configuration file inside the configuration directory.
pub open spec fn config_file_name() -> Seq<char> {
    "config.yml"@
}

/// The directories that the application works with.
#[derive(Debug)]
pub struct AppConfig {
    pub data_dir: String,
    pub config_dir: String,
    /// The directory in which the program was started.
    pub working_dir: String,
    /// Whether a clipboard is at hand.
    pub clipboard_available: bool,
}

impl Clone for AppConfig {
    fn clone(&self) -> (r: Self)
        ensures
            r == *self,
    {
        AppConfig {
            data_dir: self.data_dir.clone(),
            config_dir: self.config_dir.clone(),
            working_dir: self.working_dir.clone(),
            clipboard_available: self.clipboard_available,
        }
    }
}

impl Default for AppConfig {
    fn default() -> (r: Self)
        ensures
            r.data_dir@.len() == 0,
            r.config_dir@.len() == 0,
            r.working_dir@.len() == 0,
            !r.clipboard_available,
    {
        AppConfig {
            data_dir: String::new(),
            config_dir: String::new(),
            working_dir: String::new(),
            clipboard_available: false,
        }
    }
}

/// The configuration: the directories and the key-binding table.
#[derive(Debug)]
pub struct Config {
    pub config: AppConfig,
    pub keybindings: Keybindings,
}

impl Clone for Keybindings {
    fn clone(&self) -> (r: Self)
        ensures
            r@ == self@,
    {
        let mut entries: Vec<Binding> = Vec::new();
        let mut i: usize = 0;
        while i < self.entries.len()
            invariant
                i <= self@.len(),
                entries@ == self@.subrange(0, i as int),
            decreases self@.len() - i,
        {
            entries.push(self.entries[i].clone());
            i += 1;
            assert(entries@ =~= self@.subrange(0, i as int));
        }
        assert(self@.subrange(0, i as int) =~= self@);
        Keybindings { entries }
    }
}

impl Clone for Config {
    fn clone(&self) -> (r: Self)
        ensures
            r.config == self.config,
            r.keybindings@ == self.keybindings@,
    {
        Config { config: self.config.clone(), keybindings: self.keybindings.clone() }
    }
}

impl Default for Config {
    fn default() -> (r: Self)
        ensures
            r.keybindings@.len() == 0,
            r.config.data_dir@.len() == 0,
            r.config.config_dir@.len() == 0,
            r.config.working_dir@.len() == 0,
            !r.config.clipboard_available,
    {
        Config { config: AppConfig::default(), keybindings: Keybindings::new() }
    }
}

/// The configuration directory: the one the environment names, else the
/// platform's directory for this application, else `.config` under the
/// current directory.
pub fn get_config_dir(from_environment: Option<String>, from_platform: Option<String>) -> (r:
    String)
    ensures
        r@ == match (from_environment, from_platform) {
            (Some(dir), _) => dir@,
            (None, Some(dir)) => dir@,
            (None, None) => joined("."@, ".config"@),
        },
{
    match from_environment {
        Some(dir) => dir,
        None => match from_platform {
            Some(dir) => dir,
            None => path_join(".", ".config"),
        },
    }
}

/// The configuration file inside the configuration directory.
pub fn get_config_file_dir(config_dir: &str) -> (r: String)
    ensures
        r@ == joined(config_dir@, config_file_name()),
{
    path_join(config_dir, "config.yml")
}

} // verus!
