//! Configuration of the bridge: where the queue lives, how the execution
//! sink is invoked, and how the remote endpoint is reached.
//!
//! Reading a configuration file is plain I/O and happens outside this crate;
//! here live the recognized options, their defaults, and the rule that the
//! local paths always come from the defaults rather than from the file.

use vstd::prelude::*;

verus! {

/// The accepted configuration file formats.
#[derive(Clone, Copy, PartialEq, Eq, Structural, Hash, Debug)]
pub enum FileSupported {
    JSON,
    YML,
    YAML,
}

/// The recognized options. The first three locate the queue on the local
/// disk; the rest parameterize the execution sink and the remote endpoint.
#[derive(Clone, Debug)]
pub struct AppConfig {
    pub config_file_name: String,
    pub root_path: String,
    pub work_dir_name: String,
    pub printer_bin: String,
    pub printer_name: String,
    pub printer_settings: String,
    pub ws_url: String,
    pub ws_context_id: String,
    pub ws_context_name: String,
    pub ws_context_pwd: String,
    pub ws_printer_name: String,
}

impl Default for AppConfig {
    /// The built-in configuration: queue under `./wdir`, `echo` as a harmless
    /// execution sink, and no remote endpoint.
    fn default() -> (r: AppConfig)
        ensures
            r.config_file_name@ == "cloudprint.config"@,
            r.root_path@ == "."@,
            r.work_dir_name@ == "wdir"@,
            r.printer_bin@ == "echo"@,
            r.printer_name@ == ""@,
            r.printer_settings@ == ""@,
            r.ws_url@ == ""@,
            r.ws_context_id@ == ""@,
            r.ws_context_name@ == ""@,
            r.ws_context_pwd@ == ""@,
            r.ws_printer_name@ == ""@,
    {
        AppConfig {
            config_file_name: String::from_str("cloudprint.config"),
            root_path: String::from_str("."),
            work_dir_name: String::from_str("wdir"),
            printer_bin: String::from_str("echo"),
            printer_name: String::from_str(""),
            printer_settings: String::from_str(""),
            ws_url: String::from_str(""),
            ws_context_id: String::from_str(""),
            ws_context_name: String::from_str(""),
            ws_context_pwd: String::from_str(""),
            ws_printer_name: String::from_str(""),
        }
    }
}

impl AppConfig {
    /// A configuration read from a file keeps its sink and endpoint options,
    /// while the file name and the two local path options are always taken
    /// from the defaults: the file never relocates the queue.
    pub fn with_local_defaults(self) -> (r: AppConfig)
        ensures
            r.config_file_name@ == "cloudprint.config"@,
            r.root_path@ == "."@,
            r.work_dir_name@ == "wdir"@,
            r.printer_bin@ == self.printer_bin@,
            r.printer_name@ == self.printer_name@,
            r.printer_settings@ == self.printer_settings@,
            r.ws_url@ == self.ws_url@,
            r.ws_context_id@ == self.ws_context_id@,
            r.ws_context_name@ == self.ws_context_name@,
            r.ws_context_pwd@ == self.ws_context_pwd@,
            r.ws_printer_name@ == self.ws_printer_name@,
    {
        AppConfig {
            config_file_name: String::from_str("cloudprint.config"),
            root_path: String::from_str("."),
            work_dir_name: String::from_str("wdir"),
            ..self
        }
    }

    /// A field-for-field copy.
    pub fn duplicate(&self) -> (r: AppConfig)
        ensures
            r == *self,
    {
        AppConfig {
            config_file_name: self.config_file_name.clone(),
            root_path: self.root_path.clone(),
            work_dir_name: self.work_dir_name.clone(),
            printer_bin: self.printer_bin.clone(),
            printer_name: self.printer_name.clone(),
            printer_settings: self.printer_settings.clone(),
            ws_url: self.ws_url.clone(),
            ws_context_id: self.ws_context_id.clone(),
            ws_context_name: self.ws_context_name.clone(),
            ws_context_pwd: self.ws_context_pwd.clone(),
            ws_printer_name: self.ws_printer_name.clone(),
        }
    }

    /// The file names probed for a configuration, in the order they are
    /// tried.
    pub fn config_file_candidates() -> (r: Vec<String>)
        ensures
            r@.len() == 3,
            r@[0]@ == "cloudprint.config.json"@,
            r@[1]@ == "cloudprint.config.yml"@,
            r@[2]@ == "cloudprint.config.yaml"@,
    {
        let mut r: Vec<String> = Vec::new();
        r.push(String::from_str("cloudprint.config.json"));
        r.push(String::from_str("cloudprint.config.yml"));
        r.push(String::from_str("cloudprint.config.yaml"));
        r
    }
}

} // verus!
