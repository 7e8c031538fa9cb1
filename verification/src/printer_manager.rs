//! The execution sink: the local print command and its argument template.
//!
//! Spawning the subprocess is plain I/O and happens outside this crate;
//! here the exact command line is computed — the binary under the root path
//! and the fixed flag template with the artifact path appended. A record
//! without a local artifact must never reach the sink.

use vstd::prelude::*;

use crate::config::AppConfig;
use crate::dirs::sep;
use crate::message::Message;

verus! {

/// The identifiers a print request carries on the remote side.
#[derive(Debug)]
pub struct Ticket {
    pub event_id: String,
    pub ticket_id: String,
}

/// A handle on the configured execution sink.
#[derive(Clone)]
pub struct PrinterManager {
    pub app_config: AppConfig,
}

impl PrinterManager {
    pub fn new(app_config: &AppConfig) -> (r: PrinterManager)
        ensures
            r.app_config == *app_config,
    {
        PrinterManager { app_config: app_config.duplicate() }
    }

    /// The command that prints this record: the sink binary under the root
    /// path, the destination and settings flags, and the record's local
    /// artifact as the final argument. The record must have been fetched:
    /// dispatching one with no local artifact is a precondition violation,
    /// never attempted.
    pub fn print_command(&self, message: &Message) -> (r: (String, Vec<String>))
        requires
            message.artifact_local_path is Some,
        ensures
            r.0@ == self.app_config.root_path@ + sep() + self.app_config.printer_bin@,
            r.1@.len() == 5,
            r.1@[0]@ == "-print-to"@,
            r.1@[1]@ == self.app_config.printer_name@,
            r.1@[2]@ == "-print-settings"@,
            r.1@[3]@ == self.app_config.printer_settings@,
            r.1@[4]@ == message@.artifact_local_path.unwrap(),
    {
        let mut exe = self.app_config.root_path.clone();
        exe.append("/");
        exe.append(self.app_config.printer_bin.as_str());
        let mut args: Vec<String> = Vec::new();
        args.push(String::from_str("-print-to"));
        args.push(self.app_config.printer_name.clone());
        args.push(String::from_str("-print-settings"));
        args.push(self.app_config.printer_settings.clone());
        args.push(crate::message::clone_opt_string(&message.artifact_local_path).unwrap());
        (exe, args)
    }
}

} // verus!
