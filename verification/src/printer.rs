//! The execution sink, first shape: a printer driven with the raw argument
//! list from the configuration. Superseded by the templated invocation in
//! [`crate::printer_manager`], which is the one the dispatch side uses; the
//! types stay for callers that hold them.

use vstd::prelude::*;

use crate::config::AppConfig;

verus! {

/// The identifiers a print request carries on the remote side.
#[derive(Debug)]
pub struct Ticket {
    pub event_id: String,
    pub ticket_id: String,
}

/// A handle on the configured execution sink.
#[derive(Clone)]
pub struct Printer {
    pub app_config: AppConfig,
}

/// The two terminal outcomes of a print attempt.
#[derive(Debug)]
pub enum PrintStatus {
    Okay,
    Error,
}

impl Printer {
    pub fn new(app_config: &AppConfig) -> (r: Printer)
        ensures
            r.app_config == *app_config,
    {
        Printer { app_config: app_config.duplicate() }
    }
}

} // verus!
