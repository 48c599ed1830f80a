//! Shared run state: the exit signal as most recently observed, and the
//! user-supplied configuration. Modules only read it; the signal is raised by
//! the host's interrupt bridge and is never cleared during a run.

use vstd::prelude::*;

verus! {

pub struct SharedRunState {
    /// The exit signal as observed at the latest poll of the host's
    /// interrupt source. Once raised it stays raised for the whole run.
    pub exit_requested: bool,
    /// Resolved locale code, e.g. `en` or `zh-CN`.
    pub locale: String,
    /// Global speed multiplier applied by the host when it performs delays.
    pub speed_factor: u64,
    /// The module selected on the command line, if any.
    pub module_name: Option<String>,
}

impl SharedRunState {
    pub fn new(locale: String, speed_factor: u64, module_name: Option<String>) -> (r:
        SharedRunState)
        ensures
            !r.exit_requested,
            r.locale == locale,
            r.speed_factor == speed_factor,
            r.module_name == module_name,
    {
        SharedRunState { exit_requested: false, locale, speed_factor, module_name }
    }

    /// Whether the exit signal has been observed; cheap and side-effect free,
    /// fit to be polled at every stage boundary.
    pub fn should_exit(&self) -> (r: bool)
        ensures
            r == self.exit_requested,
    {
        self.exit_requested
    }

    /// Records that the host's interrupt source has raised the exit signal.
    /// The signal is monotone: there is no way back to the unset state.
    pub fn request_exit(&mut self)
        ensures
            final(self).exit_requested,
            final(self).locale == old(self).locale,
            final(self).speed_factor == old(self).speed_factor,
            final(self).module_name == old(self).module_name,
    {
        self.exit_requested = true;
    }
}

} // verus!
