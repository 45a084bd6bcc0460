//! The logger bridge: one-shot wiring of the host's logging function and
//! plugin handle into the plugin's logging facility.
//!
//! The bridge records what was installed, exactly once per process. A second
//! installation attempt fails and leaves the first installation untouched:
//! idempotent failure, never silent replacement. Feeding the recorded
//! function into the actual logging backend is the embedding program's job.

use vstd::prelude::*;

use crate::errors::LoggerError;

verus! {

/// What a successful installation recorded: the host's logging function and
/// the handle the host assigned to this plugin.
pub struct LoggerInstallation<L> {
    /// The host's logging function.
    pub logger: L,
    /// Identity the host assigned to this plugin.
    pub plugin_handle: i32,
}

/// Process-wide one-shot state of the logger wiring.
pub struct LoggerBridge<L> {
    installed: Option<LoggerInstallation<L>>,
}

impl<L> LoggerBridge<L> {
    /// What has been installed so far, if anything.
    pub closed spec fn spec_installation(&self) -> Option<LoggerInstallation<L>> {
        self.installed
    }

    /// A bridge with nothing installed yet.
    pub fn new() -> (r: Self)
        ensures
            r.spec_installation() is None,
    {
        LoggerBridge { installed: None }
    }

    /// Installs the host logger and plugin handle, exactly once. The first
    /// call succeeds and records both values; every later call fails with
    /// [`LoggerError::LoggerAlreadyInitialized`] and alters nothing.
    pub fn try_init(&mut self, logger: L, plugin_handle: i32) -> (r: Result<(), LoggerError>)
        ensures
            old(self).spec_installation() is Some ==> {
                &&& r == Err::<(), LoggerError>(LoggerError::LoggerAlreadyInitialized)
                &&& final(self).spec_installation() == old(self).spec_installation()
            },
            old(self).spec_installation() is None ==> {
                &&& r == Ok::<(), LoggerError>(())
                &&& final(self).spec_installation() == Some(
                    LoggerInstallation { logger, plugin_handle },
                )
            },
    {
        if self.installed.is_some() {
            Err(LoggerError::LoggerAlreadyInitialized)
        } else {
            self.installed = Some(LoggerInstallation { logger, plugin_handle });
            Ok(())
        }
    }

    /// The recorded installation, for the embedding program to act on.
    pub fn installation(&self) -> (r: Option<&LoggerInstallation<L>>)
        ensures
            match r {
                Some(inst) => self.spec_installation() == Some(*inst),
                None => self.spec_installation() is None,
            },
    {
        self.installed.as_ref()
    }
}

} // verus!
